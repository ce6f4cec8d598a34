use bearer_auth::settings::{Settings, DEFAULT_PORT, LISTEN_ON};

#[test]
fn unset_values_fall_back() {
    let settings = Settings::from_values(None, None, None);
    assert_eq!(settings.root_key, "");
    assert_eq!(settings.api_id.as_str(), "");
    assert_eq!(settings.port, "3000");
    assert_eq!(settings.listen_address(), "0.0.0.0:3000");
    assert_eq!(DEFAULT_PORT, "3000");
    assert_eq!(LISTEN_ON, "0.0.0.0:");
}

#[test]
fn set_values_are_kept() {
    let settings = Settings::from_values(
        Some("unkey_root".to_string()),
        Some("api_42".to_string()),
        Some("8080".to_string()),
    );
    assert_eq!(settings.root_key, "unkey_root");
    assert_eq!(settings.api_id.as_str(), "api_42");
    assert_eq!(settings.port, "8080");
    assert_eq!(settings.listen_address(), "0.0.0.0:8080");
}

#[test]
fn each_value_falls_back_alone() {
    let settings = Settings::from_values(None, Some("api_42".to_string()), None);
    assert_eq!(settings.root_key, "");
    assert_eq!(settings.api_id.as_str(), "api_42");
    assert_eq!(settings.listen_address(), "0.0.0.0:3000");
    let settings = Settings::from_values(Some(String::new()), None, Some(String::new()));
    assert_eq!(settings.root_key, "");
    assert_eq!(settings.listen_address(), "0.0.0.0:");
}
