use bearer_auth::bearer::read_credential;
use bearer_auth::extractor::{Action, Event, Extraction, IdentityExtractor};
use bearer_auth::identity::{LocalUserRecord, Rejection, UnkeyApiId, User, VerificationVerdict};
use bearer_auth::routes::{
    list_identity, protected_handler, protected_route, public_handler, public_route, Response,
    GUEST_GREETING,
};

const GUEST: &str = "Hello, Guest! It looks like you\u{2019}re not logged in yet. No worries\u{2014}this route is open for everyone.";

fn user(key_id: Option<&str>) -> User {
    let verdict = VerificationVerdict { valid: true, key_id: key_id.map(|key| key.to_string()) };
    User::from_verdict(verdict, &LocalUserRecord::placeholder()).unwrap()
}

/// Serves one request as a caller of the library does: it reads the header,
/// makes the call where it is asked to, and reports what `service` says.
fn extract(header: Option<&[u8]>, service: Option<VerificationVerdict>) -> Extraction {
    let machine =
        IdentityExtractor::new(UnkeyApiId("api_42".to_string()), LocalUserRecord::placeholder());
    let (state, action) = machine.step(machine.start(), Event::Header(read_credential(header)));
    match action {
        Action::Verify(request) => {
            assert_eq!(request.tenant_id, "api_42");
            let event = match service {
                Some(verdict) => Event::Verdict(verdict),
                None => Event::Unreachable,
            };
            machine.step(state, event).0
        }
        _ => state,
    }
}

fn accepted(key_id: &str) -> Option<VerificationVerdict> {
    Some(VerificationVerdict { valid: true, key_id: Some(key_id.to_string()) })
}

fn denied() -> Option<VerificationVerdict> {
    Some(VerificationVerdict { valid: false, key_id: None })
}

fn assert_unauthorized(response: Response) {
    assert_eq!(response.status, 401);
    assert_eq!(response.body, "");
}

#[test]
fn protected_route_without_header_is_unauthorized() {
    let state = extract(None, accepted("kid_9"));
    assert_eq!(state.rejection(), Some(Rejection::MissingCredential));
    assert_unauthorized(protected_route(state));
}

#[test]
fn protected_route_with_other_scheme_is_unauthorized() {
    let state = extract(Some(b"Basic QWxhZGRpbjpvcGVuIHNlc2FtZQ=="), accepted("kid_9"));
    assert_eq!(state.rejection(), Some(Rejection::MissingCredential));
    assert_unauthorized(protected_route(state));
}

#[test]
fn protected_route_shows_the_verdicts_key_id() {
    let response = protected_route(extract(Some(b"Bearer abc123"), accepted("kid_9")));
    assert_eq!(response.status, 200);
    assert_eq!(
        response.body,
        "Welcome to the protected area :)\nHere's your info:\nUser { id: \"yAXutuxsKe\", username: \"robinsonkayla\", key_id: \"kid_9\" }"
    );
}

#[test]
fn protected_route_with_invalid_credential_is_unauthorized() {
    let state = extract(Some(b"Bearer abc123"), denied());
    assert_eq!(state.rejection(), Some(Rejection::InvalidCredential));
    assert_unauthorized(protected_route(state));
}

#[test]
fn protected_route_fails_closed() {
    let state = extract(Some(b"Bearer abc123"), None);
    assert_eq!(state.rejection(), Some(Rejection::VerificationUnreachable));
    assert_unauthorized(protected_route(state));
}

#[test]
fn protected_route_refuses_an_unfinished_extraction() {
    assert_unauthorized(protected_route(Extraction::AwaitHeader));
}

#[test]
fn public_route_greets_guests() {
    for state in [
        extract(None, accepted("kid_9")),
        extract(Some(b"Basic abc123"), accepted("kid_9")),
        extract(Some(b"Bearer abc123"), denied()),
        extract(Some(b"Bearer abc123"), None),
    ] {
        let response = public_route(state);
        assert_eq!(response.status, 200);
        assert_eq!(response.body, GUEST);
    }
}

#[test]
fn public_route_greets_the_user_by_name() {
    let response = public_route(extract(Some(b"Bearer abc123"), accepted("kid_9")));
    assert_eq!(response.status, 200);
    assert_eq!(
        response.body,
        "Welcome back, robinsonkayla! You\u{2019}re successfully logged in.\nFeel free to explore the `/protected` route!"
    );
    assert!(response.body.contains("robinsonkayla"));
}

#[test]
fn public_handler_messages() {
    assert_eq!(public_handler(None), GUEST);
    assert_eq!(GUEST_GREETING, GUEST);
    assert_eq!(
        public_handler(Some(user(Some("kid_9")))),
        format!(
            "Welcome back, {}! You\u{2019}re successfully logged in.\nFeel free to explore the `/protected` route!",
            "robinsonkayla"
        )
    );
}

#[test]
fn protected_handler_writes_the_identity_as_debug_does() {
    let expected = format!(
        "Welcome to the protected area :)\nHere's your info:\n{:?}",
        user(Some("kid_9"))
    );
    assert_eq!(protected_handler(user(Some("kid_9"))), expected);
    let expected = format!("Welcome to the protected area :)\nHere's your info:\n{:?}", user(None));
    assert_eq!(protected_handler(user(None)), expected);
    assert!(expected.ends_with("key_id: \"No key in Unkey response\" }"));
}

#[test]
fn protected_handler_escapes_what_debug_escapes() {
    let key_id = "a\"b\\c\nd\u{e9}";
    let body = protected_handler(user(Some(key_id)));
    assert_eq!(
        body,
        "Welcome to the protected area :)\nHere's your info:\nUser { id: \"yAXutuxsKe\", username: \"robinsonkayla\", key_id: \"a\\\"b\\\\c\\nd\u{e9}\" }"
    );
    assert_eq!(
        body,
        format!("Welcome to the protected area :)\nHere's your info:\n{:?}", user(Some(key_id)))
    );
}

#[test]
fn list_identity_joins_the_fields_as_given() {
    assert_eq!(
        list_identity("1", "ada", "kid_1"),
        "User { id: 1, username: ada, key_id: kid_1 }"
    );
    assert_eq!(list_identity("", "", ""), "User { id: , username: , key_id:  }");
}

#[test]
fn concrete_scenario_abc123() {
    let request_header: &[u8] = b"Bearer abc123";
    let machine =
        IdentityExtractor::new(UnkeyApiId("api_42".to_string()), LocalUserRecord::placeholder());

    let (state, action) =
        machine.step(machine.start(), Event::Header(read_credential(Some(request_header))));
    match action {
        Action::Verify(request) => {
            assert_eq!(request.credential, "abc123");
            assert_eq!(request.tenant_id, "api_42");
        }
        other => panic!("expected a verification call, got {:?}", other),
    }
    let verdict = VerificationVerdict { valid: true, key_id: Some("kid_9".to_string()) };
    let (state, _) = machine.step(state, Event::Verdict(verdict));
    let response = protected_route(state);
    assert_eq!(response.status, 200);
    assert!(response.body.contains("key_id: \"kid_9\""));

    let (state, _) =
        machine.step(machine.start(), Event::Header(read_credential(Some(request_header))));
    let verdict = VerificationVerdict { valid: false, key_id: None };
    let (state, _) = machine.step(state, Event::Verdict(verdict));
    let response = protected_route(state);
    assert_eq!(response.status, 401);
    assert_eq!(response.body, "");
}
