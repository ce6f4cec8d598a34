use bearer_auth::bearer::read_credential;

fn credential(header: &[u8]) -> Option<String> {
    read_credential(Some(header))
}

#[test]
fn no_header_is_no_credential() {
    assert_eq!(read_credential(None), None);
}

#[test]
fn bearer_header_yields_its_token() {
    assert_eq!(credential(b"Bearer abc123"), Some("abc123".to_string()));
}

#[test]
fn token_is_passed_through_unmodified() {
    assert_eq!(
        credential(b"Bearer fpKL54jvWmEGVoRdCNjG.-_~+/="),
        Some("fpKL54jvWmEGVoRdCNjG.-_~+/=".to_string())
    );
}

#[test]
fn scheme_is_matched_in_any_case() {
    assert_eq!(credential(b"bearer abc123"), Some("abc123".to_string()));
    assert_eq!(credential(b"BEARER abc123"), Some("abc123".to_string()));
    assert_eq!(credential(b"bEaReR abc123"), Some("abc123".to_string()));
}

#[test]
fn other_scheme_is_no_credential() {
    assert_eq!(credential(b"Basic QWxhZGRpbjpvcGVuIHNlc2FtZQ=="), None);
    assert_eq!(credential(b"Digest abc123"), None);
    assert_eq!(credential(b"Token abc123"), None);
}

#[test]
fn malformed_header_is_no_credential() {
    assert_eq!(credential(b""), None);
    assert_eq!(credential(b"abc123"), None);
    assert_eq!(credential(b"Bearer"), None);
    assert_eq!(credential(b"Bearerabc123"), None);
    assert_eq!(credential(b"Bearer\tabc123"), None);
    assert_eq!(credential(b" Bearer abc123"), None);
}

#[test]
fn scheme_alone_yields_the_empty_token() {
    assert_eq!(credential(b"Bearer "), Some(String::new()));
}

#[test]
fn blanks_before_the_token_are_dropped() {
    assert_eq!(credential(b"Bearer    abc123"), Some("abc123".to_string()));
    assert_eq!(credential(b"Bearer abc 123 "), Some("abc 123 ".to_string()));
}

#[test]
fn bytes_outside_visible_ascii_are_no_credential() {
    assert_eq!(credential(b"Bearer abc\xff"), None);
    assert_eq!(credential(b"Bearer abc\n123"), None);
    assert_eq!(credential(b"Bearer abc\x7f"), None);
    assert_eq!(credential("Bearer caf\u{e9}".as_bytes()), None);
}

#[test]
fn decoding_does_not_hand_the_header_back() {
    let header = b"Bearer abc123";
    let token = credential(header).unwrap();
    assert_ne!(token.as_bytes(), &header[..]);
    assert_eq!(token.len(), header.len() - 7);
}

#[test]
fn tabs_before_the_token_are_dropped_too() {
    assert_eq!(credential(b"Bearer \tabc123"), Some("abc123".to_string()));
    assert_eq!(credential(b"Bearer \t \t abc123"), Some("abc123".to_string()));
    assert_eq!(credential(b"Bearer  \t"), Some(String::new()));
}

#[test]
fn blanks_inside_and_after_the_token_stay() {
    assert_eq!(credential(b"Bearer a\tb c\t "), Some("a\tb c\t ".to_string()));
}

#[test]
fn every_text_byte_is_accepted_in_a_token() {
    let mut header = b"Bearer ".to_vec();
    let mut expected = String::new();
    for byte in 33u8..127u8 {
        header.push(byte);
        expected.push(char::from(byte));
    }
    assert_eq!(credential(&header), Some(expected));
}

#[test]
fn every_other_byte_spoils_the_header() {
    for byte in (0u8..32u8).chain(127u8..=255u8) {
        if byte == 9 {
            continue;
        }
        let header = [b"Bearer abc".as_slice(), &[byte]].concat();
        assert_eq!(credential(&header), None);
    }
}
