use gcal_rs::{bearer_value, check_response, debug_line, encode_path, ClientError, Event, OToken, Sendable};

const MARKER: &[u8] = b"Bearer error=\"invalid_token\", error_description=\"Invalid Credentials\"";

#[test]
fn invalid_token_header_fails() {
    assert_eq!(check_response(401, Some(MARKER)), Err(ClientError::InvalidToken));
    assert_eq!(
        check_response(401, Some(b"Bearer error=\"invalid_token\"".as_slice())),
        Err(ClientError::InvalidToken)
    );
}

#[test]
fn other_or_absent_header_passes() {
    assert_eq!(check_response(401, Some(b"Bearer realm=\"x\"".as_slice())), Ok(()));
    assert_eq!(check_response(401, Some(b"Bearer error=\"invalid".as_slice())), Ok(()));
    assert_eq!(check_response(401, None), Ok(()));
    assert_eq!(check_response(404, None), Ok(()));
}

#[test]
fn status_ok_ignores_header() {
    assert_eq!(check_response(200, Some(MARKER)), Ok(()));
    assert_eq!(check_response(200, Some(&[0x01u8][..])), Ok(()));
}

#[test]
fn unreadable_header_fails() {
    let r = check_response(403, Some(&[b'B', 0x01, b'x'][..]));
    assert!(matches!(r, Err(ClientError::UnknownError(_))));
    assert_eq!(check_response(403, Some(b"a\tb".as_slice())), Ok(()));
}

#[test]
fn bearer_header_value() {
    let token = OToken { access: "abc123".to_string(), refresh: None, expires_at: None };
    assert_eq!(bearer_value(&token), "Bearer abc123");
}

#[test]
fn debug_line_with_body() {
    assert_eq!(debug_line("POST", "https://x/y", b"{\"a\":1}"), "[POST] https://x/y | {\"a\":1}");
    assert_eq!(debug_line("GET", "https://x", "é".as_bytes()), "[GET] https://x | é");
}

#[test]
fn debug_line_with_malformed_body() {
    assert_eq!(debug_line("PUT", "https://x", &[0xff, 0xfe]), "[PUT] https://x | ");
}

#[test]
fn event_path_is_percent_encoded() {
    let mut e = Event::default();
    e.calendar_id = "primary".to_string();
    e.id = "a b#c".to_string();
    let path = e.path(None);
    assert_eq!(path, "calendars/primary/events/a%20b%23c");
    let decoded = percent_encoding::percent_decode_str(&path).decode_utf8().unwrap();
    assert_eq!(decoded, "calendars/primary/events/a b#c");
}

#[test]
fn path_encoding_escapes_set_and_non_ascii() {
    assert_eq!(encode_path("x\"<>?`{}y"), "x%22%3C%3E%3F%60%7B%7Dy");
    assert_eq!(encode_path("é\n"), "%C3%A9%0A");
    assert_eq!(encode_path("a/b%c"), "a/b%c");
    assert_eq!(encode_path(""), "");
    let id = "naïve event #1 {x}";
    let enc = encode_path(id);
    assert_eq!(percent_encoding::percent_decode_str(&enc).decode_utf8().unwrap(), id);
}

#[test]
fn escape_lookalike_is_not_round_tripped() {
    let enc = encode_path("a%41");
    assert_eq!(enc, "a%41");
    assert_eq!(percent_encoding::percent_decode_str(&enc).decode_utf8().unwrap(), "aA");
}
