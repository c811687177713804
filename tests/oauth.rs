use gcal_rs::oauth::now_secs;
use gcal_rs::{compute_expiration, parse_callback, AuthError, OAuthRequest, OToken, VerifierSlot};

fn token(expires_at: Option<u128>, refresh: Option<&str>) -> OToken {
    OToken {
        access: "acc".to_string(),
        refresh: refresh.map(|r| r.to_string()),
        expires_at,
    }
}

#[test]
fn expiry_takes_off_margin() {
    assert_eq!(compute_expiration(Some(3600), 1_000), Some(4_540));
    assert_eq!(compute_expiration(Some(60), 1_000), Some(1_000));
    assert_eq!(compute_expiration(Some(61), 1_000), Some(1_001));
}

#[test]
fn short_or_missing_lifetime_expires_now() {
    assert_eq!(compute_expiration(Some(30), 1_000), Some(1_000));
    assert_eq!(compute_expiration(Some(0), 7), Some(7));
    assert_eq!(compute_expiration(None, 1_000), None);
}

#[test]
fn expiry_beyond_u64_is_exact() {
    assert_eq!(compute_expiration(Some(u64::MAX), 100), Some(u64::MAX as u128 + 40));
    assert_eq!(compute_expiration(Some(u64::MAX), u64::MAX), Some(2 * u64::MAX as u128 - 60));
}

#[test]
fn token_without_lifetime_never_expires() {
    let t = OToken::issued("a".to_string(), None, None, 100);
    assert_eq!(t.expires_at, None);
    assert!(!t.is_expired());
    assert!(!t.is_expired_at(u64::MAX));
}

#[test]
fn issued_token() {
    let t = OToken::issued("a".to_string(), Some("r".to_string()), Some(3_660), 100);
    assert_eq!(t.access, "a");
    assert_eq!(t.refresh.as_deref(), Some("r"));
    assert_eq!(t.expires_at, Some(3_700));
}

#[test]
fn expiry_check() {
    assert!(!token(None, None).is_expired_at(u64::MAX));
    assert!(token(Some(10), None).is_expired_at(10));
    assert!(token(Some(10), None).is_expired_at(11));
    assert!(!token(Some(10), None).is_expired_at(9));
    assert!(!token(None, None).is_expired());
    assert!(token(Some(0), None).is_expired());
    assert!(!token(Some(u64::MAX as u128 + 1), None).is_expired());
    assert!(!token(Some(u64::MAX as u128 + 1), None).is_expired_at(u64::MAX));
    assert!(now_secs() > 1_600_000_000);
}

#[test]
fn refresh_not_due_changes_nothing() {
    let mut t = token(Some(500), Some("ref"));
    let before = t.clone();
    assert_eq!(t.begin_refresh(499), Ok(None));
    assert_eq!(t, before);
    let mut t = token(None, None);
    assert_eq!(t.begin_refresh(u64::MAX), Ok(None));
    assert_eq!(t, token(None, None));
}

#[test]
fn refresh_due_takes_refresh_token() {
    let mut t = token(Some(500), Some("ref"));
    assert_eq!(t.begin_refresh(500), Ok(Some("ref".to_string())));
    assert_eq!(t, token(Some(500), None));
}

#[test]
fn refresh_due_without_refresh_token_fails() {
    let mut t = token(Some(500), None);
    assert_eq!(t.begin_refresh(600), Err(AuthError::MissingRefreshToken));
    assert_eq!(t, token(Some(500), None));
}

#[test]
fn take_over_replaces_everything() {
    let mut t = token(Some(1), Some("old"));
    t.take_over(OToken { access: "new".to_string(), refresh: None, expires_at: Some(9) });
    assert_eq!(t, OToken { access: "new".to_string(), refresh: None, expires_at: Some(9) });
}

#[test]
fn verifier_is_used_once() {
    let mut slot = VerifierSlot::new();
    assert_eq!(slot.take(), Err(AuthError::MissingVerifier));
    slot.store("v1".to_string());
    assert_eq!(slot.take(), Ok("v1".to_string()));
    assert_eq!(slot.take(), Err(AuthError::MissingVerifier));
}

#[test]
fn verifier_store_overwrites() {
    let mut slot = VerifierSlot::new();
    slot.store("v1".to_string());
    slot.store("v2".to_string());
    assert_eq!(slot.take(), Ok("v2".to_string()));
}

#[test]
fn callback_line_is_read() {
    let r = parse_callback("GET /auth?state=xyz&code=4%2Fabc&scope=a+b%20c HTTP/1.1\r\n");
    assert_eq!(
        r,
        Some(OAuthRequest {
            code: "4/abc".to_string(),
            state: "xyz".to_string(),
            scope: "a b c".to_string(),
        })
    );
}

#[test]
fn callback_first_value_wins() {
    let r = parse_callback("GET /?code=1&code=2&state=s&scope=x HTTP/1.1").unwrap();
    assert_eq!(r.code, "1");
}

#[test]
fn callback_missing_parameter() {
    assert_eq!(parse_callback("GET /auth?code=abc&state=xyz HTTP/1.1"), None);
    assert_eq!(parse_callback("GET"), None);
    assert_eq!(parse_callback(""), None);
}

#[test]
fn callback_words_split_on_any_white_space() {
    let r = parse_callback("  GET\t /?code=1&state=2&scope=3\u{3000}HTTP/1.1").unwrap();
    assert_eq!(r.code, "1");
    assert_eq!(r.state, "2");
    assert_eq!(r.scope, "3");
}
