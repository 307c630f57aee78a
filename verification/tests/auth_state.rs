use suno_cli::auth::{browser_token, browser_token_at, AuthState};

fn state_with_jwt(jwt: Option<&str>, cookie: Option<&str>) -> AuthState {
    AuthState {
        jwt: jwt.map(|s| s.to_string()),
        cookie: None,
        session_id: None,
        device_id: None,
        clerk_client_cookie: cookie.map(|s| s.to_string()),
    }
}

// claims segment: {"exp":10000,"sub":"u"} in unpadded Base64URL
const JWT_EXP_10000: &str = "eyJhbGciOiJIUzI1NiJ9.eyJleHAiOjEwMDAwLCJzdWIiOiJ1In0.c2ln";

#[test]
fn browser_token_encodes_timestamp_payload() {
    assert_eq!(browser_token_at(0), r#"{"token":"eyJ0aW1lc3RhbXAiOjB9"}"#);
    assert_eq!(
        browser_token_at(1712345678901),
        r#"{"token":"eyJ0aW1lc3RhbXAiOjE3MTIzNDU2Nzg5MDF9"}"#
    );
    let live = browser_token();
    assert!(live.starts_with(r#"{"token":""#) && live.ends_with(r#""}"#));
}

#[test]
fn jwt_exp_claim_is_read_from_claims_segment() {
    let s = state_with_jwt(Some(JWT_EXP_10000), None);
    assert_eq!(s.jwt_exp_claim(), Some(10000));
}

#[test]
fn jwt_expires_thirty_minutes_early() {
    let s = state_with_jwt(Some(JWT_EXP_10000), None);
    assert!(!s.is_jwt_expired_at(0));
    assert!(!s.is_jwt_expired_at(8199));
    assert!(s.is_jwt_expired_at(8200));
    assert!(s.is_jwt_expired_at(20000));
    // a real clock is long past 10000
    assert!(s.is_jwt_expired());
}

#[test]
fn unreadable_or_missing_jwt_counts_as_expired() {
    assert!(state_with_jwt(None, None).is_jwt_expired_at(0));
    assert!(state_with_jwt(Some("not-a-jwt"), None).is_jwt_expired_at(0));
    assert!(state_with_jwt(Some("a.b.c.d"), None).is_jwt_expired_at(0));
    assert!(state_with_jwt(Some("a.!!!.c"), None).is_jwt_expired_at(0));
    // claims that decode but are not JSON with a numeric exp
    assert_eq!(state_with_jwt(Some("a.bm90anNvbg.c"), None).jwt_exp_claim(), None);
}

#[test]
fn default_auth_state_is_empty() {
    let s = AuthState::default();
    assert!(s.jwt.is_none() && s.cookie.is_none() && s.session_id.is_none());
    assert!(s.device_id.is_none() && s.clerk_client_cookie.is_none());
}
