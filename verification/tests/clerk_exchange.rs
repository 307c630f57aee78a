use suno_cli::clerk::{
    clerk_client_url, clerk_jwt_step, clerk_session_step, clerk_token_url, json_body_error,
    response_excerpt, session_id_from,
};
use suno_cli::errors::CliError;
use suno_cli::json::JsonValue;

fn obj(members: Vec<(&str, JsonValue)>) -> JsonValue {
    JsonValue::Object(members.into_iter().map(|(k, v)| (k.to_string(), v)).collect())
}

fn s(v: &str) -> JsonValue {
    JsonValue::Str(v.to_string())
}

fn api_parts(e: CliError) -> (String, String) {
    match e {
        CliError::Api { code, message } => (code, message),
        other => panic!("unexpected error {:?}", other),
    }
}

#[test]
fn clerk_urls() {
    assert_eq!(
        clerk_client_url(),
        "https://auth.suno.com/v1/client?__clerk_api_version=2025-11-10&_clerk_js_version=5.117.0"
    );
    assert_eq!(
        clerk_token_url("sess_1"),
        "https://auth.suno.com/v1/client/sessions/sess_1/tokens?__clerk_api_version=2025-11-10&_clerk_js_version=5.117.0"
    );
}

#[test]
fn excerpt_flattens_and_cuts() {
    assert_eq!(response_excerpt("a\nb\r\nc"), "a b  c");
    let long = "x".repeat(600);
    let out = response_excerpt(&long);
    assert_eq!(out.chars().count(), 503);
    assert!(out.ends_with("..."));
    assert_eq!(response_excerpt(&"y".repeat(500)), "y".repeat(500));
    // 300 three-byte characters exceed 500 bytes but not 500 characters
    let cjk = "歌".repeat(300);
    assert_eq!(response_excerpt(&cjk), format!("{}...", cjk));
}

#[test]
fn session_id_prefers_last_active() {
    let body = obj(vec![(
        "response",
        obj(vec![
            ("last_active_session_id", s("sess_active")),
            ("sessions", JsonValue::Array(vec![obj(vec![("id", s("sess_first"))])])),
        ]),
    )]);
    assert_eq!(session_id_from(&body).unwrap(), "sess_active");
}

#[test]
fn session_id_falls_back_to_first_session() {
    let body = obj(vec![(
        "response",
        obj(vec![
            ("last_active_session_id", JsonValue::Null),
            (
                "sessions",
                JsonValue::Array(vec![
                    obj(vec![("id", s("sess_first"))]),
                    obj(vec![("id", s("sess_second"))]),
                ]),
            ),
        ]),
    )]);
    assert_eq!(session_id_from(&body).unwrap(), "sess_first");
}

#[test]
fn missing_session_is_no_session_error() {
    let body = obj(vec![("response", obj(vec![("sessions", JsonValue::Array(vec![]))]))]);
    let (code, message) = api_parts(session_id_from(&body).unwrap_err());
    assert_eq!(code, "no_session");
    assert_eq!(
        message,
        "No active session found — log into suno.com in your browser first"
    );
}

#[test]
fn failed_status_reports_status_and_excerpt() {
    let (code, message) =
        api_parts(clerk_session_step(false, "401 Unauthorized", "bad\ncookie").unwrap_err());
    assert_eq!(code, "clerk_exchange_failed");
    assert_eq!(message, "Clerk token exchange failed (401 Unauthorized): bad cookie");
    let (code, message) =
        api_parts(clerk_jwt_step(false, "401 Unauthorized", "bad\ncookie").unwrap_err());
    assert_eq!(code, "clerk_refresh_failed");
    assert_eq!(message, "Clerk JWT refresh failed (401 Unauthorized): bad cookie");
}

#[test]
fn unparsable_body_is_json_error() {
    let (code, message) = api_parts(clerk_session_step(true, "200 OK", "<html>").unwrap_err());
    assert_eq!(code, "clerk_json_error");
    assert_eq!(
        message,
        "Clerk session lookup returned unexpected JSON/body (expected value at line 1 column 1): <html>"
    );
    let (code, message) =
        api_parts(clerk_jwt_step(true, "200 OK", "<html>not json</html>").unwrap_err());
    assert_eq!(code, "clerk_json_error");
    assert!(message.starts_with("Clerk JWT refresh returned unexpected JSON/body ("));
    assert!(message.ends_with("): <html>not json</html>"));
    let (code, _) = api_parts(json_body_error("ctx", "e", "b"));
    assert_eq!(code, "clerk_json_error");
}

#[test]
fn jwt_step_reads_jwt_member() {
    let body = r#"{"object":"token","jwt":"eyJ.a.b"}"#;
    assert_eq!(clerk_jwt_step(true, "200 OK", body).unwrap(), "eyJ.a.b");
    let (code, message) = api_parts(clerk_jwt_step(true, "200 OK", r#"{"jwt":5}"#).unwrap_err());
    assert_eq!(code, "no_jwt");
    assert_eq!(
        message,
        "Clerk returned no JWT — session may have expired, run `suno auth login` again"
    );
}

#[test]
fn session_step_success() {
    let body = r#"{"response":{"last_active_session_id":"sess_9","sessions":[{"id":"sess_1"}]}}"#;
    assert_eq!(clerk_session_step(true, "200 OK", body).unwrap(), "sess_9");
    let body = r#"{"response":{"last_active_session_id":null,"sessions":[{"id":"sess_1"},{"id":"sess_2"}]}}"#;
    assert_eq!(clerk_session_step(true, "200 OK", body).unwrap(), "sess_1");
    let (code, message) =
        api_parts(clerk_session_step(true, "200 OK", r#"{"response":{"sessions":[]}}"#).unwrap_err());
    assert_eq!(code, "no_session");
    assert_eq!(message, "No active session found — log into suno.com in your browser first");
}
