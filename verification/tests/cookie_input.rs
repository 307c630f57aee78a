use suno_cli::cookies::normalize_cookie_input;

#[test]
fn normalizes_raw_client_cookie() {
    let auth = normalize_cookie_input("client_token").unwrap();
    assert_eq!(auth.clerk_client_cookie, "client_token");
    assert_eq!(auth.cookie_header, "__client=client_token");
    assert!(auth.device_id.is_none());
}

#[test]
fn normalizes_full_cookie_header_and_device() {
    let auth = normalize_cookie_input(
        "Cookie: foo=bar; __client=client_token; ajs_anonymous_id=%22device-123%22",
    )
    .unwrap();
    assert_eq!(auth.clerk_client_cookie, "client_token");
    assert_eq!(auth.device_id.as_deref(), Some("device-123"));
    assert!(auth.cookie_header.contains("__client=client_token"));
}

#[test]
fn rejects_cookie_header_without_client() {
    let err = normalize_cookie_input("foo=bar; ajs_anonymous_id=device").unwrap_err();
    assert!(err.to_string().contains("__client"));
}
