use suno_cli::cookies::{
    cookie_value, normalize_cookie_input, parse_cookie_header, sanitize_device_id,
    strip_cookie_header_prefix,
};

#[test]
fn strips_cookie_header_name_in_any_case() {
    assert_eq!(strip_cookie_header_prefix("  COOKIE:   a=b  "), "a=b");
    assert_eq!(strip_cookie_header_prefix("cookie:a=b"), "a=b");
    assert_eq!(strip_cookie_header_prefix("cookies=a"), "cookies=a");
    assert_eq!(strip_cookie_header_prefix("\t raw \n"), "raw");
}

#[test]
fn parses_pairs_trimming_and_dropping_nameless_pieces() {
    let pairs = parse_cookie_header("Cookie: a = 1 ; =x; novalue ; b=2=3;;c=");
    let expected: Vec<(String, String)> = vec![
        ("a".into(), "1".into()),
        ("b".into(), "2=3".into()),
        ("c".into(), "".into()),
    ];
    assert_eq!(pairs, expected);
}

#[test]
fn later_cookie_of_same_name_wins() {
    let pairs = parse_cookie_header("__client=first; __client=second");
    assert_eq!(cookie_value(&pairs, "__client").as_deref(), Some("second"));
    assert_eq!(cookie_value(&pairs, "missing"), None);
}

#[test]
fn sanitizes_device_ids() {
    assert_eq!(sanitize_device_id(" %22abc%22 ").as_deref(), Some("abc"));
    assert_eq!(sanitize_device_id("'abc'").as_deref(), Some("abc"));
    assert_eq!(sanitize_device_id("\"\""), None);
    assert_eq!(sanitize_device_id("a;b"), None);
    assert_eq!(sanitize_device_id("   "), None);
}

#[test]
fn empty_client_cookie_falls_through_to_raw_checks() {
    // last __client is empty: not usable, and the header shape is rejected
    let err = normalize_cookie_input("__client=abc; __client=").unwrap_err();
    assert_eq!(
        err.to_string(),
        "config error: cookie header did not contain a __client field"
    );
}

#[test]
fn blank_input_is_rejected() {
    let err = normalize_cookie_input("   ").unwrap_err();
    assert_eq!(err.to_string(), "config error: empty Clerk __client cookie");
    let err = normalize_cookie_input("Cookie:   ").unwrap_err();
    assert_eq!(err.to_string(), "config error: empty Clerk __client cookie");
}

#[test]
fn raw_cookie_header_round_trips() {
    let first = normalize_cookie_input("  tok123  ").unwrap();
    assert_eq!(first.clerk_client_cookie, "tok123");
    assert_eq!(first.cookie_header, "__client=tok123");
    let again = normalize_cookie_input(&first.cookie_header).unwrap();
    assert_eq!(again.clerk_client_cookie, first.clerk_client_cookie);
    assert_eq!(again.cookie_header, first.cookie_header);
    assert!(again.device_id.is_none());
}

#[test]
fn header_keeps_stripped_text_and_unusable_device_is_dropped() {
    let auth = normalize_cookie_input("cookie: __client=x; ajs_anonymous_id=a;b").unwrap();
    assert_eq!(auth.cookie_header, "__client=x; ajs_anonymous_id=a;b");
    assert_eq!(auth.device_id.as_deref(), Some("a"));
}

#[test]
fn raw_cookie_with_multibyte_character_is_accepted() {
    assert_eq!(strip_cookie_header_prefix("abcdef€"), "abcdef€");
    let auth = normalize_cookie_input("abcdef€").unwrap();
    assert_eq!(auth.clerk_client_cookie, "abcdef€");
    assert_eq!(auth.cookie_header, "__client=abcdef€");
    assert!(auth.device_id.is_none());
    let auth = normalize_cookie_input("  éé€€ok ").unwrap();
    assert_eq!(auth.clerk_client_cookie, "éé€€ok");
}

fn same_outcome(a: &str, b: &str) {
    match (normalize_cookie_input(a), normalize_cookie_input(b)) {
        (Ok(x), Ok(y)) => {
            assert_eq!(x.clerk_client_cookie, y.clerk_client_cookie);
            assert_eq!(x.cookie_header, y.cookie_header);
            assert_eq!(x.device_id, y.device_id);
        }
        (Err(x), Err(y)) => assert_eq!(x.to_string(), y.to_string()),
        _ => panic!("outcomes differ for {a:?} and {b:?}"),
    }
}

#[test]
fn cookie_prefix_and_padding_do_not_change_normalization() {
    let values = [
        "__client=tok; ajs_anonymous_id=%22dev%22",
        "raw_token",
        "a=b; c=d",
        "",
        "   ",
        "abcdef€",
    ];
    for s in values {
        for p in ["Cookie:", "cookie: ", "COOKIE:\t"] {
            same_outcome(&format!(" \n{p}{s}  "), s);
        }
        same_outcome(&format!("\t {s} \r\n"), s);
    }
}
