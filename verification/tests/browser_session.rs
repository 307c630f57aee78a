use suno_cli::browser::{
    browser_auth_from_cookies, browser_order, extract_clerk_cookie, select_browser_auth, Browser,
    BrowserCookie, BrowserReads,
};

fn cookie(name: &str, domain: &str, value: &str) -> BrowserCookie {
    BrowserCookie { name: name.into(), domain: domain.into(), value: value.into() }
}

#[test]
fn prefers_clerk_domain_cookie_and_dedupes_header() {
    let cs = vec![
        cookie("__client", ".suno.com", "site_tok"),
        cookie("other", "example.com", "zzz"),
        cookie("ajs_anonymous_id", "suno.com", "%22dev-1%22"),
        cookie("__client", "auth.suno.com", "auth_tok_1"),
        cookie("__client", "auth.suno.com", "auth_tok_2"),
        cookie("ajs_anonymous_id", "suno.com", "dev-2"),
    ];
    let a = browser_auth_from_cookies(&cs).unwrap();
    assert_eq!(a.clerk_client_cookie, "auth_tok_2");
    assert_eq!(a.device_id.as_deref(), Some("dev-1"));
    assert_eq!(
        a.cookie_header,
        "__client=site_tok; ajs_anonymous_id=%22dev-1%22; __client=auth_tok_1"
    );
}

#[test]
fn first_site_cookie_used_without_clerk_domain() {
    let cs = vec![
        cookie("__client", "suno.com", ""),
        cookie("__client", "suno.com", "a"),
        cookie("__client", ".suno.com", "b"),
    ];
    let a = browser_auth_from_cookies(&cs).unwrap();
    assert_eq!(a.clerk_client_cookie, "a");
    assert_eq!(a.cookie_header, "__client=; __client=b");
    assert!(a.device_id.is_none());
}

#[test]
fn no_client_cookie_means_no_session() {
    let cs = vec![cookie("foo", "suno.com", "1"), cookie("__client", "example.com", "x")];
    assert!(browser_auth_from_cookies(&cs).is_none());
}

fn no_reads() -> BrowserReads {
    BrowserReads { chrome: None, firefox: None, safari: None, arc: None, brave: None, edge: None }
}

fn session(tok: &str) -> Option<Vec<BrowserCookie>> {
    Some(vec![cookie("__client", "auth.suno.com", tok)])
}

#[test]
fn first_browser_with_session_wins() {
    let mut reads = no_reads();
    reads.firefox = Some(vec![cookie("x", "suno.com", "1")]);
    reads.arc = session("arc_tok");
    reads.brave = session("brave_tok");
    reads.edge = session("edge_tok");
    let (b, a) = select_browser_auth(&reads).unwrap();
    assert_eq!(b, Browser::Arc);
    assert_eq!(b.name(), "Arc");
    assert_eq!(a.clerk_client_cookie, "arc_tok");
    assert_eq!(extract_clerk_cookie(&reads).unwrap(), "arc_tok");
}

#[test]
fn documented_order_chrome_firefox_safari_arc_brave_edge() {
    assert_eq!(
        browser_order(),
        vec![Browser::Chrome, Browser::Firefox, Browser::Safari, Browser::Arc, Browser::Brave, Browser::Edge]
    );
    let mut reads = no_reads();
    reads.firefox = session("ff_tok");
    reads.arc = session("arc_tok");
    let (b, a) = select_browser_auth(&reads).unwrap();
    assert_eq!(b, Browser::Firefox);
    assert_eq!(a.clerk_client_cookie, "ff_tok");
}

#[test]
fn session_only_in_safari_is_found() {
    let mut reads = no_reads();
    reads.safari = session("safari_tok");
    let (b, a) = select_browser_auth(&reads).unwrap();
    assert_eq!(b, Browser::Safari);
    assert_eq!(a.clerk_client_cookie, "safari_tok");
}

#[test]
fn no_browser_session_is_config_error() {
    let mut reads = no_reads();
    reads.chrome = Some(vec![cookie("__client", "example.com", "x")]);
    let err = select_browser_auth(&reads).unwrap_err();
    assert_eq!(
        err.to_string(),
        "config error: No Suno session found in any browser. Log into suno.com first, then retry."
    );
    assert!(extract_clerk_cookie(&reads).is_err());
}
