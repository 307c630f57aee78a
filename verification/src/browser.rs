//! Picking the Suno session out of the cookies read from a browser.
use vstd::prelude::*;
use crate::cookies::{opt_view, sanitize_device_id, sanitize_spec, BrowserAuth};
use crate::errors::CliError;
use crate::text::{chars_of, contains_str, has_substring, join, push_str, str_eq};

verus! {

/// One cookie as a browser stores it.
pub struct BrowserCookie {
    pub name: String,
    pub domain: String,
    pub value: String,
}

/// The browsers that are searched for a Suno session.
#[derive(Debug, Clone, Copy, PartialEq, Eq, Structural)]
pub enum Browser {
    Chrome,
    Firefox,
    Safari,
    Arc,
    Brave,
    Edge,
}

/// The documented search order: Chrome, Firefox, Safari, Arc, Brave, Edge.
pub open spec fn documented_browsers() -> Seq<Browser> {
    seq![Browser::Chrome, Browser::Firefox, Browser::Safari, Browser::Arc, Browser::Brave, Browser::Edge]
}

/// The place of a browser in the documented order.
pub open spec fn browser_rank(b: Browser) -> int {
    match b {
        Browser::Chrome => 0,
        Browser::Firefox => 1,
        Browser::Safari => 2,
        Browser::Arc => 3,
        Browser::Brave => 4,
        Browser::Edge => 5,
    }
}

/// The name shown for a browser.
pub open spec fn browser_name(b: Browser) -> Seq<char> {
    match b {
        Browser::Chrome => "Chrome"@,
        Browser::Firefox => "Firefox"@,
        Browser::Safari => "Safari"@,
        Browser::Arc => "Arc"@,
        Browser::Brave => "Brave"@,
        Browser::Edge => "Edge"@,
    }
}

impl Browser {
    /// The name shown for the browser.
    pub fn name(&self) -> (r: &'static str)
        ensures
            r@ == browser_name(*self),
    {
        match self {
            Browser::Chrome => "Chrome",
            Browser::Firefox => "Firefox",
            Browser::Safari => "Safari",
            Browser::Arc => "Arc",
            Browser::Brave => "Brave",
            Browser::Edge => "Edge",
        }
    }
}

/// The browsers to read, in the order they are searched.
pub fn browser_order() -> (r: Vec<Browser>)
    ensures
        r@ == documented_browsers(),
{
    let r = vec![Browser::Chrome, Browser::Firefox, Browser::Safari, Browser::Arc, Browser::Brave, Browser::Edge];
    assert(r@ =~= documented_browsers());
    r
}

/// The cookies read from each browser (`None` where it could not be read).
pub struct BrowserReads {
    pub chrome: Option<Vec<BrowserCookie>>,
    pub firefox: Option<Vec<BrowserCookie>>,
    pub safari: Option<Vec<BrowserCookie>>,
    pub arc: Option<Vec<BrowserCookie>>,
    pub brave: Option<Vec<BrowserCookie>>,
    pub edge: Option<Vec<BrowserCookie>>,
}

/// The reads in the documented order.
pub open spec fn reads_in_order(r: BrowserReads) -> Seq<Option<Vec<BrowserCookie>>> {
    seq![r.chrome, r.firefox, r.safari, r.arc, r.brave, r.edge]
}

/// The cookie belongs to a Suno domain.
pub open spec fn is_suno(c: BrowserCookie) -> bool {
    has_substring(c.domain@, "suno.com"@)
}

/// A non-empty Clerk `__client` cookie of a Suno domain.
pub open spec fn is_client(c: BrowserCookie) -> bool {
    is_suno(c) && c.name@ == "__client"@ && c.value@.len() > 0
}

/// The cookie was set by the Clerk domain itself.
pub open spec fn on_auth_domain(c: BrowserCookie) -> bool {
    has_substring(c.domain@, "auth.suno.com"@)
}

/// The value of the last `__client` cookie of the Clerk domain.
pub open spec fn auth_domain_client(cs: Seq<BrowserCookie>) -> Option<Seq<char>>
    decreases cs.len(),
{
    if cs.len() == 0 {
        None
    } else if is_client(cs.last()) && on_auth_domain(cs.last()) {
        Some(cs.last().value@)
    } else {
        auth_domain_client(cs.drop_last())
    }
}

/// The value of the first `__client` cookie of another Suno domain.
pub open spec fn other_domain_client(cs: Seq<BrowserCookie>) -> Option<Seq<char>>
    decreases cs.len(),
{
    if cs.len() == 0 {
        None
    } else {
        let r = other_domain_client(cs.drop_last());
        if r is Some {
            r
        } else if is_client(cs.last()) && !on_auth_domain(cs.last()) {
            Some(cs.last().value@)
        } else {
            None
        }
    }
}

/// The first usable device id among the Suno `ajs_anonymous_id` cookies.
pub open spec fn device_of(cs: Seq<BrowserCookie>) -> Option<Seq<char>>
    decreases cs.len(),
{
    if cs.len() == 0 {
        None
    } else {
        let r = device_of(cs.drop_last());
        if r is Some {
            r
        } else if is_suno(cs.last()) && cs.last().name@ == "ajs_anonymous_id"@ {
            sanitize_spec(cs.last().value@)
        } else {
            None
        }
    }
}

/// An earlier Suno cookie has the same name and domain as `c`.
pub open spec fn seen_before(prefix: Seq<BrowserCookie>, c: BrowserCookie) -> bool {
    exists|j: int|
        0 <= j < prefix.len() && is_suno(#[trigger] prefix[j]) && prefix[j].name@ == c.name@
            && prefix[j].domain@ == c.domain@
}

/// `name=value` for each Suno cookie, first occurrence of each
/// (name, domain) only, in order.
pub open spec fn header_parts(cs: Seq<BrowserCookie>) -> Seq<Seq<char>>
    decreases cs.len(),
{
    if cs.len() == 0 {
        Seq::empty()
    } else {
        let r = header_parts(cs.drop_last());
        let c = cs.last();
        if is_suno(c) && !seen_before(cs.drop_last(), c) {
            r.push(c.name@ + "="@ + c.value@)
        } else {
            r
        }
    }
}

/// The Clerk cookie to use: the Clerk domain's, else another Suno domain's.
pub open spec fn chosen_client(cs: Seq<BrowserCookie>) -> Option<Seq<char>> {
    match auth_domain_client(cs) {
        Some(v) => Some(v),
        None => other_domain_client(cs),
    }
}

/// The browser's cookies give a session exactly when a Clerk cookie is
/// found; the header then holds every distinct Suno cookie.
pub open spec fn browser_auth_matches(cs: Seq<BrowserCookie>, r: Option<BrowserAuth>) -> bool {
    match chosen_client(cs) {
        None => r is None,
        Some(v) => r matches Some(a) && a.clerk_client_cookie@ == v && a.cookie_header@ == join(
            header_parts(cs),
            "; "@,
        ) && opt_view(a.device_id) == device_of(cs),
    }
}

fn seen_before_exec(cs: &Vec<BrowserCookie>, i: usize, suno: &Vec<bool>) -> (r: bool)
    requires
        i < cs@.len(),
        suno@.len() == cs@.len(),
        forall|k: int| 0 <= k < cs@.len() ==> suno@[k] == is_suno(#[trigger] cs@[k]),
    ensures
        r == seen_before(cs@.take(i as int), cs@[i as int]),
{
    let mut j: usize = 0;
    while j < i
        invariant
            i < cs@.len(),
            suno@.len() == cs@.len(),
            forall|k: int| 0 <= k < cs@.len() ==> suno@[k] == is_suno(#[trigger] cs@[k]),
            0 <= j <= i,
            forall|k: int|
                0 <= k < j ==> !(is_suno(#[trigger] cs@[k]) && cs@[k].name@ == cs@[i as int].name@
                    && cs@[k].domain@ == cs@[i as int].domain@),
        decreases i - j,
    {
        if suno[j] && str_eq(cs[j].name.as_str(), cs[i].name.as_str()) && str_eq(
            cs[j].domain.as_str(),
            cs[i].domain.as_str(),
        ) {
            assert(cs@.take(i as int)[j as int] == cs@[j as int]);
            return true;
        }
        j = j + 1;
    }
    assert forall|k: int|
        0 <= k < cs@.take(i as int).len() implies !(is_suno(#[trigger] cs@.take(i as int)[k])
        && cs@.take(i as int)[k].name@ == cs@[i as int].name@ && cs@.take(i as int)[k].domain@
        == cs@[i as int].domain@) by {
        assert(cs@.take(i as int)[k] == cs@[k]);
    }
    false
}

/// Picks the Suno session out of one browser's cookies.
pub fn browser_auth_from_cookies(cs: &Vec<BrowserCookie>) -> (r: Option<BrowserAuth>)
    ensures
        browser_auth_matches(cs@, r),
{
    let suno_dom = chars_of("suno.com");
    let auth_dom = chars_of("auth.suno.com");
    let mut suno: Vec<bool> = Vec::new();
    let mut k: usize = 0;
    while k < cs.len()
        invariant
            suno_dom@ == "suno.com"@,
            0 <= k <= cs@.len(),
            suno@.len() == k,
            forall|m: int| 0 <= m < k ==> suno@[m] == is_suno(#[trigger] cs@[m]),
        decreases cs@.len() - k,
    {
        let d = chars_of(cs[k].domain.as_str());
        suno.push(contains_str(d.as_slice(), suno_dom.as_slice()));
        k = k + 1;
    }
    let mut auth: Option<String> = None;
    let mut other: Option<String> = None;
    let mut device: Option<String> = None;
    let mut header = String::new();
    let mut nparts: usize = 0;
    let mut i: usize = 0;
    assert(cs@.take(0) =~= Seq::<BrowserCookie>::empty());
    while i < cs.len()
        invariant
            auth_dom@ == "auth.suno.com"@,
            0 <= i <= cs@.len(),
            suno@.len() == cs@.len(),
            forall|m: int| 0 <= m < cs@.len() ==> suno@[m] == is_suno(#[trigger] cs@[m]),
            opt_view(auth) == auth_domain_client(cs@.take(i as int)),
            opt_view(other) == other_domain_client(cs@.take(i as int)),
            opt_view(device) == device_of(cs@.take(i as int)),
            header@ == join(header_parts(cs@.take(i as int)), "; "@),
            nparts == header_parts(cs@.take(i as int)).len(),
            nparts <= i,
        decreases cs@.len() - i,
    {
        let ghost pre = cs@.take(i as int);
        let ghost cur = cs@.take(i + 1);
        assert(cur.drop_last() =~= pre);
        assert(cur.last() == cs@[i as int]);
        let c = &cs[i];
        if suno[i] {
            let is_client_name = str_eq(c.name.as_str(), "__client");
            if is_client_name && !c.value.as_str().is_empty() {
                let d = chars_of(c.domain.as_str());
                if contains_str(d.as_slice(), auth_dom.as_slice()) {
                    auth = Some(c.value.clone());
                } else if other.is_none() {
                    other = Some(c.value.clone());
                }
            }
            if str_eq(c.name.as_str(), "ajs_anonymous_id") && device.is_none() {
                device = sanitize_device_id(c.value.as_str());
            }
            let seen = seen_before_exec(cs, i, &suno);
            if !seen {
                if nparts > 0 {
                    push_str(&mut header, "; ");
                }
                push_str(&mut header, c.name.as_str());
                push_str(&mut header, "=");
                push_str(&mut header, c.value.as_str());
                proof {
                    let parts = header_parts(pre);
                    let np = parts.push(c.name@ + "="@ + c.value@);
                    assert(np.drop_last() =~= parts);
                    if nparts == 0 {
                        assert(header@ =~= np[0]);
                    } else {
                        assert(header@ =~= join(parts, "; "@) + "; "@ + np.last());
                    }
                }
                nparts = nparts + 1;
            }
        }
        i = i + 1;
    }
    assert(cs@.take(cs@.len() as int) =~= cs@);
    let chosen = match auth {
        Some(v) => Some(v),
        None => other,
    };
    match chosen {
        Some(v) => Some(BrowserAuth { clerk_client_cookie: v, cookie_header: header, device_id: device }),
        None => None,
    }
}

/// The cookies of one browser hold a Suno session.
pub open spec fn has_session(o: Option<Vec<BrowserCookie>>) -> bool {
    o matches Some(cs) && chosen_client(cs@) is Some
}

/// The session held by one browser's cookies, if any.
fn session_in(o: &Option<Vec<BrowserCookie>>) -> (r: Option<BrowserAuth>)
    ensures
        match *o {
            Some(cs) => browser_auth_matches(cs@, r),
            None => r is None,
        },
        r is Some <==> has_session(*o),
{
    match o {
        Some(cs) => browser_auth_from_cookies(cs),
        None => None,
    }
}

/// Tries the browsers in the documented order (Chrome, Firefox, Safari,
/// Arc, Brave, Edge) and returns the first one that holds a Suno session,
/// with the session's credentials.
pub fn select_browser_auth(reads: &BrowserReads) -> (r: Result<(Browser, BrowserAuth), CliError>)
    ensures
        match r {
            Ok((b, a)) => {
                let k = browser_rank(b);
                &&& forall|j: int| 0 <= j < k ==> !has_session(#[trigger] reads_in_order(*reads)[j])
                &&& reads_in_order(*reads)[k] matches Some(cs) && browser_auth_matches(cs@, Some(a))
            },
            Err(e) => {
                &&& forall|j: int| 0 <= j < 6 ==> !has_session(#[trigger] reads_in_order(*reads)[j])
                &&& e matches CliError::Config(m) && m@
                    == "No Suno session found in any browser. Log into suno.com first, then retry."@
            },
        },
{
    let ghost s = reads_in_order(*reads);
    assert(s[0] == reads.chrome && s[1] == reads.firefox && s[2] == reads.safari && s[3] == reads.arc
        && s[4] == reads.brave && s[5] == reads.edge);
    match session_in(&reads.chrome) {
        Some(a) => return Ok((Browser::Chrome, a)),
        None => {},
    }
    match session_in(&reads.firefox) {
        Some(a) => {
            assert forall|j: int| 0 <= j < 1 implies !has_session(#[trigger] s[j]) by {}
            return Ok((Browser::Firefox, a));
        },
        None => {},
    }
    match session_in(&reads.safari) {
        Some(a) => {
            assert forall|j: int| 0 <= j < 2 implies !has_session(#[trigger] s[j]) by {
                if j == 1 {} else {}
            }
            return Ok((Browser::Safari, a));
        },
        None => {},
    }
    match session_in(&reads.arc) {
        Some(a) => {
            assert forall|j: int| 0 <= j < 3 implies !has_session(#[trigger] s[j]) by {
                if j == 2 {} else if j == 1 {} else {}
            }
            return Ok((Browser::Arc, a));
        },
        None => {},
    }
    match session_in(&reads.brave) {
        Some(a) => {
            assert forall|j: int| 0 <= j < 4 implies !has_session(#[trigger] s[j]) by {
                if j == 3 {} else if j == 2 {} else if j == 1 {} else {}
            }
            return Ok((Browser::Brave, a));
        },
        None => {},
    }
    match session_in(&reads.edge) {
        Some(a) => {
            assert forall|j: int| 0 <= j < 5 implies !has_session(#[trigger] s[j]) by {
                if j == 4 {} else if j == 3 {} else if j == 2 {} else if j == 1 {} else {}
            }
            return Ok((Browser::Edge, a));
        },
        None => {},
    }
    assert forall|j: int| 0 <= j < 6 implies !has_session(#[trigger] s[j]) by {
        if j == 5 {} else if j == 4 {} else if j == 3 {} else if j == 2 {} else if j == 1 {} else {}
    }
    Err(CliError::Config("No Suno session found in any browser. Log into suno.com first, then retry.".to_string()))
}

/// The Clerk cookie of the first browser, in the documented order, that
/// holds a Suno session.
pub fn extract_clerk_cookie(reads: &BrowserReads) -> (r: Result<String, CliError>)
    ensures
        match r {
            Ok(v) => exists|k: int|
                #![trigger reads_in_order(*reads)[k]]
                0 <= k < 6 && (forall|j: int| 0 <= j < k ==> !has_session(#[trigger] reads_in_order(*reads)[j]))
                    && (reads_in_order(*reads)[k] matches Some(cs) && chosen_client(cs@) == Some(v@)),
            Err(e) => (forall|j: int| 0 <= j < 6 ==> !has_session(#[trigger] reads_in_order(*reads)[j]))
                && e is Config,
        },
{
    match select_browser_auth(reads) {
        Ok((b, a)) => {
            assert(0 <= browser_rank(b) < 6);
            Ok(a.clerk_client_cookie)
        },
        Err(e) => Err(e),
    }
}

} // verus!
