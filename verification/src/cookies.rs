//! Parsing of browser `Cookie` headers and raw Clerk `__client` values.
use vstd::prelude::*;
use crate::errors::CliError;
use crate::text::{all_ws, is_ws, lemma_trim_ignores_padding, lemma_trim_padded, lemma_trim_split, lemma_trim_chars, lemma_trim_idempotent, lemma_split_without_separator, lemma_trim_of_clean_edges, lemma_trimmed_edges, chars_of, concat2, find_char, has_char, index_of, lemma_index_of, replace, replace_chars, split, split_chars, str_eq, string_from, sub_chars, trim, trim_char, trim_matching, trim_ws, views};

verus! {

/// Credentials taken from a browser session or a pasted cookie.
#[derive(Debug, Clone)]
pub struct BrowserAuth {
    pub clerk_client_cookie: String,
    pub cookie_header: String,
    pub device_id: Option<String>,
}

/// The characters held by an optional string.
pub open spec fn opt_view(o: Option<String>) -> Option<Seq<char>> {
    match o {
        Some(s) => Some(s@),
        None => None,
    }
}

// ---------------------------------------------------------------------
// The `Cookie:` prefix
// ---------------------------------------------------------------------
/// The header name, in lower case, with its colon.
pub open spec fn cookie_prefix() -> Seq<char> {
    seq!['c', 'o', 'o', 'k', 'i', 'e', ':']
}

/// Code of `c` with ASCII upper-case letters mapped to lower case.
pub open spec fn lower_code(c: char) -> u32 {
    if 'A' <= c && c <= 'Z' {
        (c as u32 + 32) as u32
    } else {
        c as u32
    }
}

/// `t` begins with `cookie:` in any ASCII case.
pub open spec fn has_cookie_prefix(t: Seq<char>) -> bool {
    t.len() >= 7 && forall|i: int| 0 <= i < 7 ==> lower_code(#[trigger] t[i]) == cookie_prefix()[i] as u32
}

/// The input trimmed, with a leading `cookie:` (any case) and the
/// whitespace after it removed.
pub open spec fn strip_prefix_spec(input: Seq<char>) -> Seq<char> {
    let t = trim(input);
    if has_cookie_prefix(t) {
        trim(t.skip(7))
    } else {
        t
    }
}

fn lower_code_of(c: char) -> (r: u32)
    ensures
        r == lower_code(c),
{
    let x = c as u32;
    if 'A' <= c && c <= 'Z' {
        x + 32
    } else {
        x
    }
}

fn starts_with_cookie_prefix(t: &[char]) -> (r: bool)
    ensures
        r == has_cookie_prefix(t@),
{
    if t.len() < 7 {
        return false;
    }
    let pat: Vec<char> = vec!['c', 'o', 'o', 'k', 'i', 'e', ':'];
    assert(pat@ =~= cookie_prefix());
    let mut i: usize = 0;
    while i < 7
        invariant
            t@.len() >= 7,
            pat@ == cookie_prefix(),
            0 <= i <= 7,
            forall|k: int| 0 <= k < i ==> lower_code(#[trigger] t@[k]) == cookie_prefix()[k] as u32,
        decreases 7 - i,
    {
        if lower_code_of(t[i]) != pat[i] as u32 {
            return false;
        }
        i = i + 1;
    }
    true
}

/// Character-level form of [`strip_cookie_header_prefix`].
pub fn strip_prefix_chars(cs: &[char]) -> (r: Vec<char>)
    ensures
        r@ == strip_prefix_spec(cs@),
{
    let t = trim_ws(cs);
    if starts_with_cookie_prefix(t.as_slice()) {
        let rest = sub_chars(t.as_slice(), 7, t.len());
        assert(rest@ =~= t@.skip(7));
        trim_ws(rest.as_slice())
    } else {
        t
    }
}

/// Trims the input and drops a leading `Cookie:` header name (any ASCII case).
/// A text whose first characters are not the ASCII `cookie:` (a multibyte
/// character among them, say) has no prefix, and is only trimmed.
pub fn strip_cookie_header_prefix(input: &str) -> (r: String)
    ensures
        r@ == strip_prefix_spec(input@),
{
    let cs = chars_of(input);
    let r = strip_prefix_chars(cs.as_slice());
    string_from(r.as_slice())
}

// ---------------------------------------------------------------------
// Cookie header parsing
// ---------------------------------------------------------------------
/// One `name=value` piece of a cookie header: both sides trimmed, split
/// at the first `=`; pieces without `=` or with an empty name are dropped.
pub open spec fn cookie_pair(part: Seq<char>) -> Option<(Seq<char>, Seq<char>)> {
    let t = trim(part);
    let i = index_of(t, '=');
    if i < 0 {
        None
    } else {
        let name = trim(t.take(i));
        if name.len() == 0 {
            None
        } else {
            Some((name, trim(t.skip(i + 1))))
        }
    }
}

/// The pairs of a sequence of pieces, in order.
pub open spec fn cookie_pairs(parts: Seq<Seq<char>>) -> Seq<(Seq<char>, Seq<char>)>
    decreases parts.len(),
{
    if parts.len() == 0 {
        Seq::empty()
    } else {
        let r = cookie_pairs(parts.drop_last());
        match cookie_pair(parts.last()) {
            Some(p) => r.push(p),
            None => r,
        }
    }
}

/// The pairs of a cookie header: the prefix stripped, split at `;`.
pub open spec fn parse_spec(input: Seq<char>) -> Seq<(Seq<char>, Seq<char>)> {
    cookie_pairs(split(strip_prefix_spec(input), ';'))
}

/// The value of the last pair named `name` (a later cookie replaces an
/// earlier one of the same name, as when they are collected into a map).
pub open spec fn lookup(pairs: Seq<(Seq<char>, Seq<char>)>, name: Seq<char>) -> Option<Seq<char>>
    decreases pairs.len(),
{
    if pairs.len() == 0 {
        None
    } else if pairs.last().0 == name {
        Some(pairs.last().1)
    } else {
        lookup(pairs.drop_last(), name)
    }
}

/// The characters of a sequence of string pairs.
pub open spec fn pair_views(v: Seq<(String, String)>) -> Seq<(Seq<char>, Seq<char>)> {
    v.map_values(|p: (String, String)| (p.0@, p.1@))
}

fn parse_piece(part: &[char]) -> (r: Option<(String, String)>)
    ensures
        match r {
            Some(p) => cookie_pair(part@) == Some((p.0@, p.1@)),
            None => cookie_pair(part@) is None,
        },
{
    let t = trim_ws(part);
    match find_char(t.as_slice(), '=') {
        None => None,
        Some(i) => {
            proof {
                lemma_index_of(t@, '=');
            }
            let before = sub_chars(t.as_slice(), 0, i);
            let name = trim_ws(before.as_slice());
            if name.len() == 0 {
                assert(before@ =~= t@.take(i as int));
                None
            } else {
                let after = sub_chars(t.as_slice(), i + 1, t.len());
                let value = trim_ws(after.as_slice());
                assert(before@ =~= t@.take(i as int));
                assert(after@ =~= t@.skip(i + 1));
                Some((string_from(name.as_slice()), string_from(value.as_slice())))
            }
        },
    }
}

/// Character-level form of [`parse_cookie_header`] on already split pieces.
fn pairs_of_pieces(parts: &Vec<Vec<char>>) -> (r: Vec<(String, String)>)
    ensures
        pair_views(r@) == cookie_pairs(views(parts@)),
{
    let mut out: Vec<(String, String)> = Vec::new();
    let mut i: usize = 0;
    assert(views(parts@).take(0) =~= Seq::<Seq<char>>::empty());
    assert(pair_views(out@) =~= Seq::<(Seq<char>, Seq<char>)>::empty());
    while i < parts.len()
        invariant
            0 <= i <= parts@.len(),
            pair_views(out@) == cookie_pairs(views(parts@).take(i as int)),
        decreases parts@.len() - i,
    {
        let ghost before = out@;
        assert(views(parts@).take(i + 1).drop_last() =~= views(parts@).take(i as int));
        assert(views(parts@).take(i + 1).last() == parts@[i as int]@);
        match parse_piece(parts[i].as_slice()) {
            Some(p) => {
                out.push(p);
                assert(pair_views(out@) =~= pair_views(before).push((p.0@, p.1@)));
            },
            None => {},
        }
        i = i + 1;
    }
    assert(views(parts@).take(parts@.len() as int) =~= views(parts@));
    out
}

/// Splits a cookie header into its `name=value` pairs, in order.
pub fn parse_cookie_header(input: &str) -> (r: Vec<(String, String)>)
    ensures
        pair_views(r@) == parse_spec(input@),
{
    let cs = chars_of(input);
    let stripped = strip_prefix_chars(cs.as_slice());
    let parts = split_chars(stripped.as_slice(), ';');
    pairs_of_pieces(&parts)
}

/// The value of the last pair named `name`.
pub fn cookie_value(pairs: &Vec<(String, String)>, name: &str) -> (r: Option<String>)
    ensures
        opt_view(r) == lookup(pair_views(pairs@), name@),
{
    let mut i = pairs.len();
    assert(pair_views(pairs@).take(i as int) =~= pair_views(pairs@));
    while i > 0
        invariant
            0 <= i <= pairs@.len(),
            lookup(pair_views(pairs@), name@) == lookup(pair_views(pairs@).take(i as int), name@),
        decreases i,
    {
        let ghost pre = pair_views(pairs@).take(i as int);
        assert(pre.last() == (pairs@[i - 1].0@, pairs@[i - 1].1@));
        if str_eq(pairs[i - 1].0.as_str(), name) {
            return Some(pairs[i - 1].1.clone());
        }
        assert(pre.drop_last() =~= pair_views(pairs@).take(i - 1));
        i = i - 1;
    }
    None
}

// ---------------------------------------------------------------------
// Device ids
// ---------------------------------------------------------------------
/// The `%22` escape of a double quote.
pub open spec fn quote_escape() -> Seq<char> {
    seq!['%', '2', '2']
}

/// Trims, unescapes `%22`, strips surrounding quotes; `None` when nothing
/// usable (empty, or holding a `;`) remains.
pub open spec fn sanitize_spec(value: Seq<char>) -> Option<Seq<char>> {
    let a = trim(value);
    let b = replace(a, quote_escape(), seq!['"']);
    let c = trim_char(b, '"');
    let d = trim_char(c, '\'');
    let e = trim(d);
    if e.len() == 0 || e.contains(';') {
        None
    } else {
        Some(e)
    }
}

fn sanitize_chars(value: &[char]) -> (r: Option<Vec<char>>)
    ensures
        match r {
            Some(v) => sanitize_spec(value@) == Some(v@),
            None => sanitize_spec(value@) is None,
        },
{
    let a = trim_ws(value);
    let pat: Vec<char> = vec!['%', '2', '2'];
    let rep: Vec<char> = vec!['"'];
    assert(pat@ =~= quote_escape());
    assert(rep@ =~= seq!['"']);
    let b = replace_chars(a.as_slice(), pat.as_slice(), rep.as_slice());
    let c = trim_matching(b.as_slice(), '"');
    let d = trim_matching(c.as_slice(), '\'');
    let e = trim_ws(d.as_slice());
    if e.len() == 0 || has_char(e.as_slice(), ';') {
        None
    } else {
        Some(e)
    }
}

/// Cleans a device id taken from the `ajs_anonymous_id` cookie.
pub fn sanitize_device_id(value: &str) -> (r: Option<String>)
    ensures
        opt_view(r) == sanitize_spec(value@),
{
    let cs = chars_of(value);
    match sanitize_chars(cs.as_slice()) {
        Some(v) => Some(string_from(v.as_slice())),
        None => None,
    }
}

// ---------------------------------------------------------------------
// Normalizing pasted cookies
// ---------------------------------------------------------------------
/// The device id carried by a parsed header, if any.
pub open spec fn header_device_id(pairs: Seq<(Seq<char>, Seq<char>)>) -> Option<Seq<char>> {
    match lookup(pairs, "ajs_anonymous_id"@) {
        Some(v) => sanitize_spec(v),
        None => None,
    }
}

/// The header holds a non-empty `__client` cookie.
pub open spec fn has_client_cookie(pairs: Seq<(Seq<char>, Seq<char>)>) -> bool {
    lookup(pairs, "__client"@) matches Some(v) && v.len() > 0
}

/// What normalizing a pasted value gives: the Clerk cookie, the header and
/// the device id, or the message of the configuration error.
pub open spec fn normalize_spec(input: Seq<char>) -> Result<(Seq<char>, Seq<char>, Option<Seq<char>>), Seq<char>> {
    let n = strip_prefix_spec(input);
    let pairs = parse_spec(n);
    if has_client_cookie(pairs) {
        Ok((lookup(pairs, "__client"@).unwrap(), n, header_device_id(pairs)))
    } else if n.contains(';') || n.contains('=') {
        Err("cookie header did not contain a __client field"@)
    } else if trim(n).len() == 0 {
        Err("empty Clerk __client cookie"@)
    } else {
        Ok((trim(n), "__client="@ + trim(n), None))
    }
}

/// The characters of a normalization result; errors other than
/// configuration errors map to `None`.
pub open spec fn auth_result_view(r: Result<BrowserAuth, CliError>) -> Option<Result<(Seq<char>, Seq<char>, Option<Seq<char>>), Seq<char>>> {
    match r {
        Ok(a) => Some(Ok((a.clerk_client_cookie@, a.cookie_header@, opt_view(a.device_id)))),
        Err(CliError::Config(m)) => Some(Err(m@)),
        Err(_) => None,
    }
}

/// Accepts either a raw Clerk `__client` value or a full browser Cookie
/// header (with or without the `Cookie:` name), and extracts the Clerk
/// cookie and the device id.
pub fn normalize_cookie_input(input: &str) -> (r: Result<BrowserAuth, CliError>)
    ensures
        auth_result_view(r) == Some(normalize_spec(input@)),
{
    let normalized = strip_cookie_header_prefix(input);
    let cookies = parse_cookie_header(normalized.as_str());
    let client = cookie_value(&cookies, "__client");
    match client {
        Some(v) => {
            if !v.as_str().is_empty() {
                let device_id = match cookie_value(&cookies, "ajs_anonymous_id") {
                    Some(d) => sanitize_device_id(d.as_str()),
                    None => None,
                };
                return Ok(BrowserAuth { clerk_client_cookie: v, cookie_header: normalized, device_id });
            }
        },
        None => {},
    }
    let ncs = chars_of(normalized.as_str());
    if has_char(ncs.as_slice(), ';') || has_char(ncs.as_slice(), '=') {
        return Err(CliError::Config("cookie header did not contain a __client field".to_string()));
    }
    let trimmed = trim_ws(ncs.as_slice());
    if trimmed.len() == 0 {
        return Err(CliError::Config("empty Clerk __client cookie".to_string()));
    }
    let clerk_client_cookie = string_from(trimmed.as_slice());
    let cookie_header = concat2("__client=", clerk_client_cookie.as_str());
    Ok(BrowserAuth { clerk_client_cookie, cookie_header, device_id: None })
}

/// Whitespace around a pasted value changes nothing: the stripped text,
/// and so the whole normalization, are those of the bare value.
pub proof fn lemma_padding_is_ignored(w1: Seq<char>, s: Seq<char>, w2: Seq<char>)
    requires
        all_ws(w1),
        all_ws(w2),
    ensures
        strip_prefix_spec(w1 + s + w2) == strip_prefix_spec(s),
        normalize_spec(w1 + s + w2) == normalize_spec(s),
{
    lemma_trim_ignores_padding(w1, s, w2);
}

/// A `Cookie:` header name (any ASCII case, with any whitespace after it)
/// and whitespace around the value change nothing: normalizing gives what
/// the bare value gives, when the value does not itself begin with the
/// header name.
pub proof fn lemma_cookie_prefix_is_ignored(w1: Seq<char>, p: Seq<char>, s: Seq<char>, w2: Seq<char>)
    requires
        all_ws(w1),
        all_ws(w2),
        has_cookie_prefix(p),
        all_ws(p.skip(7)),
        !has_cookie_prefix(trim(s)),
    ensures
        strip_prefix_spec(w1 + p + s + w2) == strip_prefix_spec(s),
        normalize_spec(w1 + p + s + w2) == normalize_spec(s),
{
    assert(w1 + p + s + w2 =~= w1 + (p + s) + w2);
    lemma_trim_ignores_padding(w1, p + s, w2);
    let (u, v) = lemma_trim_split(s);
    let m = trim(s);
    let head = p.take(7);
    assert(lower_code(p[0]) == cookie_prefix()[0] as u32);
    assert(lower_code(p[6]) == cookie_prefix()[6] as u32);
    assert(!is_ws(p[0]));
    assert(!is_ws(p[6]));
    let e = Seq::<char>::empty();
    assert forall|i: int| 0 <= i < e.len() implies is_ws(#[trigger] e[i]) by {}
    let tail = p.skip(7) + u;
    assert forall|i: int| 0 <= i < tail.len() implies is_ws(#[trigger] tail[i]) by {
        if i < p.skip(7).len() {
            assert(tail[i] == p.skip(7)[i]);
        } else {
            assert(tail[i] == u[i - p.skip(7).len()]);
        }
    }
    if m.len() > 0 {
        let t = head + (tail + m);
        assert(p + s =~= e + t + v);
        assert(t[0] == p[0]);
        assert(t.last() == m.last());
        lemma_trim_padded(e, t, v);
        assert(trim(p + s) == t);
        assert(has_cookie_prefix(t)) by {
            assert forall|i: int| 0 <= i < 7 implies lower_code(#[trigger] t[i]) == cookie_prefix()[i] as u32 by {
                assert(t[i] == p[i]);
            }
        }
        assert(t.skip(7) =~= tail + m + e);
        lemma_trim_padded(tail, m, e);
    } else {
        let rest = tail + v;
        assert forall|i: int| 0 <= i < rest.len() implies is_ws(#[trigger] rest[i]) by {
            if i < tail.len() {
                assert(rest[i] == tail[i]);
            } else {
                assert(rest[i] == v[i - tail.len()]);
            }
        }
        assert(s =~= u + v);
        assert(p + s =~= e + head + rest);
        lemma_trim_padded(e, head, rest);
        assert(trim(p + s) == head);
        assert(has_cookie_prefix(head)) by {
            assert forall|i: int| 0 <= i < 7 implies lower_code(#[trigger] head[i]) == cookie_prefix()[i] as u32 by {
                assert(head[i] == p[i]);
            }
        }
        assert(head.skip(7) =~= e + e + e);
        lemma_trim_padded(e, e, e);
    }
}

/// When a pasted value is taken as a raw Clerk cookie, the header built
/// for it normalizes again to the same cookie and header.
pub proof fn lemma_raw_cookie_normalization_is_stable(input: Seq<char>)
    requires
        !has_client_cookie(parse_spec(strip_prefix_spec(input))),
        !strip_prefix_spec(input).contains(';'),
        !strip_prefix_spec(input).contains('='),
        trim(strip_prefix_spec(input)).len() > 0,
    ensures
        ({
            let c = trim(strip_prefix_spec(input));
            let h = "__client="@ + c;
            &&& strip_prefix_spec(h) == h
            &&& has_client_cookie(parse_spec(h))
            &&& lookup(parse_spec(h), "__client"@) == Some(c)
            &&& header_device_id(parse_spec(h)) is None
        }),
{
    let n = strip_prefix_spec(input);
    let c = trim(n);
    lemma_trim_idempotent(n);
    lemma_trim_chars(n, ';');
    lemma_trim_chars(n, '=');
    lemma_raw_cookie_header_round_trip(c);
}

/// The header built for a raw Clerk cookie is itself accepted: it
/// normalizes again to the same cookie, the same header and no device id.
pub proof fn lemma_raw_cookie_header_round_trip(c: Seq<char>)
    requires
        c.len() > 0,
        trim(c) == c,
        !c.contains(';'),
        !c.contains('='),
    ensures
        strip_prefix_spec("__client="@ + c) == "__client="@ + c,
        has_client_cookie(parse_spec("__client="@ + c)),
        lookup(parse_spec("__client="@ + c), "__client"@) == Some(c),
        header_device_id(parse_spec("__client="@ + c)) is None,
{
    reveal_strlit("__client=");
    reveal_strlit("__client");
    reveal_strlit("ajs_anonymous_id");
    let key = "__client="@;
    let h = key + c;
    lemma_trimmed_edges(c);
    assert(h[0] == '_');
    assert(h.last() == c.last());
    lemma_trim_of_clean_edges(h);
    assert(!has_cookie_prefix(h)) by {
        assert(lower_code(h[0]) != cookie_prefix()[0] as u32);
    }
    assert(strip_prefix_spec(h) == h);
    assert(strip_prefix_spec(strip_prefix_spec(h)) == h);
    assert(!h.contains(';')) by {
        if h.contains(';') {
            let k = choose|k: int| 0 <= k < h.len() && h[k] == ';';
            if k >= 9 {
                assert(c[k - 9] == ';');
            }
        }
    }
    lemma_split_without_separator(h, ';');
    lemma_index_of(h, '=');
    assert(h[8] == '=');
    assert(forall|k: int| 0 <= k < 8 ==> h[k] != '=');
    assert(index_of(h, '=') == 8) by {
        let i = index_of(h, '=');
        if i < 0 {
            assert(h[8] != '=');
        } else if i < 8 {
            assert(h[i] == '=');
        } else if i > 8 {
            assert(h[8] != '=');
        }
    }
    let name = h.take(8);
    assert(name =~= "__client"@);
    lemma_trim_of_clean_edges(name);
    assert(h.skip(9) =~= c);
    let pair = ("__client"@, c);
    assert(cookie_pair(h) == Some(pair));
    assert(seq![h].drop_last() =~= Seq::<Seq<char>>::empty());
    assert(seq![h].last() == h);
    assert(cookie_pairs(Seq::<Seq<char>>::empty()) =~= Seq::<(Seq<char>, Seq<char>)>::empty());
    assert(cookie_pairs(seq![h]) =~= seq![pair]);
    assert(parse_spec(h) == seq![pair]);
    assert(seq![pair].drop_last() =~= Seq::<(Seq<char>, Seq<char>)>::empty());
    assert("__client"@ != "ajs_anonymous_id"@) by {
        assert("__client"@.len() != "ajs_anonymous_id"@.len());
    }
    assert(seq![pair].last() == pair);
    assert(lookup(Seq::<(Seq<char>, Seq<char>)>::empty(), "ajs_anonymous_id"@) is None);
    assert(lookup(seq![pair], "ajs_anonymous_id"@) is None);
}

} // verus!
