//! Character-level string utilities with exact specifications.
//!
//! Strings are modelled as `Seq<char>` (the view of `str` and `String`).
//! The executable helpers work on `&[char]` / `Vec<char>` and convert to
//! and from `String` at the edges.
use vstd::prelude::*;
use vstd::utf8::{encode_scalar, encode_utf8};

verus! {

broadcast use vstd::string::group_string_axioms;

/// `String::push` appends one character to the end of the string.
pub assume_specification[ String::push ](s: &mut String, ch: char)
    ensures
        final(s)@ == old(s)@.push(ch),
;

// ---------------------------------------------------------------------
// Character classes
// ---------------------------------------------------------------------
/// Unicode `White_Space`, exactly the characters for which
/// `char::is_whitespace` holds.
pub open spec fn is_ws(c: char) -> bool {
    ||| ('\u{0009}' <= c && c <= '\u{000D}')
    ||| c == ' '
    ||| c == '\u{0085}'
    ||| c == '\u{00A0}'
    ||| c == '\u{1680}'
    ||| ('\u{2000}' <= c && c <= '\u{200A}')
    ||| c == '\u{2028}'
    ||| c == '\u{2029}'
    ||| c == '\u{202F}'
    ||| c == '\u{205F}'
    ||| c == '\u{3000}'
}

pub fn is_whitespace_char(c: char) -> (r: bool)
    ensures
        r == is_ws(c),
{
    ('\u{0009}' <= c && c <= '\u{000D}') || c == ' ' || c == '\u{0085}' || c == '\u{00A0}' || c
        == '\u{1680}' || ('\u{2000}' <= c && c <= '\u{200A}') || c == '\u{2028}' || c == '\u{2029}'
        || c == '\u{202F}' || c == '\u{205F}' || c == '\u{3000}'
}

/// The predicate "is whitespace".
pub open spec fn ws_pred() -> spec_fn(char) -> bool {
    |c: char| is_ws(c)
}

/// The predicate "is exactly `ch`".
pub open spec fn eq_pred(ch: char) -> spec_fn(char) -> bool {
    |c: char| c == ch
}

// ---------------------------------------------------------------------
// Trimming
// ---------------------------------------------------------------------
/// Number of leading characters of `s` that satisfy `p`.
pub open spec fn leading(s: Seq<char>, p: spec_fn(char) -> bool) -> nat
    decreases s.len(),
{
    if s.len() > 0 && p(s[0]) {
        1 + leading(s.drop_first(), p)
    } else {
        0
    }
}

/// Number of trailing characters of `s` that satisfy `p`.
pub open spec fn trailing(s: Seq<char>, p: spec_fn(char) -> bool) -> nat
    decreases s.len(),
{
    if s.len() > 0 && p(s.last()) {
        1 + trailing(s.drop_last(), p)
    } else {
        0
    }
}

/// `s` with every leading and trailing character satisfying `p` removed
/// (`str::trim_matches` with a predicate).
pub open spec fn trim_by(s: Seq<char>, p: spec_fn(char) -> bool) -> Seq<char> {
    let t = s.skip(leading(s, p) as int);
    t.take(t.len() - trailing(t, p))
}

/// `str::trim`: strips leading and trailing whitespace.
pub open spec fn trim(s: Seq<char>) -> Seq<char> {
    trim_by(s, ws_pred())
}

/// `str::trim_matches(ch)` for a single character.
pub open spec fn trim_char(s: Seq<char>, ch: char) -> Seq<char> {
    trim_by(s, eq_pred(ch))
}

pub proof fn lemma_leading_le(s: Seq<char>, p: spec_fn(char) -> bool)
    ensures
        leading(s, p) <= s.len(),
    decreases s.len(),
{
    if s.len() > 0 && p(s[0]) {
        lemma_leading_le(s.drop_first(), p);
    }
}

pub proof fn lemma_trailing_le(s: Seq<char>, p: spec_fn(char) -> bool)
    ensures
        trailing(s, p) <= s.len(),
    decreases s.len(),
{
    if s.len() > 0 && p(s.last()) {
        lemma_trailing_le(s.drop_last(), p);
    }
}

pub proof fn lemma_leading_stop(s: Seq<char>, p: spec_fn(char) -> bool)
    ensures
        leading(s, p) < s.len() ==> !p(s[leading(s, p) as int]),
        forall|k: int| 0 <= k < leading(s, p) ==> p(#[trigger] s[k]),
    decreases s.len(),
{
    lemma_leading_le(s, p);
    if s.len() > 0 && p(s[0]) {
        lemma_leading_stop(s.drop_first(), p);
        assert forall|k: int| 0 <= k < leading(s, p) implies p(#[trigger] s[k]) by {
            if k > 0 {
                assert(s[k] == s.drop_first()[k - 1]);
            }
        }
    }
}

pub proof fn lemma_trailing_stop(s: Seq<char>, p: spec_fn(char) -> bool)
    ensures
        trailing(s, p) < s.len() ==> !p(s[s.len() - 1 - trailing(s, p)]),
    decreases s.len(),
{
    if s.len() > 0 && p(s.last()) {
        lemma_trailing_stop(s.drop_last(), p);
    }
}

/// The trimmed text is a stretch of the original: every character of it
/// occurs in the original.
pub proof fn lemma_trim_chars(s: Seq<char>, c: char)
    ensures
        trim(s).contains(c) ==> s.contains(c),
{
    let p = ws_pred();
    lemma_leading_le(s, p);
    let t = s.skip(leading(s, p) as int);
    lemma_trailing_le(t, p);
    if trim(s).contains(c) {
        let k = choose|k: int| 0 <= k < trim(s).len() && trim(s)[k] == c;
        assert(s[leading(s, p) + k] == c);
    }
}

/// Trimming twice is trimming once.
pub proof fn lemma_trim_idempotent(s: Seq<char>)
    ensures
        trim(trim(s)) == trim(s),
{
    let p = ws_pred();
    lemma_leading_le(s, p);
    lemma_leading_stop(s, p);
    let t = s.skip(leading(s, p) as int);
    lemma_trailing_le(t, p);
    lemma_trailing_stop(t, p);
    let r = trim(s);
    if r.len() > 0 {
        assert(r[0] == t[0]);
        assert(r.last() == t[t.len() - 1 - trailing(t, p)]);
    }
    lemma_trim_of_clean_edges(r);
}

/// A sequence that trimming leaves unchanged has no whitespace at its ends.
pub proof fn lemma_trimmed_edges(s: Seq<char>)
    requires
        trim(s) == s,
        s.len() > 0,
    ensures
        !is_ws(s[0]),
        !is_ws(s.last()),
{
    let p = ws_pred();
    lemma_leading_le(s, p);
    let t = s.skip(leading(s, p) as int);
    lemma_trailing_le(t, p);
    assert(trim(s).len() == t.len() - trailing(t, p));
    assert(leading(s, p) == 0);
    assert(t =~= s);
    assert(trailing(s, p) == 0);
}

/// A sequence without whitespace at its ends is its own trim.
pub proof fn lemma_trim_of_clean_edges(s: Seq<char>)
    requires
        s.len() == 0 || (!is_ws(s[0]) && !is_ws(s.last())),
    ensures
        trim(s) == s,
{
    let p = ws_pred();
    assert(leading(s, p) == 0);
    assert(s.skip(0) =~= s);
    assert(trailing(s, p) == 0);
    assert(s.take(s.len() as int) =~= s);
}

/// Every character of `s` is whitespace.
pub open spec fn all_ws(s: Seq<char>) -> bool {
    forall|i: int| 0 <= i < s.len() ==> is_ws(#[trigger] s[i])
}

/// Whitespace in front adds its length to the leading run.
proof fn lemma_leading_ws_prefix(u: Seq<char>, rest: Seq<char>)
    requires
        all_ws(u),
    ensures
        leading(u + rest, ws_pred()) == u.len() + leading(rest, ws_pred()),
    decreases u.len(),
{
    if u.len() == 0 {
        assert(u + rest =~= rest);
    } else {
        let s = u + rest;
        assert(s[0] == u[0]);
        assert(s.drop_first() =~= u.drop_first() + rest);
        assert(all_ws(u.drop_first())) by {
            assert forall|i: int| 0 <= i < u.drop_first().len() implies is_ws(
                #[trigger] u.drop_first()[i],
            ) by {
                assert(u.drop_first()[i] == u[i + 1]);
            }
        }
        lemma_leading_ws_prefix(u.drop_first(), rest);
    }
}

/// Whitespace behind adds its length to the trailing run.
proof fn lemma_trailing_ws_suffix(rest: Seq<char>, v: Seq<char>)
    requires
        all_ws(v),
    ensures
        trailing(rest + v, ws_pred()) == v.len() + trailing(rest, ws_pred()),
    decreases v.len(),
{
    if v.len() == 0 {
        assert(rest + v =~= rest);
    } else {
        let s = rest + v;
        assert(s.last() == v.last());
        assert(s.drop_last() =~= rest + v.drop_last());
        assert(all_ws(v.drop_last())) by {
            assert forall|i: int| 0 <= i < v.drop_last().len() implies is_ws(
                #[trigger] v.drop_last()[i],
            ) by {
                assert(v.drop_last()[i] == v[i]);
            }
        }
        lemma_trailing_ws_suffix(rest, v.drop_last());
    }
}

/// Every character of the trailing run satisfies the predicate.
proof fn lemma_trailing_all(s: Seq<char>, p: spec_fn(char) -> bool)
    ensures
        forall|k: int| s.len() - trailing(s, p) <= k < s.len() ==> p(#[trigger] s[k]),
    decreases s.len(),
{
    lemma_trailing_le(s, p);
    if s.len() > 0 && p(s.last()) {
        lemma_trailing_all(s.drop_last(), p);
        assert forall|k: int| s.len() - trailing(s, p) <= k < s.len() implies p(#[trigger] s[k]) by {
            if k < s.len() - 1 {
                assert(s[k] == s.drop_last()[k]);
            }
        }
    }
}

/// A text between whitespace runs, itself without whitespace at its
/// ends, is what trimming the whole gives.
pub proof fn lemma_trim_padded(u: Seq<char>, m: Seq<char>, v: Seq<char>)
    requires
        all_ws(u),
        all_ws(v),
        m.len() == 0 || (!is_ws(m[0]) && !is_ws(m.last())),
    ensures
        trim(u + m + v) == m,
{
    let p = ws_pred();
    let s = u + m + v;
    assert(s =~= u + (m + v));
    lemma_leading_ws_prefix(u, m + v);
    if m.len() > 0 {
        assert((m + v)[0] == m[0]);
        assert(leading(m + v, p) == 0);
        let t = s.skip(u.len() as int);
        assert(t =~= m + v);
        lemma_trailing_ws_suffix(m, v);
        assert(trailing(m, p) == 0);
        assert(t.take(t.len() - trailing(t, p)) =~= m);
    } else {
        assert(m + v =~= v + Seq::<char>::empty());
        lemma_leading_ws_prefix(v, Seq::<char>::empty());
        assert(leading(Seq::<char>::empty(), p) == 0);
        assert(trim(s) =~= m);
    }
}

/// A text is its leading whitespace, its trimmed form, and its trailing
/// whitespace; the trimmed form has no whitespace at its ends.
pub proof fn lemma_trim_split(x: Seq<char>) -> (uv: (Seq<char>, Seq<char>))
    ensures
        all_ws(uv.0),
        all_ws(uv.1),
        x == uv.0 + trim(x) + uv.1,
        trim(x).len() == 0 || (!is_ws(trim(x)[0]) && !is_ws(trim(x).last())),
{
    let p = ws_pred();
    lemma_leading_le(x, p);
    lemma_leading_stop(x, p);
    let l = leading(x, p) as int;
    let t = x.skip(l);
    lemma_trailing_le(t, p);
    lemma_trailing_all(t, p);
    let m = trim(x);
    let u = x.take(l);
    let v = t.skip(m.len() as int);
    assert forall|i: int| 0 <= i < u.len() implies is_ws(#[trigger] u[i]) by {
        assert(u[i] == x[i]);
    }
    assert forall|i: int| 0 <= i < v.len() implies is_ws(#[trigger] v[i]) by {
        assert(v[i] == t[m.len() + i]);
    }
    assert(x =~= u + m + v);
    lemma_trim_idempotent(x);
    if m.len() > 0 {
        lemma_trimmed_edges(m);
    }
    (u, v)
}

/// Whitespace around a text does not change its trimmed form.
pub proof fn lemma_trim_ignores_padding(w1: Seq<char>, x: Seq<char>, w2: Seq<char>)
    requires
        all_ws(w1),
        all_ws(w2),
    ensures
        trim(w1 + x + w2) == trim(x),
{
    let (u, v) = lemma_trim_split(x);
    let m = trim(x);
    assert(w1 + x + w2 =~= (w1 + u) + m + (v + w2));
    assert forall|i: int| 0 <= i < (w1 + u).len() implies is_ws(#[trigger] (w1 + u)[i]) by {
        if i < w1.len() {
            assert((w1 + u)[i] == w1[i]);
        } else {
            assert((w1 + u)[i] == u[i - w1.len()]);
        }
    }
    assert forall|i: int| 0 <= i < (v + w2).len() implies is_ws(#[trigger] (v + w2)[i]) by {
        if i < v.len() {
            assert((v + w2)[i] == v[i]);
        } else {
            assert((v + w2)[i] == w2[i - v.len()]);
        }
    }
    lemma_trim_padded(w1 + u, m, v + w2);
}

/// The chosen predicate, evaluated in executable code.
fn pred_holds(c: char, ws: bool, ch: char) -> (r: bool)
    ensures
        r == (if ws {
            ws_pred()
        } else {
            eq_pred(ch)
        })(c),
{
    if ws {
        is_whitespace_char(c)
    } else {
        c == ch
    }
}

/// Copy of `s[lo..hi]`.
pub fn sub_chars(s: &[char], lo: usize, hi: usize) -> (r: Vec<char>)
    requires
        lo <= hi <= s@.len(),
    ensures
        r@ == s@.subrange(lo as int, hi as int),
{
    let mut v: Vec<char> = Vec::new();
    let mut i = lo;
    while i < hi
        invariant
            lo <= i <= hi <= s@.len(),
            v@ == s@.subrange(lo as int, i as int),
        decreases hi - i,
    {
        v.push(s[i]);
        i = i + 1;
        assert(v@ =~= s@.subrange(lo as int, i as int));
    }
    v
}

fn trim_core(s: &[char], ws: bool, ch: char) -> (r: Vec<char>)
    ensures
        r@ == trim_by(
            s@,
            if ws {
                ws_pred()
            } else {
                eq_pred(ch)
            },
        ),
{
    let ghost p = if ws {
        ws_pred()
    } else {
        eq_pred(ch)
    };
    let n = s.len();
    let mut i: usize = 0;
    assert(s@.skip(0) =~= s@);
    while i < n && pred_holds(s[i], ws, ch)
        invariant
            0 <= i <= n == s@.len(),
            leading(s@, p) == i + leading(s@.skip(i as int), p),
            p == (if ws {
                ws_pred()
            } else {
                eq_pred(ch)
            }),
        decreases n - i,
    {
        assert(s@.skip(i as int).drop_first() =~= s@.skip(i + 1));
        i = i + 1;
    }
    assert(leading(s@.skip(i as int), p) == 0);
    let ghost t = s@.skip(i as int);
    let mut k: usize = n - i;
    assert(t.take(k as int) =~= t);
    while k > 0 && pred_holds(s[i + k - 1], ws, ch)
        invariant
            0 <= i <= n == s@.len(),
            t == s@.skip(i as int),
            0 <= k <= t.len(),
            trailing(t, p) == (t.len() - k) + trailing(t.take(k as int), p),
            p == (if ws {
                ws_pred()
            } else {
                eq_pred(ch)
            }),
        decreases k,
    {
        assert(t.take(k as int).last() == s@[i + k - 1]);
        assert(t.take(k as int).drop_last() =~= t.take(k - 1));
        k = k - 1;
    }
    assert(trailing(t.take(k as int), p) == 0);
    let r = sub_chars(s, i, i + k);
    assert(r@ =~= t.take(k as int));
    r
}

/// `str::trim` on characters.
pub fn trim_ws(s: &[char]) -> (r: Vec<char>)
    ensures
        r@ == trim(s@),
{
    trim_core(s, true, ' ')
}

/// `str::trim_matches(ch)` on characters.
pub fn trim_matching(s: &[char], ch: char) -> (r: Vec<char>)
    ensures
        r@ == trim_char(s@, ch),
{
    trim_core(s, false, ch)
}

// ---------------------------------------------------------------------
// Searching
// ---------------------------------------------------------------------
/// Index of the first occurrence of `c` in `s`, or -1.
pub open spec fn index_of(s: Seq<char>, c: char) -> int
    decreases s.len(),
{
    if s.len() == 0 {
        -1
    } else if s[0] == c {
        0
    } else {
        let r = index_of(s.drop_first(), c);
        if r < 0 {
            -1
        } else {
            r + 1
        }
    }
}

pub proof fn lemma_index_of(s: Seq<char>, c: char)
    ensures
        -1 <= index_of(s, c) < s.len(),
        index_of(s, c) >= 0 ==> s[index_of(s, c)] == c,
        index_of(s, c) >= 0 ==> forall|k: int| 0 <= k < index_of(s, c) ==> s[k] != c,
        index_of(s, c) < 0 ==> forall|k: int| 0 <= k < s.len() ==> s[k] != c,
        index_of(s, c) < 0 <==> !s.contains(c),
    decreases s.len(),
{
    if s.len() > 0 && s[0] != c {
        lemma_index_of(s.drop_first(), c);
        assert forall|k: int| 1 <= k < s.len() implies s[k] == s.drop_first()[k - 1] by {}
        if index_of(s, c) < 0 {
            assert forall|k: int| 0 <= k < s.len() implies s[k] != c by {
                if k > 0 {
                    assert(s[k] == s.drop_first()[k - 1]);
                }
            }
        } else {
            assert(s.contains(c)) by {
                assert(s[index_of(s, c)] == c);
            }
        }
    } else if s.len() > 0 {
        assert(s.contains(c)) by {
            assert(s[0] == c);
        }
    }
}

/// Position of the first `c` in `s`, if any.
pub fn find_char(s: &[char], c: char) -> (r: Option<usize>)
    ensures
        match r {
            Some(i) => i as int == index_of(s@, c),
            None => index_of(s@, c) < 0,
        },
{
    proof {
        lemma_index_of(s@, c);
    }
    let mut i: usize = 0;
    while i < s.len()
        invariant
            0 <= i <= s@.len(),
            forall|k: int| 0 <= k < i ==> s@[k] != c,
        decreases s@.len() - i,
    {
        if s[i] == c {
            proof {
                lemma_index_of(s@, c);
                assert(s@[i as int] == c);
            }
            return Some(i);
        }
        i = i + 1;
    }
    proof {
        if index_of(s@, c) >= 0 {
            assert(s@[index_of(s@, c)] == c);
        }
    }
    None
}

/// Whether `c` occurs in `s`.
pub fn has_char(s: &[char], c: char) -> (r: bool)
    ensures
        r == s@.contains(c),
{
    proof {
        lemma_index_of(s@, c);
    }
    find_char(s, c).is_some()
}

/// `pat` occurs in `s` starting at position `i`.
pub open spec fn occurs_at(s: Seq<char>, pat: Seq<char>, i: int) -> bool {
    0 <= i && i + pat.len() <= s.len() && s.subrange(i, i + pat.len()) == pat
}

/// `str::contains` with a string pattern.
pub open spec fn has_substring(s: Seq<char>, pat: Seq<char>) -> bool {
    exists|i: int| occurs_at(s, pat, i)
}

/// Whether `s[i..]` starts with `pat`.
pub fn matches_at(s: &[char], pat: &[char], i: usize) -> (r: bool)
    requires
        i <= s@.len(),
    ensures
        r == occurs_at(s@, pat@, i as int),
{
    if pat.len() > s.len() - i {
        return false;
    }
    let mut k: usize = 0;
    while k < pat.len()
        invariant
            i + pat@.len() <= s@.len() <= usize::MAX,
            0 <= k <= pat@.len(),
            forall|j: int| 0 <= j < k ==> s@[i + j] == pat@[j],
        decreases pat@.len() - k,
    {
        if s[i + k] != pat[k] {
            assert(s@.subrange(i as int, i + pat@.len())[k as int] != pat@[k as int]);
            return false;
        }
        k = k + 1;
    }
    assert(s@.subrange(i as int, i + pat@.len()) =~= pat@);
    true
}

/// Whether `pat` occurs anywhere in `s`.
pub fn contains_str(s: &[char], pat: &[char]) -> (r: bool)
    ensures
        r == has_substring(s@, pat@),
{
    let mut i: usize = 0;
    while i < s.len()
        invariant
            0 <= i <= s@.len(),
            forall|j: int| 0 <= j < i ==> !occurs_at(s@, pat@, j),
        decreases s@.len() - i,
    {
        if matches_at(s, pat, i) {
            return true;
        }
        i = i + 1;
    }
    if matches_at(s, pat, s.len()) {
        return true;
    }
    assert forall|j: int| !occurs_at(s@, pat@, j) by {
        if 0 <= j && j < s@.len() {
            assert(!occurs_at(s@, pat@, j));
        }
    }
    false
}

// ---------------------------------------------------------------------
// Splitting
// ---------------------------------------------------------------------
/// `str::split(c)`: the pieces between occurrences of `c` (always at least one).
pub open spec fn split(s: Seq<char>, c: char) -> Seq<Seq<char>>
    decreases s.len(),
{
    if s.len() == 0 {
        seq![Seq::<char>::empty()]
    } else {
        let rest = split(s.drop_last(), c);
        if s.last() == c {
            rest.push(Seq::<char>::empty())
        } else {
            rest.update(rest.len() - 1, rest.last().push(s.last()))
        }
    }
}

pub proof fn lemma_split_nonempty(s: Seq<char>, c: char)
    ensures
        split(s, c).len() >= 1,
    decreases s.len(),
{
    if s.len() > 0 {
        lemma_split_nonempty(s.drop_last(), c);
    }
}

/// The character sequences held by a sequence of vectors.
pub open spec fn views(v: Seq<Vec<char>>) -> Seq<Seq<char>> {
    v.map_values(|x: Vec<char>| x@)
}

/// A sequence without the separator is a single piece.
pub proof fn lemma_split_without_separator(s: Seq<char>, c: char)
    requires
        !s.contains(c),
    ensures
        split(s, c) == seq![s],
    decreases s.len(),
{
    if s.len() > 0 {
        assert(!s.drop_last().contains(c)) by {
            if s.drop_last().contains(c) {
                let k = choose|k: int| 0 <= k < s.drop_last().len() && s.drop_last()[k] == c;
                assert(s[k] == c);
            }
        }
        lemma_split_without_separator(s.drop_last(), c);
        assert(s.last() != c) by {
            assert(s[s.len() - 1] == s.last());
        }
        assert(s.drop_last().push(s.last()) =~= s);
        assert(split(s, c) =~= seq![s]);
    } else {
        assert(s =~= Seq::<char>::empty());
    }
}

/// `str::split(c)` on characters.
pub fn split_chars(s: &[char], c: char) -> (r: Vec<Vec<char>>)
    ensures
        views(r@) == split(s@, c),
{
    let mut pieces: Vec<Vec<char>> = Vec::new();
    let mut cur: Vec<char> = Vec::new();
    let mut i: usize = 0;
    while i < s.len()
        invariant
            0 <= i <= s@.len(),
            views(pieces@).push(cur@) == split(s@.take(i as int), c),
        decreases s@.len() - i,
    {
        proof {
            lemma_split_nonempty(s@.take(i as int), c);
            assert(s@.take(i + 1).drop_last() =~= s@.take(i as int));
            assert(s@.take(i + 1).last() == s@[i as int]);
        }
        if s[i] == c {
            let ghost before = views(pieces@);
            let piece = cur;
            pieces.push(piece);
            cur = Vec::new();
            assert(views(pieces@) =~= before.push(piece@));
            assert(views(pieces@).push(cur@) =~= split(s@.take(i + 1), c));
        } else {
            let ghost before = views(pieces@);
            let ghost old_cur = cur@;
            cur.push(s[i]);
            assert(views(pieces@).push(cur@) =~= before.push(old_cur).update(
                before.len() as int,
                old_cur.push(s@[i as int]),
            ));
        }
        i = i + 1;
    }
    assert(s@.take(s@.len() as int) =~= s@);
    let ghost before = views(pieces@);
    let last = cur;
    pieces.push(last);
    assert(views(pieces@) =~= before.push(last@));
    pieces
}

// ---------------------------------------------------------------------
// Joining
// ---------------------------------------------------------------------
/// The parts joined by `sep`.
pub open spec fn join(parts: Seq<Seq<char>>, sep: Seq<char>) -> Seq<char>
    decreases parts.len(),
{
    if parts.len() == 0 {
        Seq::empty()
    } else if parts.len() == 1 {
        parts[0]
    } else {
        join(parts.drop_last(), sep) + sep + parts.last()
    }
}

/// The characters of a sequence of strings.
pub open spec fn string_views(v: Seq<String>) -> Seq<Seq<char>> {
    v.map_values(|x: String| x@)
}

/// `[String]::join(sep)`.
pub fn join_strings(parts: &Vec<String>, sep: &str) -> (r: String)
    ensures
        r@ == join(string_views(parts@), sep@),
{
    let mut s = String::new();
    let mut i: usize = 0;
    assert(string_views(parts@).take(0) =~= Seq::<Seq<char>>::empty());
    while i < parts.len()
        invariant
            0 <= i <= parts@.len(),
            s@ == join(string_views(parts@).take(i as int), sep@),
        decreases parts@.len() - i,
    {
        let ghost pre = string_views(parts@).take(i as int);
        let ghost cur = string_views(parts@).take(i + 1);
        assert(cur.drop_last() =~= pre);
        assert(cur.last() == parts@[i as int]@);
        if i > 0 {
            push_str(&mut s, sep);
        }
        push_str(&mut s, parts[i].as_str());
        proof {
            if i == 0 {
                assert(s@ =~= cur[0]);
            } else {
                assert(s@ =~= join(pre, sep@) + sep@ + cur.last());
            }
        }
        i = i + 1;
    }
    assert(string_views(parts@).take(parts@.len() as int) =~= string_views(parts@));
    s
}

// ---------------------------------------------------------------------
// Replacing
// ---------------------------------------------------------------------
/// `str::replace(pat, rep)`: replaces the leftmost non-overlapping
/// occurrences of a non-empty pattern, scanning left to right.
pub open spec fn replace(s: Seq<char>, pat: Seq<char>, rep: Seq<char>) -> Seq<char>
    decreases s.len(),
{
    if s.len() == 0 {
        s
    } else if pat.len() > 0 && pat.len() <= s.len() && s.take(pat.len() as int) == pat {
        rep + replace(s.skip(pat.len() as int), pat, rep)
    } else {
        seq![s[0]] + replace(s.drop_first(), pat, rep)
    }
}

/// `str::replace(pat, rep)` on characters.
pub fn replace_chars(s: &[char], pat: &[char], rep: &[char]) -> (r: Vec<char>)
    requires
        pat@.len() > 0,
    ensures
        r@ == replace(s@, pat@, rep@),
{
    let mut out: Vec<char> = Vec::new();
    let mut i: usize = 0;
    assert(s@.skip(0) =~= s@);
    assert(out@ + replace(s@, pat@, rep@) =~= replace(s@, pat@, rep@));
    while i < s.len()
        invariant
            0 <= i <= s@.len(),
            pat@.len() > 0,
            out@ + replace(s@.skip(i as int), pat@, rep@) == replace(s@, pat@, rep@),
        decreases s@.len() - i,
    {
        let ghost t = s@.skip(i as int);
        if matches_at(s, pat, i) {
            assert(t.take(pat@.len() as int) =~= s@.subrange(i as int, i + pat@.len()));
            assert(t.skip(pat@.len() as int) =~= s@.skip(i + pat@.len()));
            let ghost before = out@;
            let mut k: usize = 0;
            while k < rep.len()
                invariant
                    0 <= k <= rep@.len(),
                    out@ == before + rep@.take(k as int),
                decreases rep@.len() - k,
            {
                out.push(rep[k]);
                k = k + 1;
                assert(out@ =~= before + rep@.take(k as int));
            }
            assert(rep@.take(rep@.len() as int) =~= rep@);
            assert(out@ + replace(s@.skip(i + pat@.len()), pat@, rep@) =~= before + (rep@
                + replace(t.skip(pat@.len() as int), pat@, rep@)));
            i = i + pat.len();
        } else {
            proof {
                if pat@.len() <= t.len() {
                    assert(t.take(pat@.len() as int) =~= s@.subrange(i as int, i + pat@.len()));
                }
            }
            assert(t.drop_first() =~= s@.skip(i + 1));
            assert(t[0] == s@[i as int]);
            let ghost before = out@;
            out.push(s[i]);
            assert(out@ + replace(s@.skip(i + 1), pat@, rep@) =~= before + (seq![t[0]]
                + replace(t.drop_first(), pat@, rep@)));
            i = i + 1;
        }
    }
    assert(s@.skip(s@.len() as int) =~= Seq::<char>::empty());
    assert(out@ + Seq::<char>::empty() =~= out@);
    out
}

// ---------------------------------------------------------------------
// Conversions
// ---------------------------------------------------------------------
/// The characters of a string slice, in order.
pub fn chars_of(s: &str) -> (r: Vec<char>)
    ensures
        r@ == s@,
{
    let mut v: Vec<char> = Vec::new();
    for c in it: s.chars()
        invariant
            v@ == it.seq().take(it.index() as int),
            it.seq() == s@,
    {
        v.push(c);
    }
    v
}

/// Builds a `String` from characters.
pub fn string_from(cs: &[char]) -> (r: String)
    ensures
        r@ == cs@,
{
    let mut s = String::new();
    let mut i: usize = 0;
    while i < cs.len()
        invariant
            0 <= i <= cs@.len(),
            s@ == cs@.take(i as int),
        decreases cs@.len() - i,
    {
        s.push(cs[i]);
        i = i + 1;
        assert(s@ =~= cs@.take(i as int));
    }
    assert(cs@.take(cs@.len() as int) =~= cs@);
    s
}

/// Appends characters to a `String`.
pub fn push_chars(s: &mut String, cs: &[char])
    ensures
        final(s)@ == old(s)@ + cs@,
{
    let ghost start = s@;
    let mut i: usize = 0;
    while i < cs.len()
        invariant
            0 <= i <= cs@.len(),
            s@ == start + cs@.take(i as int),
        decreases cs@.len() - i,
    {
        s.push(cs[i]);
        i = i + 1;
        assert(s@ =~= start + cs@.take(i as int));
    }
    assert(cs@.take(cs@.len() as int) =~= cs@);
}

/// Appends a string slice to a `String`.
pub fn push_str(s: &mut String, t: &str)
    ensures
        final(s)@ == old(s)@ + t@,
{
    let cs = chars_of(t);
    push_chars(s, cs.as_slice());
}

/// Concatenation of string slices into a new `String`.
pub fn concat2(a: &str, b: &str) -> (r: String)
    ensures
        r@ == a@ + b@,
{
    let mut s = String::new();
    push_str(&mut s, a);
    push_str(&mut s, b);
    assert(s@ =~= a@ + b@);
    s
}

pub fn concat3(a: &str, b: &str, c: &str) -> (r: String)
    ensures
        r@ == a@ + b@ + c@,
{
    let mut s = concat2(a, b);
    push_str(&mut s, c);
    s
}

pub fn concat4(a: &str, b: &str, c: &str, d: &str) -> (r: String)
    ensures
        r@ == a@ + b@ + c@ + d@,
{
    let mut s = concat3(a, b, c);
    push_str(&mut s, d);
    s
}

/// Equality of two string slices by their characters.
pub fn str_eq(a: &str, b: &str) -> (r: bool)
    ensures
        r == (a@ == b@),
{
    let x = chars_of(a);
    let y = chars_of(b);
    if x.len() != y.len() {
        return false;
    }
    let mut i: usize = 0;
    while i < x.len()
        invariant
            x@ == a@,
            y@ == b@,
            x@.len() == y@.len(),
            0 <= i <= x@.len(),
            forall|k: int| 0 <= k < i ==> x@[k] == y@[k],
        decreases x@.len() - i,
    {
        if x[i] != y[i] {
            return false;
        }
        i = i + 1;
    }
    assert(x@ =~= y@);
    true
}

// ---------------------------------------------------------------------
// UTF-8 length
// ---------------------------------------------------------------------
/// Encoding one more character appends its encoding.
pub proof fn lemma_encode_utf8_push(s: Seq<char>, c: char)
    ensures
        encode_utf8(s.push(c)) == encode_utf8(s) + encode_scalar(c as u32),
    decreases s.len(),
{
    if s.len() == 0 {
        assert(s.push(c).drop_first() =~= Seq::<char>::empty());
        assert(s.push(c)[0] == c);
        assert(encode_utf8(Seq::<char>::empty()) =~= Seq::<u8>::empty());
        assert(encode_utf8(s.push(c)) =~= encode_scalar(c as u32) + Seq::<u8>::empty());
    } else {
        lemma_encode_utf8_push(s.drop_first(), c);
        assert(s.push(c).drop_first() =~= s.drop_first().push(c));
        assert(encode_utf8(s.push(c)) =~= encode_scalar(s[0] as u32) + (encode_utf8(
            s.drop_first(),
        ) + encode_scalar(c as u32)));
    }
}

/// Number of UTF-8 bytes of one character.
fn utf8_width(c: char) -> (r: u128)
    ensures
        r == encode_scalar(c as u32).len(),
{
    proof {
        vstd::utf8::char_is_scalar(c);
    }
    let x = c as u32;
    if x <= 0x7F {
        1
    } else if x <= 0x7FF {
        2
    } else if x <= 0xFFFF {
        3
    } else {
        4
    }
}

/// Number of bytes of the UTF-8 encoding of `cs` (what `str::len` reports).
pub fn utf8_byte_len(cs: &[char]) -> (r: u128)
    ensures
        r == encode_utf8(cs@).len(),
{
    let mut n: u128 = 0;
    let mut i: usize = 0;
    while i < cs.len()
        invariant
            0 <= i <= cs@.len(),
            n == encode_utf8(cs@.take(i as int)).len(),
            n <= 4 * i,
        decreases cs@.len() - i,
    {
        proof {
            lemma_encode_utf8_push(cs@.take(i as int), cs@[i as int]);
            assert(cs@.take(i + 1) =~= cs@.take(i as int).push(cs@[i as int]));
        }
        let w = utf8_width(cs[i]);
        n = n + w;
        i = i + 1;
    }
    assert(cs@.take(cs@.len() as int) =~= cs@);
    n
}

// ---------------------------------------------------------------------
// Decimal numbers
// ---------------------------------------------------------------------
/// The ASCII digit for `d < 10`.
pub open spec fn digit(d: nat) -> char {
    if d == 0 {
        '0'
    } else if d == 1 {
        '1'
    } else if d == 2 {
        '2'
    } else if d == 3 {
        '3'
    } else if d == 4 {
        '4'
    } else if d == 5 {
        '5'
    } else if d == 6 {
        '6'
    } else if d == 7 {
        '7'
    } else if d == 8 {
        '8'
    } else {
        '9'
    }
}

/// Decimal representation of `n`, as `{}` formats an unsigned integer.
pub open spec fn decimal(n: nat) -> Seq<char>
    decreases n,
{
    if n < 10 {
        seq![digit(n)]
    } else {
        decimal(n / 10).push(digit(n % 10))
    }
}

fn digit_char(d: u128) -> (c: char)
    requires
        d < 10,
    ensures
        c == digit(d as nat),
{
    if d == 0 {
        '0'
    } else if d == 1 {
        '1'
    } else if d == 2 {
        '2'
    } else if d == 3 {
        '3'
    } else if d == 4 {
        '4'
    } else if d == 5 {
        '5'
    } else if d == 6 {
        '6'
    } else if d == 7 {
        '7'
    } else if d == 8 {
        '8'
    } else {
        '9'
    }
}

/// Characters of the decimal representation of `n`.
pub fn decimal_chars(n: u128) -> (r: Vec<char>)
    ensures
        r@ == decimal(n as nat),
    decreases n,
{
    if n < 10 {
        let mut v: Vec<char> = Vec::new();
        v.push(digit_char(n));
        assert(v@ =~= seq![digit(n as nat)]);
        v
    } else {
        let mut v = decimal_chars(n / 10);
        v.push(digit_char(n % 10));
        v
    }
}

/// Decimal representation of `n` as a `String`.
pub fn decimal_string(n: u128) -> (r: String)
    ensures
        r@ == decimal(n as nat),
{
    let v = decimal_chars(n);
    string_from(v.as_slice())
}

} // verus!
