//! Stored authentication state, JWT freshness, and the browser-token header.
use vstd::prelude::*;
use vstd::utf8::encode_utf8;
use base64::Engine;
use base64::engine::general_purpose::STANDARD as BASE64;
use base64::engine::general_purpose::URL_SAFE_NO_PAD as BASE64URL;
use std::time::{SystemTime, UNIX_EPOCH};
use crate::text::{chars_of, concat3, decimal, decimal_string, split, split_chars, string_from, views};

verus! {

/// Authentication persisted between runs.
#[derive(Debug, Clone)]
pub struct AuthState {
    pub jwt: Option<String>,
    pub cookie: Option<String>,
    pub session_id: Option<String>,
    pub device_id: Option<String>,
    /// The `__client` cookie of the Clerk domain (long-lived, about a week).
    pub clerk_client_cookie: Option<String>,
}

impl Default for AuthState {
    fn default() -> (r: Self)
        ensures
            r.jwt is None && r.cookie is None && r.session_id is None && r.device_id is None
                && r.clerk_client_cookie is None,
    {
        AuthState { jwt: None, cookie: None, session_id: None, device_id: None, clerk_client_cookie: None }
    }
}

// ---------------------------------------------------------------------
// Base64
// ---------------------------------------------------------------------
/// The character of the standard Base64 alphabet for a six-bit value.
pub open spec fn b64_char(v: int) -> char {
    if v < 26 {
        ('A' as u32 + v) as char
    } else if v < 52 {
        ('a' as u32 + (v - 26)) as char
    } else if v < 62 {
        ('0' as u32 + (v - 52)) as char
    } else if v == 62 {
        '+'
    } else {
        '/'
    }
}

/// Standard Base64 with `=` padding (RFC 4648, section 4).
pub open spec fn b64_encode(b: Seq<u8>) -> Seq<char>
    decreases b.len(),
{
    if b.len() == 0 {
        Seq::empty()
    } else if b.len() == 1 {
        seq![b64_char(b[0] as int / 4), b64_char((b[0] as int % 4) * 16), '=', '=']
    } else if b.len() == 2 {
        seq![
            b64_char(b[0] as int / 4),
            b64_char((b[0] as int % 4) * 16 + b[1] as int / 16),
            b64_char((b[1] as int % 16) * 4),
            '=',
        ]
    } else {
        seq![
            b64_char(b[0] as int / 4),
            b64_char((b[0] as int % 4) * 16 + b[1] as int / 16),
            b64_char((b[1] as int % 16) * 4 + b[2] as int / 64),
            b64_char(b[2] as int % 64),
        ] + b64_encode(b.skip(3))
    }
}

/// The character of the URL-safe Base64 alphabet for a six-bit value.
pub open spec fn b64url_char(v: int) -> char {
    if v == 62 {
        '-'
    } else if v == 63 {
        '_'
    } else {
        b64_char(v)
    }
}

/// URL-safe Base64 without padding (RFC 4648, section 5).
pub open spec fn b64url_encode(b: Seq<u8>) -> Seq<char>
    decreases b.len(),
{
    if b.len() == 0 {
        Seq::empty()
    } else if b.len() == 1 {
        seq![b64url_char(b[0] as int / 4), b64url_char((b[0] as int % 4) * 16)]
    } else if b.len() == 2 {
        seq![
            b64url_char(b[0] as int / 4),
            b64url_char((b[0] as int % 4) * 16 + b[1] as int / 16),
            b64url_char((b[1] as int % 16) * 4),
        ]
    } else {
        seq![
            b64url_char(b[0] as int / 4),
            b64url_char((b[0] as int % 4) * 16 + b[1] as int / 16),
            b64url_char((b[1] as int % 16) * 4 + b[2] as int / 64),
            b64url_char(b[2] as int % 64),
        ] + b64url_encode(b.skip(3))
    }
}

/// Name for what `URL_SAFE_NO_PAD.decode` returns for the bytes of a text:
/// the decoded bytes, or `None` where the crate reports a decode error.
pub uninterp spec fn base64url_nopad_decode(text: Seq<char>) -> Option<Seq<u8>>;

/// Calls `base64::engine::general_purpose::URL_SAFE_NO_PAD.decode` (via
/// `Engine::decode`); claims that the result is the named decoding of
/// `text`, with a decode error mapped to `None`, and that decoding succeeds
/// exactly on canonical unpadded URL-safe encodings (the engine requires no
/// padding and rejects non-zero trailing bits), giving the encoded bytes.
#[verifier::external_body]
fn decode_base64url(text: &str) -> (r: Option<Vec<u8>>)
    ensures
        match r {
            Some(v) => base64url_nopad_decode(text@) == Some(v@) && b64url_encode(v@) == text@,
            None => base64url_nopad_decode(text@) is None && forall|b: Seq<u8>|
                #[trigger] b64url_encode(b) != text@,
        },
{
    match BASE64URL.decode(text) {
        Ok(v) => Some(v),
        Err(_) => None,
    }
}

/// Calls `base64::engine::general_purpose::STANDARD.encode` (via
/// `Engine::encode`); claims that it produces padded standard Base64.
#[verifier::external_body]
fn encode_base64(bytes: &[u8]) -> (r: String)
    ensures
        r@ == b64_encode(bytes@),
{
    BASE64.encode(bytes)
}

// ---------------------------------------------------------------------
// JSON member lookup
// ---------------------------------------------------------------------
/// Name for what `serde_json::from_slice::<Value>` followed by
/// `.get(key)` and `.as_u64()` gives for a byte string: the unsigned
/// integer member `key` of a JSON object, or `None`.
pub uninterp spec fn json_u64_member(bytes: Seq<u8>, key: Seq<char>) -> Option<u64>;

/// Calls `serde_json::from_slice::<serde_json::Value>` and reads member
/// `key` with `Value::get` and `Value::as_u64`; claims only that the result
/// is the named member, with a parse error mapped to `None`.
#[verifier::external_body]
fn json_member_u64(bytes: &[u8], key: &str) -> (r: Option<u64>)
    ensures
        r == json_u64_member(bytes@, key@),
{
    match serde_json::from_slice::<serde_json::Value>(bytes) {
        Ok(v) => match v.get(key) {
            Some(m) => m.as_u64(),
            None => None,
        },
        Err(_) => None,
    }
}

// ---------------------------------------------------------------------
// Clock
// ---------------------------------------------------------------------
/// Calls `SystemTime::now` and measures it from `UNIX_EPOCH` in whole
/// seconds (0 before the epoch). Nothing is claimed of the result.
#[verifier::external_body]
fn unix_time_secs() -> (r: u64) {
    SystemTime::now().duration_since(UNIX_EPOCH).unwrap_or_default().as_secs()
}

/// Calls `SystemTime::now` and measures it from `UNIX_EPOCH` in whole
/// milliseconds (0 before the epoch). Nothing is claimed of the result.
#[verifier::external_body]
fn unix_time_millis() -> (r: u128) {
    SystemTime::now().duration_since(UNIX_EPOCH).unwrap_or_default().as_millis()
}

// ---------------------------------------------------------------------
// JWT freshness
// ---------------------------------------------------------------------
/// The claims segment of a JWT: the middle one of exactly three
/// `.`-separated segments.
pub open spec fn jwt_claims(token: Seq<char>) -> Option<Seq<char>> {
    let parts = split(token, '.');
    if parts.len() == 3 {
        Some(parts[1])
    } else {
        None
    }
}

/// The `exp` claim of the stored JWT, when it can be read.
pub open spec fn jwt_exp(state: AuthState) -> Option<u64> {
    match state.jwt {
        None => None,
        Some(j) => match jwt_claims(j@) {
            None => None,
            Some(c) => match base64url_nopad_decode(c) {
                None => None,
                Some(b) => json_u64_member(b, "exp"@),
            },
        },
    }
}

/// Seconds of remaining life under which a JWT is refreshed. Suno's
/// generation endpoint rejects tokens older than about thirty minutes even
/// when their own `exp` says otherwise.
pub open spec fn refresh_margin() -> int {
    1800
}

/// At time `now` (seconds since the epoch) the stored JWT must be
/// replaced: it is missing, unreadable, or has under thirty minutes left.
pub open spec fn expired_at(state: AuthState, now: u64) -> bool {
    match jwt_exp(state) {
        None => true,
        Some(exp) => now + refresh_margin() >= exp,
    }
}

impl AuthState {
    /// The `exp` claim of the stored JWT.
    pub fn jwt_exp_claim(&self) -> (r: Option<u64>)
        ensures
            r == jwt_exp(*self),
    {
        match &self.jwt {
            None => None,
            Some(jwt) => {
                let cs = chars_of(jwt.as_str());
                let parts = split_chars(cs.as_slice(), '.');
                if parts.len() != 3 {
                    return None;
                }
                assert(views(parts@)[1] == parts@[1]@);
                let claims = string_from(parts[1].as_slice());
                match decode_base64url(claims.as_str()) {
                    None => None,
                    Some(decoded) => json_member_u64(decoded.as_slice(), "exp"),
                }
            },
        }
    }

    /// Whether the JWT must be refreshed at time `now` (seconds since the epoch).
    pub fn is_jwt_expired_at(&self, now: u64) -> (r: bool)
        ensures
            r == expired_at(*self, now),
    {
        match self.jwt_exp_claim() {
            None => true,
            Some(exp) => exp <= 1800 || now >= exp - 1800,
        }
    }

    /// Whether the JWT must be refreshed now.
    pub fn is_jwt_expired(&self) -> (r: bool)
        ensures
            jwt_exp(*self) is None ==> r,
            exists|now: u64| r == expired_at(*self, now),
    {
        let now = unix_time_secs();
        self.is_jwt_expired_at(now)
    }
}

/// Once the JWT must be refreshed, it stays so at every later time.
pub proof fn lemma_expiry_is_monotonic(state: AuthState, t1: u64, t2: u64)
    requires
        t1 <= t2,
        expired_at(state, t1),
    ensures
        expired_at(state, t2),
{
}

// ---------------------------------------------------------------------
// The browser-token header
// ---------------------------------------------------------------------
/// The JSON payload `{"timestamp":<ms>}`.
pub open spec fn token_payload(ms: nat) -> Seq<char> {
    "{\"timestamp\":"@ + decimal(ms) + "}"@
}

/// The header value `{"token":"<base64 of the payload>"}`.
pub open spec fn browser_token_spec(ms: nat) -> Seq<char> {
    "{\"token\":\""@ + b64_encode(encode_utf8(token_payload(ms))) + "\"}"@
}

/// The browser-token header value for a time in milliseconds since the epoch.
pub fn browser_token_at(ms: u128) -> (r: String)
    ensures
        r@ == browser_token_spec(ms as nat),
{
    let digits = decimal_string(ms);
    let payload = concat3("{\"timestamp\":", digits.as_str(), "}");
    let encoded = encode_base64(payload.as_str().as_bytes());
    concat3("{\"token\":\"", encoded.as_str(), "\"}")
}

/// The browser-token header value for the current time.
pub fn browser_token() -> (r: String)
    ensures
        exists|ms: u128| r@ == browser_token_spec(ms as nat),
{
    let ms = unix_time_millis();
    browser_token_at(ms)
}

} // verus!
