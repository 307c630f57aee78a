//! The Clerk session exchange: request URLs and the decisions taken on
//! each response. Sending the requests is left to the caller; each
//! response is handed back here as its success flag, status line, body
//! text and parsed body.
use vstd::prelude::*;
use vstd::utf8::encode_utf8;
use crate::errors::CliError;
use crate::json::{json_get, json_parse, json_parse_error, json_str, parse_json, JsonValue};
use crate::text::{chars_of, concat2, concat3, push_chars, push_str, string_from, sub_chars, utf8_byte_len};

verus! {

/// URL that lists the Clerk client's sessions.
pub fn clerk_client_url() -> (r: String)
    ensures
        r@ == "https://auth.suno.com/v1/client?__clerk_api_version=2025-11-10&_clerk_js_version=5.117.0"@,
{
    "https://auth.suno.com/v1/client?__clerk_api_version=2025-11-10&_clerk_js_version=5.117.0".to_string()
}

/// URL that mints a JWT for a session.
pub fn clerk_token_url(session_id: &str) -> (r: String)
    ensures
        r@ == "https://auth.suno.com/v1/client/sessions/"@ + session_id@
            + "/tokens?__clerk_api_version=2025-11-10&_clerk_js_version=5.117.0"@,
{
    concat3(
        "https://auth.suno.com/v1/client/sessions/",
        session_id,
        "/tokens?__clerk_api_version=2025-11-10&_clerk_js_version=5.117.0",
    )
}

// ---------------------------------------------------------------------
// Response excerpts
// ---------------------------------------------------------------------
/// Line breaks (`\n`, `\r`) turned into spaces.
pub open spec fn one_line(s: Seq<char>) -> Seq<char> {
    s.map_values(|c: char| if c == '\n' || c == '\r' { ' ' } else { c })
}

/// A body fit for an error message: on one line, and cut to its first
/// 500 characters (marked `...`) when it is longer than 500 bytes.
pub open spec fn excerpt(body: Seq<char>) -> Seq<char> {
    let b = one_line(body);
    if encode_utf8(b).len() <= 500 {
        b
    } else if b.len() <= 500 {
        b + "..."@
    } else {
        b.take(500) + "..."@
    }
}

/// An excerpt of a response body for an error message.
pub fn response_excerpt(body: &str) -> (r: String)
    ensures
        r@ == excerpt(body@),
{
    let cs = chars_of(body);
    let mut flat: Vec<char> = Vec::new();
    let mut i: usize = 0;
    while i < cs.len()
        invariant
            0 <= i <= cs@.len(),
            cs@ == body@,
            flat@ == one_line(body@).take(i as int),
        decreases cs@.len() - i,
    {
        let c = cs[i];
        if c == '\n' || c == '\r' {
            flat.push(' ');
        } else {
            flat.push(c);
        }
        i = i + 1;
        assert(flat@ =~= one_line(body@).take(i as int));
    }
    assert(one_line(body@).take(cs@.len() as int) =~= one_line(body@));
    let s = string_from(flat.as_slice());
    if utf8_byte_len(flat.as_slice()) <= 500 {
        s
    } else {
        let n = if flat.len() <= 500 {
            flat.len()
        } else {
            500
        };
        let head = sub_chars(flat.as_slice(), 0, n);
        let mut r = string_from(head.as_slice());
        push_str(&mut r, "...");
        proof {
            if flat@.len() <= 500 {
                assert(head@ =~= flat@);
            }
        }
        r
    }
}

/// An excerpt never spans lines, and holds at most 503 characters when
/// it was cut.
pub proof fn lemma_excerpt_is_one_line(body: Seq<char>)
    ensures
        !excerpt(body).contains('\n'),
        !excerpt(body).contains('\r'),
        encode_utf8(one_line(body)).len() > 500 ==> excerpt(body).len() <= 503,
{
    reveal_strlit("...");
    let b = one_line(body);
    assert forall|k: int| 0 <= k < excerpt(body).len() implies excerpt(body)[k] != '\n'
        && excerpt(body)[k] != '\r' by {
        if k < b.len() && (encode_utf8(b).len() <= 500 || k < 500) {
            assert(excerpt(body)[k] == b[k]);
        }
    }
}

// ---------------------------------------------------------------------
// Errors built from responses
// ---------------------------------------------------------------------
/// `<what> (<status>): <excerpt of body>`.
pub open spec fn status_message(what: Seq<char>, status: Seq<char>, body: Seq<char>) -> Seq<char> {
    what + " ("@ + status + "): "@ + excerpt(body)
}

/// The error for a non-success HTTP status.
pub fn status_error(code: &str, what: &str, status: &str, body: &str) -> (r: CliError)
    ensures
        r matches CliError::Api { code: c, message: m } && c@ == code@ && m@ == status_message(
            what@,
            status@,
            body@,
        ),
{
    let mut m = concat3(what, " (", status);
    push_str(&mut m, "): ");
    let ex = response_excerpt(body);
    push_str(&mut m, ex.as_str());
    CliError::Api { code: code.to_string(), message: m }
}

/// `<context> returned unexpected JSON/body (<parse error>): <excerpt>`.
pub open spec fn json_error_message(
    context: Seq<char>,
    err: Seq<char>,
    body: Seq<char>,
) -> Seq<char> {
    context + " returned unexpected JSON/body ("@ + err + "): "@ + excerpt(body)
}

/// The error for a body that did not parse as JSON.
pub fn json_body_error(context: &str, err: &str, body: &str) -> (r: CliError)
    ensures
        r matches CliError::Api { code: c, message: m } && c@ == "clerk_json_error"@ && m@
            == json_error_message(context@, err@, body@),
{
    let mut m = concat3(context, " returned unexpected JSON/body (", err);
    push_str(&mut m, "): ");
    let ex = response_excerpt(body);
    push_str(&mut m, ex.as_str());
    CliError::Api { code: "clerk_json_error".to_string(), message: m }
}

// ---------------------------------------------------------------------
// Reading the responses
// ---------------------------------------------------------------------
/// The session to use: `response.last_active_session_id`, else the id of
/// the first of `response.sessions`.
pub open spec fn session_id_of(body: JsonValue) -> Option<Seq<char>> {
    match json_get(body, "response"@) {
        None => None,
        Some(r) => match json_str(json_get(r, "last_active_session_id"@)) {
            Some(s) => Some(s),
            None => match json_get(r, "sessions"@) {
                Some(JsonValue::Array(a)) => if a@.len() > 0 {
                    json_str(json_get(a@[0], "id"@))
                } else {
                    None
                },
                _ => None,
            },
        },
    }
}

/// The session id named by a Clerk client response.
pub fn session_id_from(body: &JsonValue) -> (r: Result<String, CliError>)
    ensures
        match session_id_of(*body) {
            Some(s) => r matches Ok(v) && v@ == s,
            None => r matches Err(CliError::Api { code: c, message: m }) && c@ == "no_session"@
                && m@ == "No active session found — log into suno.com in your browser first"@,
        },
{
    let found: Option<String> = match body.get("response") {
        None => None,
        Some(r) => {
            let last = match r.get("last_active_session_id") {
                Some(v) => v.as_str(),
                None => None,
            };
            match last {
                Some(s) => Some(s.clone()),
                None => match r.get("sessions") {
                    Some(JsonValue::Array(a)) => {
                        if a.len() > 0 {
                            match a[0].get("id") {
                                Some(v) => match v.as_str() {
                                    Some(s) => Some(s.clone()),
                                    None => None,
                                },
                                None => None,
                            }
                        } else {
                            None
                        }
                    },
                    _ => None,
                },
            }
        },
    };
    match found {
        Some(s) => Ok(s),
        None => Err(
            CliError::Api {
                code: "no_session".to_string(),
                message: "No active session found — log into suno.com in your browser first".to_string(),
            },
        ),
    }
}

/// The JWT carried by a Clerk token response.
pub fn jwt_from(body: &JsonValue) -> (r: Result<String, CliError>)
    ensures
        match json_str(json_get(*body, "jwt"@)) {
            Some(s) => r matches Ok(v) && v@ == s,
            None => r matches Err(CliError::Api { code: c, message: m }) && c@ == "no_jwt"@
                && m@
                == "Clerk returned no JWT — session may have expired, run `suno auth login` again"@,
        },
{
    let found = match body.get("jwt") {
        Some(v) => v.as_str(),
        None => None,
    };
    match found {
        Some(s) => Ok(s.clone()),
        None => Err(
            CliError::Api {
                code: "no_jwt".to_string(),
                message: "Clerk returned no JWT — session may have expired, run `suno auth login` again".to_string(),
            },
        ),
    }
}

/// What the client lookup yields, from whether the answer's status was a
/// success, the status line and the body text: the session id, or the
/// error to report.
pub fn clerk_session_step(success: bool, status: &str, body: &str) -> (r: Result<String, CliError>)
    ensures
        !success ==> (r matches Err(CliError::Api { code: c, message: m }) && c@
            == "clerk_exchange_failed"@ && m@ == status_message(
            "Clerk token exchange failed"@,
            status@,
            body@,
        )),
        success ==> match json_parse(body@) {
            None => r matches Err(CliError::Api { code: c, message: m }) && c@
                == "clerk_json_error"@ && m@ == json_error_message(
                "Clerk session lookup"@,
                json_parse_error(body@),
                body@,
            ),
            Some(v) => match session_id_of(v) {
                Some(s) => r matches Ok(x) && x@ == s,
                None => r matches Err(CliError::Api { code: c, message: m }) && c@
                    == "no_session"@ && m@
                    == "No active session found — log into suno.com in your browser first"@,
            },
        },
{
    if !success {
        return Err(status_error("clerk_exchange_failed", "Clerk token exchange failed", status, body));
    }
    match parse_json(body) {
        Err(e) => Err(json_body_error("Clerk session lookup", e.as_str(), body)),
        Ok(v) => session_id_from(&v),
    }
}

/// What the token request yields, from whether the answer's status was a
/// success, the status line and the body text: the JWT, or the error to
/// report.
pub fn clerk_jwt_step(success: bool, status: &str, body: &str) -> (r: Result<String, CliError>)
    ensures
        !success ==> (r matches Err(CliError::Api { code: c, message: m }) && c@
            == "clerk_refresh_failed"@ && m@ == status_message(
            "Clerk JWT refresh failed"@,
            status@,
            body@,
        )),
        success ==> match json_parse(body@) {
            None => r matches Err(CliError::Api { code: c, message: m }) && c@
                == "clerk_json_error"@ && m@ == json_error_message(
                "Clerk JWT refresh"@,
                json_parse_error(body@),
                body@,
            ),
            Some(v) => match json_str(json_get(v, "jwt"@)) {
                Some(s) => r matches Ok(x) && x@ == s,
                None => r matches Err(CliError::Api { code: c, message: m }) && c@ == "no_jwt"@
                    && m@
                    == "Clerk returned no JWT — session may have expired, run `suno auth login` again"@,
            },
        },
{
    if !success {
        return Err(status_error("clerk_refresh_failed", "Clerk JWT refresh failed", status, body));
    }
    match parse_json(body) {
        Err(e) => Err(json_body_error("Clerk JWT refresh", e.as_str(), body)),
        Ok(v) => jwt_from(&v),
    }
}

} // verus!
