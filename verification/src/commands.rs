//! The decisions taken by the commands: what to send, what to refuse,
//! what to report. Performing requests and printing is the caller's part.
use vstd::prelude::*;
use crate::auth::AuthState;
use crate::cli::{AuthArgs, DeleteArgs, ModelVersion, SetArgs, VocalGender};
use crate::cookies::{opt_view, BrowserAuth};
use crate::errors::{error_text, CliError};
use crate::text::{chars_of, concat2, concat3, decimal, decimal_string, join, join_strings, push_str, str_eq, string_views};
use crate::types::{CaptchaCheckResponse, ClipStatus, SetMetadataRequest};

verus! {

// ---------------------------------------------------------------------
// Unfilled lyric scaffolds
// ---------------------------------------------------------------------
/// Scan of a text for `<...>` placeholder spans: the current line
/// (1-based), the line where an unclosed `<` was seen, and the opening
/// line of every closed span so far. Spans may run across lines.
pub open spec fn scaffold_scan(s: Seq<char>) -> (nat, Option<nat>, Seq<nat>)
    decreases s.len(),
{
    if s.len() == 0 {
        (1, None, Seq::empty())
    } else {
        let st = scaffold_scan(s.drop_last());
        let c = s.last();
        if c == '\n' {
            (st.0 + 1, st.1, st.2)
        } else if st.1 is None && c == '<' {
            (st.0, Some(st.0), st.2)
        } else if st.1 is Some && c == '>' {
            (st.0, None, st.2.push(st.1->0))
        } else {
            st
        }
    }
}

/// The lines on which unresolved `<...>` placeholders open, one entry per
/// placeholder, in order.
pub open spec fn placeholder_lines_spec(s: Seq<char>) -> Seq<nat> {
    scaffold_scan(s).2
}

pub open spec fn line_nats(v: Seq<u128>) -> Seq<nat> {
    v.map_values(|x: u128| x as nat)
}

/// Lines of `text` holding the start of an unfilled `<...>` placeholder.
pub fn placeholder_lines(text: &str) -> (r: Vec<u128>)
    ensures
        line_nats(r@) == placeholder_lines_spec(text@),
{
    let cs = chars_of(text);
    let mut line: u128 = 1;
    let mut open: Option<u128> = None;
    let mut spans: Vec<u128> = Vec::new();
    let mut i: usize = 0;
    assert(cs@.take(0) =~= Seq::<char>::empty());
    while i < cs.len()
        invariant
            0 <= i <= cs@.len(),
            cs@ == text@,
            line <= i + 1,
            line as nat == scaffold_scan(cs@.take(i as int)).0,
            match open {
                Some(l) => scaffold_scan(cs@.take(i as int)).1 == Some(l as nat),
                None => scaffold_scan(cs@.take(i as int)).1 is None,
            },
            line_nats(spans@) == scaffold_scan(cs@.take(i as int)).2,
        decreases cs@.len() - i,
    {
        assert(cs@.take(i + 1).drop_last() =~= cs@.take(i as int));
        assert(cs@.take(i + 1).last() == cs@[i as int]);
        let c = cs[i];
        if c == '\n' {
            line = line + 1;
        } else if open.is_none() && c == '<' {
            open = Some(line);
        } else if open.is_some() && c == '>' {
            let l = open.unwrap();
            let ghost before = spans@;
            spans.push(l);
            assert(line_nats(spans@) =~= line_nats(before).push(l as nat));
            open = None;
        }
        i = i + 1;
    }
    assert(cs@.take(cs@.len() as int) =~= cs@);
    spans
}

/// The decimal numbers of lines, joined by `, `.
pub open spec fn line_list(lines: Seq<nat>) -> Seq<char> {
    join(lines.map_values(|n: nat| decimal(n)), ", "@)
}

/// Refuses lyrics that still hold scaffold placeholders, unless forced:
/// they would be sung verbatim at real credit cost.
pub fn reject_unfilled_scaffold(lyrics: Option<&str>, force: bool) -> (r: Result<(), CliError>)
    ensures
        match lyrics {
            None => r is Ok,
            Some(t) => {
                let lines = placeholder_lines_spec(t@);
                if lines.len() == 0 || force {
                    r is Ok
                } else {
                    r matches Err(CliError::InvalidInput(m)) && m@ == "lyrics contain "@ + decimal(
                        lines.len(),
                    ) + " unresolved scaffold placeholder(s) at line(s) "@ + line_list(lines)
                        + " — fill the <...> spans before generating (or pass --force to send them as written)"@
                }
            },
        },
{
    let text = match lyrics {
        None => return Ok(()),
        Some(t) => t,
    };
    let lines = placeholder_lines(text);
    if lines.len() == 0 || force {
        return Ok(());
    }
    let mut numbers: Vec<String> = Vec::new();
    let mut i: usize = 0;
    while i < lines.len()
        invariant
            0 <= i <= lines@.len(),
            numbers@.len() == i,
            forall|k: int| 0 <= k < i ==> #[trigger] numbers@[k]@ == decimal(lines@[k] as nat),
        decreases lines@.len() - i,
    {
        numbers.push(decimal_string(lines[i]));
        i = i + 1;
    }
    assert(string_views(numbers@) =~= line_nats(lines@).map_values(|n: nat| decimal(n)));
    let count = decimal_string(lines.len() as u128);
    let joined = join_strings(&numbers, ", ");
    let mut m = concat3(
        "lyrics contain ",
        count.as_str(),
        " unresolved scaffold placeholder(s) at line(s) ",
    );
    push_str(&mut m, joined.as_str());
    push_str(
        &mut m,
        " — fill the <...> spans before generating (or pass --force to send them as written)",
    );
    Err(CliError::InvalidInput(m))
}

/// A caller-supplied input file that cannot be read is bad input (not a
/// retryable I/O error): retrying the same path fails the same way.
pub fn input_file_error(path: &str, err: &str) -> (r: CliError)
    ensures
        r matches CliError::InvalidInput(m) && m@ == "cannot read input file '"@ + path@ + "': "@
            + err@,
{
    let mut m = concat3("cannot read input file '", path, "': ");
    push_str(&mut m, err);
    CliError::InvalidInput(m)
}

// ---------------------------------------------------------------------
// Style tags
// ---------------------------------------------------------------------
pub open spec fn vocal_tag(v: VocalGender) -> Seq<char> {
    match v {
        VocalGender::Male => "male vocals"@,
        VocalGender::Female => "female vocals"@,
    }
}

/// The tags sent with a generation: the given tags, then the vocal gender
/// tag, joined by `, `; `None` when neither is given.
pub open spec fn build_tags_spec(tags: Option<Seq<char>>, vocal: Option<VocalGender>) -> Option<Seq<char>> {
    match (tags, vocal) {
        (None, None) => None,
        (Some(t), None) => Some(t),
        (None, Some(v)) => Some(vocal_tag(v)),
        (Some(t), Some(v)) => Some(t + ", "@ + vocal_tag(v)),
    }
}

pub fn build_tags(tags: Option<&str>, vocal: Option<&VocalGender>) -> (r: Option<String>)
    ensures
        opt_view(r) == build_tags_spec(
            match tags {
                Some(t) => Some(t@),
                None => None,
            },
            match vocal {
                Some(v) => Some(*v),
                None => None,
            },
        ),
{
    let v: Option<&'static str> = match vocal {
        Some(VocalGender::Male) => Some("male vocals"),
        Some(VocalGender::Female) => Some("female vocals"),
        None => None,
    };
    match (tags, v) {
        (None, None) => None,
        (Some(t), None) => Some(t.to_string()),
        (None, Some(g)) => Some(g.to_string()),
        (Some(t), Some(g)) => Some(concat3(t, ", ", g)),
    }
}

/// The given style tags are always sent, first and unchanged: with no
/// vocal gender they are the whole tag text, and a vocal gender only adds
/// its tag after them. Tags are sent exactly when tags or a vocal gender
/// are given.
pub proof fn lemma_build_tags_keeps_given_tags(tags: Option<Seq<char>>, vocal: Option<VocalGender>)
    ensures
        build_tags_spec(tags, vocal) is Some <==> (tags is Some || vocal is Some),
        tags matches Some(t) ==> (build_tags_spec(tags, vocal) matches Some(r) && r.len() >= t.len()
            && r.take(t.len() as int) == t),
        tags matches Some(t) ==> (vocal is None ==> build_tags_spec(tags, vocal) == Some(t)),
        tags matches Some(t) ==> (vocal is Some ==> (build_tags_spec(tags, vocal) matches Some(r)
            && r.len() > t.len() + 2 && r.subrange(t.len() as int, t.len() as int + 2) == ", "@)),
        vocal matches Some(v) ==> (build_tags_spec(tags, vocal) matches Some(r) && r.len() >= vocal_tag(v).len()
            && r.skip(r.len() - vocal_tag(v).len()) == vocal_tag(v)),
{
    reveal_strlit(", ");
    reveal_strlit("male vocals");
    reveal_strlit("female vocals");
    match (tags, vocal) {
        (Some(t), Some(v)) => {
            let r = t + ", "@ + vocal_tag(v);
            assert(r.take(t.len() as int) =~= t);
            assert(r.subrange(t.len() as int, t.len() as int + 2) =~= ", "@);
            assert(r.skip(r.len() - vocal_tag(v).len()) =~= vocal_tag(v));
        },
        (Some(t), None) => {
            assert(t.take(t.len() as int) =~= t);
        },
        (None, Some(v)) => {
            assert(vocal_tag(v).skip(0) =~= vocal_tag(v));
        },
        (None, None) => {},
    }
}

// ---------------------------------------------------------------------
// Captcha
// ---------------------------------------------------------------------
/// What to do about the captcha before a generation.
#[derive(Debug)]
pub enum CaptchaStep {
    /// Send this caller-supplied token.
    UseToken(String),
    /// Send no token.
    Skip,
    /// Ask `/api/c/check` whether a captcha is required.
    Preflight,
    /// Solve a captcha.
    Solve,
}

/// An explicit token wins; `--no-captcha` never solves; a forced run
/// always solves; otherwise the preflight decides.
pub fn captcha_first_step(token: Option<String>, no_captcha: bool, forced: bool) -> (r: CaptchaStep)
    ensures
        match token {
            Some(t) => r == CaptchaStep::UseToken(t),
            None => if no_captcha {
                r == CaptchaStep::Skip
            } else if forced {
                r == CaptchaStep::Solve
            } else {
                r == CaptchaStep::Preflight
            },
        },
{
    match token {
        Some(t) => CaptchaStep::UseToken(t),
        None => {
            if no_captcha {
                CaptchaStep::Skip
            } else if forced {
                CaptchaStep::Solve
            } else {
                CaptchaStep::Preflight
            }
        },
    }
}

/// A failed preflight counts as "required" (never a hard gate).
pub fn captcha_required(preflight: &Result<CaptchaCheckResponse, CliError>) -> (r: bool)
    ensures
        r == match *preflight {
            Ok(resp) => resp.required,
            Err(_) => true,
        },
{
    match preflight {
        Ok(resp) => resp.required,
        Err(_) => true,
    }
}

/// A setup problem while solving is reported as it is; any other failure
/// becomes a generation failure with retry guidance.
pub fn captcha_solve_error(e: CliError) -> (r: CliError)
    ensures
        e is Config ==> r == e,
        !(e is Config) ==> (r matches CliError::GenerationFailed(m) && m@ == "captcha solve failed: "@
            + error_text(e)
            + " — Suno is enforcing a captcha on this account; generate one song in the suno.com UI to clear the challenge, then retry"@),
{
    match e {
        CliError::Config(m) => CliError::Config(m),
        other => {
            let t = other.to_string();
            CliError::GenerationFailed(
                concat3(
                    "captcha solve failed: ",
                    t.as_str(),
                    " — Suno is enforcing a captcha on this account; generate one song in the suno.com UI to clear the challenge, then retry",
                ),
            )
        },
    }
}

// ---------------------------------------------------------------------
// Finished generations
// ---------------------------------------------------------------------
/// Why a clip errored: its message, else its type, else "unknown error".
pub open spec fn error_reason(c: ClipStatus) -> Seq<char> {
    match c.error_message {
        Some(m) => m@,
        None => match c.error_type {
            Some(t) => t@,
            None => "unknown error"@,
        },
    }
}

/// `<id> (<reason>)` for every clip whose status is `error`, in order.
pub open spec fn errored_entries(cs: Seq<ClipStatus>) -> Seq<Seq<char>>
    decreases cs.len(),
{
    if cs.len() == 0 {
        Seq::empty()
    } else if cs.last().status@ == "error"@ {
        errored_entries(cs.drop_last()).push(cs.last().id@ + " ("@ + error_reason(cs.last()) + ")"@)
    } else {
        errored_entries(cs.drop_last())
    }
}

/// A generation is reported failed exactly when some clip has status `error`.
pub proof fn lemma_errored_entries_empty(cs: Seq<ClipStatus>)
    ensures
        errored_entries(cs).len() == 0 <==> forall|i: int|
            0 <= i < cs.len() ==> (#[trigger] cs[i]).status@ != "error"@,
    decreases cs.len(),
{
    if cs.len() > 0 {
        lemma_errored_entries_empty(cs.drop_last());
        assert forall|i: int| 0 <= i < cs.len() - 1 implies #[trigger] cs[i] == cs.drop_last()[i] by {}
        if errored_entries(cs).len() == 0 {
            assert forall|i: int| 0 <= i < cs.len() implies (#[trigger] cs[i]).status@ != "error"@ by {
                if i < cs.len() - 1 {
                    assert(cs[i] == cs.drop_last()[i]);
                }
            }
        } else if errored_entries(cs.drop_last()).len() > 0 {
            let j = choose|j: int|
                0 <= j < cs.drop_last().len() && (#[trigger] cs.drop_last()[j]).status@ == "error"@;
            assert(cs[j] == cs.drop_last()[j]);
        } else {
            assert(cs[cs.len() - 1].status@ == "error"@);
        }
    }
}

/// A polled generation fails when any clip errored (moderation or an
/// internal failure), naming each such clip and why.
pub fn check_generation_errors(clips: &Vec<ClipStatus>) -> (r: Result<(), CliError>)
    ensures
        errored_entries(clips@).len() == 0 ==> r is Ok,
        errored_entries(clips@).len() > 0 ==> (r matches Err(CliError::GenerationFailed(m)) && m@
            == "clip(s) errored: "@ + join(errored_entries(clips@), "; "@)),
{
    let mut failed: Vec<String> = Vec::new();
    let mut i: usize = 0;
    assert(clips@.take(0) =~= Seq::<ClipStatus>::empty());
    while i < clips.len()
        invariant
            0 <= i <= clips@.len(),
            string_views(failed@) == errored_entries(clips@.take(i as int)),
        decreases clips@.len() - i,
    {
        assert(clips@.take(i + 1).drop_last() =~= clips@.take(i as int));
        assert(clips@.take(i + 1).last() == clips@[i as int]);
        let c = &clips[i];
        if str_eq(c.status.as_str(), "error") {
            let reason: String = match &c.error_message {
                Some(m) => m.clone(),
                None => match &c.error_type {
                    Some(t) => t.clone(),
                    None => "unknown error".to_string(),
                },
            };
            let mut entry = concat3(c.id.as_str(), " (", reason.as_str());
            push_str(&mut entry, ")");
            let ghost before = failed@;
            failed.push(entry);
            assert(string_views(failed@) =~= string_views(before).push(entry@));
        }
        i = i + 1;
    }
    assert(clips@.take(clips@.len() as int) =~= clips@);
    if failed.len() == 0 {
        return Ok(());
    }
    let joined = join_strings(&failed, "; ");
    Err(CliError::GenerationFailed(concat2("clip(s) errored: ", joined.as_str())))
}

/// The hint printed after submitting without waiting.
pub fn status_hint(ids: &Vec<String>) -> (r: String)
    ensures
        r@ == "\nUse `suno status "@ + join(string_views(ids@), " "@) + "` to check progress"@,
{
    let joined = join_strings(ids, " ");
    concat3("\nUse `suno status ", joined.as_str(), "` to check progress")
}

// ---------------------------------------------------------------------
// Model choice
// ---------------------------------------------------------------------
/// The model: the flag, else the configured default (`parsed_default` is
/// that name parsed as a model, `None` when it names none).
pub fn resolve_model(
    flag: Option<ModelVersion>,
    parsed_default: Option<ModelVersion>,
    default_name: &str,
) -> (r: Result<ModelVersion, CliError>)
    ensures
        match flag {
            Some(m) => r == Ok::<ModelVersion, CliError>(m),
            None => match parsed_default {
                Some(m) => r == Ok::<ModelVersion, CliError>(m),
                None => r matches Err(CliError::Config(msg)) && msg@ == "config default_model '"@
                    + default_name@
                    + "' is not a valid --model value — fix it with `suno config set default_model v5.5`"@,
            },
        },
{
    match flag {
        Some(m) => Ok(m),
        None => match parsed_default {
            Some(m) => Ok(m),
            None => Err(
                CliError::Config(
                    concat3(
                        "config default_model '",
                        default_name,
                        "' is not a valid --model value — fix it with `suno config set default_model v5.5`",
                    ),
                ),
            ),
        },
    }
}

// ---------------------------------------------------------------------
// `suno auth`
// ---------------------------------------------------------------------
/// The authentication step to perform.
#[derive(Debug)]
pub enum AuthAction {
    /// Remove stored authentication.
    Logout,
    /// Mint a fresh JWT from the stored Clerk cookie.
    Refresh,
    /// Read the session from the browsers.
    BrowserLogin,
    /// Use a pasted cookie.
    Cookie(String),
    /// Use a pasted JWT.
    Jwt(String),
    /// Only verify what is stored.
    Verify,
}

/// The plan of `suno auth`: the step, and whether the state is saved once
/// it verifies.
#[derive(Debug)]
pub struct AuthPlan {
    pub action: AuthAction,
    pub save_after_verify: bool,
}

/// The step `suno auth` performs.
pub open spec fn auth_action(args: AuthArgs, state: AuthState) -> AuthAction {
    if args.logout {
        AuthAction::Logout
    } else if args.refresh {
        AuthAction::Refresh
    } else if should_login(args, state) {
        AuthAction::BrowserLogin
    } else if args.cookie is Some {
        AuthAction::Cookie(args.cookie->0)
    } else if args.jwt is Some {
        AuthAction::Jwt(args.jwt->0)
    } else {
        AuthAction::Verify
    }
}

/// A browser login happens when asked for, or when nothing is given and
/// nothing is stored.
pub open spec fn should_login(args: AuthArgs, state: AuthState) -> bool {
    args.login || (!(args.login || args.refresh || args.jwt is Some || args.cookie is Some)
        && state.jwt is None && state.clerk_client_cookie is None)
}

pub fn plan_auth(args: &AuthArgs, state: &AuthState) -> (r: AuthPlan)
    ensures
        r.action == auth_action(*args, *state),
        !args.logout && !args.refresh && !args.login && args.cookie is Some ==> r.action
            == AuthAction::Cookie(args.cookie->0),
        !args.logout && !args.refresh && !args.login && args.cookie is None && args.jwt is Some
            ==> r.action == AuthAction::Jwt(args.jwt->0),
        args.logout ==> r.action == AuthAction::Logout,
        !args.logout ==> {
            &&& args.refresh ==> r.action == AuthAction::Refresh
            &&& !args.refresh && should_login(*args, *state) ==> r.action == AuthAction::BrowserLogin
            &&& !args.refresh && !should_login(*args, *state) && args.cookie is Some ==> r.action
                == AuthAction::Cookie(args.cookie->0)
            &&& !args.refresh && !should_login(*args, *state) && args.cookie is None
                && args.jwt is Some ==> r.action == AuthAction::Jwt(args.jwt->0)
            &&& !args.refresh && !should_login(*args, *state) && args.cookie is None
                && args.jwt is None ==> r.action == AuthAction::Verify
            &&& r.save_after_verify == (args.refresh || should_login(*args, *state)
                || args.cookie is Some || args.jwt is Some || args.device is Some)
        },
{
    if args.logout {
        return AuthPlan { action: AuthAction::Logout, save_after_verify: false };
    }
    let has_explicit = args.login || args.refresh || args.jwt.is_some() || args.cookie.is_some();
    let login = args.login || (!has_explicit && state.jwt.is_none()
        && state.clerk_client_cookie.is_none());
    let save = args.refresh || login || args.cookie.is_some() || args.jwt.is_some()
        || args.device.is_some();
    let action = if args.refresh {
        AuthAction::Refresh
    } else if login {
        AuthAction::BrowserLogin
    } else {
        match &args.cookie {
            Some(c) => AuthAction::Cookie(c.clone()),
            None => match &args.jwt {
                Some(j) => AuthAction::Jwt(j.clone()),
                None => AuthAction::Verify,
            },
        }
    };
    AuthPlan { action, save_after_verify: save }
}

/// Explicit input decides the step, whatever is stored: `--logout` wins,
/// then `--refresh`, then `--login`; otherwise a pasted `--cookie` is used
/// as given, else a pasted `--jwt`. The browsers are searched only on
/// `--login`, or when nothing at all is given and nothing is stored.
pub proof fn lemma_explicit_auth_input_decides(args: AuthArgs, state: AuthState)
    ensures
        args.logout ==> auth_action(args, state) == AuthAction::Logout,
        !args.logout && args.refresh ==> auth_action(args, state) == AuthAction::Refresh,
        !args.logout && !args.refresh && args.login ==> auth_action(args, state) == AuthAction::BrowserLogin,
        !args.logout && !args.refresh && !args.login && args.cookie is Some ==> auth_action(args, state)
            == AuthAction::Cookie(args.cookie->0),
        !args.logout && !args.refresh && !args.login && args.cookie is None && args.jwt is Some
            ==> auth_action(args, state) == AuthAction::Jwt(args.jwt->0),
        auth_action(args, state) == AuthAction::BrowserLogin ==> args.login || (args.cookie is None
            && args.jwt is None && !args.refresh && state.jwt is None && state.clerk_client_cookie is None),
{
}

/// The Clerk cookie a refresh needs.
pub fn refresh_cookie(state: &AuthState) -> (r: Result<String, CliError>)
    ensures
        match state.clerk_client_cookie {
            Some(c) => r matches Ok(v) && v@ == c@,
            None => r matches Err(CliError::Config(m)) && m@
                == "no Clerk session cookie stored — run `suno auth --login` first"@,
        },
{
    match &state.clerk_client_cookie {
        Some(c) => Ok(c.clone()),
        None => Err(CliError::Config("no Clerk session cookie stored — run `suno auth --login` first".to_string())),
    }
}

/// Records a refreshed session.
pub fn apply_refresh(state: &mut AuthState, session_id: String, jwt: String)
    ensures
        final(state).session_id == Some(session_id),
        final(state).jwt == Some(jwt),
        final(state).cookie == old(state).cookie,
        final(state).device_id == old(state).device_id,
        final(state).clerk_client_cookie == old(state).clerk_client_cookie,
{
    state.session_id = Some(session_id);
    state.jwt = Some(jwt);
}

/// Records a login from browser or pasted cookies. The device id is the
/// one found with the cookies, else the stored one, else `fresh_device`.
pub fn apply_login(
    state: &mut AuthState,
    auth: BrowserAuth,
    session_id: String,
    jwt: String,
    fresh_device: String,
)
    ensures
        final(state).cookie == Some(auth.cookie_header),
        final(state).clerk_client_cookie == Some(auth.clerk_client_cookie),
        final(state).session_id == Some(session_id),
        final(state).jwt == Some(jwt),
        final(state).device_id == match auth.device_id {
            Some(d) => Some(d),
            None => match old(state).device_id {
                Some(d) => Some(d),
                None => Some(fresh_device),
            },
        },
{
    let BrowserAuth { clerk_client_cookie, cookie_header, device_id } = auth;
    state.cookie = Some(cookie_header);
    state.clerk_client_cookie = Some(clerk_client_cookie);
    state.session_id = Some(session_id);
    state.jwt = Some(jwt);
    let old_device = state.device_id.take();
    state.device_id = match device_id {
        Some(d) => Some(d),
        None => match old_device {
            Some(d) => Some(d),
            None => Some(fresh_device),
        },
    };
}

/// Records a pasted JWT; a device id is created when none is stored.
pub fn apply_jwt(state: &mut AuthState, jwt: String, fresh_device: String)
    ensures
        final(state).jwt == Some(jwt),
        final(state).device_id == match old(state).device_id {
            Some(d) => Some(d),
            None => Some(fresh_device),
        },
        final(state).cookie == old(state).cookie,
        final(state).session_id == old(state).session_id,
        final(state).clerk_client_cookie == old(state).clerk_client_cookie,
{
    state.jwt = Some(jwt);
    if state.device_id.is_none() {
        state.device_id = Some(fresh_device);
    }
}

/// An explicit `--device` replaces the stored device id.
pub fn apply_device(state: &mut AuthState, device: Option<String>)
    ensures
        final(state).device_id == match device {
            Some(d) => Some(d),
            None => old(state).device_id,
        },
        final(state).jwt == old(state).jwt,
        final(state).cookie == old(state).cookie,
        final(state).session_id == old(state).session_id,
        final(state).clerk_client_cookie == old(state).clerk_client_cookie,
{
    match device {
        Some(d) => state.device_id = Some(d),
        None => {},
    }
}

// ---------------------------------------------------------------------
// `suno delete`, `set`, `publish`, `download`, `list`
// ---------------------------------------------------------------------
/// Deleting needs ids, and an explicit `-y` (restoring needs none).
pub fn check_delete(args: &DeleteArgs, restore: bool) -> (r: Result<(), CliError>)
    ensures
        args.ids@.len() == 0 ==> (r matches Err(CliError::InvalidInput(m)) && m@
            == "no clip IDs provided"@),
        args.ids@.len() > 0 && !args.yes && !restore ==> (r matches Err(CliError::InvalidInput(m))
            && m@ == "delete requires -y to confirm — re-run: suno delete "@ + join(
            string_views(args.ids@),
            " "@,
        ) + " -y"@),
        args.ids@.len() > 0 && (args.yes || restore) ==> r is Ok,
{
    if args.ids.len() == 0 {
        return Err(CliError::InvalidInput("no clip IDs provided".to_string()));
    }
    if !args.yes && !restore {
        let joined = join_strings(&args.ids, " ");
        return Err(
            CliError::InvalidInput(
                concat3("delete requires -y to confirm — re-run: suno delete ", joined.as_str(), " -y"),
            ),
        );
    }
    Ok(())
}

/// The metadata update for `suno set`, given the lyrics read (from the
/// flag or the file).
pub fn set_metadata_request(args: &SetArgs, lyrics: Option<String>) -> (r: SetMetadataRequest)
    ensures
        opt_view(r.title) == opt_view(args.title),
        r.lyrics == lyrics,
        opt_view(r.caption) == opt_view(args.caption),
        r.remove_image_cover == (if args.remove_cover {
            Some(true)
        } else {
            None
        }),
        r.remove_video_cover is None,
{
    SetMetadataRequest {
        title: match &args.title {
            Some(t) => Some(t.clone()),
            None => None,
        },
        lyrics,
        caption: match &args.caption {
            Some(c) => Some(c.clone()),
            None => None,
        },
        remove_image_cover: if args.remove_cover {
            Some(true)
        } else {
            None
        },
        remove_video_cover: None,
    }
}

/// The fields `suno set` changes, in the order title, lyrics, caption, cover.
pub open spec fn updated_fields_spec(args: SetArgs) -> Seq<Seq<char>> {
    let a = if args.title is Some {
        seq!["title"@]
    } else {
        Seq::empty()
    };
    let b = if args.lyrics is Some || args.lyrics_file is Some {
        a.push("lyrics"@)
    } else {
        a
    };
    let c = if args.caption is Some {
        b.push("caption"@)
    } else {
        b
    };
    if args.remove_cover {
        c.push("cover"@)
    } else {
        c
    }
}

pub fn updated_fields(args: &SetArgs) -> (r: Vec<String>)
    ensures
        string_views(r@) == updated_fields_spec(*args),
{
    let mut changes: Vec<String> = Vec::new();
    if args.title.is_some() {
        changes.push("title".to_string());
    }
    if args.lyrics.is_some() || args.lyrics_file.is_some() {
        changes.push("lyrics".to_string());
    }
    if args.caption.is_some() {
        changes.push("caption".to_string());
    }
    if args.remove_cover {
        changes.push("cover".to_string());
    }
    assert(string_views(changes@) =~= updated_fields_spec(*args));
    changes
}

/// `public` or `private`.
pub fn visibility_word(is_public: bool) -> (r: &'static str)
    ensures
        r@ == (if is_public {
            "public"@
        } else {
            "private"@
        }),
{
    if is_public {
        "public"
    } else {
        "private"
    }
}

/// Whether `id` is among `ids`.
pub fn contains_id(ids: &Vec<String>, id: &str) -> (r: bool)
    ensures
        r == string_views(ids@).contains(id@),
{
    let mut i: usize = 0;
    while i < ids.len()
        invariant
            0 <= i <= ids@.len(),
            forall|k: int| 0 <= k < i ==> ids@[k]@ != id@,
        decreases ids@.len() - i,
    {
        if str_eq(ids[i].as_str(), id) {
            assert(string_views(ids@)[i as int] == id@);
            return true;
        }
        i = i + 1;
    }
    assert forall|k: int| 0 <= k < string_views(ids@).len() implies string_views(ids@)[k] != id@ by {
        assert(string_views(ids@)[k] == ids@[k]@);
    }
    false
}

/// The requested ids that the feed did not return, in request order.
pub open spec fn missing_ids_spec(ids: Seq<Seq<char>>, found: Seq<Seq<char>>) -> Seq<Seq<char>> {
    ids.filter(|id: Seq<char>| !found.contains(id))
}

pub fn missing_ids(ids: &Vec<String>, found: &Vec<String>) -> (r: Vec<String>)
    ensures
        string_views(r@) == missing_ids_spec(string_views(ids@), string_views(found@)),
{
    let ghost f = |id: Seq<char>| !string_views(found@).contains(id);
    let mut out: Vec<String> = Vec::new();
    let mut i: usize = 0;
    assert(string_views(ids@).take(0) =~= Seq::<Seq<char>>::empty());
    while i < ids.len()
        invariant
            0 <= i <= ids@.len(),
            f == (|id: Seq<char>| !string_views(found@).contains(id)),
            string_views(out@) == string_views(ids@).take(i as int).filter(f),
        decreases ids@.len() - i,
    {
        let ghost pre = string_views(ids@).take(i as int);
        let ghost cur = string_views(ids@).take(i + 1);
        assert(cur.drop_last() =~= pre);
        assert(cur.last() == ids@[i as int]@);
        reveal_with_fuel(Seq::<_>::filter, 1);
        if !contains_id(found, ids[i].as_str()) {
            let ghost before = out@;
            out.push(ids[i].clone());
            assert(string_views(out@) =~= string_views(before).push(ids@[i as int]@));
        }
        i = i + 1;
    }
    assert(string_views(ids@).take(ids@.len() as int) =~= string_views(ids@));
    out
}

/// The outcome of a download batch: all failed is an error; otherwise
/// `success`, or `partial_success` when some failed.
pub fn download_status(downloaded: usize, failed: usize) -> (r: Result<&'static str, CliError>)
    ensures
        downloaded == 0 && failed > 0 ==> (r matches Err(CliError::Download(m)) && m@ == "all "@
            + decimal(failed as nat) + " download(s) failed"@),
        !(downloaded == 0 && failed > 0) ==> (r matches Ok(s) && s@ == (if failed == 0 {
            "success"@
        } else {
            "partial_success"@
        })),
{
    if downloaded == 0 && failed > 0 {
        let n = decimal_string(failed as u128);
        return Err(CliError::Download(concat3("all ", n.as_str(), " download(s) failed")));
    }
    if failed == 0 {
        Ok("success")
    } else {
        Ok("partial_success")
    }
}

/// The envelope status of a listing: `no_results` when empty.
pub fn listing_status(n_clips: usize) -> (r: &'static str)
    ensures
        r@ == (if n_clips == 0 {
            "no_results"@
        } else {
            "success"@
        }),
{
    if n_clips == 0 {
        "no_results"
    } else {
        "success"
    }
}

} // verus!
