//! Dependency diagnostics: "can this tool actually work right now?"
//! Each check is judged here from what the caller observed (files,
//! responses); network checks are warn-only, and the run fails only when
//! some check fails.
use vstd::prelude::*;
use crate::auth::{expired_at, AuthState};
use crate::errors::{error_text, CliError};
use crate::text::{concat2, concat3, decimal, decimal_string, push_str};
use crate::types::{plan_name_spec, BillingInfo, CaptchaCheckResponse};

verus! {

/// Outcome of one check.
#[derive(Debug, Clone, Copy, PartialEq, Eq, Structural)]
pub enum CheckStatus {
    Pass,
    Warn,
    Fail,
}

/// One diagnostic.
#[derive(Debug)]
pub struct DoctorCheck {
    pub name: String,
    pub status: CheckStatus,
    pub detail: String,
    pub suggestion: Option<String>,
}

/// A check as plain text: name, status, detail, suggestion.
pub type CheckView = (Seq<char>, CheckStatus, Seq<char>, Option<Seq<char>>);

pub open spec fn check_view(c: DoctorCheck) -> CheckView {
    (
        c.name@,
        c.status,
        c.detail@,
        match c.suggestion {
            Some(s) => Some(s@),
            None => None,
        },
    )
}

pub open spec fn checks_view(s: Seq<DoctorCheck>) -> Seq<CheckView> {
    s.map_values(|c: DoctorCheck| check_view(c))
}

impl DoctorCheck {
    pub fn pass(name: &str, detail: String) -> (r: Self)
        ensures
            check_view(r) == (name@, CheckStatus::Pass, detail@, None::<Seq<char>>),
    {
        DoctorCheck { name: name.to_string(), status: CheckStatus::Pass, detail, suggestion: None }
    }

    pub fn warn(name: &str, detail: String, suggestion: Option<String>) -> (r: Self)
        ensures
            check_view(r) == (
                name@,
                CheckStatus::Warn,
                detail@,
                match suggestion {
                    Some(s) => Some(s@),
                    None => None,
                },
            ),
    {
        DoctorCheck { name: name.to_string(), status: CheckStatus::Warn, detail, suggestion }
    }

    pub fn fail(name: &str, detail: String, suggestion: String) -> (r: Self)
        ensures
            check_view(r) == (name@, CheckStatus::Fail, detail@, Some(suggestion@)),
    {
        DoctorCheck {
            name: name.to_string(),
            status: CheckStatus::Fail,
            detail,
            suggestion: Some(suggestion),
        }
    }
}

fn push_check(checks: &mut Vec<DoctorCheck>, c: DoctorCheck)
    ensures
        checks_view(final(checks)@) == checks_view(old(checks)@).push(check_view(c)),
{
    let ghost before = checks@;
    let ghost cv = check_view(c);
    checks.push(c);
    assert(checks_view(checks@) =~= checks_view(before).push(cv));
}

/// Config file presence and parse.
pub fn check_config(
    checks: &mut Vec<DoctorCheck>,
    path: &str,
    exists: bool,
    load: Result<(), String>,
)
    ensures
        checks_view(final(checks)@) == checks_view(old(checks)@) + seq![
            if exists {
                ("config_file"@, CheckStatus::Pass, path@, None)
            } else {
                (
                    "config_file"@,
                    CheckStatus::Warn,
                    path@ + " not found (defaults apply)"@,
                    None,
                )
            },
            match load {
                Ok(_) => (
                    "config_parse"@,
                    CheckStatus::Pass,
                    "defaults < file < SUNO_* env merge cleanly"@,
                    None,
                ),
                Err(e) => (
                    "config_parse"@,
                    CheckStatus::Fail,
                    e@,
                    Some("Fix or delete "@ + path@),
                ),
            },
        ],
{
    let ghost start = checks_view(checks@);
    if exists {
        push_check(checks, DoctorCheck::pass("config_file", path.to_string()));
    } else {
        push_check(
            checks,
            DoctorCheck::warn("config_file", concat2(path, " not found (defaults apply)"), None),
        );
    }
    match load {
        Ok(_) => push_check(
            checks,
            DoctorCheck::pass("config_parse", "defaults < file < SUNO_* env merge cleanly".to_string()),
        ),
        Err(e) => push_check(
            checks,
            DoctorCheck::fail("config_parse", e, concat2("Fix or delete ", path)),
        ),
    }
    assert(checks_view(checks@) =~= start + seq![
        checks_view(checks@)[start.len() as int],
        checks_view(checks@)[start.len() as int + 1],
    ]);
}

/// The checks for the auth file and JWT freshness at time `now`.
pub open spec fn auth_checks(
    load: Result<AuthState, CliError>,
    auth_path: Seq<char>,
    now: u64,
) -> Seq<CheckView> {
    match load {
        Err(CliError::AuthMissing) => seq![
            (
                "auth_file"@,
                CheckStatus::Fail,
                auth_path + " not found"@,
                Some("Run `suno auth --login`"@),
            ),
        ],
        Err(e) => seq![
            (
                "auth_file"@,
                CheckStatus::Fail,
                error_text(e),
                Some("Run `suno auth --login` to rewrite it"@),
            ),
        ],
        Ok(state) => seq![("auth_file"@, CheckStatus::Pass, auth_path, None)].push(
            if state.jwt is None {
                if state.clerk_client_cookie is Some {
                    (
                        "jwt"@,
                        CheckStatus::Warn,
                        "no JWT stored — will be minted from the Clerk session on next call"@,
                        None,
                    )
                } else {
                    (
                        "jwt"@,
                        CheckStatus::Fail,
                        "no JWT and no Clerk session cookie stored"@,
                        Some("Run `suno auth --login`"@),
                    )
                }
            } else if expired_at(state, now) {
                if state.clerk_client_cookie is Some {
                    (
                        "jwt"@,
                        CheckStatus::Warn,
                        "stale (or within Suno's 30-min staleness window) — auto-refreshes via Clerk on next call"@,
                        None,
                    )
                } else {
                    (
                        "jwt"@,
                        CheckStatus::Fail,
                        "expired, and no Clerk session cookie to refresh with"@,
                        Some("Run `suno auth --login`"@),
                    )
                }
            } else {
                ("jwt"@, CheckStatus::Pass, "present and fresh"@, None)
            },
        ),
    }
}

/// With the auth file loaded, the checks are the file check (a pass) and
/// one `jwt` check. A stored Clerk cookie rules out a failure of the `jwt`
/// check: an expired or missing JWT is then only a warning, since it is
/// minted again from the Clerk session. Without a Clerk cookie, a missing
/// or expired JWT fails; a fresh JWT passes either way.
pub proof fn lemma_clerk_cookie_rules_out_jwt_failure(state: AuthState, auth_path: Seq<char>, now: u64)
    ensures
        ({
            let cs = auth_checks(Ok::<AuthState, CliError>(state), auth_path, now);
            &&& cs.len() == 2
            &&& cs[0].0 == "auth_file"@ && cs[0].1 == CheckStatus::Pass
            &&& cs[1].0 == "jwt"@
            &&& state.clerk_client_cookie is Some ==> cs[1].1 != CheckStatus::Fail
            &&& state.clerk_client_cookie is Some && state.jwt is Some && expired_at(state, now) ==> cs[1].1
                == CheckStatus::Warn && cs[1].3 is None
            &&& state.clerk_client_cookie is None && (state.jwt is None || expired_at(state, now))
                ==> cs[1].1 == CheckStatus::Fail
            &&& state.jwt is Some && !expired_at(state, now) ==> cs[1].1 == CheckStatus::Pass
        }),
{
}

/// Auth file and JWT freshness at time `now`, no network. Returns the
/// state when it is usable, so the network checks can build a client.
pub fn check_auth(
    checks: &mut Vec<DoctorCheck>,
    load: Result<AuthState, CliError>,
    auth_path: &str,
    now: u64,
) -> (r: Option<AuthState>)
    ensures
        checks_view(final(checks)@) == checks_view(old(checks)@) + auth_checks(load, auth_path@, now),
        match load {
            Ok(state) => (r is Some <==> (state.jwt is Some && !expired_at(state, now))
                || state.clerk_client_cookie is Some) && (r matches Some(s) ==> s == state),
            Err(_) => r is None,
        },
{
    let ghost start = checks_view(checks@);
    let ghost l = load;
    let state = match load {
        Ok(state) => {
            push_check(checks, DoctorCheck::pass("auth_file", auth_path.to_string()));
            state
        },
        Err(CliError::AuthMissing) => {
            push_check(
                checks,
                DoctorCheck::fail(
                    "auth_file",
                    concat2(auth_path, " not found"),
                    "Run `suno auth --login`".to_string(),
                ),
            );
            assert(checks_view(checks@) =~= start + auth_checks(l, auth_path@, now));
            return None;
        },
        Err(e) => {
            let t = e.to_string();
            push_check(
                checks,
                DoctorCheck::fail("auth_file", t, "Run `suno auth --login` to rewrite it".to_string()),
            );
            assert(checks_view(checks@) =~= start + auth_checks(l, auth_path@, now));
            return None;
        },
    };
    let ghost mid = checks_view(checks@);
    let has_cookie = state.clerk_client_cookie.is_some();
    if state.jwt.is_none() {
        if has_cookie {
            push_check(
                checks,
                DoctorCheck::warn(
                    "jwt",
                    "no JWT stored — will be minted from the Clerk session on next call".to_string(),
                    None,
                ),
            );
        } else {
            push_check(
                checks,
                DoctorCheck::fail(
                    "jwt",
                    "no JWT and no Clerk session cookie stored".to_string(),
                    "Run `suno auth --login`".to_string(),
                ),
            );
            assert(checks_view(checks@) =~= start + auth_checks(l, auth_path@, now));
            return None;
        }
    } else if state.is_jwt_expired_at(now) {
        if has_cookie {
            push_check(
                checks,
                DoctorCheck::warn(
                    "jwt",
                    "stale (or within Suno's 30-min staleness window) — auto-refreshes via Clerk on next call".to_string(),
                    None,
                ),
            );
        } else {
            push_check(
                checks,
                DoctorCheck::fail(
                    "jwt",
                    "expired, and no Clerk session cookie to refresh with".to_string(),
                    "Run `suno auth --login`".to_string(),
                ),
            );
            assert(checks_view(checks@) =~= start + auth_checks(l, auth_path@, now));
            return None;
        }
    } else {
        push_check(checks, DoctorCheck::pass("jwt", "present and fresh".to_string()));
    }
    assert(checks_view(checks@) =~= start + auth_checks(l, auth_path@, now));
    Some(state)
}

/// Whether a Chrome binary was located; warns (not fails) when missing.
pub fn check_chrome(checks: &mut Vec<DoctorCheck>, located: Result<String, String>) -> (r: bool)
    ensures
        r == located is Ok,
        checks_view(final(checks)@) == checks_view(old(checks)@).push(
            match located {
                Ok(p) => ("chrome"@, CheckStatus::Pass, p@, None),
                Err(e) => (
                    "chrome"@,
                    CheckStatus::Warn,
                    e@,
                    Some(
                        "Only needed when Suno captcha-gates this account — install Chrome or set SUNO_CHROME_PATH"@,
                    ),
                ),
            },
        ),
{
    match located {
        Ok(path) => {
            push_check(checks, DoctorCheck::pass("chrome", path));
            true
        },
        Err(e) => {
            push_check(
                checks,
                DoctorCheck::warn(
                    "chrome",
                    e,
                    Some(
                        "Only needed when Suno captcha-gates this account — install Chrome or set SUNO_CHROME_PATH".to_string(),
                    ),
                ),
            );
            false
        },
    }
}

/// Whether a solver Chrome left over from an earlier run still listens.
pub fn check_solver_chrome(checks: &mut Vec<DoctorCheck>, port: Option<u16>)
    ensures
        checks_view(final(checks)@) == checks_view(old(checks)@).push(
            match port {
                Some(p) => (
                    "solver_chrome"@,
                    CheckStatus::Warn,
                    "something is still listening on solver port "@ + decimal(p as nat)
                        + " — suno normally kills its Chrome on exit, so this is a crashed run's leftover or an unrelated service"@,
                    Some(
                        "Solves never attach to it (they pick a fresh port), so it's inert; quit it via Activity Monitor (Chrome with --remote-debugging-port="@
                            + decimal(p as nat) + ") to reclaim memory"@,
                    ),
                ),
                None => ("solver_chrome"@, CheckStatus::Pass, "no leftover instance"@, None),
            },
        ),
{
    match port {
        Some(p) => {
            let digits = decimal_string(p as u128);
            let detail = concat3(
                "something is still listening on solver port ",
                digits.as_str(),
                " — suno normally kills its Chrome on exit, so this is a crashed run's leftover or an unrelated service",
            );
            let suggestion = concat3(
                "Solves never attach to it (they pick a fresh port), so it's inert; quit it via Activity Monitor (Chrome with --remote-debugging-port=",
                digits.as_str(),
                ") to reclaim memory",
            );
            push_check(checks, DoctorCheck::warn("solver_chrome", detail, Some(suggestion)));
        },
        None => push_check(
            checks,
            DoctorCheck::pass("solver_chrome", "no leftover instance".to_string()),
        ),
    }
}

/// Building an authenticated client: an auth rejection is a setup failure
/// (fail); anything else a warning. Returns whether a client is available.
pub fn check_client(checks: &mut Vec<DoctorCheck>, built: Result<(), CliError>) -> (r: bool)
    ensures
        r == built is Ok,
        match built {
            Ok(_) => checks_view(final(checks)@) == checks_view(old(checks)@),
            Err(e) => checks_view(final(checks)@) == checks_view(old(checks)@).push(
                if e is AuthExpired || e is AuthMissing {
                    (
                        "studio_api"@,
                        CheckStatus::Fail,
                        "authentication rejected: "@ + error_text(e),
                        Some(
                            "Run `suno auth --refresh`, then `suno auth --login` if that fails"@,
                        ),
                    )
                } else {
                    (
                        "studio_api"@,
                        CheckStatus::Warn,
                        "could not build an authenticated client: "@ + error_text(e),
                        Some(
                            "Run `suno auth --refresh`, then `suno auth --login` if that fails"@,
                        ),
                    )
                },
            ),
        },
{
    match built {
        Ok(_) => true,
        Err(e) => {
            let t = e.to_string();
            match e {
                CliError::AuthExpired | CliError::AuthMissing => push_check(
                    checks,
                    DoctorCheck::fail(
                        "studio_api",
                        concat2("authentication rejected: ", t.as_str()),
                        "Run `suno auth --refresh`, then `suno auth --login` if that fails".to_string(),
                    ),
                ),
                _ => push_check(
                    checks,
                    DoctorCheck::warn(
                        "studio_api",
                        concat2("could not build an authenticated client: ", t.as_str()),
                        Some(
                            "Run `suno auth --refresh`, then `suno auth --login` if that fails".to_string(),
                        ),
                    ),
                ),
            }
            false
        },
    }
}

/// API reachability and credits, from the billing answer.
pub fn check_billing(checks: &mut Vec<DoctorCheck>, billing: &Result<BillingInfo, CliError>)
    ensures
        checks_view(final(checks)@) == checks_view(old(checks)@) + match *billing {
            Ok(info) => seq![
                (
                    "studio_api"@,
                    CheckStatus::Pass,
                    "reachable — plan "@ + plan_name_spec(info),
                    None,
                ),
                if info.total_credits_left > 0 {
                    (
                        "credits"@,
                        CheckStatus::Pass,
                        decimal(info.total_credits_left as nat)
                            + " left (v5.5 generation ≈ 70 per call; `lyrics` is free)"@,
                        None,
                    )
                } else {
                    (
                        "credits"@,
                        CheckStatus::Warn,
                        "0 credits left — generation will fail"@,
                        Some("Top up or wait for the plan refill at suno.com"@),
                    )
                },
            ],
            Err(e) => seq![
                (
                    "studio_api"@,
                    CheckStatus::Warn,
                    "unreachable: "@ + error_text(e),
                    Some("Check your network; Suno itself may be down"@),
                ),
            ],
        },
{
    let ghost start = checks_view(checks@);
    match billing {
        Ok(info) => {
            let plan = info.plan_name();
            push_check(checks, DoctorCheck::pass("studio_api", concat2("reachable — plan ", plan.as_str())));
            if info.total_credits_left > 0 {
                let n = decimal_string(info.total_credits_left as u128);
                push_check(
                    checks,
                    DoctorCheck::pass(
                        "credits",
                        concat2(n.as_str(), " left (v5.5 generation ≈ 70 per call; `lyrics` is free)"),
                    ),
                );
            } else {
                push_check(
                    checks,
                    DoctorCheck::warn(
                        "credits",
                        "0 credits left — generation will fail".to_string(),
                        Some("Top up or wait for the plan refill at suno.com".to_string()),
                    ),
                );
            }
            assert(checks_view(checks@) =~= start + seq![
                checks_view(checks@)[start.len() as int],
                checks_view(checks@)[start.len() as int + 1],
            ]);
        },
        Err(e) => {
            let t = e.to_string();
            push_check(
                checks,
                DoctorCheck::warn(
                    "studio_api",
                    concat2("unreachable: ", t.as_str()),
                    Some("Check your network; Suno itself may be down".to_string()),
                ),
            );
            assert(checks_view(checks@) =~= start + seq![checks_view(checks@)[start.len() as int]]);
        },
    }
}

/// The captcha preflight: a required captcha with no Chrome to solve it
/// is a setup failure.
pub fn check_captcha(
    checks: &mut Vec<DoctorCheck>,
    preflight: &Result<CaptchaCheckResponse, CliError>,
    chrome_available: bool,
)
    ensures
        checks_view(final(checks)@) == checks_view(old(checks)@).push(
            match *preflight {
                Ok(resp) => if resp.required && !chrome_available {
                    (
                        "captcha_preflight"@,
                        CheckStatus::Fail,
                        "required: true, but no Chrome/Chromium is available to solve it"@,
                        Some("Install Google Chrome or set SUNO_CHROME_PATH"@),
                    )
                } else if resp.required {
                    (
                        "captcha_preflight"@,
                        CheckStatus::Pass,
                        "required: true — generation will pilot Chrome to solve hCaptcha"@,
                        None,
                    )
                } else {
                    (
                        "captcha_preflight"@,
                        CheckStatus::Pass,
                        "required: false — solver will be skipped"@,
                        None,
                    )
                },
                Err(e) => (
                    "captcha_preflight"@,
                    CheckStatus::Warn,
                    "preflight failed: "@ + error_text(e) + " — generation falls back to solving"@,
                    None,
                ),
            },
        ),
{
    match preflight {
        Ok(resp) => {
            if resp.required && !chrome_available {
                push_check(
                    checks,
                    DoctorCheck::fail(
                        "captcha_preflight",
                        "required: true, but no Chrome/Chromium is available to solve it".to_string(),
                        "Install Google Chrome or set SUNO_CHROME_PATH".to_string(),
                    ),
                );
            } else {
                let detail = if resp.required {
                    "required: true — generation will pilot Chrome to solve hCaptcha".to_string()
                } else {
                    "required: false — solver will be skipped".to_string()
                };
                push_check(checks, DoctorCheck::pass("captcha_preflight", detail));
            }
        },
        Err(e) => {
            let t = e.to_string();
            push_check(
                checks,
                DoctorCheck::warn(
                    "captcha_preflight",
                    concat3("preflight failed: ", t.as_str(), " — generation falls back to solving"),
                    None,
                ),
            );
        },
    }
}

// ---------------------------------------------------------------------
// The report
// ---------------------------------------------------------------------
/// How many checks ended with each status.
#[derive(Debug)]
pub struct DoctorSummary {
    pub pass: usize,
    pub warn: usize,
    pub fail: usize,
}

/// Number of checks with status `st`.
pub open spec fn count_status(s: Seq<DoctorCheck>, st: CheckStatus) -> nat
    decreases s.len(),
{
    if s.len() == 0 {
        0
    } else {
        count_status(s.drop_last(), st) + if s.last().status == st {
            1nat
        } else {
            0nat
        }
    }
}

/// Every check is counted under exactly one status.
pub proof fn lemma_counts_cover_all(s: Seq<DoctorCheck>)
    ensures
        count_status(s, CheckStatus::Pass) + count_status(s, CheckStatus::Warn) + count_status(
            s,
            CheckStatus::Fail,
        ) == s.len(),
    decreases s.len(),
{
    if s.len() > 0 {
        lemma_counts_cover_all(s.drop_last());
    }
}

/// Counts the checks by status.
pub fn summarize(checks: &Vec<DoctorCheck>) -> (r: DoctorSummary)
    ensures
        r.pass == count_status(checks@, CheckStatus::Pass),
        r.warn == count_status(checks@, CheckStatus::Warn),
        r.fail == count_status(checks@, CheckStatus::Fail),
        r.pass + r.warn + r.fail == checks@.len(),
{
    let mut pass: usize = 0;
    let mut warn: usize = 0;
    let mut fail: usize = 0;
    let mut i: usize = 0;
    assert(checks@.take(0) =~= Seq::<DoctorCheck>::empty());
    while i < checks.len()
        invariant
            0 <= i <= checks@.len(),
            pass == count_status(checks@.take(i as int), CheckStatus::Pass),
            warn == count_status(checks@.take(i as int), CheckStatus::Warn),
            fail == count_status(checks@.take(i as int), CheckStatus::Fail),
            pass + warn + fail == i,
        decreases checks@.len() - i,
    {
        proof {
            assert(checks@.take(i + 1).drop_last() =~= checks@.take(i as int));
            assert(checks@.take(i + 1).last() == checks@[i as int]);
        }
        match checks[i].status {
            CheckStatus::Pass => pass = pass + 1,
            CheckStatus::Warn => warn = warn + 1,
            CheckStatus::Fail => fail = fail + 1,
        }
        i = i + 1;
    }
    assert(checks@.take(checks@.len() as int) =~= checks@);
    DoctorSummary { pass, warn, fail }
}

/// The envelope status of a report: `success` without failures,
/// `partial_success` when some passed, else `all_failed`.
pub open spec fn envelope_status_spec(s: DoctorSummary) -> Seq<char> {
    if s.fail == 0 {
        "success"@
    } else if s.pass > 0 {
        "partial_success"@
    } else {
        "all_failed"@
    }
}

pub fn envelope_status(s: &DoctorSummary) -> (r: &'static str)
    ensures
        r@ == envelope_status_spec(*s),
{
    if s.fail == 0 {
        "success"
    } else if s.pass > 0 {
        "partial_success"
    } else {
        "all_failed"
    }
}

/// The run succeeds exactly when no check failed.
pub fn doctor_outcome(s: &DoctorSummary) -> (r: Result<(), CliError>)
    ensures
        s.fail == 0 ==> r is Ok,
        s.fail > 0 ==> (r matches Err(CliError::Config(m)) && m@ == "doctor found failing checks"@),
{
    if s.fail > 0 {
        return Err(CliError::Config("doctor found failing checks".to_string()));
    }
    Ok(())
}

/// The report's status and the run's outcome agree: the envelope says
/// `success` exactly when the run succeeds.
pub proof fn lemma_envelope_matches_outcome(s: DoctorSummary)
    ensures
        (envelope_status_spec(s) == "success"@) <==> s.fail == 0,
{
    reveal_strlit("success");
    reveal_strlit("partial_success");
    reveal_strlit("all_failed");
    if s.fail != 0 {
        if s.pass > 0 {
            assert("partial_success"@.len() != "success"@.len());
        } else {
            assert("all_failed"@.len() != "success"@.len());
        }
    }
}

} // verus!
