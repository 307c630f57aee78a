use suno_cli::auth::AuthState;
use suno_cli::doctor::{
    check_auth, check_billing, check_captcha, check_chrome, check_client, check_config,
    check_solver_chrome, doctor_outcome, envelope_status, summarize, CheckStatus, DoctorCheck,
};
use suno_cli::errors::CliError;
use suno_cli::types::{BillingInfo, CaptchaCheckResponse, SubscriptionType};

const FRESH_JWT: &str = "eyJhbGciOiJIUzI1NiJ9.eyJleHAiOjEwMDAwLCJzdWIiOiJ1In0.c2ln"; // exp 10000

fn state(jwt: Option<&str>, cookie: Option<&str>) -> AuthState {
    AuthState {
        jwt: jwt.map(String::from),
        cookie: None,
        session_id: None,
        device_id: None,
        clerk_client_cookie: cookie.map(String::from),
    }
}

fn billing(total: u64) -> BillingInfo {
    BillingInfo {
        credits: 0,
        total_credits_left: total,
        monthly_usage: 0,
        monthly_limit: 0,
        is_active: true,
        is_past_due: false,
        subscription_type: SubscriptionType::NoPlan(false),
        models: vec![],
        plans: vec![],
        accessible_features: vec![],
        remaster_model_types: vec![],
    }
}

#[test]
fn check_constructors() {
    let p = DoctorCheck::pass("a", "ok".into());
    assert!(p.status == CheckStatus::Pass && p.suggestion.is_none());
    let w = DoctorCheck::warn("b", "meh".into(), Some("try".into()));
    assert!(w.status == CheckStatus::Warn && w.suggestion.as_deref() == Some("try"));
    let f = DoctorCheck::fail("c", "bad".into(), "fix".into());
    assert!(f.status == CheckStatus::Fail && f.suggestion.as_deref() == Some("fix"));
}

#[test]
fn config_checks() {
    let mut checks = Vec::new();
    check_config(&mut checks, "/cfg.toml", false, Err("bad toml".into()));
    assert_eq!(checks.len(), 2);
    assert_eq!(checks[0].status, CheckStatus::Warn);
    assert_eq!(checks[0].detail, "/cfg.toml not found (defaults apply)");
    assert_eq!(checks[1].status, CheckStatus::Fail);
    assert_eq!(checks[1].suggestion.as_deref(), Some("Fix or delete /cfg.toml"));
}

#[test]
fn auth_checks_cover_each_state() {
    let mut checks = Vec::new();
    assert!(check_auth(&mut checks, Err(CliError::AuthMissing), "/a.json", 0).is_none());
    assert_eq!(checks[0].detail, "/a.json not found");

    let mut checks = Vec::new();
    assert!(check_auth(&mut checks, Ok(state(None, None)), "/a.json", 0).is_none());
    assert_eq!(checks[1].status, CheckStatus::Fail);

    let mut checks = Vec::new();
    assert!(check_auth(&mut checks, Ok(state(None, Some("c"))), "/a.json", 0).is_some());
    assert_eq!(checks[1].status, CheckStatus::Warn);

    let mut checks = Vec::new();
    assert!(check_auth(&mut checks, Ok(state(Some(FRESH_JWT), None)), "/a.json", 0).is_some());
    assert_eq!(checks[1].detail, "present and fresh");

    let mut checks = Vec::new();
    assert!(check_auth(&mut checks, Ok(state(Some(FRESH_JWT), None)), "/a.json", 9000).is_none());
    assert_eq!(checks[1].detail, "expired, and no Clerk session cookie to refresh with");

    let mut checks = Vec::new();
    assert!(check_auth(&mut checks, Err(CliError::Io("denied".into())), "/a.json", 0).is_none());
    assert_eq!(checks[0].detail, "I/O error: denied");
}

#[test]
fn chrome_and_solver_checks() {
    let mut checks = Vec::new();
    assert!(check_chrome(&mut checks, Ok("/usr/bin/chrome".into())));
    assert!(!check_chrome(&mut checks, Err("not found".into())));
    check_solver_chrome(&mut checks, Some(9222));
    check_solver_chrome(&mut checks, None);
    assert_eq!(checks[1].status, CheckStatus::Warn);
    assert!(checks[2].detail.contains("port 9222 — "));
    assert!(checks[2].suggestion.as_deref().unwrap().contains("--remote-debugging-port=9222)"));
    assert_eq!(checks[3].detail, "no leftover instance");
}

#[test]
fn api_checks() {
    let mut checks = Vec::new();
    assert!(!check_client(&mut checks, Err(CliError::AuthExpired)));
    assert_eq!(checks[0].status, CheckStatus::Fail);
    assert!(!check_client(&mut checks, Err(CliError::Http("timeout".into()))));
    assert_eq!(checks[1].status, CheckStatus::Warn);
    assert!(check_client(&mut checks, Ok(())));
    assert_eq!(checks.len(), 2);

    let mut checks = Vec::new();
    check_billing(&mut checks, &Ok(billing(120)));
    assert_eq!(checks[0].detail, "reachable — plan Free");
    assert_eq!(checks[1].detail, "120 left (v5.5 generation ≈ 70 per call; `lyrics` is free)");
    check_billing(&mut checks, &Ok(billing(0)));
    assert_eq!(checks[3].status, CheckStatus::Warn);
    check_billing(&mut checks, &Err(CliError::Http("down".into())));
    assert_eq!(checks[4].detail, "unreachable: HTTP error: down");

    let mut checks = Vec::new();
    let req = Ok(CaptchaCheckResponse { required: true, captcha_version: Some(1) });
    check_captcha(&mut checks, &req, false);
    check_captcha(&mut checks, &req, true);
    check_captcha(&mut checks, &Ok(CaptchaCheckResponse { required: false, captcha_version: None }), false);
    check_captcha(&mut checks, &Err(CliError::Http("x".into())), true);
    assert_eq!(checks[0].status, CheckStatus::Fail);
    assert_eq!(checks[1].status, CheckStatus::Pass);
    assert_eq!(checks[2].detail, "required: false — solver will be skipped");
    assert_eq!(checks[3].status, CheckStatus::Warn);
}

#[test]
fn summary_and_envelope() {
    let checks = vec![
        DoctorCheck::pass("a", "".into()),
        DoctorCheck::warn("b", "".into(), None),
        DoctorCheck::fail("c", "".into(), "".into()),
    ];
    let s = summarize(&checks);
    assert_eq!((s.pass, s.warn, s.fail), (1, 1, 1));
    assert_eq!(envelope_status(&s), "partial_success");
    assert!(doctor_outcome(&s).is_err());
    let s = summarize(&vec![DoctorCheck::fail("c", "".into(), "".into())]);
    assert_eq!(envelope_status(&s), "all_failed");
    let s = summarize(&vec![DoctorCheck::warn("b", "".into(), None)]);
    assert_eq!(envelope_status(&s), "success");
    assert!(doctor_outcome(&s).is_ok());
}
