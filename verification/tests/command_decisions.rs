use suno_cli::auth::AuthState;
use suno_cli::cli::{AuthArgs, DeleteArgs, ModelVersion, SetArgs};
use suno_cli::commands::{
    apply_device, apply_jwt, apply_login, apply_refresh, captcha_first_step, captcha_required,
    captcha_solve_error, check_delete, check_generation_errors, download_status,
    input_file_error, listing_status, missing_ids, placeholder_lines, plan_auth, refresh_cookie,
    reject_unfilled_scaffold, resolve_model, set_metadata_request, status_hint, updated_fields,
    visibility_word, AuthAction, CaptchaStep,
};
use suno_cli::cookies::BrowserAuth;
use suno_cli::errors::CliError;
use suno_cli::types::{CaptchaCheckResponse, ClipStatus};

fn args() -> AuthArgs {
    AuthArgs { login: false, refresh: false, jwt: None, cookie: None, device: None, logout: false }
}

fn empty_state() -> AuthState {
    AuthState { jwt: None, cookie: None, session_id: None, device_id: None, clerk_client_cookie: None }
}

#[test]
fn placeholder_line_numbers() {
    assert_eq!(placeholder_lines("a\n<x>\nb <y> <z>\n"), vec![2, 3, 3]);
    assert_eq!(placeholder_lines("<open\nclose>"), vec![1]);
    assert_eq!(placeholder_lines("no > spans < here"), Vec::<u128>::new());
    match reject_unfilled_scaffold(Some("x\n<a>\n<b>"), false) {
        Err(CliError::InvalidInput(m)) => assert_eq!(
            m,
            "lyrics contain 2 unresolved scaffold placeholder(s) at line(s) 2, 3 — fill the <...> spans before generating (or pass --force to send them as written)"
        ),
        other => panic!("unexpected {:?}", other),
    }
}

#[test]
fn auth_plans() {
    let st = empty_state();
    assert!(matches!(plan_auth(&AuthArgs { logout: true, login: true, ..args() }, &st).action, AuthAction::Logout));
    // nothing given, nothing stored: browser login, saved
    let p = plan_auth(&args(), &st);
    assert!(matches!(p.action, AuthAction::BrowserLogin) && p.save_after_verify);
    // something stored: just verify, not saved
    let stored = AuthState { jwt: Some("j".into()), ..empty_state() };
    let p = plan_auth(&args(), &stored);
    assert!(matches!(p.action, AuthAction::Verify) && !p.save_after_verify);
    let p = plan_auth(&AuthArgs { device: Some("d".into()), ..args() }, &stored);
    assert!(matches!(p.action, AuthAction::Verify) && p.save_after_verify);
    let p = plan_auth(&AuthArgs { refresh: true, cookie: Some("c".into()), ..args() }, &st);
    assert!(matches!(p.action, AuthAction::Refresh));
    let p = plan_auth(&AuthArgs { cookie: Some("c".into()), jwt: Some("j".into()), ..args() }, &st);
    assert!(matches!(p.action, AuthAction::Cookie(ref c) if c == "c"));
    let p = plan_auth(&AuthArgs { jwt: Some("j".into()), ..args() }, &st);
    assert!(matches!(p.action, AuthAction::Jwt(ref j) if j == "j"));
}

#[test]
fn auth_state_updates() {
    let mut st = AuthState { device_id: Some("old".into()), ..empty_state() };
    assert!(refresh_cookie(&st).is_err());
    let ba = BrowserAuth { clerk_client_cookie: "c".into(), cookie_header: "h".into(), device_id: None };
    apply_login(&mut st, ba, "s".into(), "j".into(), "fresh".into());
    assert_eq!(st.device_id.as_deref(), Some("old"));
    assert_eq!(st.cookie.as_deref(), Some("h"));
    assert_eq!(refresh_cookie(&st).unwrap(), "c");
    apply_refresh(&mut st, "s2".into(), "j2".into());
    assert_eq!((st.session_id.as_deref(), st.jwt.as_deref()), (Some("s2"), Some("j2")));
    let mut fresh = empty_state();
    apply_jwt(&mut fresh, "jj".into(), "dev-new".into());
    assert_eq!(fresh.device_id.as_deref(), Some("dev-new"));
    apply_device(&mut fresh, Some("mine".into()));
    assert_eq!(fresh.device_id.as_deref(), Some("mine"));
    apply_device(&mut fresh, None);
    assert_eq!(fresh.device_id.as_deref(), Some("mine"));
}

#[test]
fn captcha_decisions() {
    assert!(matches!(captcha_first_step(Some("t".into()), true, true), CaptchaStep::UseToken(ref t) if t == "t"));
    assert!(matches!(captcha_first_step(None, true, true), CaptchaStep::Skip));
    assert!(matches!(captcha_first_step(None, false, true), CaptchaStep::Solve));
    assert!(matches!(captcha_first_step(None, false, false), CaptchaStep::Preflight));
    assert!(captcha_required(&Err(CliError::Http("x".into()))));
    assert!(!captcha_required(&Ok(CaptchaCheckResponse { required: false, captcha_version: Some(1) })));
    assert!(matches!(captcha_solve_error(CliError::Config("no chrome".into())), CliError::Config(ref m) if m == "no chrome"));
    match captcha_solve_error(CliError::Http("boom".into())) {
        CliError::GenerationFailed(m) => assert!(m.starts_with("captcha solve failed: HTTP error: boom — ")),
        other => panic!("unexpected {:?}", other),
    }
}

#[test]
fn generation_errors_name_each_clip() {
    let clips = vec![
        ClipStatus { id: "a".into(), status: "complete".into(), error_type: None, error_message: None },
        ClipStatus { id: "b".into(), status: "error".into(), error_type: Some("moderation".into()), error_message: None },
        ClipStatus { id: "c".into(), status: "error".into(), error_type: Some("t".into()), error_message: Some("boom".into()) },
        ClipStatus { id: "d".into(), status: "error".into(), error_type: None, error_message: None },
    ];
    match check_generation_errors(&clips) {
        Err(CliError::GenerationFailed(m)) => assert_eq!(m, "clip(s) errored: b (moderation); c (boom); d (unknown error)"),
        other => panic!("unexpected {:?}", other),
    }
    let fine = vec![ClipStatus { id: "a".into(), status: "complete".into(), error_type: None, error_message: None }];
    assert!(check_generation_errors(&fine).is_ok());
    assert_eq!(status_hint(&vec!["x".into(), "y".into()]), "\nUse `suno status x y` to check progress");
}

#[test]
fn model_resolution() {
    assert_eq!(resolve_model(Some(ModelVersion::V4), None, "junk").unwrap(), ModelVersion::V4);
    assert_eq!(resolve_model(None, Some(ModelVersion::V5), "v5").unwrap(), ModelVersion::V5);
    let err = resolve_model(None, None, "v9").unwrap_err();
    assert_eq!(
        err.to_string(),
        "config error: config default_model 'v9' is not a valid --model value — fix it with `suno config set default_model v5.5`"
    );
}

#[test]
fn delete_set_publish_download_list() {
    let e = check_delete(&DeleteArgs { ids: vec![], yes: true }, false).unwrap_err();
    assert_eq!(e.to_string(), "invalid input: no clip IDs provided");
    let e = check_delete(&DeleteArgs { ids: vec!["a".into(), "b".into()], yes: false }, false).unwrap_err();
    assert_eq!(e.to_string(), "invalid input: delete requires -y to confirm — re-run: suno delete a b -y");
    assert!(check_delete(&DeleteArgs { ids: vec!["a".into()], yes: false }, true).is_ok());

    let sa = SetArgs { id: "c".into(), title: Some("T".into()), lyrics: None, lyrics_file: Some("f".into()), caption: None, remove_cover: true };
    let req = set_metadata_request(&sa, Some("words".into()));
    assert_eq!(req.title.as_deref(), Some("T"));
    assert_eq!(req.lyrics.as_deref(), Some("words"));
    assert_eq!(req.remove_image_cover, Some(true));
    assert!(req.remove_video_cover.is_none() && req.caption.is_none());
    assert_eq!(updated_fields(&sa), vec!["title", "lyrics", "cover"]);

    assert_eq!(visibility_word(true), "public");
    assert_eq!(visibility_word(false), "private");

    let ids: Vec<String> = vec!["a".into(), "b".into(), "c".into()];
    assert_eq!(missing_ids(&ids, &vec!["b".into()]), vec!["a", "c"]);
    assert_eq!(download_status(2, 0).unwrap(), "success");
    assert_eq!(download_status(1, 1).unwrap(), "partial_success");
    assert_eq!(download_status(0, 3).unwrap_err().to_string(), "download failed: all 3 download(s) failed");
    assert_eq!(listing_status(0), "no_results");
    assert_eq!(listing_status(4), "success");

    assert_eq!(input_file_error("x.txt", "No such file").to_string(), "invalid input: cannot read input file 'x.txt': No such file");
}
