use suno_cli::cli::{ModelVersion, RemasterModel, VariationCategory};
use suno_cli::errors::CliError;
use suno_cli::types::{billing_schema_error, BillingInfo, FeedV3Request, PlanOption, SubscriptionType, MaxLengths};

fn info(sub: SubscriptionType, plans: Vec<PlanOption>) -> BillingInfo {
    BillingInfo {
        credits: 7,
        total_credits_left: 0,
        monthly_usage: 0,
        monthly_limit: 0,
        is_active: false,
        is_past_due: false,
        subscription_type: sub,
        models: vec![],
        plans,
        accessible_features: vec![],
        remaster_model_types: vec![],
    }
}

fn plan(key: &str, name: &str) -> PlanOption {
    PlanOption { plan_key: key.into(), name: name.into(), usage_plan_features: vec![] }
}

#[test]
fn plan_name_resolution() {
    assert_eq!(info(SubscriptionType::Plan("premier".into()), vec![plan("premier", "Premier")]).plan_name(), "Premier");
    assert_eq!(info(SubscriptionType::Plan("pro".into()), vec![plan("premier", "Premier")]).plan_name(), "pro");
    assert_eq!(info(SubscriptionType::NoPlan(false), vec![plan("free", "Free Tier")]).plan_name(), "Free Tier");
    assert_eq!(info(SubscriptionType::default(), vec![]).plan_name(), "Free");
}

#[test]
fn credits_left_falls_back_to_credits() {
    let mut i = info(SubscriptionType::default(), vec![]);
    i.fill_credits_left();
    assert_eq!(i.total_credits_left, 7);
    i.total_credits_left = 3;
    i.fill_credits_left();
    assert_eq!(i.total_credits_left, 3);
    let m = MaxLengths::default();
    assert_eq!(m.prompt + m.tags + m.title, 0);
}

#[test]
fn feed_requests() {
    let r = FeedV3Request::for_page(Some("opaque-token".into()));
    assert_eq!(r.cursor.as_deref(), Some("opaque-token"));
    assert_eq!(r.limit, Some(20));
    assert!(r.filters.is_none());
    let s = FeedV3Request::for_search("rain");
    let f = s.filters.unwrap();
    assert_eq!(s.limit, Some(50));
    assert_eq!(f.search_text.as_deref(), Some("rain"));
    assert_eq!(f.trashed.as_deref(), Some("False"));
}

#[test]
fn billing_schema_error_message() {
    match billing_schema_error("missing field", "a\nb") {
        CliError::Api { code, message } => {
            assert_eq!(code, "billing_schema_drift");
            assert_eq!(message, "billing/info returned unexpected JSON/body (missing field): a b");
        }
        other => panic!("unexpected {:?}", other),
    }
    match billing_schema_error("e", &"z".repeat(700)) {
        CliError::Api { message, .. } => assert_eq!(message.len(), "billing/info returned unexpected JSON/body (e): ".len() + 500),
        other => panic!("unexpected {:?}", other),
    }
}

#[test]
fn cli_values() {
    let all = [
        ModelVersion::V55, ModelVersion::V5, ModelVersion::V45Plus, ModelVersion::V45, ModelVersion::V45All,
        ModelVersion::V4, ModelVersion::V35, ModelVersion::V3, ModelVersion::V2,
    ];
    let keys: Vec<&str> = all.iter().map(|m| m.to_api_key()).collect();
    assert_eq!(keys[0], "chirp-fenix");
    assert_eq!(keys[8], "chirp-v2-xxl-alpha");
    for i in 0..keys.len() {
        for j in 0..keys.len() {
            assert_eq!(i == j, keys[i] == keys[j]);
        }
    }
    assert_eq!(ModelVersion::V45All.display_name(), "v4.5-all");
    assert_eq!(ModelVersion::default(), ModelVersion::V55);
    assert_eq!(RemasterModel::default().to_api_key(), "chirp-flounder");
    assert_eq!(RemasterModel::V45Plus.to_api_key(), "chirp-bass");
    assert_eq!(VariationCategory::Subtle.to_api_value(), "subtle");
}

#[test]
fn error_texts() {
    let all = vec![
        (CliError::AuthMissing, "not authenticated: no stored Suno session"),
        (CliError::AuthExpired, "authentication expired"),
        (CliError::Config("c".into()), "config error: c"),
        (CliError::InvalidInput("i".into()), "invalid input: i"),
        (CliError::Api { code: "k".into(), message: "m".into() }, "API error [k]: m"),
        (CliError::NotFound("n".into()), "not found: n"),
        (CliError::GenerationFailed("g".into()), "generation failed: g"),
        (CliError::Download("d".into()), "download failed: d"),
        (CliError::Http("h".into()), "HTTP error: h"),
        (CliError::Io("o".into()), "I/O error: o"),
    ];
    for (e, text) in all {
        assert_eq!(e.to_string(), text);
    }
}

#[test]
fn model_display_names_are_distinct() {
    let all = [
        ModelVersion::V55,
        ModelVersion::V5,
        ModelVersion::V45Plus,
        ModelVersion::V45,
        ModelVersion::V45All,
        ModelVersion::V4,
        ModelVersion::V35,
        ModelVersion::V3,
        ModelVersion::V2,
    ];
    let names: Vec<&str> = all.iter().map(|m| m.display_name()).collect();
    assert_eq!(names, vec!["v5.5", "v5", "v4.5+", "v4.5", "v4.5-all", "v4", "v3.5", "v3", "v2"]);
    for i in 0..names.len() {
        for j in 0..names.len() {
            assert_eq!(i == j, names[i] == names[j]);
        }
    }
}
