use suno_cli::json::JsonValue;
use suno_cli::output::{billing_rows, clip_detail_rows, lyrics_text, model_rows, persona_rows};
use suno_cli::types::{
    BillingInfo, ClipInfo, LyricsResult, MaxLengths, Model, PersonaInfo, PlanOption, SubscriptionType,
};

fn model(name: &str, can_use: bool, default: bool) -> Model {
    Model {
        name: name.into(),
        external_key: format!("{name}-key"),
        can_use,
        is_default_model: default,
        description: "desc".into(),
        max_lengths: MaxLengths { title: 1, prompt: 3000, tags: 200, negative_tags: 0, gpt_description_prompt: 0 },
    }
}

#[test]
fn credits_rows() {
    let info = BillingInfo {
        credits: 0,
        total_credits_left: 42,
        monthly_usage: 8,
        monthly_limit: 50,
        is_active: true,
        is_past_due: false,
        subscription_type: SubscriptionType::Plan("pro".into()),
        models: vec![],
        plans: vec![PlanOption { plan_key: "pro".into(), name: "Pro Plan".into(), usage_plan_features: vec![] }],
        accessible_features: vec![],
        remaster_model_types: vec![],
    };
    let rows = billing_rows(&info);
    let expect: Vec<(String, String)> = vec![
        ("Plan".into(), "Pro Plan".into()),
        ("Credits Left".into(), "42".into()),
        ("Monthly Usage".into(), "8 / 50".into()),
        ("Active".into(), "true".into()),
    ];
    assert_eq!(rows, expect);
}

#[test]
fn model_rows_skip_unusable() {
    let rows = model_rows(&vec![model("a", true, true), model("b", false, false), model("c", true, false)]);
    assert_eq!(rows.len(), 2);
    assert_eq!(rows[0], vec!["a", "a-key", "yes", "3000", "200", "desc"]);
    assert_eq!(rows[1][2], "");
}

#[test]
fn persona_rows_optional_fields() {
    let p = PersonaInfo {
        id: "p1".into(),
        name: "Voice".into(),
        description: None,
        image_s3_id: None,
        user_display_name: Some("Owner".into()),
        user_handle: None,
        persona_clips: vec![JsonValue::Null, JsonValue::Null],
    };
    let rows = persona_rows(&p);
    let expect: Vec<(String, String)> = vec![
        ("ID".into(), "p1".into()),
        ("Name".into(), "Voice".into()),
        ("Description".into(), "-".into()),
        ("Owner".into(), "Owner".into()),
        ("Clips".into(), "2".into()),
    ];
    assert_eq!(rows, expect);
}

#[test]
fn lyrics_listing() {
    let r = LyricsResult {
        text: "la la".into(),
        title: "Song".into(),
        status: "complete".into(),
        error_message: String::new(),
        tags: vec!["pop".into(), "indie".into()],
    };
    assert_eq!(lyrics_text(&r), "Title: Song\n\nla la\n\nSuggested style: pop, indie\n");
    let r = LyricsResult { tags: vec![], ..r };
    assert_eq!(lyrics_text(&r), "Title: Song\n\nla la\n");
}

fn clip_info(audio: Option<&str>, prompt: Option<String>) -> ClipInfo {
    ClipInfo {
        id: "c1".into(),
        title: "Song".into(),
        status: "complete".into(),
        model_name: "chirp-fenix".into(),
        created_at: "2026-01-01".into(),
        audio_url: audio.map(|s| s.to_string()),
        video_url: None,
        play_count: 12,
        upvote_count: 3,
        tags: None,
        prompt,
        has_stem: false,
        make_instrumental: true,
    }
}

fn pairs(rows: &[(String, String)]) -> Vec<(&str, &str)> {
    rows.iter().map(|(a, b)| (a.as_str(), b.as_str())).collect()
}

#[test]
fn clip_detail_rows_fixed_fields_and_dashes() {
    let rows = clip_detail_rows(&clip_info(None, None), Some("123.4s".into()), None);
    assert_eq!(
        pairs(&rows),
        vec![
            ("ID", "c1"),
            ("Title", "Song"),
            ("Status", "complete"),
            ("Model", "chirp-fenix"),
            ("Created", "2026-01-01"),
            ("Duration", "123.4s"),
            ("Tags", "-"),
            ("BPM", "-"),
            ("Plays", "12"),
            ("Upvotes", "3"),
            ("Has Stems", "false"),
            ("Instrumental", "true"),
        ]
    );
}

#[test]
fn clip_detail_rows_optional_fields_and_cut_lyrics() {
    let long = "x".repeat(250);
    let rows = clip_detail_rows(&clip_info(Some("https://a/x.mp3"), Some(long)), None, Some("120".into()));
    assert_eq!(rows.len(), 14);
    assert_eq!(pairs(&rows[7..8]), vec![("BPM", "120")]);
    assert_eq!(pairs(&rows[12..13]), vec![("Audio URL", "https://a/x.mp3")]);
    assert_eq!(rows[13].0, "Lyrics");
    assert_eq!(rows[13].1, format!("{}...", "x".repeat(200)));
}
