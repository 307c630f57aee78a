//! The data exchanged with the Suno API (those parts that carry no
//! floating-point values), with the account-plan resolution.
use vstd::prelude::*;
use crate::clerk::one_line;
use crate::errors::CliError;
use crate::json::JsonValue;
use crate::text::{chars_of, concat3, push_chars, push_str, str_eq, string_from, sub_chars};

verus! {

// --- Billing / Account ---

/// Account, credit and plan information (`/api/billing/info/`).
#[derive(Debug)]
pub struct BillingInfo {
    pub credits: u64,
    pub total_credits_left: u64,
    pub monthly_usage: u64,
    pub monthly_limit: u64,
    pub is_active: bool,
    pub is_past_due: bool,
    /// `false` on the free tier, else the active plan's `plan_key`.
    pub subscription_type: SubscriptionType,
    pub models: Vec<Model>,
    /// The catalog of plans.
    pub plans: Vec<PlanOption>,
    pub accessible_features: Vec<Feature>,
    pub remaster_model_types: Vec<RemasterModelInfo>,
}

/// The account's subscription as the API reports it.
#[derive(Debug)]
pub enum SubscriptionType {
    /// No active paid subscription (free tier).
    NoPlan(bool),
    /// Active plan, identified by its `plan_key` (e.g. "pro").
    Plan(String),
}

impl Default for SubscriptionType {
    fn default() -> (r: Self)
        ensures
            r matches SubscriptionType::NoPlan(b) && !b,
    {
        SubscriptionType::NoPlan(false)
    }
}

/// One plan of the catalog.
#[derive(Debug)]
pub struct PlanOption {
    pub plan_key: String,
    pub name: String,
    pub usage_plan_features: Vec<Feature>,
}

/// The name of the first plan in `plans` whose key is `key`.
pub open spec fn plan_named(plans: Seq<PlanOption>, key: Seq<char>) -> Option<Seq<char>>
    decreases plans.len(),
{
    if plans.len() == 0 {
        None
    } else if plans[0].plan_key@ == key {
        Some(plans[0].name@)
    } else {
        plan_named(plans.drop_first(), key)
    }
}

/// The account's plan as shown to people: the catalog name of the active
/// plan (else its raw key), or of the `free` plan (else "Free").
pub open spec fn plan_name_spec(info: BillingInfo) -> Seq<char> {
    match info.subscription_type {
        SubscriptionType::Plan(key) => match plan_named(info.plans@, key@) {
            Some(n) => n,
            None => key@,
        },
        SubscriptionType::NoPlan(_) => match plan_named(info.plans@, "free"@) {
            Some(n) => n,
            None => "Free"@,
        },
    }
}

/// The catalog lookup finds the first plan with the key, wherever it
/// stands in the catalog.
proof fn lemma_plan_named_first_match(plans: Seq<PlanOption>, key: Seq<char>, i: int)
    requires
        0 <= i < plans.len(),
        plans[i].plan_key@ == key,
        forall|j: int| 0 <= j < i ==> (#[trigger] plans[j]).plan_key@ != key,
    ensures
        plan_named(plans, key) == Some(plans[i].name@),
    decreases i,
{
    if i > 0 {
        assert forall|j: int| 0 <= j < i - 1 implies (#[trigger] plans.drop_first()[j]).plan_key@ != key by {
            assert(plans.drop_first()[j] == plans[j + 1]);
        }
        assert(plans[0].plan_key@ != key);
        lemma_plan_named_first_match(plans.drop_first(), key, i - 1);
    }
}

/// The catalog lookup finds nothing when no plan has the key.
proof fn lemma_plan_named_no_match(plans: Seq<PlanOption>, key: Seq<char>)
    requires
        forall|j: int| 0 <= j < plans.len() ==> (#[trigger] plans[j]).plan_key@ != key,
    ensures
        plan_named(plans, key) is None,
    decreases plans.len(),
{
    if plans.len() > 0 {
        assert forall|j: int| 0 <= j < plans.len() - 1 implies (#[trigger] plans.drop_first()[j]).plan_key@ != key by {
            assert(plans.drop_first()[j] == plans[j + 1]);
        }
        assert(plans[0].plan_key@ != key);
        lemma_plan_named_no_match(plans.drop_first(), key);
    }
}

/// The plan shown for an active subscription is the catalog name of the
/// first catalog entry whose key is the subscription's key, wherever it
/// stands; the raw key is shown only when no entry has that key.
pub proof fn lemma_plan_name_is_first_catalog_match(info: BillingInfo, key: String)
    requires
        info.subscription_type == SubscriptionType::Plan(key),
    ensures
        forall|i: int|
            0 <= i < info.plans@.len() && (#[trigger] info.plans@[i]).plan_key@ == key@ && (forall|j: int|
                0 <= j < i ==> (#[trigger] info.plans@[j]).plan_key@ != key@) ==> plan_name_spec(info)
                == info.plans@[i].name@,
        (forall|j: int| 0 <= j < info.plans@.len() ==> (#[trigger] info.plans@[j]).plan_key@ != key@)
            ==> plan_name_spec(info) == key@,
{
    assert forall|i: int|
        0 <= i < info.plans@.len() && (#[trigger] info.plans@[i]).plan_key@ == key@ && (forall|j: int|
            0 <= j < i ==> (#[trigger] info.plans@[j]).plan_key@ != key@) implies plan_name_spec(info)
        == info.plans@[i].name@ by {
        lemma_plan_named_first_match(info.plans@, key@, i);
    }
    if forall|j: int| 0 <= j < info.plans@.len() ==> (#[trigger] info.plans@[j]).plan_key@ != key@ {
        lemma_plan_named_no_match(info.plans@, key@);
    }
}

/// Without a subscription, the plan shown is the catalog name of the first
/// `free` entry, or "Free" when the catalog has none.
pub proof fn lemma_no_plan_shows_free(info: BillingInfo)
    requires
        info.subscription_type is NoPlan,
    ensures
        forall|i: int|
            0 <= i < info.plans@.len() && (#[trigger] info.plans@[i]).plan_key@ == "free"@ && (forall|j: int|
                0 <= j < i ==> (#[trigger] info.plans@[j]).plan_key@ != "free"@) ==> plan_name_spec(info)
                == info.plans@[i].name@,
        (forall|j: int| 0 <= j < info.plans@.len() ==> (#[trigger] info.plans@[j]).plan_key@ != "free"@)
            ==> plan_name_spec(info) == "Free"@,
{
    assert forall|i: int|
        0 <= i < info.plans@.len() && (#[trigger] info.plans@[i]).plan_key@ == "free"@ && (forall|j: int|
            0 <= j < i ==> (#[trigger] info.plans@[j]).plan_key@ != "free"@) implies plan_name_spec(info)
        == info.plans@[i].name@ by {
        lemma_plan_named_first_match(info.plans@, "free"@, i);
    }
    if forall|j: int| 0 <= j < info.plans@.len() ==> (#[trigger] info.plans@[j]).plan_key@ != "free"@ {
        lemma_plan_named_no_match(info.plans@, "free"@);
    }
}

fn find_plan_name(plans: &Vec<PlanOption>, key: &str) -> (r: Option<String>)
    ensures
        match r {
            Some(n) => plan_named(plans@, key@) == Some(n@),
            None => plan_named(plans@, key@) is None,
        },
{
    let mut i: usize = 0;
    assert(plans@.skip(0) =~= plans@);
    while i < plans.len()
        invariant
            0 <= i <= plans@.len(),
            plan_named(plans@, key@) == plan_named(plans@.skip(i as int), key@),
        decreases plans@.len() - i,
    {
        assert(plans@.skip(i as int)[0] == plans@[i as int]);
        if str_eq(plans[i].plan_key.as_str(), key) {
            return Some(plans[i].name.clone());
        }
        assert(plans@.skip(i as int).drop_first() =~= plans@.skip(i + 1));
        i = i + 1;
    }
    None
}

impl BillingInfo {
    /// Human-readable name of the account's current plan, resolved from
    /// `subscription_type` against the `plans` catalog (falls back to the
    /// raw plan key, or "Free" when there's no active subscription).
    pub fn plan_name(&self) -> (r: String)
        ensures
            r@ == plan_name_spec(*self),
    {
        match &self.subscription_type {
            SubscriptionType::Plan(key) => match find_plan_name(&self.plans, key.as_str()) {
                Some(n) => n,
                None => key.clone(),
            },
            SubscriptionType::NoPlan(_) => match find_plan_name(&self.plans, "free") {
                Some(n) => n,
                None => "Free".to_string(),
            },
        }
    }

    /// Fills the remaining-credit count from `credits` when the API left
    /// it at zero.
    pub fn fill_credits_left(&mut self)
        ensures
            final(self).total_credits_left == (if old(self).total_credits_left == 0 {
                old(self).credits
            } else {
                old(self).total_credits_left
            }),
            final(self).credits == old(self).credits,
            final(self).monthly_usage == old(self).monthly_usage,
            final(self).monthly_limit == old(self).monthly_limit,
            final(self).is_active == old(self).is_active,
            final(self).is_past_due == old(self).is_past_due,
            final(self).subscription_type == old(self).subscription_type,
            final(self).models == old(self).models,
            final(self).plans == old(self).plans,
            final(self).accessible_features == old(self).accessible_features,
            final(self).remaster_model_types == old(self).remaster_model_types,
    {
        if self.total_credits_left == 0 {
            self.total_credits_left = self.credits;
        }
    }
}

/// The error for a billing body that did not match the schema:
/// `billing/info returned unexpected JSON/body (<e>): <first 500 chars>`.
pub fn billing_schema_error(err: &str, raw: &str) -> (r: CliError)
    ensures
        r matches CliError::Api { code: c, message: m } && c@ == "billing_schema_drift"@ && m@
            == "billing/info returned unexpected JSON/body ("@ + err@ + "): "@ + (if one_line(
            raw@,
        ).len() <= 500 {
            one_line(raw@)
        } else {
            one_line(raw@).take(500)
        }),
{
    let cs = chars_of(raw);
    let mut flat: Vec<char> = Vec::new();
    let mut i: usize = 0;
    while i < cs.len()
        invariant
            0 <= i <= cs@.len(),
            cs@ == raw@,
            flat@ == one_line(raw@).take(i as int),
        decreases cs@.len() - i,
    {
        let c = cs[i];
        if c == '\n' || c == '\r' {
            flat.push(' ');
        } else {
            flat.push(c);
        }
        i = i + 1;
        assert(flat@ =~= one_line(raw@).take(i as int));
    }
    assert(one_line(raw@).take(cs@.len() as int) =~= one_line(raw@));
    let n = if flat.len() <= 500 {
        flat.len()
    } else {
        500
    };
    let head = sub_chars(flat.as_slice(), 0, n);
    proof {
        if flat@.len() <= 500 {
            assert(head@ =~= flat@);
        }
    }
    let mut m = concat3("billing/info returned unexpected JSON/body (", err, "): ");
    push_chars(&mut m, head.as_slice());
    CliError::Api { code: "billing_schema_drift".to_string(), message: m }
}

/// A feature of a plan or of the account.
#[derive(Debug)]
pub struct Feature {
    pub name: String,
}

/// A generation model offered to the account.
#[derive(Debug)]
pub struct Model {
    pub name: String,
    pub external_key: String,
    pub can_use: bool,
    pub is_default_model: bool,
    pub description: String,
    pub max_lengths: MaxLengths,
}

/// Length limits of a model's inputs.
#[derive(Debug)]
pub struct MaxLengths {
    pub title: u32,
    pub prompt: u32,
    pub tags: u32,
    pub negative_tags: u32,
    pub gpt_description_prompt: u32,
}

impl Default for MaxLengths {
    fn default() -> (r: Self)
        ensures
            r.title == 0 && r.prompt == 0 && r.tags == 0 && r.negative_tags == 0
                && r.gpt_description_prompt == 0,
    {
        MaxLengths { title: 0, prompt: 0, tags: 0, negative_tags: 0, gpt_description_prompt: 0 }
    }
}

/// A remaster model offered to the account.
#[derive(Debug)]
pub struct RemasterModelInfo {
    pub name: String,
    pub external_key: String,
    pub is_default_model: bool,
    pub can_use: bool,
}

// --- Clips ---

/// What the library reads of a clip when judging a finished generation.
#[derive(Debug)]
pub struct ClipStatus {
    pub id: String,
    pub status: String,
    pub error_type: Option<String>,
    pub error_message: Option<String>,
}

/// What the detail table reads of a clip (duration and tempo are shown
/// from text formatted by the caller).
#[derive(Debug)]
pub struct ClipInfo {
    pub id: String,
    pub title: String,
    pub status: String,
    pub model_name: String,
    pub created_at: String,
    pub audio_url: Option<String>,
    pub video_url: Option<String>,
    pub play_count: u64,
    pub upvote_count: u64,
    pub tags: Option<String>,
    pub prompt: Option<String>,
    pub has_stem: bool,
    pub make_instrumental: bool,
}

// --- Feed V3 Request ---

/// Body of `POST /api/feed/v3`.
#[derive(Debug)]
pub struct FeedV3Request {
    pub cursor: Option<String>,
    pub limit: Option<u32>,
    pub filters: Option<FeedFilters>,
}

/// Filters of a feed request.
#[derive(Debug)]
pub struct FeedFilters {
    pub search_text: Option<String>,
    pub trashed: Option<String>,
    pub full_song: Option<String>,
    pub stem: Option<FilterPresence>,
}

/// A presence filter.
#[derive(Debug)]
pub struct FilterPresence {
    pub presence: String,
}

impl FeedV3Request {
    /// One page (twenty clips) of the library, after the opaque `cursor`.
    pub fn for_page(cursor: Option<String>) -> (r: Self)
        ensures
            r.cursor == cursor,
            r.limit == Some(20u32),
            r.filters is None,
    {
        FeedV3Request { cursor, limit: Some(20), filters: None }
    }

    /// A search of the library (fifty clips) by title or tags, trashed
    /// clips excluded.
    pub fn for_search(query: &str) -> (r: Self)
        ensures
            r.cursor is None,
            r.limit == Some(50u32),
            r.filters is Some,
            r.filters->0.search_text matches Some(q) && q@ == query@,
            r.filters->0.trashed matches Some(t) && t@ == "False"@,
            r.filters->0.full_song is None,
            r.filters->0.stem is None,
    {
        FeedV3Request {
            cursor: None,
            limit: Some(50),
            filters: Some(
                FeedFilters {
                    search_text: Some(query.to_string()),
                    trashed: Some("False".to_string()),
                    full_song: None,
                    stem: None,
                },
            ),
        }
    }
}

// --- Lyrics ---

/// Answer to a lyrics submission.
#[derive(Debug)]
pub struct LyricsSubmitResponse {
    pub id: String,
}

/// Generated lyrics.
#[derive(Debug)]
pub struct LyricsResult {
    pub text: String,
    pub title: String,
    pub status: String,
    pub error_message: String,
    pub tags: Vec<String>,
}

// --- Captcha Check ---

/// Answer of `POST /api/c/check`.
#[derive(Debug)]
pub struct CaptchaCheckResponse {
    pub required: bool,
    pub captcha_version: Option<i64>,
}

// --- Set Metadata ---

/// Body of a clip metadata update; absent fields are left unchanged.
#[derive(Debug)]
pub struct SetMetadataRequest {
    pub title: Option<String>,
    pub lyrics: Option<String>,
    pub caption: Option<String>,
    pub remove_image_cover: Option<bool>,
    pub remove_video_cover: Option<bool>,
}

// --- Set Visibility ---

/// Body of a visibility change.
#[derive(Debug)]
pub struct SetVisibilityRequest {
    pub is_public: bool,
}

// --- Concat ---

/// Body of a concatenation request.
#[derive(Debug)]
pub struct ConcatRequest {
    pub clip_id: String,
}

// --- Persona ---

/// Answer of the persona endpoint.
#[derive(Debug)]
pub struct PersonaResponse {
    pub persona: PersonaInfo,
}

/// A voice persona.
#[derive(Debug)]
pub struct PersonaInfo {
    pub id: String,
    pub name: String,
    pub description: Option<String>,
    pub image_s3_id: Option<String>,
    pub user_display_name: Option<String>,
    pub user_handle: Option<String>,
    pub persona_clips: Vec<JsonValue>,
}

} // verus!
