//! Command-line choices and their API values.
use vstd::prelude::*;

verus! {

/// Target coding agent for the skill file.
#[derive(Debug, Clone, Copy, PartialEq, Eq, Structural)]
pub enum SkillTarget {
    /// Skill file in the user's agent skills directory.
    Claude,
    /// Rules file in the current directory.
    Cursor,
}

/// Generation model versions, as named on the command line.
#[derive(Debug, Clone, Copy, PartialEq, Eq, Structural)]
pub enum ModelVersion {
    V55,
    V5,
    V45Plus,
    V45,
    V45All,
    V4,
    V35,
    V3,
    V2,
}

/// The API key of each model version.
pub open spec fn model_api_key(m: ModelVersion) -> Seq<char> {
    match m {
        ModelVersion::V55 => "chirp-fenix"@,
        ModelVersion::V5 => "chirp-crow"@,
        ModelVersion::V45Plus => "chirp-bluejay"@,
        ModelVersion::V45 => "chirp-auk"@,
        ModelVersion::V45All => "chirp-auk-turbo"@,
        ModelVersion::V4 => "chirp-v4"@,
        ModelVersion::V35 => "chirp-v3-5"@,
        ModelVersion::V3 => "chirp-v3-0"@,
        ModelVersion::V2 => "chirp-v2-xxl-alpha"@,
    }
}

/// The command-line name of each model version.
pub open spec fn model_display_name(m: ModelVersion) -> Seq<char> {
    match m {
        ModelVersion::V55 => "v5.5"@,
        ModelVersion::V5 => "v5"@,
        ModelVersion::V45Plus => "v4.5+"@,
        ModelVersion::V45 => "v4.5"@,
        ModelVersion::V45All => "v4.5-all"@,
        ModelVersion::V4 => "v4"@,
        ModelVersion::V35 => "v3.5"@,
        ModelVersion::V3 => "v3"@,
        ModelVersion::V2 => "v2"@,
    }
}

impl Default for ModelVersion {
    fn default() -> (r: Self)
        ensures
            r == ModelVersion::V55,
    {
        ModelVersion::V55
    }
}

impl ModelVersion {
    pub fn to_api_key(&self) -> (r: &'static str)
        ensures
            r@ == model_api_key(*self),
    {
        match self {
            ModelVersion::V55 => "chirp-fenix",
            ModelVersion::V5 => "chirp-crow",
            ModelVersion::V45Plus => "chirp-bluejay",
            ModelVersion::V45 => "chirp-auk",
            ModelVersion::V45All => "chirp-auk-turbo",
            ModelVersion::V4 => "chirp-v4",
            ModelVersion::V35 => "chirp-v3-5",
            ModelVersion::V3 => "chirp-v3-0",
            ModelVersion::V2 => "chirp-v2-xxl-alpha",
        }
    }

    pub fn display_name(&self) -> (r: &'static str)
        ensures
            r@ == model_display_name(*self),
    {
        match self {
            ModelVersion::V55 => "v5.5",
            ModelVersion::V5 => "v5",
            ModelVersion::V45Plus => "v4.5+",
            ModelVersion::V45 => "v4.5",
            ModelVersion::V45All => "v4.5-all",
            ModelVersion::V4 => "v4",
            ModelVersion::V35 => "v3.5",
            ModelVersion::V3 => "v3",
            ModelVersion::V2 => "v2",
        }
    }
}

/// Vocal gender.
#[derive(Debug, Clone, Copy, PartialEq, Eq, Structural)]
pub enum VocalGender {
    Male,
    Female,
}

/// Variation level.
#[derive(Debug, Clone, Copy, PartialEq, Eq, Structural)]
pub enum VariationCategory {
    High,
    Normal,
    Subtle,
}

impl VariationCategory {
    pub fn to_api_value(&self) -> (r: &'static str)
        ensures
            r@ == (match *self {
                VariationCategory::High => "high"@,
                VariationCategory::Normal => "normal"@,
                VariationCategory::Subtle => "subtle"@,
            }),
    {
        match self {
            VariationCategory::High => "high",
            VariationCategory::Normal => "normal",
            VariationCategory::Subtle => "subtle",
        }
    }
}

/// Remaster model versions.
#[derive(Debug, Clone, Copy, PartialEq, Eq, Structural)]
pub enum RemasterModel {
    V55,
    V5,
    V45Plus,
}

/// The API key of each remaster model.
pub open spec fn remaster_api_key(m: RemasterModel) -> Seq<char> {
    match m {
        RemasterModel::V55 => "chirp-flounder"@,
        RemasterModel::V5 => "chirp-carp"@,
        RemasterModel::V45Plus => "chirp-bass"@,
    }
}

impl Default for RemasterModel {
    fn default() -> (r: Self)
        ensures
            r == RemasterModel::V55,
    {
        RemasterModel::V55
    }
}

impl RemasterModel {
    pub fn to_api_key(&self) -> (r: &'static str)
        ensures
            r@ == remaster_api_key(*self),
    {
        match self {
            RemasterModel::V55 => "chirp-flounder",
            RemasterModel::V5 => "chirp-carp",
            RemasterModel::V45Plus => "chirp-bass",
        }
    }
}

/// The model keys sent to Suno, by the name given to `--model`: v5.5 is
/// `chirp-fenix`, v5 `chirp-crow`, v4.5+ `chirp-bluejay`, v4.5 `chirp-auk`,
/// v4.5-all `chirp-auk-turbo`, v4 `chirp-v4`, v3.5 `chirp-v3-5`, v3
/// `chirp-v3-0` and v2 `chirp-v2-xxl-alpha`.
pub proof fn lemma_model_api_key_table(m: ModelVersion)
    ensures
        model_display_name(m) == "v5.5"@ ==> model_api_key(m) == "chirp-fenix"@,
        model_display_name(m) == "v5"@ ==> model_api_key(m) == "chirp-crow"@,
        model_display_name(m) == "v4.5+"@ ==> model_api_key(m) == "chirp-bluejay"@,
        model_display_name(m) == "v4.5"@ ==> model_api_key(m) == "chirp-auk"@,
        model_display_name(m) == "v4.5-all"@ ==> model_api_key(m) == "chirp-auk-turbo"@,
        model_display_name(m) == "v4"@ ==> model_api_key(m) == "chirp-v4"@,
        model_display_name(m) == "v3.5"@ ==> model_api_key(m) == "chirp-v3-5"@,
        model_display_name(m) == "v3"@ ==> model_api_key(m) == "chirp-v3-0"@,
        model_display_name(m) == "v2"@ ==> model_api_key(m) == "chirp-v2-xxl-alpha"@,
        m == ModelVersion::V5 ==> model_api_key(m) == "chirp-crow"@,
        m == ModelVersion::V45Plus ==> model_api_key(m) == "chirp-bluejay"@,
{
    match m {
        ModelVersion::V55 => {},
        _ => {
            lemma_model_display_names_distinct(m, ModelVersion::V55);
        },
    }
    match m {
        ModelVersion::V5 => {},
        _ => {
            lemma_model_display_names_distinct(m, ModelVersion::V5);
        },
    }
    match m {
        ModelVersion::V45Plus => {},
        _ => {
            lemma_model_display_names_distinct(m, ModelVersion::V45Plus);
        },
    }
    match m {
        ModelVersion::V45 => {},
        _ => {
            lemma_model_display_names_distinct(m, ModelVersion::V45);
        },
    }
    match m {
        ModelVersion::V45All => {},
        _ => {
            lemma_model_display_names_distinct(m, ModelVersion::V45All);
        },
    }
    match m {
        ModelVersion::V4 => {},
        _ => {
            lemma_model_display_names_distinct(m, ModelVersion::V4);
        },
    }
    match m {
        ModelVersion::V35 => {},
        _ => {
            lemma_model_display_names_distinct(m, ModelVersion::V35);
        },
    }
    match m {
        ModelVersion::V3 => {},
        _ => {
            lemma_model_display_names_distinct(m, ModelVersion::V3);
        },
    }
    match m {
        ModelVersion::V2 => {},
        _ => {
            lemma_model_display_names_distinct(m, ModelVersion::V2);
        },
    }
}

/// No two models share a display name, so the name shown for a model (the
/// value given to `--model`) names that model alone.
pub proof fn lemma_model_display_names_distinct(a: ModelVersion, b: ModelVersion)
    requires
        a != b,
    ensures
        model_display_name(a) != model_display_name(b),
{
    reveal_strlit("v5.5");
    reveal_strlit("v5");
    reveal_strlit("v4.5+");
    reveal_strlit("v4.5");
    reveal_strlit("v4.5-all");
    reveal_strlit("v4");
    reveal_strlit("v3.5");
    reveal_strlit("v3");
    reveal_strlit("v2");
    let na = model_display_name(a);
    let nb = model_display_name(b);
    if na.len() == nb.len() {
        assert(na[1] != nb[1]);
    }
}

/// Distinct model versions are sent to the API under distinct keys.
pub proof fn lemma_model_api_keys_distinct(a: ModelVersion, b: ModelVersion)
    requires
        a != b,
    ensures
        model_api_key(a) != model_api_key(b),
{
    reveal_strlit("chirp-fenix");
    reveal_strlit("chirp-crow");
    reveal_strlit("chirp-bluejay");
    reveal_strlit("chirp-auk");
    reveal_strlit("chirp-auk-turbo");
    reveal_strlit("chirp-v4");
    reveal_strlit("chirp-v3-5");
    reveal_strlit("chirp-v3-0");
    reveal_strlit("chirp-v2-xxl-alpha");
    let ka = model_api_key(a);
    let kb = model_api_key(b);
    if ka.len() == kb.len() {
        if ka.len() == 10 {
            if ka[6] == kb[6] {
                assert(ka[9] != kb[9]);
            } else {
                assert(ka[6] != kb[6]);
            }
        }
    }
}

/// Distinct remaster models are sent to the API under distinct keys.
pub proof fn lemma_remaster_api_keys_distinct(a: RemasterModel, b: RemasterModel)
    requires
        a != b,
    ensures
        remaster_api_key(a) != remaster_api_key(b),
{
    reveal_strlit("chirp-flounder");
    reveal_strlit("chirp-carp");
    reveal_strlit("chirp-bass");
    let ka = remaster_api_key(a);
    let kb = remaster_api_key(b);
    if ka.len() == kb.len() {
        assert(ka[6] != kb[6]);
    }
}

// --- Arguments read by the library's decisions ---

/// `suno auth` options.
#[derive(Debug)]
pub struct AuthArgs {
    /// Auto-extract from browser (recommended)
    pub login: bool,
    /// Force-refresh the JWT via the stored Clerk session cookie.
    pub refresh: bool,
    /// JWT token (manual fallback)
    pub jwt: Option<String>,
    /// Clerk __client cookie or full Cookie header (manual fallback)
    pub cookie: Option<String>,
    /// Device ID
    pub device: Option<String>,
    /// Remove stored authentication
    pub logout: bool,
}

/// `suno delete` options.
#[derive(Debug)]
pub struct DeleteArgs {
    /// Clip ID(s) to delete
    pub ids: Vec<String>,
    /// Skip confirmation
    pub yes: bool,
}

/// `suno set` options.
#[derive(Debug)]
pub struct SetArgs {
    /// Clip ID to update
    pub id: String,
    /// New title
    pub title: Option<String>,
    /// New lyrics text
    pub lyrics: Option<String>,
    /// Read lyrics from file
    pub lyrics_file: Option<String>,
    /// New caption
    pub caption: Option<String>,
    /// Remove custom cover image
    pub remove_cover: bool,
}

/// `suno publish` options.
#[derive(Debug)]
pub struct PublishArgs {
    /// Clip ID(s)
    pub ids: Vec<String>,
    /// Make public (default) or --private
    pub private: bool,
}

} // verus!
