//! The text shown in tables and listings.
use vstd::prelude::*;
use crate::text::{chars_of, concat2, concat3, decimal, decimal_string, join, join_strings, push_str, string_from, string_views, sub_chars};
use crate::cookies::opt_view;
use crate::types::{plan_name_spec, BillingInfo, ClipInfo, LyricsResult, Model, PersonaInfo};

verus! {

/// The first `max` characters of `s` followed by `...`, or `s` itself
/// when it has at most `max` characters.
pub open spec fn truncated(s: Seq<char>, max: nat) -> Seq<char> {
    if s.len() > max {
        s.take(max as int) + "..."@
    } else {
        s
    }
}

/// Truncates to `max` characters (never inside a character).
pub fn truncate_chars(s: &str, max: usize) -> (r: String)
    ensures
        r@ == truncated(s@, max as nat),
{
    let cs = chars_of(s);
    if cs.len() > max {
        let head = sub_chars(cs.as_slice(), 0, max);
        let mut r = string_from(head.as_slice());
        push_str(&mut r, "...");
        r
    } else {
        string_from(cs.as_slice())
    }
}

/// A cut string never exceeds the limit by more than the marker.
pub proof fn lemma_truncated_len(s: Seq<char>, max: nat)
    ensures
        truncated(s, max).len() <= max + 3,
        s.len() <= max ==> truncated(s, max) == s,
        s.len() > max ==> truncated(s, max).take(max as int) == s.take(max as int),
{
    reveal_strlit("...");
    if s.len() > max {
        assert(truncated(s, max).take(max as int) =~= s.take(max as int));
    }
}

/// `"true"` or `"false"`, as `bool` is displayed.
pub open spec fn bool_text(b: bool) -> Seq<char> {
    if b {
        "true"@
    } else {
        "false"@
    }
}

fn bool_string(b: bool) -> (r: String)
    ensures
        r@ == bool_text(b),
{
    if b {
        "true".to_string()
    } else {
        "false".to_string()
    }
}

/// The text shown for an optional field: the text, or `-`.
pub open spec fn or_dash(o: Option<Seq<char>>) -> Seq<char> {
    match o {
        Some(t) => t,
        None => "-"@,
    }
}

fn or_dash_string(o: &Option<String>) -> (r: String)
    ensures
        r@ == or_dash(opt_view(*o)),
{
    match o {
        Some(t) => t.clone(),
        None => "-".to_string(),
    }
}

/// The rows of a clip's detail table: the fixed fields, then the audio
/// URL, the video URL and the lyrics (cut to 200 characters) where present.
pub open spec fn clip_detail_rows_spec(
    c: ClipInfo,
    duration: Option<Seq<char>>,
    bpm: Option<Seq<char>>,
) -> Seq<(Seq<char>, Seq<char>)> {
    let fixed = seq![
        ("ID"@, c.id@),
        ("Title"@, c.title@),
        ("Status"@, c.status@),
        ("Model"@, c.model_name@),
        ("Created"@, c.created_at@),
        ("Duration"@, or_dash(duration)),
        ("Tags"@, or_dash(opt_view(c.tags))),
        ("BPM"@, or_dash(bpm)),
        ("Plays"@, decimal(c.play_count as nat)),
        ("Upvotes"@, decimal(c.upvote_count as nat)),
        ("Has Stems"@, bool_text(c.has_stem)),
        ("Instrumental"@, bool_text(c.make_instrumental)),
    ];
    let a = match c.audio_url {
        Some(u) => fixed.push(("Audio URL"@, u@)),
        None => fixed,
    };
    let v = match c.video_url {
        Some(u) => a.push(("Video URL"@, u@)),
        None => a,
    };
    match c.prompt {
        Some(p) => v.push(("Lyrics"@, truncated(p@, 200))),
        None => v,
    }
}

/// Field/value rows of a clip's detail table; `duration` and `bpm` are the
/// caller's formatting of the clip's length and tempo.
pub fn clip_detail_rows(clip: &ClipInfo, duration: Option<String>, bpm: Option<String>) -> (r: Vec<
    (String, String),
>)
    ensures
        row_views(r@) == clip_detail_rows_spec(*clip, opt_view(duration), opt_view(bpm)),
{
    let mut rows: Vec<(String, String)> = Vec::new();
    rows.push(("ID".to_string(), clip.id.clone()));
    rows.push(("Title".to_string(), clip.title.clone()));
    rows.push(("Status".to_string(), clip.status.clone()));
    rows.push(("Model".to_string(), clip.model_name.clone()));
    rows.push(("Created".to_string(), clip.created_at.clone()));
    rows.push(("Duration".to_string(), or_dash_string(&duration)));
    rows.push(("Tags".to_string(), or_dash_string(&clip.tags)));
    rows.push(("BPM".to_string(), or_dash_string(&bpm)));
    rows.push(("Plays".to_string(), decimal_string(clip.play_count as u128)));
    rows.push(("Upvotes".to_string(), decimal_string(clip.upvote_count as u128)));
    rows.push(("Has Stems".to_string(), bool_string(clip.has_stem)));
    rows.push(("Instrumental".to_string(), bool_string(clip.make_instrumental)));
    let ghost fixed = row_views(rows@);
    match &clip.audio_url {
        Some(u) => rows.push(("Audio URL".to_string(), u.clone())),
        None => {},
    }
    let ghost a = row_views(rows@);
    assert(a =~= match clip.audio_url {
        Some(u) => fixed.push(("Audio URL"@, u@)),
        None => fixed,
    });
    match &clip.video_url {
        Some(u) => rows.push(("Video URL".to_string(), u.clone())),
        None => {},
    }
    let ghost v = row_views(rows@);
    assert(v =~= match clip.video_url {
        Some(u) => a.push(("Video URL"@, u@)),
        None => a,
    });
    match &clip.prompt {
        Some(p) => rows.push(("Lyrics".to_string(), truncate_chars(p.as_str(), 200))),
        None => {},
    }
    assert(row_views(rows@) =~= clip_detail_rows_spec(*clip, opt_view(duration), opt_view(bpm)));
    rows
}

/// The rows of the credits table.
pub open spec fn billing_rows_spec(info: BillingInfo) -> Seq<(Seq<char>, Seq<char>)> {
    seq![
        ("Plan"@, plan_name_spec(info)),
        ("Credits Left"@, decimal(info.total_credits_left as nat)),
        (
            "Monthly Usage"@,
            decimal(info.monthly_usage as nat) + " / "@ + decimal(info.monthly_limit as nat),
        ),
        ("Active"@, bool_text(info.is_active)),
    ]
}

/// The characters of a sequence of string pairs.
pub open spec fn row_views(v: Seq<(String, String)>) -> Seq<(Seq<char>, Seq<char>)> {
    v.map_values(|p: (String, String)| (p.0@, p.1@))
}

/// Field/value rows of the credits table.
pub fn billing_rows(info: &BillingInfo) -> (r: Vec<(String, String)>)
    ensures
        row_views(r@) == billing_rows_spec(*info),
{
    let mut rows: Vec<(String, String)> = Vec::new();
    rows.push(("Plan".to_string(), info.plan_name()));
    rows.push(("Credits Left".to_string(), decimal_string(info.total_credits_left as u128)));
    let usage = decimal_string(info.monthly_usage as u128);
    let limit = decimal_string(info.monthly_limit as u128);
    rows.push(("Monthly Usage".to_string(), concat3(usage.as_str(), " / ", limit.as_str())));
    rows.push(("Active".to_string(), bool_string(info.is_active)));
    assert(row_views(rows@) =~= billing_rows_spec(*info));
    rows
}

/// The cells of one model's row.
pub open spec fn model_row(m: Model) -> Seq<Seq<char>> {
    seq![
        m.name@,
        m.external_key@,
        if m.is_default_model {
            "yes"@
        } else {
            Seq::<char>::empty()
        },
        decimal(m.max_lengths.prompt as nat),
        decimal(m.max_lengths.tags as nat),
        m.description@,
    ]
}

/// One row per model the account can use, in order.
pub open spec fn model_rows_spec(ms: Seq<Model>) -> Seq<Seq<Seq<char>>>
    decreases ms.len(),
{
    if ms.len() == 0 {
        Seq::empty()
    } else if ms.last().can_use {
        model_rows_spec(ms.drop_last()).push(model_row(ms.last()))
    } else {
        model_rows_spec(ms.drop_last())
    }
}

/// The cells of the models table.
pub fn model_rows(models: &Vec<Model>) -> (r: Vec<Vec<String>>)
    ensures
        r@.map_values(|row: Vec<String>| string_views(row@)) == model_rows_spec(models@),
{
    let mut rows: Vec<Vec<String>> = Vec::new();
    let mut i: usize = 0;
    assert(models@.take(0) =~= Seq::<Model>::empty());
    while i < models.len()
        invariant
            0 <= i <= models@.len(),
            rows@.map_values(|row: Vec<String>| string_views(row@)) == model_rows_spec(
                models@.take(i as int),
            ),
        decreases models@.len() - i,
    {
        assert(models@.take(i + 1).drop_last() =~= models@.take(i as int));
        assert(models@.take(i + 1).last() == models@[i as int]);
        let m = &models[i];
        if m.can_use {
            let mut row: Vec<String> = Vec::new();
            row.push(m.name.clone());
            row.push(m.external_key.clone());
            row.push(
                if m.is_default_model {
                    "yes".to_string()
                } else {
                    String::new()
                },
            );
            row.push(decimal_string(m.max_lengths.prompt as u128));
            row.push(decimal_string(m.max_lengths.tags as u128));
            row.push(m.description.clone());
            assert(string_views(row@) =~= model_row(*m));
            let ghost before = rows@;
            rows.push(row);
            assert(rows@.map_values(|row: Vec<String>| string_views(row@)) =~= before.map_values(
                |row: Vec<String>| string_views(row@),
            ).push(model_row(*m)));
        }
        i = i + 1;
    }
    assert(models@.take(models@.len() as int) =~= models@);
    rows
}

/// The rows of the persona table.
pub open spec fn persona_rows_spec(p: PersonaInfo) -> Seq<(Seq<char>, Seq<char>)> {
    let base = seq![
        ("ID"@, p.id@),
        ("Name"@, p.name@),
        (
            "Description"@,
            match p.description {
                Some(d) => d@,
                None => "-"@,
            },
        ),
    ];
    let with_owner = match p.user_display_name {
        Some(o) => base.push(("Owner"@, o@)),
        None => base,
    };
    let with_handle = match p.user_handle {
        Some(h) => with_owner.push(("Handle"@, h@)),
        None => with_owner,
    };
    with_handle.push(("Clips"@, decimal(p.persona_clips@.len())))
}

/// Field/value rows of the persona table.
pub fn persona_rows(p: &PersonaInfo) -> (r: Vec<(String, String)>)
    ensures
        row_views(r@) == persona_rows_spec(*p),
{
    let mut rows: Vec<(String, String)> = Vec::new();
    rows.push(("ID".to_string(), p.id.clone()));
    rows.push(("Name".to_string(), p.name.clone()));
    let d = match &p.description {
        Some(d) => d.clone(),
        None => "-".to_string(),
    };
    rows.push(("Description".to_string(), d));
    let ghost base = row_views(rows@);
    match &p.user_display_name {
        Some(o) => rows.push(("Owner".to_string(), o.clone())),
        None => {},
    }
    let ghost owner = row_views(rows@);
    match &p.user_handle {
        Some(h) => rows.push(("Handle".to_string(), h.clone())),
        None => {},
    }
    let ghost handle = row_views(rows@);
    rows.push(("Clips".to_string(), decimal_string(p.persona_clips.len() as u128)));
    assert(row_views(rows@) =~= persona_rows_spec(*p));
    rows
}

/// The printed lyrics: title, text, and the suggested style when tags exist.
pub open spec fn lyrics_text_spec(r: LyricsResult) -> Seq<char> {
    let head = "Title: "@ + r.title@ + "\n\n"@ + r.text@ + "\n"@;
    if r.tags@.len() == 0 {
        head
    } else {
        head + "\nSuggested style: "@ + join(string_views(r.tags@), ", "@) + "\n"@
    }
}

/// The text printed for generated lyrics.
pub fn lyrics_text(result: &LyricsResult) -> (r: String)
    ensures
        r@ == lyrics_text_spec(*result),
{
    let mut s = concat3("Title: ", result.title.as_str(), "\n\n");
    push_str(&mut s, result.text.as_str());
    push_str(&mut s, "\n");
    if result.tags.len() > 0 {
        push_str(&mut s, "\nSuggested style: ");
        let t = join_strings(&result.tags, ", ");
        push_str(&mut s, t.as_str());
        push_str(&mut s, "\n");
    }
    s
}

} // verus!
