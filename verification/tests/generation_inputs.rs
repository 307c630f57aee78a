use suno_cli::cli::VocalGender;
use suno_cli::commands::{build_tags, reject_unfilled_scaffold};
use suno_cli::errors::CliError;

#[test]
fn tags_merge_vocal_gender() {
    assert_eq!(
        build_tags(Some("pop"), Some(&VocalGender::Female)).as_deref(),
        Some("pop, female vocals")
    );
    assert_eq!(build_tags(None, None), None);
}

#[test]
fn scaffold_preflight_covers_every_lyrics_path() {
    // The guard generate AND extend share: unresolved spans are refused...
    let scaffold = "[Verse]\n<4-6 lines — set the scene>\n";
    assert!(matches!(
        reject_unfilled_scaffold(Some(scaffold), false),
        Err(CliError::InvalidInput(_))
    ));
    // ...including spans split across lines...
    let split = "[Verse]\n<4-6 lines — set the scene:\nroad trips>\n";
    assert!(reject_unfilled_scaffold(Some(split), false).is_err());
    // ...while --force, filled lyrics, and no lyrics pass through.
    assert!(reject_unfilled_scaffold(Some(scaffold), true).is_ok());
    assert!(reject_unfilled_scaffold(Some("[Verse]\nwe rise\n"), false).is_ok());
    assert!(reject_unfilled_scaffold(None, false).is_ok());
}
