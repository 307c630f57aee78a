use suno_cli::output::truncate_chars;

#[test]
fn truncate_is_char_boundary_safe() {
    // 250 CJK chars = 750 bytes; byte index 200 falls mid-codepoint.
    let cjk: String = std::iter::repeat_n('歌', 250).collect();
    let out = truncate_chars(&cjk, 200);
    assert_eq!(out.chars().count(), 203); // 200 chars + "..."
    assert!(out.ends_with("..."));

    let emoji: String = std::iter::repeat_n('🎵', 210).collect();
    assert!(truncate_chars(&emoji, 200).ends_with("..."));
}

#[test]
fn truncate_leaves_short_strings_alone() {
    assert_eq!(truncate_chars("short lyrics", 200), "short lyrics");
    assert_eq!(truncate_chars("", 200), "");
    // Exactly at the limit — no ellipsis.
    let exact: String = std::iter::repeat_n('x', 200).collect();
    assert_eq!(truncate_chars(&exact, 200), exact);
}
