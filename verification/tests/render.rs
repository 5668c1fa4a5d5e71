use bakery_text::{body_glyphs, mark_glyph, Classification, PendingLine, Verb, MARK_BLANK, MARK_STAMP};

fn line_with(text: &str, mark: Option<Verb>, delete_wipe: u32) -> PendingLine {
    PendingLine {
        entity: 0,
        text: text.to_string(),
        classification: Classification::Normal,
        relief: 0,
        mark,
        delete_wipe,
    }
}

#[test]
fn body_glyphs_leaves_text_untouched_without_a_delete_mark() {
    let line = line_with("abc", None, 0);
    assert_eq!(body_glyphs(&line), vec!['a', 'b', 'c']);
}

#[test]
fn body_glyphs_covers_the_whole_line_at_full_wipe_progress() {
    let line = line_with("abc", Some(Verb::Delete), 1000);
    assert_eq!(body_glyphs(&line), vec!['═', '═', '═']);
}

#[test]
fn body_glyphs_rounds_up_so_partial_progress_is_visible_immediately() {
    let line = line_with("abc", Some(Verb::Delete), 10);
    assert_eq!(body_glyphs(&line), vec!['═', 'b', 'c']);
}

#[test]
fn mark_glyph_only_shows_the_stamp_mark() {
    assert_eq!(mark_glyph(Some(Verb::Stamp)), MARK_STAMP);
    assert_eq!(mark_glyph(Some(Verb::Delete)), MARK_BLANK);
    assert_eq!(mark_glyph(None), MARK_BLANK);
}

#[test]
fn body_glyphs_counts_characters_not_bytes() {
    let line = line_with("焼き上がり", Some(Verb::Delete), 500);
    assert_eq!(body_glyphs(&line), vec!['═', '═', '═', 'が', 'り']);
}
