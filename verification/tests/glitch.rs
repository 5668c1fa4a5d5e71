use bakery_text::{glitch_kind_for, pick_glitch, thread_rng, GlitchKind, GLITCH_GLYPHS, GLITCH_GLYPH_COUNT};

#[test]
fn kind_roll_zero_substitutes_the_rolled_glyph() {
    assert_eq!(glitch_kind_for(0, 0), GlitchKind::Substitute('ｦ'));
    assert_eq!(glitch_kind_for(0, 13), GlitchKind::Substitute('|'));
    assert_eq!(glitch_kind_for(0, 12), GlitchKind::Substitute('\\'));
}

#[test]
fn kind_rolls_one_and_two_invert_and_frame() {
    assert_eq!(glitch_kind_for(1, 5), GlitchKind::Invert);
    assert_eq!(glitch_kind_for(2, 0), GlitchKind::Frame);
}

#[test]
fn glyph_table_has_its_stated_length() {
    assert_eq!(GLITCH_GLYPHS.len(), GLITCH_GLYPH_COUNT);
}

#[test]
fn picked_cell_is_always_on_screen() {
    let mut rng = thread_rng();
    for count in 1..40u32 {
        let (cell, kind) = pick_glitch(&mut rng, count);
        assert!(cell < count);
        if let GlitchKind::Substitute(c) = kind {
            assert!(GLITCH_GLYPHS.contains(&c));
        }
    }
    let (cell, _) = pick_glitch(&mut rng, 1);
    assert_eq!(cell, 0);
}
