use rand::rngs::ThreadRng;
use vstd::prelude::*;

use super::chance::random_below;

verus! {

/// How many noise glyphs a `Substitute` artifact can show.
pub const GLITCH_GLYPH_COUNT: usize = 14;

/// The noise glyphs a `Substitute` artifact draws from.
pub const GLITCH_GLYPHS: [char; 14] = [
    'ｦ', 'ｱ', 'ｳ', 'ｴ', 'ｵ', 'ﾃ', 'ﾅ', 'ﾆ', 'ﾎ', 'ﾜ', '#', '/', '\\', '|',
];

/// One brief artifact on a single character cell of the visible log.
#[derive(Clone, Copy, PartialEq, Eq, Debug)]
pub enum GlitchKind {
    /// The cell shows this noise glyph for one frame.
    Substitute(char),
    /// Reverse video for a moment.
    Invert,
    /// A thin frame around the cell for a moment.
    Frame,
}

/// The artifact a kind roll in `0..3` and a glyph roll in
/// `0..GLITCH_GLYPH_COUNT` name: roll 0 swaps in that glyph, roll 1 inverts,
/// anything else frames.
pub open spec fn glitch_kind_of(kind_roll: int, glyph_roll: int) -> GlitchKind {
    if kind_roll == 0 {
        GlitchKind::Substitute(GLITCH_GLYPHS[glyph_roll])
    } else if kind_roll == 1 {
        GlitchKind::Invert
    } else {
        GlitchKind::Frame
    }
}

/// The artifact for the two rolls, as `glitch_kind_of` names it.
pub fn glitch_kind_for(kind_roll: u32, glyph_roll: usize) -> (kind: GlitchKind)
    requires
        kind_roll < 3,
        glyph_roll < GLITCH_GLYPH_COUNT,
    ensures
        kind == glitch_kind_of(kind_roll as int, glyph_roll as int),
{
    if kind_roll == 0 {
        GlitchKind::Substitute(GLITCH_GLYPHS[glyph_roll])
    } else if kind_roll == 1 {
        GlitchKind::Invert
    } else {
        GlitchKind::Frame
    }
}

/// Chooses which of `candidate_count` on-screen cells glitches and how: the
/// cell index is drawn from `0..candidate_count`, then the kind from `0..3`,
/// and only for a substitution the glyph. Whatever the draws, the index is a
/// real cell and the artifact is one that `glitch_kind_of` names.
pub fn pick_glitch(rng: &mut ThreadRng, candidate_count: u32) -> (picked: (u32, GlitchKind))
    requires
        0 < candidate_count,
    ensures
        picked.0 < candidate_count,
        exists|kind_roll: int, glyph_roll: int|
            0 <= kind_roll < 3 && 0 <= glyph_roll < GLITCH_GLYPH_COUNT
                && picked.1 == #[trigger] glitch_kind_of(kind_roll, glyph_roll),
{
    let cell = random_below(rng, 0, candidate_count);
    let kind_roll = random_below(rng, 0, 3);
    let glyph_roll: usize = if kind_roll == 0 {
        let g = random_below(rng, 0, 14);
        g as usize
    } else {
        0
    };
    let kind = glitch_kind_for(kind_roll, glyph_roll);
    (cell, kind)
}

} // verus!
