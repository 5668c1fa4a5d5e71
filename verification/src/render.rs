use vstd::prelude::*;

use super::pending::PendingLine;
use super::verb::Verb;

verus! {

pub const CURSOR_MARK: &'static str = "＞";

pub const CURSOR_BLANK: &'static str = "　";

pub const MARK_STAMP: &'static str = "✓";

pub const MARK_BLANK: &'static str = "　";

/// 二重線 -- one glyph, two horizontal strokes. Progressively overwrites the
/// line's own characters as a 削除 wipe plays.
pub const DELETE_WIPE_GLYPH: char = '═';

/// How many leading characters of a `len`-character line a wipe of `wipe`
/// thousandths covers, rounding up so any progress at all shows immediately.
pub open spec fn wiped_count(len: nat, wipe: nat) -> nat {
    (len * wipe + 999) / 1000
}

/// The glyphs a line's body shows: its own characters, with the leading
/// wiped fraction replaced by `DELETE_WIPE_GLYPH` while it is marked 削除.
pub open spec fn glyphs_of(text: Seq<char>, mark: Option<Verb>, wipe: nat) -> Seq<char> {
    if mark != Some(Verb::Delete) || wipe == 0 {
        text
    } else {
        Seq::new(
            text.len(),
            |i: int|
                if i < wiped_count(text.len(), wipe) {
                    DELETE_WIPE_GLYPH
                } else {
                    text[i]
                },
        )
    }
}

/// Per-character glyphs for a pending line's body.
pub fn body_glyphs(line: &PendingLine) -> (res: Vec<char>)
    ensures
        res@ == glyphs_of(line.text@, line.mark, line.delete_wipe as nat),
{
    let text = line.text.as_str();
    let len = text.unicode_len();
    let deleting = match line.mark {
        Some(Verb::Delete) => true,
        _ => false,
    };
    let wiping = deleting && line.delete_wipe > 0;
    let wide_len = len as u128;
    let wide_wipe = line.delete_wipe as u128;
    assert(wide_len * wide_wipe <= 18_446_744_073_709_551_615u128 * 4_294_967_295u128) by (nonlinear_arith)
        requires
            wide_len <= 18_446_744_073_709_551_615u128,
            wide_wipe <= 4_294_967_295u128,
    ;
    let covered: u128 = if wiping {
        (wide_len * wide_wipe + 999) / 1000
    } else {
        0
    };
    let mut glyphs: Vec<char> = Vec::new();
    let mut i: usize = 0;
    while i < len
        invariant
            len == text@.len(),
            text@ == line.text@,
            i <= len,
            glyphs@.len() == i,
            wiping == (line.mark == Some(Verb::Delete) && line.delete_wipe > 0),
            wiping ==> covered == wiped_count(len as nat, line.delete_wipe as nat),
            forall|j: int|
                0 <= j < i ==> glyphs@[j] == glyphs_of(line.text@, line.mark, line.delete_wipe as nat)[j],
        decreases len - i,
    {
        let ch = text.get_char(i);
        if wiping && (i as u128) < covered {
            glyphs.push(DELETE_WIPE_GLYPH);
        } else {
            glyphs.push(ch);
        }
        i += 1;
    }
    proof {
        assert(glyphs@ =~= glyphs_of(line.text@, line.mark, line.delete_wipe as nat));
    }
    glyphs
}

/// The mark column shows a stamp only for 検印; a 削除 shows as the wipe
/// itself, not as a mark.
pub fn mark_glyph(mark: Option<Verb>) -> (res: &'static str)
    ensures
        res@ == if mark == Some(Verb::Stamp) {
            MARK_STAMP@
        } else {
            MARK_BLANK@
        },
{
    match mark {
        Some(Verb::Stamp) => MARK_STAMP,
        _ => MARK_BLANK,
    }
}

} // verus!
