use vstd::prelude::*;

verus! {

/// How many decimal digits the day counter shows.
pub const DIGIT_COUNT: usize = 4;

/// The largest day the counter can show.
pub const DAY_DISPLAY_MAX: u32 = 9999;

/// One of a 7-segment digit's segments.
#[derive(Clone, Copy, PartialEq, Eq, Debug, Structural)]
pub enum Segment {
    Top,
    TopRight,
    BottomRight,
    Bottom,
    BottomLeft,
    TopLeft,
    Middle,
}

/// The segments in the order `DIGIT_SEGMENTS`' rows list them.
pub const ALL_SEGMENTS: [Segment; 7] = [
    Segment::Top,
    Segment::TopRight,
    Segment::BottomRight,
    Segment::Bottom,
    Segment::BottomLeft,
    Segment::TopLeft,
    Segment::Middle,
];

/// Which segments are lit for each digit 0-9, indexed like `ALL_SEGMENTS` --
/// the standard 7-segment encoding.
pub const DIGIT_SEGMENTS: [[bool; 7]; 10] = [
    [true, true, true, true, true, true, false],
    [false, true, true, false, false, false, false],
    [true, true, false, true, true, false, true],
    [true, true, true, true, false, false, true],
    [false, true, true, false, false, true, true],
    [true, false, true, true, false, true, true],
    [true, false, true, true, true, true, true],
    [true, true, true, false, false, false, false],
    [true, true, true, true, true, true, true],
    [true, true, true, true, false, true, true],
];

/// Digit `i` (0 = leftmost) of `day` shown zero-padded to four digits, days
/// beyond 9999 showing as 9999.
pub open spec fn shown_digit(day: nat, i: nat) -> nat {
    let shown = if day > 9999 {
        9999
    } else {
        day
    };
    if i == 0 {
        (shown / 1000) % 10
    } else if i == 1 {
        (shown / 100) % 10
    } else if i == 2 {
        (shown / 10) % 10
    } else {
        shown % 10
    }
}

/// The four digits the counter shows for `day`, leftmost first.
pub fn day_digits(day: u32) -> (res: [u32; 4])
    ensures
        forall|i: int| 0 <= i < 4 ==> res[i] == shown_digit(day as nat, i as nat),
        forall|i: int| 0 <= i < 4 ==> res[i] < 10,
{
    let clamped = if day > DAY_DISPLAY_MAX {
        DAY_DISPLAY_MAX
    } else {
        day
    };
    [(clamped / 1000) % 10, (clamped / 100) % 10, (clamped / 10) % 10, clamped % 10]
}

pub open spec fn segment_position(segment: Segment) -> usize {
    match segment {
        Segment::Top => 0,
        Segment::TopRight => 1,
        Segment::BottomRight => 2,
        Segment::Bottom => 3,
        Segment::BottomLeft => 4,
        Segment::TopLeft => 5,
        Segment::Middle => 6,
    }
}

/// Where `segment` sits in `ALL_SEGMENTS` (and so in each `DIGIT_SEGMENTS` row).
pub fn segment_index(segment: Segment) -> (res: usize)
    ensures
        res == segment_position(segment),
        ALL_SEGMENTS[res as int] == segment,
{
    match segment {
        Segment::Top => 0,
        Segment::TopRight => 1,
        Segment::BottomRight => 2,
        Segment::Bottom => 3,
        Segment::BottomLeft => 4,
        Segment::TopLeft => 5,
        Segment::Middle => 6,
    }
}

/// Whether `segment` is lit when showing `digit`.
pub fn segment_lit(digit: u32, segment: Segment) -> (res: bool)
    requires
        digit < 10,
    ensures
        res == DIGIT_SEGMENTS[digit as int][segment_position(segment) as int],
{
    DIGIT_SEGMENTS[digit as usize][segment_index(segment)]
}

/// Whether `segment` is lit when showing `digit`, as `DIGIT_SEGMENTS` lists it.
pub open spec fn lit(digit: nat, segment: Segment) -> bool {
    DIGIT_SEGMENTS[digit as int][segment_position(segment) as int]
}

/// Every digit lights a pattern of its own: two different digits differ in at
/// least one segment, so no two days' counters read alike.
pub proof fn law_digits_light_distinct_patterns(a: nat, b: nat)
    requires
        a < 10,
        b < 10,
        a != b,
    ensures
        exists|segment: Segment| #[trigger] lit(a, segment) != lit(b, segment),
{
    assert(lit(a, Segment::Top) != lit(b, Segment::Top) || lit(a, Segment::TopRight) != lit(
        b,
        Segment::TopRight,
    ) || lit(a, Segment::BottomRight) != lit(b, Segment::BottomRight) || lit(a, Segment::Bottom)
        != lit(b, Segment::Bottom) || lit(a, Segment::BottomLeft) != lit(b, Segment::BottomLeft)
        || lit(a, Segment::TopLeft) != lit(b, Segment::TopLeft) || lit(a, Segment::Middle) != lit(
        b,
        Segment::Middle,
    ));
}

} // verus!
