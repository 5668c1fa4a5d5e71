use bakery_text::{day_digits, segment_index, segment_lit, Segment, ALL_SEGMENTS, DIGIT_SEGMENTS};

#[test]
fn day_digits_pads_small_days_with_leading_zeros() {
    assert_eq!(day_digits(3), [0, 0, 0, 3]);
}

#[test]
fn day_digits_shows_all_four_digits() {
    assert_eq!(day_digits(1234), [1, 2, 3, 4]);
}

#[test]
fn day_digits_clamps_beyond_four_digits() {
    assert_eq!(day_digits(12345), [9, 9, 9, 9]);
}

#[test]
fn every_digit_lights_a_distinct_segment_pattern() {
    for a in 0..10 {
        for b in (a + 1)..10 {
            assert_ne!(DIGIT_SEGMENTS[a], DIGIT_SEGMENTS[b], "digits {a} and {b} look identical");
        }
    }
}

#[test]
fn segment_index_matches_the_segment_order() {
    for (i, &segment) in ALL_SEGMENTS.iter().enumerate() {
        assert_eq!(segment_index(segment), i);
    }
    assert!(!segment_lit(0, Segment::Middle));
    assert!(segment_lit(8, Segment::Middle));
    assert!(segment_lit(1, Segment::TopRight));
}
