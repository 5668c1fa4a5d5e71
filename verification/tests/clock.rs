use bakery_text::DayClock;

#[test]
fn never_rewinds_within_a_day() {
    let mut clock = DayClock::default();
    let mut last_total_minutes = 0u32;
    for _ in 0..2000 {
        let wraps = clock.advance(50);
        let now_total_minutes = clock.hour() * 60 + clock.minute();
        if wraps == 0 {
            assert!(now_total_minutes >= last_total_minutes, "time must never rewind within a day");
        }
        last_total_minutes = now_total_minutes;
    }
}

#[test]
fn twenty_four_hours_take_exactly_four_real_minutes() {
    let mut clock = DayClock::default();
    assert_eq!(clock.advance(239_000), 0);
    assert_eq!(clock.advance(1_000), 1);
    assert_eq!((clock.hour(), clock.minute()), (0, 0));
}

#[test]
fn at_constructs_the_expected_hour_and_minute() {
    let clock = DayClock::at(13, 45);
    assert_eq!((clock.hour(), clock.minute()), (13, 45));
}

#[test]
fn a_full_day_from_any_time_lands_on_the_same_time() {
    let mut clock = DayClock::at(17, 23);
    assert_eq!(clock.advance(240_000), 1);
    assert_eq!((clock.hour(), clock.minute()), (17, 23));
}

#[test]
fn one_real_second_is_six_game_minutes() {
    let mut clock = DayClock::at(7, 0);
    assert_eq!(clock.advance(1_000), 0);
    assert_eq!((clock.hour(), clock.minute()), (7, 6));
    assert!(!clock.minute_is_odd());
    clock.advance(500);
    assert_eq!(clock.minute(), 9);
    assert!(clock.minute_is_odd());
}

#[test]
fn a_stalled_frame_crosses_several_midnights() {
    let mut clock = DayClock::at(23, 0);
    assert_eq!(clock.advance(3 * 240_000 + 20_000), 4);
    assert_eq!((clock.hour(), clock.minute()), (1, 0));
}

#[test]
fn at_reads_any_time_within_its_day() {
    let late = DayClock::at(25, 0);
    assert_eq!((late.hour(), late.minute()), (1, 0));
    let spilled = DayClock::at(0, 61);
    assert_eq!((spilled.hour(), spilled.minute()), (1, 1));
    assert_eq!(DayClock::at(23, 59).minute(), 59);
}
