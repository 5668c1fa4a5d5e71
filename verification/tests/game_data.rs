use bakery_text::{resolve, Classification, DayClock, GameData, LineFont, Outcome, Phase, Verb, Zone};

#[test]
fn fresh_run_starts_at_day_one_midnight() {
    let data = GameData::fresh();
    assert_eq!(data.day, 1);
    assert_eq!(data.phase, Phase::Prep);
    assert_eq!((data.clock.hour(), data.clock.minute()), (0, 0));
    assert_eq!(data.zone, Zone::Perimeter);
    assert_eq!((data.corruption, data.income), (0, 0));
    assert!(data.pending_intrusion.is_none());
}

#[test]
fn apply_outcome_clamps_corruption_and_bumps_zone() {
    let mut data = GameData::fresh();
    data.apply_outcome(Outcome { corruption: -5, income: 3, zone_bump: false });
    assert_eq!(data.corruption, 0);
    assert_eq!(data.income, 3);
    for _ in 0..30 {
        data.apply_outcome(resolve(Classification::ShouldNotReact, Some(Verb::Stamp), 0));
    }
    assert_eq!(data.corruption, 100);
    assert!(data.is_lost());
    assert_eq!(data.zone, Zone::Counter);
}

#[test]
fn first_mistake_beat_fires_once() {
    let mut data = GameData::fresh();
    data.clock = DayClock::at(6, 53);
    assert!(data.settle(Classification::Normal, None, 0).is_none());
    let beat = data.settle(Classification::Normal, Some(Verb::Delete), 0).expect("first mistake");
    assert_eq!(beat.text, "06:52 あなたは 行を 削除した");
    assert_eq!(beat.font, LineFont::Mistake);
    assert!(data.settle(Classification::ShouldReact, Some(Verb::Stamp), 0).is_none());
    assert_eq!(data.corruption, 2 + 2 + 4);
}

#[test]
fn name_call_waits_for_night_counter_and_an_odd_minute() {
    let mut data = GameData::fresh();
    data.player_name = "ユウ".to_string();
    data.zone = Zone::Counter;
    data.phase = Phase::Night;
    data.clock = DayClock::at(22, 10);
    data.maybe_queue_name_call();
    assert!(data.pending_intrusion.is_none());
    data.clock = DayClock::at(22, 11);
    data.maybe_queue_name_call();
    let line = data.pending_intrusion.take().expect("called");
    assert_eq!(line.text, "22:11 ユウさん、帳場");
    assert!(data.name_call_done);
    data.maybe_queue_name_call();
    assert!(data.pending_intrusion.is_none());
}

#[test]
fn phase_tick_starts_a_new_day_at_midnight() {
    let mut data = GameData::fresh();
    data.rule_ledger.hear(1);
    let tick = data.phase_tick(100_000);
    assert_eq!(tick.wraps, 0);
    assert!(tick.phase_changed);
    assert_eq!(data.phase, Phase::Morning);
    let tick = data.phase_tick(140_000);
    assert_eq!(tick.wraps, 1);
    assert_eq!(data.day, 2);
    assert_eq!(data.zone, Zone::Inside);
    assert_eq!(data.phase, Phase::Prep);
    assert_eq!(
        data.rule_ledger.verdict(bakery_text::Pane::Kiln, bakery_text::ThreatKind::NightDelivery, bakery_text::Context { day: 2 }),
        bakery_text::Verdict::Suppressed
    );
}
