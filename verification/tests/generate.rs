use bakery_text::{
    baking_line, call_line_with, corrupted_line, corrupted_line_with, day_marker, floor_line,
    generate, generate_from_roll, is_active, item_miscount_line, item_normal_line, ledger_line, mistake_beat, name_call,
    normal_line_for, normal_line_with, outside_body_pool, outside_line, pick_bucket, rule_reset_notice,
    rule_reset_notice_with, thread_rng, weights_for, Bucket, Classification, Draws, DayClock, ItemKind,
    LineFont, Pane, Phase, RuleLedger, ThreatKind, Verb, Verdict, Weights, Zone,
};

#[test]
fn kiln_weights_on_an_odd_night_minute() {
    let ledger = RuleLedger::new();
    let w = weights_for(Pane::Kiln, Phase::Night, Zone::Counter, 3, true, &ledger);
    // react_base = 12 + 3*2 = 18; at the counter the kiln gets the zone bonus.
    assert_eq!(
        w,
        Weights { normal: 60, rumor: 0, deviation: 36, repeat: 4, item_miscount: 4, taboo_event: 0, call: 6 }
    );
}

#[test]
fn weights_zero_calls_on_even_minutes_and_keep_rumors_on_the_floor() {
    let ledger = RuleLedger::new();
    for pane in [Pane::Kiln, Pane::Outside, Pane::Floor] {
        let w = weights_for(pane, Phase::Peak, Zone::Inside, 12, false, &ledger);
        assert_eq!(w.call, 0);
        if pane != Pane::Floor {
            assert_eq!(w.rumor, 0);
        }
        if pane != Pane::Kiln {
            assert_eq!((w.deviation, w.item_miscount, w.taboo_event), (0, 0, 0));
        }
    }
    let floor = weights_for(Pane::Floor, Phase::Prep, Zone::Inside, 1, true, &ledger);
    assert_eq!(floor.rumor, 10);
    assert_eq!(floor.repeat, 28);
    assert_eq!(floor.call, 3);
}

#[test]
fn night_delivery_weight_needs_its_rumor_and_the_night() {
    let mut ledger = RuleLedger::new();
    assert!(!is_active(&ledger, Pane::Kiln, ThreatKind::NightDelivery, 1));
    assert_eq!(weights_for(Pane::Kiln, Phase::Night, Zone::Perimeter, 1, false, &ledger).taboo_event, 0);
    ledger.hear(1);
    assert!(is_active(&ledger, Pane::Kiln, ThreatKind::NightDelivery, 1));
    assert_eq!(weights_for(Pane::Kiln, Phase::Night, Zone::Perimeter, 1, false, &ledger).taboo_event, 14);
    assert_eq!(weights_for(Pane::Kiln, Phase::Evening, Zone::Perimeter, 1, false, &ledger).taboo_event, 0);
}

#[test]
fn pick_bucket_walks_cumulative_weights() {
    let w = Weights { normal: 2, rumor: 0, deviation: 1, repeat: 1, item_miscount: 1, taboo_event: 1, call: 1 };
    assert_eq!(pick_bucket(w, 0), Bucket::Normal);
    assert_eq!(pick_bucket(w, 1), Bucket::Normal);
    assert_eq!(pick_bucket(w, 2), Bucket::Deviation);
    assert_eq!(pick_bucket(w, 3), Bucket::Repeat);
    assert_eq!(pick_bucket(w, 4), Bucket::ItemMiscount);
    assert_eq!(pick_bucket(w, 5), Bucket::TabooEvent);
    assert_eq!(pick_bucket(w, 6), Bucket::Call);
}

#[test]
fn outside_vocabulary_darkens_with_corruption() {
    assert_eq!(outside_body_pool(0).len(), 9);
    assert_eq!(outside_body_pool(24)[4], "ゴミが{n}個 転がってきた");
    assert_eq!(outside_body_pool(25)[4], "野良猫が、少し長くこちらを見ていた");
    assert_eq!(outside_body_pool(50).len(), 7);
    assert_eq!(outside_body_pool(75).len(), 6);
    assert_eq!(outside_body_pool(100)[0], "異常なし");
}

#[test]
fn ordinary_lines_exact_text() {
    let clock = DayClock::at(8, 15);
    assert_eq!(ledger_line(clock, 1, 25).text, "08:14 小麦粉を25kg 仕込んだ");
    assert_eq!(baking_line(clock, 6).text, "08:14 バゲットが6本 焼き上がり");
    assert_eq!(item_normal_line(clock, ItemKind::MilkLoaf, 2).text, "08:14 食パンが2斤 焼き上がり");
    assert_eq!(outside_line(clock, 90, 2, 1).text, "08:14 窓の外に、誰か立っていた");
    assert_eq!(floor_line(clock, 4, 350).text, "08:14 350円のお返しです");
    assert_eq!(floor_line(clock, 0, 350).classification, Classification::Normal);
}

#[test]
fn item_miscount_text_does_not_depend_on_the_verdict() {
    let clock = DayClock::at(12, 0);
    let active = item_miscount_line(clock, ItemKind::HotDog, 5, Verdict::Active);
    let suppressed = item_miscount_line(clock, ItemKind::HotDog, 5, Verdict::Suppressed);
    assert_eq!(active.text, "12:00 ホットドッグが5個 焼き上がり");
    assert_eq!(active.text, suppressed.text);
    assert_eq!(active.classification, Classification::ShouldReact);
    assert_eq!(suppressed.classification, Classification::Normal);
}

#[test]
fn call_line_keeps_the_true_odd_minute() {
    let line = call_line_with(Pane::Kiln, DayClock::at(20, 33), Zone::Perimeter, 0, 1);
    assert_eq!(line.text, "20:33 駐車場で誰かが名前を呼んでいる 応えないこと");
    assert_eq!(line.classification, Classification::ShouldNotReact);
    let flavor = call_line_with(Pane::Floor, DayClock::at(20, 33), Zone::Perimeter, 0, 1);
    assert_eq!(flavor.text, line.text);
    assert_eq!(flavor.classification, Classification::Normal);
}

#[test]
fn scripted_beats_exact_text() {
    let beat = mistake_beat(DayClock::at(6, 53), Verb::Delete);
    assert_eq!(beat.text, "06:52 あなたは 行を 削除した");
    assert!(beat.scripted);
    assert_eq!(beat.font, LineFont::Mistake);

    let call = name_call(7, 13, "ユウ", "帳場");
    assert_eq!(call.text, "07:13 ユウさん、帳場");
    assert_eq!(call.classification, Classification::ShouldNotReact);
    assert_eq!(call.font, LineFont::Call);

    let marker = day_marker(12);
    assert_eq!(marker.text, "開店から12日目 仕込みを始める");
    assert!(marker.scripted);

    let notice = rule_reset_notice_with(DayClock::at(0, 1), 2);
    assert_eq!(notice.text, "00:00 昨日の話は、もう終わったことだそうです");
    assert!(notice.scripted);

    let corrupted = corrupted_line_with(3, 7, 2, 11);
    assert_eq!(corrupted.text, "03:07 あなたの名が11回 記帳された");
    assert_eq!(corrupted.font, LineFont::Call);
}

#[test]
fn random_scripted_lines_are_scripted() {
    let mut rng = thread_rng();
    for _ in 0..50 {
        let line = corrupted_line(&mut rng);
        assert!(line.scripted);
        assert_eq!(line.font, LineFont::Call);
        let notice = rule_reset_notice(DayClock::at(0, 0), &mut rng);
        assert!(notice.text.starts_with("00:00 "));
    }
}

#[test]
fn normal_lines_are_always_normal_and_even_stamped() {
    let mut rng = thread_rng();
    for pane in [Pane::Kiln, Pane::Outside, Pane::Floor] {
        for _ in 0..100 {
            let line = normal_line_for(pane, DayClock::at(14, 9), 30, &mut rng);
            assert_eq!(line.classification, Classification::Normal);
            assert!(line.text.starts_with("14:08 "));
        }
    }
}

#[test]
fn outside_never_touches_the_ledger_and_only_calls_on_odd_minutes() {
    let mut rng = thread_rng();
    let mut ledger = RuleLedger::new();
    for _ in 0..300 {
        let line = generate(Pane::Outside, DayClock::at(22, 10), Zone::Perimeter, 5, None, &mut ledger, 0, &mut rng);
        assert_eq!(line.classification, Classification::Normal);
        assert!(line.text.starts_with("22:10 "));
    }
    assert_eq!(ledger.relief_bonus(ThreatKind::Repeat), 0);
    assert_eq!(ledger.verdict(Pane::Kiln, ThreatKind::NightDelivery, bakery_text::Context { day: 5 }), Verdict::Suppressed);
}

#[test]
fn floor_rumors_reach_the_ledger() {
    let mut rng = thread_rng();
    let mut ledger = RuleLedger::new();
    for _ in 0..600 {
        generate(Pane::Floor, DayClock::at(2, 0), Zone::Perimeter, 1, Some("02:00 いらっしゃいませ"), &mut ledger, 0, &mut rng);
    }
    assert_eq!(
        ledger.verdict(Pane::Kiln, ThreatKind::NightDelivery, bakery_text::Context { day: 1 }),
        Verdict::Active
    );
}

#[test]
fn kiln_repeats_the_last_normal_line_as_a_threat() {
    let mut rng = thread_rng();
    let mut ledger = RuleLedger::new();
    let mut saw_repeat = false;
    for _ in 0..2000 {
        let line = generate(Pane::Kiln, DayClock::at(11, 20), Zone::Perimeter, 1, Some("11:18 レジを開けた"), &mut ledger, 0, &mut rng);
        if line.text == "11:18 レジを開けた" {
            assert_eq!(line.classification, Classification::ShouldReact);
            saw_repeat = true;
        }
    }
    assert!(saw_repeat);
}

fn draws(first_flip: bool, second_flip: bool, pick: u32, place: u32, n: u32) -> Draws {
    Draws { first_flip, second_flip, pick, place, n }
}

#[test]
fn normal_line_with_follows_the_flips() {
    let clock = DayClock::at(14, 9);
    let baking = normal_line_with(Pane::Kiln, clock, 0, draws(true, true, 3, 0, 7));
    assert_eq!(baking.text, "14:08 バゲットが7本 焼き上がり");
    let item = normal_line_with(Pane::Kiln, clock, 0, draws(false, true, 2, 0, 5));
    assert_eq!(item.text, "14:08 ホットドッグが5本 焼き上がり");
    let ledger = normal_line_with(Pane::Kiln, clock, 0, draws(false, false, 0, 0, 12));
    assert_eq!(ledger.text, ledger_line(clock, 0, 12).text);
    assert_ne!(ledger.text, baking.text);
    let outside = normal_line_with(Pane::Outside, clock, 0, draws(false, false, 0, 0, 3));
    assert_eq!(outside.text, "14:08 異常なし");
    for line in [baking, item, ledger, outside] {
        assert_eq!(line.classification, Classification::Normal);
    }
}

#[test]
fn generate_from_roll_writes_the_rolled_bucket() {
    let clock = DayClock::at(11, 21);
    let phase = Phase::for_hour(11);
    let mut ledger = RuleLedger::new();
    let w = weights_for(Pane::Kiln, phase, Zone::Perimeter, 1, true, &ledger);
    let last = Some("11:18 レジを開けた");

    let normal = generate_from_roll(Pane::Kiln, clock, Zone::Perimeter, 1, last, &mut ledger, 0, 0, draws(true, false, 0, 0, 4));
    assert_eq!(normal.text, "11:20 バゲットが4本 焼き上がり");
    assert_eq!(normal.classification, Classification::Normal);

    let deviation_roll = w.normal + w.rumor;
    let deviation = generate_from_roll(Pane::Kiln, clock, Zone::Perimeter, 1, last, &mut ledger, 0, deviation_roll, draws(false, false, 1, 0, 6));
    assert_eq!(deviation.text, "11:20 バゲットが6個 焼き上がり");
    assert_eq!(deviation.classification, Classification::ShouldReact);

    let repeat_roll = deviation_roll + w.deviation;
    let repeat = generate_from_roll(Pane::Kiln, clock, Zone::Perimeter, 1, last, &mut ledger, 0, repeat_roll, draws(false, false, 0, 0, 0));
    assert_eq!(repeat.text, "11:18 レジを開けた");
    assert_eq!(repeat.classification, Classification::ShouldReact);

    let call_roll = w.normal + w.rumor + w.deviation + w.repeat + w.item_miscount + w.taboo_event;
    let call = generate_from_roll(Pane::Kiln, clock, Zone::Perimeter, 1, last, &mut ledger, 0, call_roll, draws(false, false, 0, 1, 0));
    assert_eq!(call.text, "11:21 駐車場で誰かが名前を呼んでいる 応えないこと");
    assert_eq!(call.classification, Classification::ShouldNotReact);
}

#[test]
fn floor_repeats_and_calls_are_flavor() {
    let clock = DayClock::at(11, 21);
    let phase = Phase::for_hour(11);
    let mut ledger = RuleLedger::new();
    let w = weights_for(Pane::Floor, phase, Zone::Perimeter, 1, true, &ledger);
    let last = Some("11:18 いらっしゃいませ");
    let repeat_roll = w.normal + w.rumor + w.deviation;
    let repeat = generate_from_roll(Pane::Floor, clock, Zone::Perimeter, 1, last, &mut ledger, 0, repeat_roll, draws(false, false, 0, 0, 0));
    assert_eq!(repeat.text, "11:18 いらっしゃいませ");
    assert_eq!(repeat.classification, Classification::Normal);
    let call_roll = repeat_roll + w.repeat + w.item_miscount + w.taboo_event;
    let call = generate_from_roll(Pane::Floor, clock, Zone::Perimeter, 1, last, &mut ledger, 0, call_roll, draws(false, false, 0, 1, 0));
    assert_eq!(call.classification, Classification::Normal);

    let mut rng = thread_rng();
    for _ in 0..600 {
        let line = generate(Pane::Floor, clock, Zone::Counter, 4, last, &mut ledger, 0, &mut rng);
        assert_eq!(line.classification, Classification::Normal);
    }
}

#[test]
fn generate_from_roll_rumor_enters_the_ledger() {
    let clock = DayClock::at(2, 0);
    let phase = Phase::for_hour(2);
    let mut ledger = RuleLedger::new();
    let w = weights_for(Pane::Floor, phase, Zone::Perimeter, 1, false, &ledger);
    let line = generate_from_roll(Pane::Floor, clock, Zone::Perimeter, 1, None, &mut ledger, 0, w.normal, draws(false, false, 1, 0, 0));
    assert_eq!(line.classification, Classification::Normal);
    assert_eq!(
        ledger.verdict(Pane::Kiln, ThreatKind::NightDelivery, bakery_text::Context { day: 1 }),
        Verdict::Active
    );
}
