use bakery_text::{
    catalog, Condition, Context, CustomerId, Effect, ItemKind, Pane, RuleLedger, RumorId,
    ThreatKind, Verdict, CATALOG_LEN,
};

const CTX_NO_THREE: Context = Context { day: 4 };
const CTX_HAS_THREE: Context = Context { day: 13 };

fn hear_all(mut ledger: RuleLedger, ids: &[RumorId]) -> RuleLedger {
    for &id in ids {
        ledger.hear(id);
    }
    ledger
}

fn find(effect: impl Fn(&Effect) -> bool) -> RumorId {
    (0..CATALOG_LEN).find(|&id| effect(&catalog(id).effect)).expect("no catalog entry matches")
}

#[test]
fn repeat_is_active_from_the_start_on_kiln_and_floor() {
    let ledger = RuleLedger::new();
    assert_eq!(ledger.verdict(Pane::Kiln, ThreatKind::Repeat, CTX_NO_THREE), Verdict::Active);
    assert_eq!(ledger.verdict(Pane::Floor, ThreatKind::Repeat, CTX_NO_THREE), Verdict::Active);
}

#[test]
fn gated_threats_are_suppressed_until_enabled() {
    let ledger = RuleLedger::new();
    assert_eq!(
        ledger.verdict(Pane::Kiln, ThreatKind::NightDelivery, CTX_NO_THREE),
        Verdict::Suppressed
    );
    let enable_night_delivery =
        find(|e| matches!(e, Effect::Enable { threat: ThreatKind::NightDelivery, .. }));
    let ledger = hear_all(ledger, &[enable_night_delivery]);
    assert_eq!(ledger.verdict(Pane::Kiln, ThreatKind::NightDelivery, CTX_NO_THREE), Verdict::Active);
}

#[test]
fn void_only_suppresses_repeat_when_its_condition_holds() {
    let void_repeat = find(|e| matches!(e, Effect::Void { threat: ThreatKind::Repeat, .. }));
    let ledger = hear_all(RuleLedger::new(), &[void_repeat]);
    assert_eq!(ledger.verdict(Pane::Floor, ThreatKind::Repeat, CTX_NO_THREE), Verdict::Active);
    assert_eq!(ledger.verdict(Pane::Floor, ThreatKind::Repeat, CTX_HAS_THREE), Verdict::Suppressed);
}

#[test]
fn void_does_nothing_before_its_rumor_has_been_heard() {
    let ledger = RuleLedger::new();
    assert_eq!(ledger.verdict(Pane::Kiln, ThreatKind::Repeat, CTX_HAS_THREE), Verdict::Active);
}

#[test]
fn item_miscount_defaults_are_not_uniform_across_items() {
    let ledger = RuleLedger::new();
    assert_eq!(
        ledger.verdict(Pane::Kiln, ThreatKind::ItemMiscount(ItemKind::Croissant), CTX_NO_THREE),
        Verdict::Suppressed
    );
    assert_eq!(
        ledger.verdict(Pane::Kiln, ThreatKind::ItemMiscount(ItemKind::ShioPan), CTX_NO_THREE),
        Verdict::Suppressed
    );
    assert_eq!(
        ledger.verdict(Pane::Kiln, ThreatKind::ItemMiscount(ItemKind::MilkLoaf), CTX_NO_THREE),
        Verdict::Suppressed
    );
    assert_eq!(
        ledger.verdict(Pane::Kiln, ThreatKind::ItemMiscount(ItemKind::HotDog), CTX_NO_THREE),
        Verdict::Active
    );
}

#[test]
fn enabling_one_item_s_miscount_does_not_enable_another_s() {
    let enable_croissant = find(|e| {
        matches!(e, Effect::Enable { threat: ThreatKind::ItemMiscount(ItemKind::Croissant), .. })
    });
    let ledger = hear_all(RuleLedger::new(), &[enable_croissant]);
    assert_eq!(
        ledger.verdict(Pane::Kiln, ThreatKind::ItemMiscount(ItemKind::Croissant), CTX_NO_THREE),
        Verdict::Active
    );
    assert_eq!(
        ledger.verdict(Pane::Kiln, ThreatKind::ItemMiscount(ItemKind::ShioPan), CTX_NO_THREE),
        Verdict::Suppressed
    );
}

#[test]
fn hot_dog_item_miscount_is_voided_only_on_a_three_day() {
    let void_hot_dog = find(|e| {
        matches!(e, Effect::Void { threat: ThreatKind::ItemMiscount(ItemKind::HotDog), .. })
    });
    let ledger = hear_all(RuleLedger::new(), &[void_hot_dog]);
    assert_eq!(
        ledger.verdict(Pane::Kiln, ThreatKind::ItemMiscount(ItemKind::HotDog), CTX_NO_THREE),
        Verdict::Active
    );
    assert_eq!(
        ledger.verdict(Pane::Kiln, ThreatKind::ItemMiscount(ItemKind::HotDog), CTX_HAS_THREE),
        Verdict::Suppressed
    );
}

#[test]
fn verdict_ignores_unrelated_rumors_interspersed_in_the_ledger() {
    let enable_night_delivery =
        find(|e| matches!(e, Effect::Enable { threat: ThreatKind::NightDelivery, .. }));
    let unrelated = find(|e| matches!(e, Effect::Foreshadow));
    let ledger = hear_all(RuleLedger::new(), &[unrelated, enable_night_delivery, unrelated]);
    assert_eq!(ledger.verdict(Pane::Kiln, ThreatKind::NightDelivery, CTX_NO_THREE), Verdict::Active);
}

#[test]
fn relief_bonus_is_zero_until_its_rumor_is_heard() {
    let ledger = RuleLedger::new();
    assert_eq!(ledger.relief_bonus(ThreatKind::Repeat), 0);
}

#[test]
fn relief_bonus_applies_once_heard() {
    let relieve_repeat = find(|e| matches!(e, Effect::Relieve { threat: ThreatKind::Repeat, .. }));
    let ledger = hear_all(RuleLedger::new(), &[relieve_repeat]);
    assert!(ledger.relief_bonus(ThreatKind::Repeat) > 0);
    assert_eq!(ledger.relief_bonus(ThreatKind::NightDelivery), 0);
}

#[test]
fn cast_speaker_assignment_varies_across_rolls() {
    let speakers: Vec<CustomerId> = (0..40).map(|_| RuleLedger::new().speaker_of(0)).collect();
    assert!(
        speakers.iter().any(|&s| s != speakers[0]),
        "rolled the same speaker for rumor 0 in all 40 runs"
    );
}

#[test]
fn condition_variants_are_exercised() {
    assert!(Condition::DayHasThree.holds(CTX_HAS_THREE));
    assert!(!Condition::DayHasThree.holds(CTX_NO_THREE));
}

#[test]
fn reset_day_clears_heard_rumors_but_keeps_the_cast() {
    let enable_night_delivery =
        find(|e| matches!(e, Effect::Enable { threat: ThreatKind::NightDelivery, .. }));
    let mut ledger = hear_all(RuleLedger::new(), &[enable_night_delivery]);
    let speaker_before = ledger.speaker_of(enable_night_delivery);
    assert_eq!(ledger.verdict(Pane::Kiln, ThreatKind::NightDelivery, CTX_NO_THREE), Verdict::Active);

    ledger.reset_day();

    assert_eq!(
        ledger.verdict(Pane::Kiln, ThreatKind::NightDelivery, CTX_NO_THREE),
        Verdict::Suppressed
    );
    assert_eq!(ledger.speaker_of(enable_night_delivery), speaker_before);
}

#[test]
fn newer_rumor_overrides_older_on_the_same_threat() {
    let void_hot_dog = find(|e| {
        matches!(e, Effect::Void { threat: ThreatKind::ItemMiscount(ItemKind::HotDog), .. })
    });
    let ledger = hear_all(RuleLedger::new(), &[void_hot_dog]);
    let ctx = Context { day: 3 };
    assert_eq!(
        ledger.verdict(Pane::Kiln, ThreatKind::ItemMiscount(ItemKind::HotDog), ctx),
        Verdict::Suppressed
    );
    // The night delivery's enable only works on 焼成室.
    let enable_night_delivery =
        find(|e| matches!(e, Effect::Enable { threat: ThreatKind::NightDelivery, .. }));
    let ledger = hear_all(ledger, &[enable_night_delivery]);
    assert_eq!(ledger.verdict(Pane::Floor, ThreatKind::NightDelivery, ctx), Verdict::Suppressed);
}

#[test]
fn day_has_three_reads_every_digit() {
    for (day, expected) in [(0, false), (3, true), (30, true), (103, true), (123, true), (1000, false), (99, false)] {
        assert_eq!(Condition::DayHasThree.holds(Context { day }), expected, "day {day}");
    }
}

#[test]
fn relief_bonus_is_three_for_the_repeat_charm() {
    let relieve_repeat = find(|e| matches!(e, Effect::Relieve { threat: ThreatKind::Repeat, .. }));
    let ledger = hear_all(RuleLedger::new(), &[relieve_repeat]);
    assert_eq!(ledger.relief_bonus(ThreatKind::Repeat), 3);
}
