use bakery_text::{
    catalog, heard_rumor_line, rumor_line, thread_rng, Classification, Context, DayClock, Pane,
    RuleLedger, ThreatKind, Verdict, CATALOG_LEN,
};

#[test]
fn catalog_bodies_are_well_formed() {
    for id in 0..CATALOG_LEN {
        assert!(!catalog(id).body.is_empty());
    }
}

#[test]
fn rumor_line_records_every_pick_into_the_ledger_fills_the_speaker_name_and_stamps_the_time() {
    let mut ledger = RuleLedger::new();
    let mut rng = thread_rng();
    for _ in 0..200 {
        let line = rumor_line(DayClock::at(10, 30), &mut ledger, &mut rng);
        assert_eq!(line.classification, Classification::Normal);
        assert!(!line.text.contains("{name}"));
        assert!(line.text.starts_with("10:30 "));
    }
    assert_eq!(
        ledger.verdict(Pane::Kiln, ThreatKind::NightDelivery, Context { day: 1 }),
        Verdict::Active
    );
}

#[test]
fn heard_rumor_line_names_the_assigned_speaker() {
    let mut ledger = RuleLedger::new();
    let speaker = ledger.speaker_of(1);
    let line = heard_rumor_line(DayClock::at(5, 7), &mut ledger, 1);
    let expected = format!(
        "05:06 {}さんが「夜の納品だけは、お断りしたほうがいいですよ」と念を押していらっしゃいました",
        speaker.name()
    );
    assert_eq!(line.text, expected);
    assert!(!line.scripted);
    assert_eq!(
        ledger.verdict(Pane::Kiln, ThreatKind::NightDelivery, Context { day: 1 }),
        Verdict::Active
    );
}
