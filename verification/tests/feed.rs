use bakery_text::{
    day_marker, queue_day_lines, thread_rng, tick_run, ThreatKind, Verdict, Context, LogLine, Classification, DayClock, GameData, Pane, PaneFeed, Pending,
    PendingLine, Verb, Zone,
};

#[test]
fn scripted_lines_come_first_and_never_enter_the_window() {
    let mut game = GameData::fresh();
    let mut rng = thread_rng();
    let mut feed = PaneFeed::new(Pane::Kiln);
    feed.queue(day_marker(2));
    let line = feed.next_line(&mut game, &mut rng);
    assert_eq!(line.text, "開店から2日目 仕込みを始める");
    let mut pending = Pending::new(8);
    assert!(PaneFeed::enter_window(&mut pending, &line, 7).is_empty());
    assert_eq!(pending.lines.len(), 0);
}

#[test]
fn ordinary_lines_are_remembered_for_repeats() {
    let mut game = GameData::fresh();
    game.clock = DayClock::at(9, 0);
    let mut rng = thread_rng();
    let mut feed = PaneFeed::new(Pane::Outside);
    let line = feed.next_line(&mut game, &mut rng);
    assert_eq!(line.classification, Classification::Normal);
    assert_eq!(feed.last_normal_line.as_deref(), Some(line.text.as_str()));
}

#[test]
fn only_kiln_lines_are_settled() {
    let mut game = GameData::fresh();
    let line = PendingLine {
        entity: 1,
        text: "00:00 レジを開けた".to_string(),
        classification: Classification::Normal,
        relief: 0,
        mark: Some(Verb::Delete),
        delete_wipe: 0,
    };
    let mut floor = PaneFeed::new(Pane::Floor);
    floor.settle_evicted(&mut game, &line);
    assert_eq!((game.corruption, game.zone), (0, Zone::Perimeter));
    let mut kiln = PaneFeed::new(Pane::Kiln);
    kiln.settle_evicted(&mut game, &line);
    assert_eq!((game.corruption, game.income, game.zone), (2, -1, Zone::Inside));
    assert_eq!(kiln.pending_scripted.len(), 1);
    assert_eq!(kiln.pending_scripted[0].text, "00:00 あなたは 行を 削除した");
}

#[test]
fn window_eviction_hands_back_the_oldest_line() {
    let mut game = GameData::fresh();
    let mut rng = thread_rng();
    let mut feed = PaneFeed::new(Pane::Floor);
    let mut pending = Pending::new(Pane::Floor.capacity());
    let mut handed_back = 0;
    for entity in 0..7u64 {
        let line = feed.next_line(&mut game, &mut rng);
        handed_back += PaneFeed::enter_window(&mut pending, &line, entity).len();
    }
    assert_eq!(pending.lines.len(), 5);
    assert_eq!(handed_back, 2);
    assert_eq!(pending.lines[0].entity, 2);
}

#[test]
fn each_crossed_midnight_queues_its_day_lines() {
    let mut rng = thread_rng();
    let mut kiln = PaneFeed::new(Pane::Kiln);
    let mut floor = PaneFeed::new(Pane::Floor);
    queue_day_lines(&mut kiln, &mut floor, 4, 2, DayClock::at(0, 3), &mut rng);
    let markers: Vec<String> = kiln.pending_scripted.iter().map(|l| l.text.clone()).collect();
    assert_eq!(markers, vec!["開店から4日目 仕込みを始める".to_string(), "開店から5日目 仕込みを始める".to_string()]);
    assert_eq!(floor.pending_scripted.len(), 2);
    for notice in &floor.pending_scripted {
        assert!(notice.scripted);
        assert!(notice.text.starts_with("00:02 "));
        assert_eq!(notice.classification, Classification::Normal);
    }
    queue_day_lines(&mut kiln, &mut floor, 6, 0, DayClock::at(0, 3), &mut rng);
    assert_eq!(kiln.pending_scripted.len(), 2);
    assert_eq!(floor.pending_scripted.len(), 2);
}

#[test]
fn only_overflow_leaves_the_window() {
    let mut pending = Pending::new(3);
    let mut evicted_total = Vec::new();
    for entity in 0..5u64 {
        let line = LogLine { text: format!("line {entity}"), classification: Classification::Normal, scripted: false, font: Default::default(), relief: 0 };
        let evicted = PaneFeed::enter_window(&mut pending, &line, entity);
        assert_eq!(evicted.len(), if entity < 3 { 0 } else { 1 });
        evicted_total.extend(evicted.into_iter().map(|l| l.entity));
    }
    assert_eq!(evicted_total, vec![0, 1]);
    assert_eq!(pending.lines.len(), 3);
    assert_eq!(pending.cursor, 2);
}

#[test]
fn settling_a_kiln_line_keeps_todays_rumors() {
    let mut game = GameData::fresh();
    game.rule_ledger.hear(1);
    let line = PendingLine {
        entity: 1,
        text: "00:00 レジを開けた".to_string(),
        classification: Classification::Normal,
        relief: 0,
        mark: Some(Verb::Stamp),
        delete_wipe: 0,
    };
    let mut kiln = PaneFeed::new(Pane::Kiln);
    kiln.settle_evicted(&mut game, &line);
    assert_eq!(game.income, 1);
    assert_eq!(game.rule_ledger.verdict(Pane::Kiln, ThreatKind::NightDelivery, Context { day: game.day }), Verdict::Active);
}

#[test]
fn a_tick_across_midnight_queues_lines_for_the_next_day() {
    let mut game = GameData::fresh();
    game.clock = DayClock::at(23, 59);
    let start_day = game.day;
    let mut rng = thread_rng();
    let mut kiln = PaneFeed::new(Pane::Kiln);
    let mut floor = PaneFeed::new(Pane::Floor);
    let quiet = tick_run(&mut game, &mut kiln, &mut floor, 1, &mut rng);
    assert_eq!(quiet.wraps, 0);
    assert!(kiln.pending_scripted.is_empty() && floor.pending_scripted.is_empty());
    let tick = tick_run(&mut game, &mut kiln, &mut floor, 1_000, &mut rng);
    assert_eq!(tick.wraps, 1);
    assert_eq!(game.day, start_day + 1);
    assert_eq!(kiln.pending_scripted.len(), 1);
    assert_eq!(kiln.pending_scripted[0].text, format!("開店から{}日目 仕込みを始める", start_day + 1));
    assert_eq!(floor.pending_scripted.len(), 1);
    assert!(floor.pending_scripted[0].text.starts_with("00:0"));
}
