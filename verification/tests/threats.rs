use bakery_text::{
    deviation_line, deviation_threat_line, night_delivery_line, night_delivery_threat_line,
    thread_rng, Classification, DayClock,
};

#[test]
fn deviation_threat_line_is_always_legible_and_always_react() {
    let mut rng = thread_rng();
    for _ in 0..200 {
        let line = deviation_threat_line(DayClock::at(11, 30), &mut rng);
        assert_eq!(line.classification, Classification::ShouldReact);
        assert!(!line.text.is_empty());
    }
}

#[test]
fn night_delivery_threat_line_is_should_not_react_and_carries_a_timestamp() {
    let mut rng = thread_rng();
    let line = night_delivery_threat_line(DayClock::at(23, 0), &mut rng);
    assert_eq!(line.classification, Classification::ShouldNotReact);
    assert!(line.text.starts_with("23:"));
}

#[test]
fn deviation_lines_exact_text() {
    let clock = DayClock::at(9, 5);
    assert_eq!(deviation_line(clock, 0, 7).text, "09:04 バゲットが7本 焼きあがり");
    assert_eq!(deviation_line(clock, 1, 12).text, "09:04 バゲットが12個 焼き上がり");
    assert_eq!(deviation_line(clock, 2, 3).text, "09:04 配達伝票を3件");
}

#[test]
fn night_delivery_line_exact_text() {
    let line = night_delivery_line(DayClock::at(21, 41), 4);
    assert_eq!(line.text, "21:40 深夜便の配達を4件 受け取った");
    assert_eq!(line.classification, Classification::ShouldNotReact);
}
