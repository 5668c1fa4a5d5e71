use bakery_text::{resolve, Classification, Verb};

#[test]
fn normal_correct_action_is_stamp_and_is_rewarded() {
    let o = resolve(Classification::Normal, Some(Verb::Stamp), 0);
    assert_eq!((o.corruption, o.zone_bump), (0, false));
    assert!(o.income > 0);
}

#[test]
fn normal_left_untouched_is_tatari() {
    let o = resolve(Classification::Normal, None, 0);
    assert!(o.corruption > 0);
    assert!(o.zone_bump);
}

#[test]
fn normal_deleted_instead_of_stamped_is_tatari() {
    let o = resolve(Classification::Normal, Some(Verb::Delete), 0);
    assert!(o.corruption > 0);
    assert!(o.zone_bump);
}

#[test]
fn should_react_correct_verb_rewards() {
    let o = resolve(Classification::ShouldReact, Some(Verb::Delete), 0);
    assert!(o.corruption < 0);
    assert!(o.income > 0);
    assert!(!o.zone_bump);
}

#[test]
fn should_react_untouched_is_tatari() {
    let untouched = resolve(Classification::ShouldReact, None, 0);
    let caught = resolve(Classification::ShouldReact, Some(Verb::Delete), 0);
    assert!(untouched.corruption > caught.corruption);
    assert!(untouched.income < caught.income);
    assert!(untouched.zone_bump);
}

#[test]
fn should_react_stamped_instead_of_deleted_is_also_tatari() {
    let o = resolve(Classification::ShouldReact, Some(Verb::Stamp), 0);
    assert!(o.corruption > 0);
    assert!(o.zone_bump);
}

#[test]
fn should_react_correct_catch_refunds_extra_corruption_when_relieved() {
    let baseline = resolve(Classification::ShouldReact, Some(Verb::Delete), 0);
    let relieved = resolve(Classification::ShouldReact, Some(Verb::Delete), 3);
    assert!(relieved.corruption < baseline.corruption);
    assert!(!relieved.zone_bump);
}

#[test]
fn relief_does_nothing_on_a_miss() {
    let missed = resolve(Classification::ShouldReact, None, 3);
    assert_eq!(missed.corruption, 4);
}

#[test]
fn should_not_react_untouched_is_free() {
    let o = resolve(Classification::ShouldNotReact, None, 0);
    assert_eq!((o.corruption, o.income, o.zone_bump), (0, 0, false));
}

#[test]
fn should_not_react_any_touch_brings_it_closer() {
    let stamped = resolve(Classification::ShouldNotReact, Some(Verb::Stamp), 0);
    assert!(stamped.corruption > 0);
    assert!(stamped.zone_bump);
    let deleted = resolve(Classification::ShouldNotReact, Some(Verb::Delete), 0);
    assert!(deleted.corruption > 0);
    assert!(deleted.zone_bump);
}

#[test]
fn resolve_table_exact_values() {
    let o = resolve(Classification::Normal, Some(Verb::Stamp), 0);
    assert_eq!((o.corruption, o.income, o.zone_bump), (0, 1, false));
    let o = resolve(Classification::ShouldReact, Some(Verb::Delete), 3);
    assert_eq!((o.corruption, o.income, o.zone_bump), (-4, 3, false));
    let o = resolve(Classification::Normal, None, 0);
    assert_eq!((o.corruption, o.income, o.zone_bump), (2, -1, true));
    let o = resolve(Classification::ShouldNotReact, Some(Verb::Delete), 0);
    assert_eq!((o.corruption, o.income, o.zone_bump), (6, -2, true));
}

#[test]
fn correct_actions_per_classification() {
    assert_eq!(Classification::Normal.correct_action(), Some(Verb::Stamp));
    assert_eq!(Classification::ShouldReact.correct_action(), Some(Verb::Delete));
    assert_eq!(Classification::ShouldNotReact.correct_action(), None);
    assert_eq!(Verb::Delete.label(), "削除");
    assert_eq!(Verb::Stamp.label(), "検印");
}
