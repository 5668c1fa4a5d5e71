use bakery_text::{pause_option_line, PauseOption, CURSOR_BLANK, CURSOR_MARK};

#[test]
fn toggled_swaps_between_the_two_options() {
    assert_eq!(PauseOption::Resume.toggled(), PauseOption::ReturnToTitle);
    assert_eq!(PauseOption::ReturnToTitle.toggled(), PauseOption::Resume);
}

#[test]
fn pause_option_line_marks_only_the_selected_option() {
    let selected = pause_option_line(PauseOption::Resume, PauseOption::Resume);
    let other = pause_option_line(PauseOption::ReturnToTitle, PauseOption::Resume);
    assert!(selected.starts_with(CURSOR_MARK));
    assert!(other.starts_with(CURSOR_BLANK));
}

#[test]
fn pause_option_line_exact_text() {
    assert_eq!(pause_option_line(PauseOption::Resume, PauseOption::Resume), "＞続ける");
    assert_eq!(pause_option_line(PauseOption::ReturnToTitle, PauseOption::Resume), "　タイトルに戻る");
}

use bakery_text::{PauseEffect, PauseState};

#[test]
fn escape_opens_and_closes_the_pause() {
    let mut state = PauseState::new();
    assert_eq!(state.on_keys(false, true, true), PauseEffect::Nothing);
    assert_eq!(state.on_keys(true, false, false), PauseEffect::Opened);
    assert!(state.paused);
    assert_eq!(state.on_keys(true, false, false), PauseEffect::Closed);
    assert!(!state.paused);
}

#[test]
fn switching_then_enter_returns_to_title() {
    let mut state = PauseState::new();
    state.on_keys(true, false, false);
    assert_eq!(state.on_keys(false, true, false), PauseEffect::Moved);
    assert_eq!(state.selection, PauseOption::ReturnToTitle);
    assert_eq!(state.on_keys(false, false, true), PauseEffect::ReturnToTitle);
    assert!(!state.paused);
    state.on_keys(true, false, false);
    assert_eq!(state.selection, PauseOption::Resume);
    assert_eq!(state.on_keys(false, false, true), PauseEffect::Closed);
}
