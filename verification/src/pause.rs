use vstd::prelude::*;

use super::render::{CURSOR_BLANK, CURSOR_MARK};

verus! {

/// The two choices on the ESC pause overlay.
#[derive(Clone, Copy, PartialEq, Eq, Debug, Structural)]
pub enum PauseOption {
    Resume,
    ReturnToTitle,
}

pub open spec fn pause_label(option: PauseOption) -> Seq<char> {
    match option {
        PauseOption::Resume => "続ける"@,
        PauseOption::ReturnToTitle => "タイトルに戻る"@,
    }
}

impl PauseOption {
    pub fn label(self) -> (res: &'static str)
        ensures
            res@ == pause_label(self),
    {
        match self {
            PauseOption::Resume => "続ける",
            PauseOption::ReturnToTitle => "タイトルに戻る",
        }
    }

    /// The other option.
    pub fn toggled(self) -> (res: Self)
        ensures
            res != self,
            res == (if self == PauseOption::Resume {
                PauseOption::ReturnToTitle
            } else {
                PauseOption::Resume
            }),
    {
        match self {
            PauseOption::Resume => PauseOption::ReturnToTitle,
            PauseOption::ReturnToTitle => PauseOption::Resume,
        }
    }
}

impl Default for PauseOption {
    fn default() -> (res: Self)
        ensures
            res == PauseOption::Resume,
    {
        PauseOption::Resume
    }
}

/// One option's row: the cursor mark if it is the selected one, a blank of
/// the same width otherwise, then its label.
pub fn pause_option_line(option: PauseOption, selection: PauseOption) -> (res: String)
    ensures
        res@ == (if option == selection {
            CURSOR_MARK@
        } else {
            CURSOR_BLANK@
        }) + pause_label(option),
{
    let mut line = String::new();
    if option == selection {
        line.append(CURSOR_MARK);
    } else {
        line.append(CURSOR_BLANK);
    }
    line.append(option.label());
    line
}

/// Whether the ESC pause is in effect, and which option is selected. Not a
/// screen change: pausing must freeze the log in place, not tear it down.
#[derive(Clone, Copy, Debug, PartialEq, Eq)]
pub struct PauseState {
    pub paused: bool,
    pub selection: PauseOption,
}

/// What the display must do after a frame's pause keys.
#[derive(Clone, Copy, Debug, PartialEq, Eq, Structural)]
pub enum PauseEffect {
    /// Nothing changed.
    Nothing,
    /// Paused: hide the log and show the overlay with `Resume` selected.
    Opened,
    /// Unpaused: remove the overlay and show the log again.
    Closed,
    /// Still paused, with the other option now selected.
    Moved,
    /// Unpaused and leaving for the title screen.
    ReturnToTitle,
}

impl PauseState {
    pub fn new() -> (res: Self)
        ensures
            !res.paused,
            res.selection == PauseOption::Resume,
    {
        PauseState { paused: false, selection: PauseOption::Resume }
    }

    /// One frame's pause keys: ESC toggles the pause (and takes precedence over
    /// everything else that frame); while paused, J/K switch the selected option
    /// and Enter carries it out.
    pub fn on_keys(&mut self, escape: bool, switch: bool, enter: bool) -> (effect: PauseEffect)
        ensures
            escape ==> final(self).paused == !old(self).paused,
            escape && !old(self).paused ==> effect == PauseEffect::Opened && final(self).selection
                == PauseOption::Resume,
            escape && old(self).paused ==> effect == PauseEffect::Closed && final(self).selection
                == old(self).selection,
            !escape && !old(self).paused ==> effect == PauseEffect::Nothing && *final(self) == *old(self),
            !escape && old(self).paused ==> {
                let chosen = if switch {
                    if old(self).selection == PauseOption::Resume {
                        PauseOption::ReturnToTitle
                    } else {
                        PauseOption::Resume
                    }
                } else {
                    old(self).selection
                };
                &&& final(self).selection == chosen
                &&& final(self).paused == !enter
                &&& effect == if enter {
                    if chosen == PauseOption::ReturnToTitle {
                        PauseEffect::ReturnToTitle
                    } else {
                        PauseEffect::Closed
                    }
                } else if switch {
                    PauseEffect::Moved
                } else {
                    PauseEffect::Nothing
                }
            },
    {
        if escape {
            self.paused = !self.paused;
            if self.paused {
                self.selection = PauseOption::Resume;
                return PauseEffect::Opened;
            } else {
                return PauseEffect::Closed;
            }
        }
        if !self.paused {
            return PauseEffect::Nothing;
        }
        if switch {
            self.selection = self.selection.toggled();
        }
        if enter {
            self.paused = false;
            if self.selection == PauseOption::ReturnToTitle {
                PauseEffect::ReturnToTitle
            } else {
                PauseEffect::Closed
            }
        } else if switch {
            PauseEffect::Moved
        } else {
            PauseEffect::Nothing
        }
    }
}

} // verus!
