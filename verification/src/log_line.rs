use vstd::prelude::*;

use super::verb::Verb;

verus! {

/// What a line is, as far as the player's reaction goes.
#[derive(Clone, Copy, PartialEq, Eq, Debug, Structural)]
pub enum Classification {
    Normal,
    ShouldReact,
    ShouldNotReact,
}

/// The one correct action for each classification: 検印 for ordinary
/// business, 削除 for a threat, and 静観 (`None`) for a threat that must not be
/// touched.
pub open spec fn correct_action_of(c: Classification) -> Option<Verb> {
    match c {
        Classification::Normal => Some(Verb::Stamp),
        Classification::ShouldReact => Some(Verb::Delete),
        Classification::ShouldNotReact => None,
    }
}

impl Classification {
    /// The one and only correct verb for this classification. Every other
    /// action -- including plain inaction on a `Normal`/`ShouldReact` line --
    /// is タタリ (`resolve`).
    pub fn correct_action(self) -> (res: Option<Verb>)
        ensures
            res == correct_action_of(self),
    {
        match self {
            Classification::Normal => Some(Verb::Stamp),
            Classification::ShouldReact => Some(Verb::Delete),
            Classification::ShouldNotReact => None,
        }
    }
}

/// Which typeface a line renders in. Reserved for the scripted beats -- every
/// procedurally generated line stays `Normal` so that anomalies are only ever
/// caught by their 筆癖, never by an out-of-band visual cue.
#[derive(Clone, Copy, PartialEq, Eq, Debug, Structural)]
pub enum LineFont {
    Normal,
    /// 二人称の障り (`あなたは 行を ◯◯した`)
    Mistake,
    /// 呼ばれる / the Lost screen's corrupted log
    Call,
}

impl Default for LineFont {
    fn default() -> (res: Self)
        ensures
            res == LineFont::Normal,
    {
        LineFont::Normal
    }
}

/// One line of log text and how it counts.
#[derive(Clone, Debug)]
pub struct LogLine {
    pub text: String,
    pub classification: Classification,
    /// Scripted beats never enter a cursor's pending window.
    pub scripted: bool,
    pub font: LineFont,
    /// Extra corruption a *correct* catch of this line refunds, on top of the
    /// flat 1 every correct `ShouldReact` catch already earns -- set by a
    /// 援助系の禁忌 once its rumor has been heard. Only ever moves corruption,
    /// never `Zone`.
    pub relief: u32,
}

/// A line's text with the rest of its fields: an ordinary, unscripted line in
/// the normal typeface with no relief.
pub open spec fn is_plain_line(line: LogLine, text: Seq<char>, c: Classification) -> bool {
    &&& line.text@ == text
    &&& line.classification == c
    &&& !line.scripted
    &&& line.font == LineFont::Normal
    &&& line.relief == 0
}

/// A scripted line (one no cursor can reach) in the given typeface.
pub open spec fn is_scripted_line(
    line: LogLine,
    text: Seq<char>,
    c: Classification,
    font: LineFont,
) -> bool {
    &&& line.text@ == text
    &&& line.classification == c
    &&& line.scripted
    &&& line.font == font
    &&& line.relief == 0
}

impl LogLine {
    pub(crate) fn new(text: String, classification: Classification) -> (res: Self)
        ensures
            is_plain_line(res, text@, classification),
    {
        LogLine { text, classification, scripted: false, font: LineFont::Normal, relief: 0 }
    }

    pub(crate) fn scripted(self) -> (res: Self)
        ensures
            res.text@ == self.text@,
            res.classification == self.classification,
            res.scripted,
            res.font == self.font,
            res.relief == self.relief,
    {
        let mut line = self;
        line.scripted = true;
        line
    }

    pub(crate) fn with_font(self, font: LineFont) -> (res: Self)
        ensures
            res.text@ == self.text@,
            res.classification == self.classification,
            res.scripted == self.scripted,
            res.font == font,
            res.relief == self.relief,
    {
        let mut line = self;
        line.font = font;
        line
    }

    pub(crate) fn relieved(self, bonus: u32) -> (res: Self)
        ensures
            res.text@ == self.text@,
            res.classification == self.classification,
            res.scripted == self.scripted,
            res.font == self.font,
            res.relief == bonus,
    {
        let mut line = self;
        line.relief = bonus;
        line
    }
}

/// The consequence of resolving one line.
#[derive(Clone, Copy, Debug, PartialEq, Eq)]
pub struct Outcome {
    /// Change to the shared corruption meter (negative heals).
    pub corruption: i64,
    pub income: i64,
    /// Whether the threat comes one stage closer.
    pub zone_bump: bool,
}

/// `(corruption, income, zone_bump)` for applying `action` to a line of
/// classification `c` carrying `relief`.
pub open spec fn outcome_of(c: Classification, action: Option<Verb>, relief: nat) -> (
    int,
    int,
    bool,
) {
    if action == correct_action_of(c) {
        match c {
            Classification::Normal => (0, 1, false),
            Classification::ShouldReact => (-1 - relief, 3, false),
            Classification::ShouldNotReact => (0, 0, false),
        }
    } else {
        match c {
            Classification::Normal => (2, -1, true),
            Classification::ShouldReact => (4, -1, true),
            Classification::ShouldNotReact => (6, -2, true),
        }
    }
}

fn same_action(a: Option<Verb>, b: Option<Verb>) -> (res: bool)
    ensures
        res == (a == b),
{
    match (a, b) {
        (None, None) => true,
        (Some(x), Some(y)) => x == y,
        _ => false,
    }
}

/// Resolve the consequence of applying `action` to a line of the given
/// classification, where `None` means the line was left untouched -- either
/// deliberately (静観), or because it aged out of the cursor's pending window
/// before the player got to it. Both cases resolve identically.
///
/// Matching the classification's one correct action is always a plain
/// reward; anything else -- wrong verb *or* inaction where an action was
/// required -- is uniformly タタリ: corruption plus `zone_bump`. `relief` only
/// ever sweetens a correct `ShouldReact` catch.
pub fn resolve(classification: Classification, action: Option<Verb>, relief: u32) -> (res: Outcome)
    ensures
        (res.corruption as int, res.income as int, res.zone_bump) == outcome_of(
            classification,
            action,
            relief as nat,
        ),
        res.zone_bump <==> action != correct_action_of(classification),
        res.zone_bump ==> res.corruption > 0,
        !res.zone_bump ==> res.corruption <= 0,
        res.zone_bump ==> res.income < 0,
        !res.zone_bump ==> res.income >= 0,
{
    if same_action(action, classification.correct_action()) {
        match classification {
            Classification::Normal => Outcome { corruption: 0, income: 1, zone_bump: false },
            Classification::ShouldReact => Outcome {
                corruption: -1 - relief as i64,
                income: 3,
                zone_bump: false,
            },
            Classification::ShouldNotReact => Outcome { corruption: 0, income: 0, zone_bump: false },
        }
    } else {
        match classification {
            Classification::Normal => Outcome { corruption: 2, income: -1, zone_bump: true },
            Classification::ShouldReact => Outcome { corruption: 4, income: -1, zone_bump: true },
            Classification::ShouldNotReact => Outcome { corruption: 6, income: -2, zone_bump: true },
        }
    }
}

/// A charm's relief only ever sweetens a correct catch: a miss costs the same
/// whatever relief the line carries, and a correct 削除 of a `ShouldReact`
/// line heals exactly one more than its relief.
pub proof fn law_relief_only_sweetens_a_correct_catch(
    c: Classification,
    action: Option<Verb>,
    relief: nat,
)
    ensures
        action != correct_action_of(c) ==> outcome_of(c, action, relief) == outcome_of(c, action, 0),
        outcome_of(Classification::ShouldReact, Some(Verb::Delete), relief).0 == -1 - relief,
        outcome_of(Classification::ShouldReact, Some(Verb::Delete), relief).2 == false,
{
}

/// Exactly one action per classification is correct: any two different
/// actions cannot both avoid タタリ.
pub proof fn law_exactly_one_correct_action(c: Classification, a: Option<Verb>, b: Option<Verb>)
    ensures
        !outcome_of(c, a, 0).2 && !outcome_of(c, b, 0).2 ==> a == b,
        !outcome_of(c, correct_action_of(c), 0).2,
{
}

/// タタリ always costs: whatever the line and its relief, any action other
/// than its one correct action adds corruption, loses income and brings the
/// threat one stage closer; the correct action never loses income, never adds
/// corruption and never moves the threat.
pub proof fn law_tatari_always_costs(c: Classification, action: Option<Verb>, relief: nat)
    ensures
        action != correct_action_of(c) ==> {
            &&& outcome_of(c, action, relief).0 > 0
            &&& outcome_of(c, action, relief).1 < 0
            &&& outcome_of(c, action, relief).2
        },
        action == correct_action_of(c) ==> {
            &&& outcome_of(c, action, relief).0 <= 0
            &&& outcome_of(c, action, relief).1 >= 0
            &&& !outcome_of(c, action, relief).2
        },
{
}

} // verus!
