use vstd::prelude::*;

use super::phase::{phase_interval_millis, Phase};
use super::zone::Zone;

verus! {

/// One of the three simultaneous camera feeds the player watches from the
/// counter. Each has its own register (see `generate`) and its own pacing.
/// Only `Kiln` is ever operable -- `Outside`/`Floor` only ever generate
/// `Classification::Normal` flavor (plus, for `Floor`, the rumors that rewrite
/// `Kiln`'s rules), never reactable threat content.
#[derive(Clone, Copy, PartialEq, Eq, Debug, Structural)]
pub enum Pane {
    /// 焼成室. The baker's own record -- technical, terse. The only pane the
    /// player ever acts on.
    Kiln,
    /// 外. A deadpan fixed-point watch, mostly "異常なし".
    Outside,
    /// 売り場. The clerk's customer-facing log, in です/ます.
    Floor,
}

pub open spec fn pane_label(pane: Pane) -> Seq<char> {
    match pane {
        Pane::Kiln => "焼成室"@,
        Pane::Outside => "外"@,
        Pane::Floor => "売り場"@,
    }
}

/// How many lines a pane's cursor window holds.
pub open spec fn pane_capacity(pane: Pane) -> usize {
    match pane {
        Pane::Kiln => 8,
        _ => 5,
    }
}

/// Each pane's pacing over the shared phase tempo, in percent.
pub open spec fn pane_pace_percent(pane: Pane) -> u32 {
    match pane {
        Pane::Kiln => 100,
        Pane::Outside => 240,
        Pane::Floor => 85,
    }
}

/// A pane's spawn interval in a phase, in milliseconds.
pub open spec fn pane_interval_millis(pane: Pane, phase: Phase) -> int {
    phase_interval_millis(phase) * pane_pace_percent(pane) / 100
}

/// Which escalation stage is "pointed at" which pane (外→売り場→焼成室).
pub open spec fn pane_matches_zone(pane: Pane, zone: Zone) -> bool {
    ||| pane == Pane::Outside && zone == Zone::Perimeter
    ||| pane == Pane::Floor && zone == Zone::Inside
    ||| pane == Pane::Kiln && zone == Zone::Counter
}

/// The golden ratio, in millionths.
const GOLDEN_RATIO_MILLIONTHS: u32 = 1_618_034;

impl Pane {
    pub fn label(self) -> (res: &'static str)
        ensures
            res@ == pane_label(self),
    {
        match self {
            Pane::Kiln => "焼成室",
            Pane::Outside => "外",
            Pane::Floor => "売り場",
        }
    }

    /// How many lines this pane's cursor window holds at once. `Kiln` is the
    /// full-width main monitor; `Outside`/`Floor` share the remaining space, so
    /// they hold fewer -- `Kiln`'s 8 divided by the golden ratio, rounded to
    /// the nearest whole line (5).
    pub fn capacity(self) -> (res: usize)
        ensures
            res == pane_capacity(self),
    {
        let kiln_capacity: u32 = 8;
        match self {
            Pane::Kiln => kiln_capacity as usize,
            Pane::Outside | Pane::Floor => {
                let scaled = kiln_capacity * 1_000_000 + GOLDEN_RATIO_MILLIONTHS / 2;
                (scaled / GOLDEN_RATIO_MILLIONTHS) as usize
            },
        }
    }

    /// This pane's own pacing, layered on top of the shared `Phase` tempo, in
    /// milliseconds between lines -- `外` is sparse and quiet, `売り場` busiest.
    pub fn spawn_interval_secs(self, phase: Phase) -> (res: u32)
        ensures
            res == pane_interval_millis(self, phase),
    {
        let base = phase.spawn_interval_secs();
        let percent: u32 = match self {
            Pane::Kiln => 100,
            Pane::Outside => 240,
            Pane::Floor => 85,
        };
        base * percent / 100
    }

    /// Whether `zone`'s current escalation stage is "pointed at" this pane.
    pub fn matches_zone(self, zone: Zone) -> (res: bool)
        ensures
            res == pane_matches_zone(self, zone),
    {
        match (self, zone) {
            (Pane::Outside, Zone::Perimeter) | (Pane::Floor, Zone::Inside) | (
                Pane::Kiln,
                Zone::Counter,
            ) => true,
            _ => false,
        }
    }
}

/// In every phase, 外 spawns least often and 売り場 most often.
pub proof fn law_outside_quietest_floor_busiest(phase: Phase)
    ensures
        pane_interval_millis(Pane::Outside, phase) > pane_interval_millis(Pane::Kiln, phase),
        pane_interval_millis(Pane::Floor, phase) < pane_interval_millis(Pane::Kiln, phase),
{
    let base = phase_interval_millis(phase) as int;
    assert(1100 <= base <= 3200);
    assert(base * 240 / 100 > base * 100 / 100) by (nonlinear_arith)
        requires
            1100 <= base <= 3200,
    ;
    assert(base * 85 / 100 < base * 100 / 100) by (nonlinear_arith)
        requires
            1100 <= base <= 3200,
    ;
}

/// Each escalation stage points at exactly one pane.
pub proof fn law_each_zone_points_at_one_pane(zone: Zone, a: Pane, b: Pane)
    ensures
        exists|p: Pane| pane_matches_zone(p, zone),
        pane_matches_zone(a, zone) && pane_matches_zone(b, zone) ==> a == b,
{
    match zone {
        Zone::Perimeter => assert(pane_matches_zone(Pane::Outside, zone)),
        Zone::Inside => assert(pane_matches_zone(Pane::Floor, zone)),
        Zone::Counter => assert(pane_matches_zone(Pane::Kiln, zone)),
    }
}

} // verus!
