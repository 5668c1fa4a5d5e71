use vstd::prelude::*;

use super::clock::{advanced, hour_of, minute_of, DayClock};
use super::generate::{mistake_beat, mistake_body, name_call, name_call_text};
use super::log_line::{is_scripted_line, outcome_of, resolve, Classification, LineFont, LogLine, Outcome};
use super::phase::{phase_of_hour, Phase};
use super::rumors::stamped_text;
use super::rules::RuleLedger;
use super::verb::Verb;
use super::zone::{zone_after, zone_locations, zone_rank, Zone};

verus! {

/// The corruption meter's ceiling: reaching it loses the run.
pub const CORRUPTION_MAX: u32 = 100;

/// `value` clamped into `[0, CORRUPTION_MAX]`.
pub open spec fn clamped_corruption(value: int) -> u32 {
    if value < 0 {
        0
    } else if value > 100 {
        100
    } else {
        value as u32
    }
}

/// Truly global run state -- the shared day clock, the shared corruption
/// meter, today's rumors, and the one-off scripted beats. Everything that
/// belongs to a single pane lives with that pane instead.
pub struct GameData {
    pub day: u32,
    /// Always the phase of `clock`'s hour, re-derived every tick
    /// (`phase_tick`), never advanced on its own timer.
    pub phase: Phase,
    pub clock: DayClock,
    pub zone: Zone,
    /// 0 through 100; never shown to the player.
    pub corruption: u32,
    pub income: i64,
    pub player_name: String,
    pub first_mistake_done: bool,
    pub name_call_done: bool,
    /// 呼ばれる: set once, late in a run. Deliberately not queued into any
    /// pane -- it must never be reachable by a cursor at all.
    pub pending_intrusion: Option<LogLine>,
    pub rule_ledger: RuleLedger,
}

/// What a tick of the shared clock did: how many midnights it crossed, and
/// whether the phase changed (each pane then re-times its spawn interval).
#[derive(Clone, Copy, Debug, PartialEq, Eq)]
pub struct Tick {
    pub wraps: u32,
    pub phase_changed: bool,
}

/// Whether 呼ばれる is due now: not yet called this run, the threat at the
/// counter, night, and an odd minute.
pub open spec fn name_call_due(data: GameData) -> bool {
    &&& !data.name_call_done
    &&& data.zone == Zone::Counter
    &&& data.phase == Phase::Night
    &&& minute_of(data.clock@) % 2 == 1
}

impl GameData {
    /// A fresh run: day 1, midnight, the threat at the perimeter, no
    /// corruption, nothing heard yet.
    pub fn fresh() -> (res: Self)
        ensures
            res.day == 1,
            res.phase == Phase::Prep,
            res.clock@ == 0,
            res.zone == Zone::Perimeter,
            res.corruption == 0,
            res.income == 0,
            res.player_name@ == Seq::<char>::empty(),
            !res.first_mistake_done,
            !res.name_call_done,
            res.pending_intrusion is None,
            res.rule_ledger.heard() == Seq::<usize>::empty(),
    {
        GameData {
            day: 1,
            phase: Phase::Prep,
            clock: DayClock::midnight(),
            zone: Zone::Perimeter,
            corruption: 0,
            income: 0,
            player_name: String::new(),
            first_mistake_done: false,
            name_call_done: false,
            pending_intrusion: None,
            rule_ledger: RuleLedger::new(),
        }
    }

    /// 呼ばれる only ever fires once per run, at whichever moment night and
    /// `Zone::Counter` first coincide on an odd minute -- "now" is the
    /// timestamp, naming the counter's first place.
    pub fn maybe_queue_name_call(&mut self)
        ensures
            name_call_due(*old(self)) ==> {
                &&& final(self).name_call_done
                &&& (final(self).pending_intrusion matches Some(line) && is_scripted_line(
                    line,
                    name_call_text(
                        hour_of(old(self).clock@),
                        minute_of(old(self).clock@),
                        old(self).player_name@,
                        zone_locations(Zone::Counter)[0]@,
                    ),
                    Classification::ShouldNotReact,
                    LineFont::Call,
                ))
            },
            !name_call_due(*old(self)) ==> final(self).pending_intrusion == old(
                self,
            ).pending_intrusion && final(self).name_call_done == old(self).name_call_done,
            old(self).phase != Phase::Night || old(self).name_call_done || old(self).zone != Zone::Counter
                ==> final(self).pending_intrusion == old(self).pending_intrusion
                && final(self).name_call_done == old(self).name_call_done,
            final(self).day == old(self).day,
            final(self).clock == old(self).clock,
            final(self).zone == old(self).zone,
            final(self).phase == old(self).phase,
            final(self).corruption == old(self).corruption,
            final(self).income == old(self).income,
            final(self).first_mistake_done == old(self).first_mistake_done,
            final(self).player_name@ == old(self).player_name@,
            final(self).rule_ledger.heard() == old(self).rule_ledger.heard(),
            final(self).rule_ledger.cast() == old(self).rule_ledger.cast(),
    {
        if self.name_call_done || self.zone != Zone::Counter || self.phase != Phase::Night
            || !self.clock.minute_is_odd() {
            return ;
        }
        self.name_call_done = true;
        let loc = self.zone.location_pool()[0];
        self.pending_intrusion = Some(
            name_call(self.clock.hour(), self.clock.minute(), self.player_name.as_str(), loc),
        );
    }

    /// Folds one resolved line's outcome into the run: corruption moves and is
    /// clamped to `[0, 100]`, income moves, and the threat comes one stage
    /// closer on a `zone_bump`.
    pub fn apply_outcome(&mut self, outcome: Outcome)
        requires
            i64::MIN <= old(self).income + outcome.income <= i64::MAX,
        ensures
            final(self).corruption == clamped_corruption(old(self).corruption + outcome.corruption),
            final(self).corruption <= CORRUPTION_MAX,
            final(self).income == old(self).income + outcome.income,
            final(self).zone == if outcome.zone_bump {
                zone_after(old(self).zone)
            } else {
                old(self).zone
            },
            zone_rank(final(self).zone) >= zone_rank(old(self).zone),
            final(self).day == old(self).day,
            final(self).clock == old(self).clock,
            final(self).phase == old(self).phase,
            final(self).first_mistake_done == old(self).first_mistake_done,
            final(self).name_call_done == old(self).name_call_done,
            final(self).pending_intrusion == old(self).pending_intrusion,
            final(self).player_name@ == old(self).player_name@,
            final(self).rule_ledger.heard() == old(self).rule_ledger.heard(),
            final(self).rule_ledger.cast() == old(self).rule_ledger.cast(),
    {
        let sum: i128 = self.corruption as i128 + outcome.corruption as i128;
        self.corruption = if sum < 0 {
            0
        } else if sum > 100 {
            100
        } else {
            sum as u32
        };
        self.income = self.income + outcome.income;
        if outcome.zone_bump {
            self.zone = self.zone.next();
        }
    }

    /// Resolves a line leaving 焼成室's pending window with the mark it carries
    /// (`None`: left untouched), folds the outcome into the run, and returns the
    /// 二人称 beat the very first time the player marks a line wrongly.
    pub fn settle(&mut self, classification: Classification, mark: Option<Verb>, relief: u32) -> (beat: Option<LogLine>)
        requires
            old(self).income >= i64::MIN + 2,
            old(self).income <= i64::MAX - 3,
        ensures
            ({
                let (delta, earned, bump) = outcome_of(classification, mark, relief as nat);
                &&& final(self).corruption == clamped_corruption(old(self).corruption + delta)
                &&& final(self).income == old(self).income + earned
                &&& final(self).zone == if bump {
                    zone_after(old(self).zone)
                } else {
                    old(self).zone
                }
                &&& (mark is Some && delta > 0 && !old(self).first_mistake_done) ==> {
                    &&& final(self).first_mistake_done
                    &&& (beat matches Some(line) && is_scripted_line(
                        line,
                        stamped_text(old(self).clock@, mistake_body(mark->0)),
                        Classification::Normal,
                        LineFont::Mistake,
                    ))
                }
                &&& !(mark is Some && delta > 0 && !old(self).first_mistake_done) ==> {
                    &&& beat is None
                    &&& final(self).first_mistake_done == old(self).first_mistake_done
                }
            }),
            final(self).day == old(self).day,
            final(self).clock == old(self).clock,
            final(self).phase == old(self).phase,
            final(self).name_call_done == old(self).name_call_done,
            final(self).pending_intrusion == old(self).pending_intrusion,
            final(self).player_name@ == old(self).player_name@,
            final(self).rule_ledger.heard() == old(self).rule_ledger.heard(),
            final(self).rule_ledger.cast() == old(self).rule_ledger.cast(),
    {
        let outcome = resolve(classification, mark, relief);
        let was_mistake = outcome.corruption > 0;
        self.apply_outcome(outcome);
        match mark {
            Some(verb) => {
                if was_mistake && !self.first_mistake_done {
                    self.first_mistake_done = true;
                    Some(mistake_beat(self.clock, verb))
                } else {
                    None
                }
            },
            None => None,
        }
    }

    /// Whether corruption has reached the ceiling: the run is lost.
    pub fn is_lost(&self) -> (res: bool)
        ensures
            res == (self.corruption >= CORRUPTION_MAX),
    {
        self.corruption >= CORRUPTION_MAX
    }

    /// One in-fiction midnight: the day count goes up, the threat comes one
    /// stage closer, and every rumor heard yesterday is forgotten.
    pub fn start_next_day(&mut self)
        requires
            old(self).day < u32::MAX,
        ensures
            final(self).day == old(self).day + 1,
            final(self).zone == zone_after(old(self).zone),
            final(self).rule_ledger.heard() == Seq::<usize>::empty(),
            final(self).rule_ledger.cast() == old(self).rule_ledger.cast(),
            final(self).clock == old(self).clock,
            final(self).phase == old(self).phase,
            final(self).corruption == old(self).corruption,
            final(self).income == old(self).income,
            final(self).first_mistake_done == old(self).first_mistake_done,
            final(self).name_call_done == old(self).name_call_done,
            final(self).pending_intrusion == old(self).pending_intrusion,
            final(self).player_name@ == old(self).player_name@,
    {
        self.day = self.day + 1;
        self.zone = self.zone.next();
        self.rule_ledger.reset_day();
    }

    /// Ticks the one shared clock by `real_millis` real milliseconds: every
    /// midnight crossed starts the next day (`start_next_day`), the phase is
    /// re-derived from the clock's hour rather than kept on its own timer, and
    /// 呼ばれる is queued if it has just become due. The caller adds each
    /// crossed day's scripted lines to the panes (`queue_day_lines`).
    pub fn phase_tick(&mut self, real_millis: u32) -> (res: Tick)
        requires
            old(self).day + advanced(old(self).clock@, real_millis as nat).0 <= u32::MAX,
        ensures
            ticked(*old(self), *final(self), real_millis as nat, res),
    {
        let wraps = self.clock.advance(real_millis);
        let mut k: u32 = 0;
        while k < wraps
            invariant
                k <= wraps,
                self.day == old(self).day + k,
                old(self).day + wraps <= u32::MAX,
                self.zone == zone_after_times(old(self).zone, k as nat),
                k > 0 ==> self.rule_ledger.heard() == Seq::<usize>::empty(),
                k == 0 ==> self.rule_ledger.heard() == old(self).rule_ledger.heard(),
                self.rule_ledger.cast() == old(self).rule_ledger.cast(),
                self.clock@ == advanced(old(self).clock@, real_millis as nat).1,
                self.phase == old(self).phase,
                self.corruption == old(self).corruption,
                self.income == old(self).income,
                self.first_mistake_done == old(self).first_mistake_done,
                self.name_call_done == old(self).name_call_done,
                self.pending_intrusion == old(self).pending_intrusion,
                self.player_name@ == old(self).player_name@,
            decreases wraps - k,
        {
            self.start_next_day();
            k += 1;
        }
        let next = Phase::for_hour(self.clock.hour());
        let phase_changed = next != self.phase;
        self.phase = next;
        self.maybe_queue_name_call();
        Tick { wraps, phase_changed }
    }
}

/// What one tick of `real_millis` real milliseconds does to a run, `before`
/// to `after`, reporting `res`: the clock advances and every midnight crossed
/// starts the next day (day count, zone, rumors forgotten, cast kept), the
/// phase is re-derived from the hour, and 呼ばれる is queued once it is due.
pub open spec fn ticked(before: GameData, after: GameData, real_millis: nat, res: Tick) -> bool {
    &&& (res.wraps as nat, after.clock@) == advanced(before.clock@, real_millis)
    &&& after.day == before.day + res.wraps
    &&& after.zone == zone_after_times(before.zone, res.wraps as nat)
    &&& res.wraps > 0 ==> after.rule_ledger.heard() == Seq::<usize>::empty()
    &&& res.wraps == 0 ==> after.rule_ledger.heard() == before.rule_ledger.heard()
    &&& after.rule_ledger.cast() == before.rule_ledger.cast()
    &&& after.phase == phase_of_hour(hour_of(after.clock@))
    &&& res.phase_changed == (after.phase != before.phase)
    &&& after.corruption == before.corruption
    &&& after.income == before.income
    &&& after.first_mistake_done == before.first_mistake_done
    &&& after.player_name@ == before.player_name@
    &&& ({
        let due = !before.name_call_done && after.zone == Zone::Counter && after.phase == Phase::Night
            && minute_of(after.clock@) % 2 == 1;
        &&& due ==> after.name_call_done
        &&& due ==> (after.pending_intrusion matches Some(line) && is_scripted_line(
            line,
            name_call_text(
                hour_of(after.clock@),
                minute_of(after.clock@),
                before.player_name@,
                zone_locations(Zone::Counter)[0]@,
            ),
            Classification::ShouldNotReact,
            LineFont::Call,
        ))
        &&& !due ==> after.pending_intrusion == before.pending_intrusion && after.name_call_done
            == before.name_call_done
    })
}

/// The zone after `times` midnights.
pub open spec fn zone_after_times(zone: Zone, times: nat) -> Zone
    decreases times,
{
    if times == 0 {
        zone
    } else {
        zone_after(zone_after_times(zone, (times - 1) as nat))
    }
}

/// Corruption never leaves `[0, 100]`, and the threat never moves outward,
/// whatever outcomes arrive in whatever order.
pub proof fn law_meter_bounded_and_zone_monotone(corruption: u32, delta: int, zone: Zone, bump: bool)
    ensures
        clamped_corruption(corruption + delta) <= CORRUPTION_MAX,
        zone_rank(if bump { zone_after(zone) } else { zone }) >= zone_rank(zone),
{
}

/// 呼ばれる belongs to the night, at the counter, once: a tick that ends
/// outside `Phase::Night`, or with the threat short of the counter, or after
/// the call has already been made, leaves the queued intrusion and the
/// once-per-run flag exactly as they were; and a tick that does queue it ends
/// at night, at the counter, on an odd minute.
pub proof fn law_name_call_only_at_night(before: GameData, after: GameData, real_millis: nat, res: Tick)
    requires
        ticked(before, after, real_millis, res),
    ensures
        after.phase != Phase::Night || after.zone != Zone::Counter || before.name_call_done ==> {
            &&& after.pending_intrusion == before.pending_intrusion
            &&& after.name_call_done == before.name_call_done
        },
        after.name_call_done && !before.name_call_done ==> {
            &&& after.phase == Phase::Night
            &&& after.zone == Zone::Counter
            &&& minute_of(after.clock@) % 2 == 1
            &&& after.pending_intrusion is Some
        },
{
}

} // verus!
