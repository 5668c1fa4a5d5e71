use std::collections::VecDeque;

use rand::rngs::ThreadRng;
use vstd::prelude::*;

use super::clock::{advanced, DayClock};
use super::game_data::{clamped_corruption, ticked, GameData, Tick};
use super::generate::{
    day_marker, day_marker_text, generate, generated, is_any_reset_notice, mistake_body,
    rule_reset_notice,
};
use super::log_line::{is_scripted_line, outcome_of, Classification, LineFont, LogLine};
use super::pane::Pane;
use super::pending::{clamp, evicted_count, last_index, Pending, PendingLine};
use super::rumors::stamped_text;
use super::zone::zone_after;

verus! {

broadcast use vstd::std_specs::vecdeque::group_vec_dequeue_axioms;

/// The text a pane remembers as its last ordinary line, if any.
pub open spec fn remembered(last: Option<String>) -> Option<Seq<char>> {
    match last {
        Some(text) => Some(text@),
        None => None,
    }
}

/// Everything in a run's state except today's heard rumors is the same in
/// `a` and `b`.
pub open spec fn same_but_rumors(a: GameData, b: GameData) -> bool {
    &&& a.day == b.day
    &&& a.phase == b.phase
    &&& a.clock == b.clock
    &&& a.zone == b.zone
    &&& a.corruption == b.corruption
    &&& a.income == b.income
    &&& a.player_name@ == b.player_name@
    &&& a.first_mistake_done == b.first_mistake_done
    &&& a.name_call_done == b.name_call_done
    &&& a.pending_intrusion == b.pending_intrusion
    &&& a.rule_ledger.cast() == b.rule_ledger.cast()
}

/// One camera feed's own state: which pane it is, its memory of its last
/// ordinary line (needed for 反復), and its queue of scripted lines (day
/// markers, the mistake beat, reset notices) that must appear on this pane
/// specifically. Its spawn timer belongs to the display.
pub struct PaneFeed {
    pub pane: Pane,
    pub last_normal_line: Option<String>,
    pub pending_scripted: VecDeque<LogLine>,
}

impl PaneFeed {
    pub fn new(pane: Pane) -> (res: Self)
        ensures
            res.pane == pane,
            res.last_normal_line is None,
            res.pending_scripted@ == Seq::<LogLine>::empty(),
    {
        PaneFeed { pane, last_normal_line: None, pending_scripted: VecDeque::new() }
    }

    /// Queues a scripted line to appear on this pane at its next spawn.
    pub fn queue(&mut self, line: LogLine)
        ensures
            final(self).pending_scripted@ == old(self).pending_scripted@.push(line),
            final(self).pane == old(self).pane,
            final(self).last_normal_line == old(self).last_normal_line,
    {
        self.pending_scripted.push_back(line);
    }

    /// The pane's next line: the oldest queued scripted line if there is one,
    /// otherwise a freshly generated one. An ordinary (`Normal`) line becomes
    /// the pane's remembered last ordinary line.
    pub fn next_line(&mut self, game: &mut GameData, rng: &mut ThreadRng) -> (line: LogLine)
        ensures
            old(self).pending_scripted@.len() > 0 ==> {
                &&& line == old(self).pending_scripted@[0]
                &&& final(self).pending_scripted@ == old(self).pending_scripted@.drop_first()
                &&& final(game).rule_ledger.heard() == old(game).rule_ledger.heard()
            },
            old(self).pending_scripted@.len() == 0 ==> {
                &&& final(self).pending_scripted@ == old(self).pending_scripted@
                &&& generated(
                    old(self).pane,
                    old(game).clock@,
                    old(game).zone,
                    old(game).day as nat,
                    remembered(old(self).last_normal_line),
                    old(game).rule_ledger.heard(),
                    old(game).rule_ledger.cast(),
                    old(game).corruption as nat,
                    final(game).rule_ledger.heard(),
                    line,
                )
            },
            old(self).pending_scripted@.len() == 0 && old(self).pane != Pane::Kiln ==> line.classification
                == Classification::Normal,
            line.classification == Classification::Normal ==> remembered(final(self).last_normal_line)
                == Some(line.text@),
            line.classification != Classification::Normal ==> final(self).last_normal_line == old(self).last_normal_line,
            final(self).pane == old(self).pane,
            same_but_rumors(*final(game), *old(game)),
    {
        let line = match self.pending_scripted.pop_front() {
            Some(scripted) => scripted,
            None => {
                let clock = game.clock;
                let zone = game.zone;
                let day = game.day;
                let corruption = game.corruption;
                let last: Option<&str> = match &self.last_normal_line {
                    Some(text) => Some(text.as_str()),
                    None => None,
                };
                generate(self.pane, clock, zone, day, last, &mut game.rule_ledger, corruption, rng)
            },
        };
        if line.classification == Classification::Normal {
            let mut text = String::new();
            text.append(line.text.as_str());
            self.last_normal_line = Some(text);
        }
        line
    }

    /// A line entering the pane's pending window: scripted lines never do (no
    /// cursor can ever reach them); any other line joins the window, and the
    /// lines it pushes off the front come back, oldest first, to be settled.
    pub fn enter_window(pending: &mut Pending, line: &LogLine, entity: u64) -> (evicted: Vec<PendingLine>)
        ensures
            line.scripted ==> evicted@ == Seq::<PendingLine>::empty() && final(pending).window()
                == old(pending).window() && final(pending).at() == old(pending).at(),
            !line.scripted ==> final(pending).window().len() > 0 && final(pending).window().last()
                == (PendingLine {
                entity,
                text: final(pending).window().last().text,
                classification: line.classification,
                relief: line.relief,
                mark: None,
                delete_wipe: 0,
            }) && final(pending).window().last().text@ == line.text@,
            !line.scripted ==> evicted@ + final(pending).window() == old(pending).window().push(
                final(pending).window().last(),
            ),
            !line.scripted ==> final(pending).window().len() <= super::pending::window_limit(
                old(pending).window_capacity(),
            ),
            !line.scripted ==> evicted@.len() == evicted_count(
                old(pending).window().len(),
                old(pending).window_capacity(),
            ),
            !line.scripted ==> final(pending).at() == if old(pending).follows() {
                last_index(final(pending).window().len()) as int
            } else {
                clamp(
                    clamp(
                        old(pending).at() - evicted_count(old(pending).window().len(), old(pending).window_capacity()),
                        0,
                        old(pending).at() as int,
                    ),
                    0,
                    last_index(final(pending).window().len()) as int,
                )
            },
            !line.scripted ==> final(pending).at() < final(pending).window().len(),
            final(pending).follows() == old(pending).follows(),
            final(pending).window_capacity() == old(pending).window_capacity(),
    {
        if line.scripted {
            return Vec::new();
        }
        let mut text = String::new();
        text.append(line.text.as_str());
        let evicted = pending.push(
            PendingLine {
                entity,
                text,
                classification: line.classification,
                relief: line.relief,
                mark: None,
                delete_wipe: 0,
            },
        );
        proof {
            let all = old(pending).window().push(pending.window().last());
            let k = evicted@.len() as int;
            assert(evicted@ + pending.window() =~= all.take(k) + all.skip(k));
            assert(all.take(k) + all.skip(k) =~= all);
        }
        evicted
    }

    /// Settles one line that aged out of this pane's window. Only 焼成室 is
    /// operable, so only its lines are resolved (with whatever mark they carry)
    /// into the run; 外 and 売り場 lines simply scroll away. The first wrong
    /// mark of the run queues the 二人称 beat on this pane.
    pub fn settle_evicted(&mut self, game: &mut GameData, line: &PendingLine)
        requires
            old(game).income >= i64::MIN + 2,
            old(game).income <= i64::MAX - 3,
        ensures
            old(self).pane != Pane::Kiln ==> same_but_rumors(*final(game), *old(game)),
            old(self).pane != Pane::Kiln ==> final(game).rule_ledger.heard() == old(game).rule_ledger.heard(),
            old(self).pane != Pane::Kiln ==> final(self).pending_scripted@ == old(self).pending_scripted@,
            old(self).pane == Pane::Kiln ==> ({
                let (delta, earned, bump) = outcome_of(line.classification, line.mark, line.relief as nat);
                let first = line.mark is Some && delta > 0 && !old(game).first_mistake_done;
                &&& final(game).corruption == clamped_corruption(old(game).corruption + delta)
                &&& final(game).income == old(game).income + earned
                &&& final(game).day == old(game).day
                &&& final(game).clock == old(game).clock
                &&& final(game).phase == old(game).phase
                &&& final(game).name_call_done == old(game).name_call_done
                &&& final(game).pending_intrusion == old(game).pending_intrusion
                &&& final(game).player_name@ == old(game).player_name@
                &&& final(game).rule_ledger.heard() == old(game).rule_ledger.heard()
                &&& final(game).rule_ledger.cast() == old(game).rule_ledger.cast()
                &&& final(game).zone == if bump {
                    zone_after(old(game).zone)
                } else {
                    old(game).zone
                }
                &&& first ==> final(game).first_mistake_done
                &&& first ==> final(self).pending_scripted@.len() == old(self).pending_scripted@.len() + 1
                &&& first ==> final(self).pending_scripted@.drop_last() == old(self).pending_scripted@
                &&& first ==> is_scripted_line(
                    final(self).pending_scripted@.last(),
                    stamped_text(old(game).clock@, mistake_body(line.mark->0)),
                    Classification::Normal,
                    LineFont::Mistake,
                )
                &&& !first ==> final(game).first_mistake_done == old(game).first_mistake_done
                &&& !first ==> final(self).pending_scripted@ == old(self).pending_scripted@
            }),
            final(self).pane == old(self).pane,
            final(self).last_normal_line == old(self).last_normal_line,
    {
        if self.pane != Pane::Kiln {
            return ;
        }
        if let Some(beat) = game.settle(line.classification, line.mark, line.relief) {
            let ghost before = self.pending_scripted@;
            self.pending_scripted.push_back(beat);
            proof {
                assert(self.pending_scripted@.drop_last() =~= before);
            }
        }
    }
}

/// The scripted lines for the `wraps` days that begin at `first_day` (each
/// midnight the clock just crossed, read at `clock`): 焼成室's day marker for
/// each new day, in order, and one of 売り場's remarks that yesterday's talk is
/// over, one per day. Nothing else about either feed changes.
pub fn queue_day_lines(
    kiln: &mut PaneFeed,
    floor: &mut PaneFeed,
    first_day: u32,
    wraps: u32,
    clock: DayClock,
    rng: &mut ThreadRng,
)
    requires
        first_day + wraps <= u32::MAX + 1,
    ensures
        final(kiln).pending_scripted@.len() == old(kiln).pending_scripted@.len() + wraps,
        final(kiln).pending_scripted@.take(old(kiln).pending_scripted@.len() as int)
            == old(kiln).pending_scripted@,
        forall|i: int|
            0 <= i < wraps ==> is_scripted_line(
                #[trigger] final(kiln).pending_scripted@[old(kiln).pending_scripted@.len() + i],
                day_marker_text((first_day + i) as nat),
                Classification::Normal,
                LineFont::Normal,
            ),
        final(floor).pending_scripted@.len() == old(floor).pending_scripted@.len() + wraps,
        final(floor).pending_scripted@.take(old(floor).pending_scripted@.len() as int)
            == old(floor).pending_scripted@,
        forall|i: int|
            0 <= i < wraps ==> is_any_reset_notice(
                clock@,
                #[trigger] final(floor).pending_scripted@[old(floor).pending_scripted@.len() + i],
            ),
        final(kiln).pane == old(kiln).pane,
        final(kiln).last_normal_line == old(kiln).last_normal_line,
        final(floor).pane == old(floor).pane,
        final(floor).last_normal_line == old(floor).last_normal_line,
{
    let ghost kiln_before = kiln.pending_scripted@;
    let ghost floor_before = floor.pending_scripted@;
    let mut offset: u32 = 0;
    while offset < wraps
        invariant
            offset <= wraps,
            first_day + wraps <= u32::MAX + 1,
            kiln_before == old(kiln).pending_scripted@,
            floor_before == old(floor).pending_scripted@,
            kiln.pending_scripted@.len() == kiln_before.len() + offset,
            kiln.pending_scripted@.take(kiln_before.len() as int) == kiln_before,
            forall|i: int|
                0 <= i < offset ==> is_scripted_line(
                    #[trigger] kiln.pending_scripted@[kiln_before.len() + i],
                    day_marker_text((first_day + i) as nat),
                    Classification::Normal,
                    LineFont::Normal,
                ),
            floor.pending_scripted@.len() == floor_before.len() + offset,
            floor.pending_scripted@.take(floor_before.len() as int) == floor_before,
            forall|i: int|
                0 <= i < offset ==> is_any_reset_notice(clock@, #[trigger] floor.pending_scripted@[floor_before.len() + i]),
            kiln.pane == old(kiln).pane,
            kiln.last_normal_line == old(kiln).last_normal_line,
            floor.pane == old(floor).pane,
            floor.last_normal_line == old(floor).last_normal_line,
        decreases wraps - offset,
    {
        let marker = day_marker(first_day + offset);
        let notice = rule_reset_notice(clock, rng);
        let ghost k = kiln.pending_scripted@;
        let ghost f = floor.pending_scripted@;
        kiln.queue(marker);
        floor.queue(notice);
        proof {
            assert(kiln.pending_scripted@ == k.push(marker));
            assert(floor.pending_scripted@ == f.push(notice));
            assert(kiln.pending_scripted@.take(kiln_before.len() as int) =~= k.take(kiln_before.len() as int));
            assert(floor.pending_scripted@.take(floor_before.len() as int) =~= f.take(floor_before.len() as int));
            assert forall|i: int| 0 <= i < offset + 1 implies is_scripted_line(
                #[trigger] kiln.pending_scripted@[kiln_before.len() + i],
                day_marker_text((first_day + i) as nat),
                Classification::Normal,
                LineFont::Normal,
            ) by {
                if i < offset {
                    assert(kiln.pending_scripted@[kiln_before.len() + i] == k[kiln_before.len() + i]);
                }
            }
            assert forall|i: int| 0 <= i < offset + 1 implies is_any_reset_notice(clock@, #[trigger] floor.pending_scripted@[floor_before.len() + i]) by {
                if i < offset {
                    assert(floor.pending_scripted@[floor_before.len() + i] == f[floor_before.len() + i]);
                }
            }
        }
        offset += 1;
    }
}

/// One tick of the run's clock with the day lines it brings: `game` ticks by
/// `real_millis` real milliseconds (`GameData::phase_tick`), and for each
/// midnight crossed 焼成室 gets the day marker of the day that starts there,
/// counted on from the run's day counter, and 売り場 one of its reset notices,
/// stamped at the new time. Nothing else about either feed changes.
pub fn tick_run(
    game: &mut GameData,
    kiln: &mut PaneFeed,
    floor: &mut PaneFeed,
    real_millis: u32,
    rng: &mut ThreadRng,
) -> (res: Tick)
    requires
        old(game).day + advanced(old(game).clock@, real_millis as nat).0 <= u32::MAX,
    ensures
        ticked(*old(game), *final(game), real_millis as nat, res),
        final(kiln).pending_scripted@.len() == old(kiln).pending_scripted@.len() + res.wraps,
        final(kiln).pending_scripted@.take(old(kiln).pending_scripted@.len() as int)
            == old(kiln).pending_scripted@,
        forall|i: int|
            0 <= i < res.wraps ==> is_scripted_line(
                #[trigger] final(kiln).pending_scripted@[old(kiln).pending_scripted@.len() + i],
                day_marker_text((old(game).day + 1 + i) as nat),
                Classification::Normal,
                LineFont::Normal,
            ),
        final(floor).pending_scripted@.len() == old(floor).pending_scripted@.len() + res.wraps,
        final(floor).pending_scripted@.take(old(floor).pending_scripted@.len() as int)
            == old(floor).pending_scripted@,
        forall|i: int|
            0 <= i < res.wraps ==> is_any_reset_notice(
                final(game).clock@,
                #[trigger] final(floor).pending_scripted@[old(floor).pending_scripted@.len() + i],
            ),
        final(kiln).pane == old(kiln).pane,
        final(kiln).last_normal_line == old(kiln).last_normal_line,
        final(floor).pane == old(floor).pane,
        final(floor).last_normal_line == old(floor).last_normal_line,
{
    let tick = game.phase_tick(real_millis);
    if tick.wraps > 0 {
        let first_day = game.day - tick.wraps + 1;
        queue_day_lines(kiln, floor, first_day, tick.wraps, game.clock, rng);
    } else {
        proof {
            assert(kiln.pending_scripted@.take(kiln.pending_scripted@.len() as int) =~= kiln.pending_scripted@);
            assert(floor.pending_scripted@.take(floor.pending_scripted@.len() as int) =~= floor.pending_scripted@);
        }
    }
    tick
}

} // verus!
