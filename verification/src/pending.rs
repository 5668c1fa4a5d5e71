use std::collections::VecDeque;

use vstd::prelude::*;

use super::log_line::Classification;
use super::verb::Verb;

verus! {

broadcast use vstd::std_specs::vecdeque::group_vec_dequeue_axioms;

/// A full 削除 wipe, in thousandths of the line.
pub const WIPE_FULL: u32 = 1000;

/// One line still inside a pane's pending window.
pub struct PendingLine {
    /// The display's handle for the line's on-screen row.
    pub entity: u64,
    pub text: String,
    pub classification: Classification,
    pub relief: u32,
    /// What the player has marked this line as, if anything. Purely a mark
    /// while the line is still reachable -- it has no effect on its own.
    pub mark: Option<Verb>,
    /// 削除 wipe progress, in thousandths of the line (0 through 1000).
    /// Irrelevant (and reset to 0) for any other mark.
    pub delete_wipe: u32,
}

/// The window of recent, still-reachable lines for one pane, with a cursor
/// selecting which one J/K/削除/検印 apply to. New lines join at the back; by
/// default the cursor follows the newest one (tailing), until J/K move it
/// deliberately. A line that ages off the front is handed back to be resolved
/// right then, with whatever mark it currently carries (or none) -- never at
/// the moment the player pressed a key.
pub struct Pending {
    pub lines: VecDeque<PendingLine>,
    pub cursor: usize,
    /// Whether the cursor follows the newest line.
    pub following: bool,
    /// How many lines the window holds before evicting.
    pub capacity: usize,
}

/// `len - 1`, or 0 for an empty window.
pub open spec fn last_index(len: nat) -> nat {
    if len == 0 {
        0
    } else {
        (len - 1) as nat
    }
}

/// How many lines a window may hold: its capacity, and at least one.
pub open spec fn window_limit(capacity: nat) -> nat {
    if capacity == 0 {
        1
    } else {
        capacity
    }
}

/// How many lines fall off the front when a window of `len` lines with
/// `capacity` takes one more.
pub open spec fn evicted_count(len: nat, capacity: nat) -> nat {
    if len + 1 > window_limit(capacity) {
        (len + 1 - window_limit(capacity)) as nat
    } else {
        0
    }
}

/// `value` clamped into `[lo, hi]`.
pub open spec fn clamp(value: int, lo: int, hi: int) -> int {
    if value < lo {
        lo
    } else if value > hi {
        hi
    } else {
        value
    }
}

impl Pending {
    /// The lines in the window, oldest first.
    pub open spec fn window(&self) -> Seq<PendingLine> {
        self.lines@
    }

    /// The cursor's position in the window.
    pub open spec fn at(&self) -> usize {
        self.cursor
    }

    /// Whether the cursor follows the newest line.
    pub open spec fn follows(&self) -> bool {
        self.following
    }

    /// How many lines the window holds before evicting (at least one).
    pub open spec fn window_capacity(&self) -> nat {
        self.capacity as nat
    }

    pub fn new(capacity: usize) -> (res: Self)
        ensures
            res.window() == Seq::<PendingLine>::empty(),
            res.at() == 0,
            res.follows(),
            res.window_capacity() == capacity,
    {
        Pending { lines: VecDeque::new(), cursor: 0, following: true, capacity }
    }

    /// Adds a newly spawned line, then evicts from the front until the window
    /// is back within its capacity, returning the evicted lines oldest first.
    /// The cursor stays on the newest line while following, and otherwise on
    /// the same line (or the nearest one still in the window).
    pub fn push(&mut self, line: PendingLine) -> (evicted: Vec<PendingLine>)
        ensures
            ({
                let all = old(self).window().push(line);
                let k = evicted_count(old(self).window().len(), old(self).window_capacity());
                &&& evicted@ == all.take(k as int)
                &&& final(self).window() == all.skip(k as int)
                &&& final(self).at() == if old(self).follows() {
                    last_index(final(self).window().len()) as int
                } else {
                    clamp(
                        clamp(old(self).at() - k, 0, old(self).at() as int),
                        0,
                        last_index(final(self).window().len()) as int,
                    )
                }
            }),
            final(self).window().len() <= window_limit(old(self).window_capacity()),
            final(self).at() < final(self).window().len(),
            final(self).follows() == old(self).follows(),
            final(self).window_capacity() == old(self).window_capacity(),
    {
        let ghost all = self.lines@.push(line);
        let ghost k = evicted_count(self.lines@.len(), self.capacity as nat);
        let ghost start_cursor = self.cursor;
        self.lines.push_back(line);
        let limit: usize = if self.capacity == 0 {
            1
        } else {
            self.capacity
        };
        let mut evicted: Vec<PendingLine> = Vec::new();
        let mut len = self.lines.len();
        while len > limit
            invariant
                len == self.lines@.len(),
                self.capacity == old(self).capacity,
                self.following == old(self).following,
                all == old(self).lines@.push(line),
                limit == window_limit(self.capacity as nat),
                limit >= 1,
                evicted@.len() <= k,
                evicted@ == all.take(evicted@.len() as int),
                self.lines@ == all.skip(evicted@.len() as int),
                k == evicted_count((all.len() - 1) as nat, self.capacity as nat),
                self.cursor as int == clamp(start_cursor - evicted@.len(), 0, start_cursor as int),
            decreases self.lines@.len(),
        {
            let ghost pre = self.lines@;
            let ghost e = evicted@.len() as int;
            proof {
                assert(pre.len() > limit);
                assert(e < all.len());
                assert(pre == all.subrange(e, all.len() as int));
                assert(pre[0] == all[e]);
            }
            match self.lines.pop_front() {
                Some(front) => {
                    proof {
                        assert(front == all[evicted@.len() as int]);
                        assert(all.take(evicted@.len() as int + 1) =~= all.take(evicted@.len() as int).push(front));
                        assert(all.skip(evicted@.len() as int + 1) =~= all.skip(evicted@.len() as int).subrange(1, all.skip(evicted@.len() as int).len() as int));
                    }
                    evicted.push(front);
                    self.cursor = if self.cursor > 0 {
                        self.cursor - 1
                    } else {
                        0
                    };
                },
                None => {},
            }
            len = self.lines.len();
        }
        proof {
            assert(evicted@.len() == k);
            assert(len >= 1);
            assert(all.skip(k as int).len() == len);
        }
        let last = if len > 0 {
            len - 1
        } else {
            0
        };
        self.cursor = if self.following {
            last
        } else if self.cursor < last {
            self.cursor
        } else {
            last
        };
        evicted
    }

    /// Moves the cursor by `delta`, clamped to the window. The cursor follows
    /// the newest line again exactly when it lands on it.
    pub fn move_cursor(&mut self, delta: isize)
        ensures
            old(self).window().len() == 0 ==> final(self).at() == old(self).at(),
            old(self).window().len() == 0 ==> final(self).follows() == old(self).follows(),
            old(self).window().len() > 0 ==> {
                &&& final(self).at() == clamp(
                    old(self).at() + delta,
                    0,
                    old(self).window().len() - 1,
                )
                &&& final(self).follows() == (final(self).at() == old(self).window().len() - 1)
            },
            final(self).window() == old(self).window(),
            final(self).window_capacity() == old(self).window_capacity(),
    {
        if self.lines.len() == 0 {
            return ;
        }
        let last = self.lines.len() - 1;
        let target: i128 = self.cursor as i128 + delta as i128;
        let next: usize = if target < 0 {
            0
        } else if target > last as i128 {
            last
        } else {
            target as usize
        };
        self.cursor = next;
        self.following = self.cursor == last;
    }

    /// Marks the line under the cursor with `verb`; switching a line away from
    /// 削除 resets its wipe. Nothing happens on an empty window.
    pub fn mark_current(&mut self, verb: Verb)
        ensures
            old(self).at() < old(self).window().len() ==> {
                let before = old(self).window()[old(self).at() as int];
                let after = final(self).window()[old(self).at() as int];
                &&& final(self).window().len() == old(self).window().len()
                &&& forall|i: int|
                    0 <= i < old(self).window().len() && i != old(self).at() ==> final(self).window()[i]
                        == old(self).window()[i]
                &&& after.mark == Some(verb)
                &&& after.delete_wipe == if verb == Verb::Delete {
                    before.delete_wipe
                } else {
                    0
                }
                &&& after.entity == before.entity
                &&& after.text == before.text
                &&& after.classification == before.classification
                &&& after.relief == before.relief
            },
            old(self).at() >= old(self).window().len() ==> final(self).window() == old(self).window(),
            final(self).at() == old(self).at(),
            final(self).follows() == old(self).follows(),
            final(self).window_capacity() == old(self).window_capacity(),
    {
        if self.cursor < self.lines.len() {
            let ghost before = self.lines@;
            if let Some(mut line) = self.lines.remove(self.cursor) {
                line.mark = Some(verb);
                if verb != Verb::Delete {
                    line.delete_wipe = 0;
                }
                self.lines.insert(self.cursor, line);
                proof {
                    assert forall|i: int|
                        0 <= i < before.len() && i != self.cursor implies self.lines@[i]
                        == before[i] by {
                        if i < self.cursor {
                            assert(self.lines@[i] == before.remove(self.cursor as int)[i]);
                        } else {
                            assert(self.lines@[i] == before.remove(self.cursor as int)[i - 1]);
                        }
                    }
                }
            }
        }
    }

    /// Sweeps every 削除-marked line's wipe forward by `step` thousandths,
    /// stopping at a full wipe. Runs on all three panes regardless of focus.
    pub fn advance_delete_wipes(&mut self, step: u32)
        ensures
            final(self).window().len() == old(self).window().len(),
            forall|i: int|
                #![trigger final(self).window()[i]]
                0 <= i < old(self).window().len() ==> {
                    let before = old(self).window()[i];
                    let after = final(self).window()[i];
                    &&& after.delete_wipe == if before.mark == Some(Verb::Delete)
                        && before.delete_wipe < WIPE_FULL {
                        if before.delete_wipe + step > WIPE_FULL {
                            WIPE_FULL
                        } else {
                            (before.delete_wipe + step) as u32
                        }
                    } else {
                        before.delete_wipe
                    }
                    &&& after.mark == before.mark
                    &&& after.entity == before.entity
                    &&& after.text == before.text
                    &&& after.classification == before.classification
                    &&& after.relief == before.relief
                },
            final(self).at() == old(self).at(),
            final(self).follows() == old(self).follows(),
            final(self).window_capacity() == old(self).window_capacity(),
    {
        let n = self.lines.len();
        let mut i: usize = 0;
        while i < n
            invariant
                n == old(self).window().len(),
                self.lines@.len() == n,
                i <= n,
                self.cursor == old(self).at(),
                self.following == old(self).following,
                self.capacity == old(self).capacity,
                forall|j: int|
                    #![trigger self.lines@[j]]
                    i <= j < n ==> self.lines@[j] == old(self).window()[j],
                forall|j: int|
                    #![trigger self.lines@[j]]
                    0 <= j < i ==> {
                        let before = old(self).window()[j];
                        let after = self.lines@[j];
                        &&& after.delete_wipe == if before.mark == Some(Verb::Delete)
                            && before.delete_wipe < WIPE_FULL {
                            if before.delete_wipe + step > WIPE_FULL {
                                WIPE_FULL
                            } else {
                                (before.delete_wipe + step) as u32
                            }
                        } else {
                            before.delete_wipe
                        }
                        &&& after.mark == before.mark
                        &&& after.entity == before.entity
                        &&& after.text == before.text
                        &&& after.classification == before.classification
                        &&& after.relief == before.relief
                    },
            decreases n - i,
        {
            let ghost before = self.lines@;
            if let Some(mut line) = self.lines.remove(i) {
                let deleting = match line.mark {
                    Some(Verb::Delete) => true,
                    _ => false,
                };
                if deleting && line.delete_wipe < WIPE_FULL {
                    line.delete_wipe = if step > WIPE_FULL - line.delete_wipe {
                        WIPE_FULL
                    } else {
                        line.delete_wipe + step
                    };
                }
                self.lines.insert(i, line);
                proof {
                    assert forall|j: int| 0 <= j < n && j != i implies self.lines@[j] == before[j] by {
                        if j < i {
                            assert(self.lines@[j] == before.remove(i as int)[j]);
                        } else {
                            assert(self.lines@[j] == before.remove(i as int)[j - 1]);
                        }
                    }
                }
            }
            i += 1;
        }
    }
}

/// The window never holds more than its capacity (and at least one line's
/// room), and after any push the cursor sits on a line of the window.
pub proof fn law_window_stays_within_capacity(len: nat, capacity: nat)
    requires
        len <= window_limit(capacity),
    ensures
        len + 1 - evicted_count(len, capacity) <= window_limit(capacity),
        len + 1 - evicted_count(len, capacity) >= 1,
        evicted_count(len, capacity) <= 1,
{
}

} // verus!
