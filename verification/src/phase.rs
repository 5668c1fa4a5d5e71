use vstd::prelude::*;

verus! {

/// The five stretches of a day, each a fixed span of the shared clock's hours.
#[derive(Clone, Copy, PartialEq, Eq, Debug, Structural)]
pub enum Phase {
    Prep,
    Morning,
    Peak,
    Evening,
    Night,
}

/// `[start, end)` hours of each phase.
pub open spec fn phase_hours(phase: Phase) -> (u32, u32) {
    match phase {
        Phase::Prep => (0, 7),
        Phase::Morning => (7, 11),
        Phase::Peak => (11, 14),
        Phase::Evening => (14, 19),
        Phase::Night => (19, 24),
    }
}

/// Whether `hour` falls in `phase`'s span.
pub open spec fn phase_covers(phase: Phase, hour: nat) -> bool {
    phase_hours(phase).0 <= hour < phase_hours(phase).1
}

/// The phase that owns clock hour `hour` (hours from 24 on fall to `Night`).
pub open spec fn phase_of_hour(hour: nat) -> Phase {
    if hour < 7 {
        Phase::Prep
    } else if hour < 11 {
        Phase::Morning
    } else if hour < 14 {
        Phase::Peak
    } else if hour < 19 {
        Phase::Evening
    } else {
        Phase::Night
    }
}

/// Each phase's base spawn interval, in milliseconds.
pub open spec fn phase_interval_millis(phase: Phase) -> u32 {
    match phase {
        Phase::Prep => 3200,
        Phase::Morning => 2200,
        Phase::Peak => 1100,
        Phase::Evening => 1800,
        Phase::Night => 2600,
    }
}

/// Order `for_hour` scans in. `hour_range` must tile all 24 hours across this
/// order with no gaps or overlaps -- see `law_hour_ranges_tile_the_day`.
const ORDER: [Phase; 5] = [Phase::Prep, Phase::Morning, Phase::Peak, Phase::Evening, Phase::Night];

impl Phase {
    /// This phase's `[start, end)` span on the shared clock. Contiguous across
    /// all five phases -- every hour of the day belongs to exactly one, so the
    /// active phase is always a pure function of the clock's current hour.
    pub fn hour_range(self) -> (res: (u32, u32))
        ensures
            res == phase_hours(self),
    {
        match self {
            Phase::Prep => (0, 7),
            Phase::Morning => (7, 11),
            Phase::Peak => (11, 14),
            Phase::Evening => (14, 19),
            Phase::Night => (19, 24),
        }
    }

    /// Which phase owns a given clock hour: the single source of truth for
    /// phase transitions.
    pub fn for_hour(hour: u32) -> (res: Self)
        requires
            hour < 24,
        ensures
            phase_covers(res, hour as nat),
            res == phase_of_hour(hour as nat),
    {
        let mut i: usize = 0;
        while i < 5
            invariant
                i <= 5,
                forall|j: int| 0 <= j < i ==> !phase_covers(#[trigger] ORDER[j], hour as nat),
            decreases 5 - i,
        {
            let (lo, hi) = ORDER[i].hour_range();
            if lo <= hour && hour < hi {
                return ORDER[i];
            }
            i += 1;
        }
        proof {
            assert(!phase_covers(ORDER[0], hour as nat));
            assert(!phase_covers(ORDER[1], hour as nat));
            assert(!phase_covers(ORDER[2], hour as nat));
            assert(!phase_covers(ORDER[3], hour as nat));
            assert(!phase_covers(ORDER[4], hour as nat));
        }
        Phase::Night
    }

    /// The phase's shared spawn tempo, in milliseconds between lines.
    pub fn spawn_interval_secs(self) -> (res: u32)
        ensures
            res == phase_interval_millis(self),
    {
        match self {
            Phase::Prep => 3200,
            Phase::Morning => 2200,
            Phase::Peak => 1100,
            Phase::Evening => 1800,
            Phase::Night => 2600,
        }
    }
}

/// The phases' hour ranges tile the whole day: every hour of the day is
/// covered by some phase, and by no more than one.
pub proof fn law_hour_ranges_tile_the_day(hour: nat, a: Phase, b: Phase)
    requires
        hour < 24,
    ensures
        exists|p: Phase| phase_covers(p, hour),
        phase_covers(a, hour) && phase_covers(b, hour) ==> a == b,
{
    if hour < 7 {
        assert(phase_covers(Phase::Prep, hour));
    } else if hour < 11 {
        assert(phase_covers(Phase::Morning, hour));
    } else if hour < 14 {
        assert(phase_covers(Phase::Peak, hour));
    } else if hour < 19 {
        assert(phase_covers(Phase::Evening, hour));
    } else {
        assert(phase_covers(Phase::Night, hour));
    }
}

} // verus!
