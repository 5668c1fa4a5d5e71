use vstd::prelude::*;

verus! {

/// The clock counts in-game milliseconds: an in-game minute is 60 000 of them.
pub const MILLIS_PER_MINUTE: u32 = 60_000;

pub const MINUTES_PER_DAY: u32 = 24 * 60;

/// One in-game day, in in-game milliseconds.
pub const MILLIS_PER_DAY: u32 = 86_400_000;

/// 24 in-game hours flow in 4 spent minutes: 6 in-game minutes per spent
/// second, so one spent millisecond is 360 in-game milliseconds. A fixed rate,
/// not a per-line dice roll, so every line's timestamp reads one shared,
/// monotonically advancing "now".
pub const GAME_MILLIS_PER_REAL_MILLI: u32 = 360;

/// Real milliseconds that one whole in-game day takes (4 spent minutes).
pub const REAL_MILLIS_PER_DAY: u32 = 240_000;

/// Time of day after advancing `millis` (time since midnight) by `spent`
/// spent milliseconds: the midnights crossed, and the new time since midnight.
pub open spec fn advanced(millis: nat, spent: nat) -> (nat, nat) {
    let total = millis + spent * (GAME_MILLIS_PER_REAL_MILLI as nat);
    ((total / (MILLIS_PER_DAY as nat)) as nat, (total % (MILLIS_PER_DAY as nat)) as nat)
}

/// The clock hour of a time of day given in in-game milliseconds.
pub open spec fn hour_of(millis: nat) -> nat {
    (millis / 3_600_000) % 24
}

/// The minute within the hour of a time of day given in in-game milliseconds.
pub open spec fn minute_of(millis: nat) -> nat {
    (millis / (MILLIS_PER_MINUTE as nat)) % 60
}

/// Minutes elapsed since this in-game day's midnight -- the only clock in the
/// game. Every pane's displayed hour/minute is a read of this value (through
/// its own writer's rounding, see `timestamp::even_minute_of`), never an
/// independent roll.
#[derive(Clone, Copy, Debug, PartialEq, Eq)]
pub struct DayClock {
    millis: u32,
}

impl View for DayClock {
    type V = nat;

    /// In-game milliseconds since midnight (the stored count, which the
    /// type invariant keeps below a day).
    closed spec fn view(&self) -> nat {
        (self.millis % MILLIS_PER_DAY) as nat
    }
}

impl DayClock {
    #[verifier::type_invariant]
    closed spec fn within_a_day(self) -> bool {
        self.millis < MILLIS_PER_DAY
    }

    /// Midnight, where every run starts.
    pub fn midnight() -> (res: Self)
        ensures
            res@ == 0,
    {
        DayClock { millis: 0 }
    }

    /// The clock at `hour:minute`, read within the day: the time `hour * 60 +
    /// minute` minutes past midnight, wrapped to a single day.
    pub fn at(hour: u32, minute: u32) -> (res: Self)
        requires
            hour * 60 + minute <= u32::MAX,
        ensures
            res@ == ((hour * 60 + minute) % (MINUTES_PER_DAY as int)) * (MILLIS_PER_MINUTE as int),
    {
        let total: u64 = hour as u64 * 60 + minute as u64;
        let within: u64 = total % MINUTES_PER_DAY as u64;
        assert(within * 60_000 < 86_400_000) by (nonlinear_arith)
            requires
                within < 1440,
        ;
        DayClock { millis: (within as u32) * MILLIS_PER_MINUTE }
    }

    /// Advances by `real_millis` spent milliseconds and returns how many
    /// midnights it crossed (almost always 0, occasionally 1; more only if a
    /// frame stalls across several in-fiction days, which callers handle by
    /// looping that many times rather than assuming at most one).
    pub fn advance(&mut self, real_millis: u32) -> (wraps: u32)
        ensures
            (wraps as nat, final(self)@) == advanced(old(self)@, real_millis as nat),
            old(self)@ + real_millis * (GAME_MILLIS_PER_REAL_MILLI as nat) == wraps * (
            MILLIS_PER_DAY as nat) + final(self)@,
            wraps == 0 ==> final(self)@ >= old(self)@,
    {
        proof {
            use_type_invariant(&*self);
        }
        let scaled: u64 = real_millis as u64 * GAME_MILLIS_PER_REAL_MILLI as u64;
        assert(scaled <= 4_294_967_295 * 360) by (nonlinear_arith)
            requires
                scaled == real_millis * 360,
                real_millis <= 4_294_967_295,
        ;
        let total: u64 = self.millis as u64 + scaled;
        let wraps = total / MILLIS_PER_DAY as u64;
        let rest = total % MILLIS_PER_DAY as u64;
        assert(wraps < 20000) by (nonlinear_arith)
            requires
                total <= 86_400_000 + 4_294_967_295 * 360,
                wraps == total / 86_400_000,
        ;
        self.millis = rest as u32;
        wraps as u32
    }

    pub fn hour(self) -> (res: u32)
        ensures
            res == hour_of(self@),
    {
        proof {
            use_type_invariant(&self);
        }
        (self.millis / 3_600_000) % 24
    }

    pub fn minute(self) -> (res: u32)
        ensures
            res == minute_of(self@),
    {
        proof {
            use_type_invariant(&self);
        }
        (self.millis / MILLIS_PER_MINUTE) % 60
    }

    pub fn minute_is_odd(self) -> (res: bool)
        ensures
            res == (minute_of(self@) % 2 == 1),
    {
        self.minute() % 2 == 1
    }
}

impl Default for DayClock {
    fn default() -> (res: Self)
        ensures
            res@ == 0,
    {
        DayClock::midnight()
    }
}

/// A clock always reads a time within one day: never a full day or more past
/// midnight.
pub proof fn law_clock_stays_within_a_day(clock: DayClock)
    ensures
        clock@ < MILLIS_PER_DAY,
{
}

/// 24 in-game hours take exactly 4 spent minutes: from any time of day,
/// advancing by 240 000 spent milliseconds crosses exactly one midnight and
/// lands on the same time of day.
pub proof fn law_a_day_takes_four_real_minutes(millis: nat)
    requires
        millis < MILLIS_PER_DAY,
    ensures
        advanced(millis, REAL_MILLIS_PER_DAY as nat) == (1nat, millis),
{
    let total = millis + 240_000 * 360;
    assert(total == millis + 86_400_000);
    assert(total / 86_400_000 == 1) by (nonlinear_arith)
        requires
            total == millis + 86_400_000,
            millis < 86_400_000,
    ;
    assert(total % 86_400_000 == millis) by (nonlinear_arith)
        requires
            total == millis + 86_400_000,
            millis < 86_400_000,
    ;
}

/// Time never rewinds within a day: an advance that crosses no midnight
/// leaves the clock's hour and minute no earlier than before.
pub proof fn law_never_rewinds_within_a_day(millis: nat, spent: nat)
    requires
        millis < MILLIS_PER_DAY,
        advanced(millis, spent).0 == 0,
    ensures
        advanced(millis, spent).1 >= millis,
        hour_of(advanced(millis, spent).1) * 60 + minute_of(advanced(millis, spent).1) >= hour_of(
            millis,
        ) * 60 + minute_of(millis),
{
    let after = advanced(millis, spent).1;
    let total = millis + spent * 360;
    assert(total < 86_400_000) by (nonlinear_arith)
        requires
            total / 86_400_000 == 0,
            total >= 0,
    ;
    assert(after == total) by (nonlinear_arith)
        requires
            total < 86_400_000,
            total >= 0,
            after == total % 86_400_000,
    ;
    assert(hour_of(after) * 60 + minute_of(after) == after / 60_000) by (nonlinear_arith)
        requires
            after < 86_400_000,
    ;
    assert(hour_of(millis) * 60 + minute_of(millis) == millis / 60_000) by (nonlinear_arith)
        requires
            millis < 86_400_000,
    ;
    assert(after / 60_000 >= millis / 60_000) by (nonlinear_arith)
        requires
            after >= millis,
    ;
}

} // verus!
