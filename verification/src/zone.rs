use vstd::prelude::*;

verus! {

/// How close the threat has come: 外周 → 内側 → 帳場. It only ever moves
/// inward, one stage at a time.
#[derive(Clone, Copy, PartialEq, Eq, Debug, Structural)]
pub enum Zone {
    Perimeter,
    Inside,
    Counter,
}

/// The stage's distance rank: 0 for `Perimeter`, 1 for `Inside`, 2 for `Counter`.
pub open spec fn zone_rank(z: Zone) -> int {
    match z {
        Zone::Perimeter => 0,
        Zone::Inside => 1,
        Zone::Counter => 2,
    }
}

/// One stage closer, stopping at `Counter`.
pub open spec fn zone_after(z: Zone) -> Zone {
    match z {
        Zone::Perimeter => Zone::Inside,
        Zone::Inside => Zone::Counter,
        Zone::Counter => Zone::Counter,
    }
}

/// The places a zone's lines may name.
pub open spec fn zone_locations(z: Zone) -> Seq<&'static str> {
    match z {
        Zone::Perimeter => seq!["裏口", "駐車場", "外周の柵", "搬入口"],
        Zone::Inside => seq!["厨房", "客席", "通路", "倉庫"],
        Zone::Counter => seq!["帳場", "レジ横", "金庫の前", "この机"],
    }
}

impl Zone {
    /// One stage closer to the counter; `Counter` stays `Counter`.
    pub fn next(self) -> (res: Self)
        ensures
            res == zone_after(self),
    {
        match self {
            Zone::Perimeter => Zone::Inside,
            Zone::Inside | Zone::Counter => Zone::Counter,
        }
    }

    /// The places where this stage's threat may be reported.
    pub fn location_pool(self) -> (res: &'static [&'static str])
        ensures
            res@ == zone_locations(self),
    {
        match self {
            Zone::Perimeter => &["裏口", "駐車場", "外周の柵", "搬入口"],
            Zone::Inside => &["厨房", "客席", "通路", "倉庫"],
            Zone::Counter => &["帳場", "レジ横", "金庫の前", "この机"],
        }
    }
}

/// The zone only ever moves toward the counter: a step never lowers its
/// rank, raises it by exactly one unless it is already at `Counter`, and
/// `Counter` is where it stays.
pub proof fn law_zone_only_moves_inward(z: Zone)
    ensures
        zone_rank(zone_after(z)) >= zone_rank(z),
        zone_rank(z) < 2 ==> zone_rank(zone_after(z)) == zone_rank(z) + 1,
        z == Zone::Counter ==> zone_after(z) == Zone::Counter,
{
}

} // verus!
