use rand::rngs::ThreadRng;
use vstd::prelude::*;

use super::chance::random_below;
use super::clock::DayClock;
use super::log_line::{is_plain_line, Classification, LogLine};
use super::rumors::{stamped, stamped_text};
use super::timestamp::{decimal, fill_n, number_text, replace_all};

verus! {

/// The three deviations from the shop's 筆癖: 表記の乱れ (「焼きあがり」),
/// 数え違い (a baguette counted in 個), 記載漏れ (a record missing its verb).
pub const DEVIATION_KINDS: u32 = 3;

/// The body of deviation `kind` with count `n`.
pub open spec fn deviation_body(kind: nat, n: nat) -> Seq<char> {
    if kind == 0 {
        "バゲットが"@ + decimal(n) + "本 焼きあがり"@
    } else if kind == 1 {
        "バゲットが"@ + decimal(n) + "個 焼き上がり"@
    } else {
        "配達伝票を"@ + decimal(n) + "件"@
    }
}

/// One past the largest count each deviation is written with.
pub open spec fn deviation_count_limit(kind: nat) -> nat {
    if kind == 2 {
        30
    } else {
        20
    }
}

/// `line` is deviation `kind` with count `n`, stamped at the clock's
/// even-rounded time: always `ShouldReact`.
pub open spec fn is_deviation_line(millis: nat, kind: nat, n: nat, line: LogLine) -> bool {
    &&& kind < DEVIATION_KINDS
    &&& 1 <= n < deviation_count_limit(kind)
    &&& is_plain_line(line, stamped_text(millis, deviation_body(kind, n)), Classification::ShouldReact)
}

/// `line` is some deviation line at this time of day.
pub open spec fn deviation_shape(millis: nat, line: LogLine) -> bool {
    exists|kind: nat, n: nat| #[trigger] is_deviation_line(millis, kind, n, line)
}

/// Deviation `kind` written with count `n`.
pub fn deviation_line(clock: DayClock, kind: u32, n: u32) -> (res: LogLine)
    requires
        kind < DEVIATION_KINDS,
    ensures
        is_plain_line(res, stamped_text(clock@, deviation_body(kind as nat, n as nat)), Classification::ShouldReact),
{
    let mut body = String::new();
    let count = number_text(n);
    if kind == 0 {
        body.append("バゲットが");
        body.append(count.as_str());
        body.append("本 焼きあがり");
    } else if kind == 1 {
        body.append("バゲットが");
        body.append(count.as_str());
        body.append("個 焼き上がり");
    } else {
        body.append("配達伝票を");
        body.append(count.as_str());
        body.append("件");
    }
    let text = stamped(clock, body.as_str());
    LogLine::new(text, Classification::ShouldReact)
}

/// 焼成室固有の脅威: a technical deviation from the shop's 筆癖, picked at
/// random. Legible from the line alone, so it is always `ShouldReact` (正解は
/// 削除) -- no rumor ever switches it on or off.
pub fn deviation_threat_line(clock: DayClock, rng: &mut ThreadRng) -> (res: LogLine)
    ensures
        deviation_shape(clock@, res),
        res.classification == Classification::ShouldReact,
{
    let kind = random_below(rng, 0, DEVIATION_KINDS);
    let limit: u32 = if kind == 2 {
        30
    } else {
        20
    };
    let n = random_below(rng, 1, limit);
    let line = deviation_line(clock, kind, n);
    proof {
        assert(is_deviation_line(clock@, kind as nat, n as nat, line));
    }
    line
}

/// The night delivery's words with count `n`.
pub open spec fn night_delivery_body(n: nat) -> Seq<char> {
    replace_all("深夜便の配達を{n}件 受け取った"@, "{n}"@, decimal(n))
}

/// `line` is a night delivery of `n` parcels at this time of day: always
/// `ShouldNotReact`.
pub open spec fn is_night_delivery_line(millis: nat, n: nat, line: LogLine) -> bool {
    &&& 1 <= n < 10
    &&& is_plain_line(line, stamped_text(millis, night_delivery_body(n)), Classification::ShouldNotReact)
}

/// A night delivery of `n` parcels, recorded now.
pub fn night_delivery_line(clock: DayClock, n: u32) -> (res: LogLine)
    ensures
        is_plain_line(res, stamped_text(clock@, night_delivery_body(n as nat)), Classification::ShouldNotReact),
{
    let body = fill_n("深夜便の配達を{n}件 受け取った", n);
    let text = stamped(clock, body.as_str());
    LogLine::new(text, Classification::ShouldNotReact)
}

/// 夜の納品: a delivery the shop should have turned away. Always
/// `ShouldNotReact` -- the correct response is to leave it be.
pub fn night_delivery_threat_line(clock: DayClock, rng: &mut ThreadRng) -> (res: LogLine)
    ensures
        exists|n: nat| #[trigger] is_night_delivery_line(clock@, n, res),
        res.classification == Classification::ShouldNotReact,
{
    let n = random_below(rng, 1, 10);
    let line = night_delivery_line(clock, n);
    proof {
        assert(is_night_delivery_line(clock@, n as nat, line));
    }
    line
}

} // verus!
