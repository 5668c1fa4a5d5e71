use rand::rngs::ThreadRng;
use vstd::prelude::*;

use super::chance::{random_below, random_ratio};
use super::clock::{hour_of, minute_of, DayClock};
use super::log_line::{
    is_plain_line, is_scripted_line, Classification, LineFont, LogLine,
};
use super::pane::{pane_matches_zone, Pane};
use super::phase::Phase;
use super::rules::{relief_of, verdict_of, Context, RuleLedger, Verdict};
use super::rumors::{
    heard_rumor_line, item_counter, item_label, item_wrong_counter, rumor_text, stamped, stamped_text,
    ItemKind, RumorId, ThreatKind, CATALOG_LEN,
};
use super::threats::{
    deviation_count_limit, deviation_line, is_deviation_line, is_night_delivery_line,
    night_delivery_line, DEVIATION_KINDS,
};
use super::timestamp::{decimal, fill_n, number_text, replace_all, replace_text, stamp_text, timestamp};
use super::verb::{verb_label, Verb};
use super::zone::{zone_locations, Zone};

verus! {

/// 焼成室's ordinary business.
pub const NORMAL_BODIES: [&'static str; 10] = [
    "食パンの型を{n}枚 洗った",
    "小麦粉を{n}kg 仕込んだ",
    "配達伝票を{n}件 確認した",
    "レジを開けた",
    "常連客に会釈した",
    "オーブンを{n}度に設定した",
    "冷蔵庫の在庫を数えた",
    "クロワッサンの生地を折った",
    "閉店の掃除を始めた",
    "釣り銭を{n}枚 補充した",
];

/// 外's ordinary reports while corruption is below 25. Every stage keeps
/// 「異常なし」, only less of it as corruption rises.
pub const OUTSIDE_CALM: [&'static str; 9] = [
    "異常なし",
    "異常なし",
    "異常なし",
    "異常なし",
    "ゴミが{n}個 転がってきた",
    "野良猫が横切った",
    "配達車が通り過ぎた",
    "落ち葉が吹き溜まっている",
    "特に変わりなし",
];

/// 外's ordinary reports while corruption is in [25, 50).
pub const OUTSIDE_UNEASY: [&'static str; 9] = [
    "異常なし",
    "異常なし",
    "異常なし",
    "ゴミが{n}個 転がってきた",
    "野良猫が、少し長くこちらを見ていた",
    "自転車が倒れていた",
    "看板が揺れている",
    "配達車が、いつもより遅かった",
    "特に変わりなし",
];

/// 外's ordinary reports while corruption is in [50, 75).
pub const OUTSIDE_ALARMED: [&'static str; 7] = [
    "異常なし",
    "異常なし",
    "同じ車が、二度通り過ぎた",
    "足音が、しばらく続いた",
    "看板の文字が、読み取れなかった",
    "野良猫が、動かなかった",
    "特に……変わりなし",
];

/// 外's ordinary reports once corruption reaches 75.
pub const OUTSIDE_DREAD: [&'static str; 6] = [
    "異常なし",
    "足音が、止まらない",
    "窓の外に、誰か立っていた",
    "灯りが、いつもより暗い",
    "呼ぶ声が、した気がする",
    "……なし",
];

/// 売り場's ordinary lines: the clerk's own words to customers, in 敬体.
pub const FLOOR_BODIES: [&'static str; 7] = [
    "いらっしゃいませ",
    "かしこまりました",
    "少々お待ちください",
    "ありがとうございました",
    "{n}円のお返しです",
    "本日は品数が少なめです",
    "袋にお入れします",
];

/// 呼びかけ.
pub const CALL_BODIES: [&'static str; 5] = [
    "{loc}で誰かが名前を呼んでいる 応えないこと",
    "誰かがこちらを見ている 気づかないふりをした方がいい",
    "{loc}に何かが立っている",
    "背後に気配がある 振り返らないこと",
    "{loc}から物音がした そちらを見ないで",
];

/// 「別の何かの記録」: the Lost screen's log.
pub const CORRUPTED_BODIES: [&'static str; 6] = [
    "何かが{n}本 焼き上がり",
    "帳場に誰かが座っている",
    "あなたの名が{n}回 記帳された",
    "この店は、まだ開いている",
    "続けてください",
    "扉に鍵はかかっていない",
];

/// 売り場's hint, once per midnight, that yesterday's talk no longer holds.
pub const RESET_NOTICE_BODIES: [&'static str; 3] = [
    "今日はいつも通りで大丈夫みたいですよ",
    "もう気にしなくていいと聞きました",
    "昨日の話は、もう終わったことだそうです",
];

/// `body` with `{n}` filled in.
pub open spec fn filled(body: &'static str, n: nat) -> Seq<char> {
    replace_all(body@, "{n}"@, decimal(n))
}

/// 外's vocabulary at a given corruption: the stage is chosen by the
/// thresholds 25/50/75 alone.
pub open spec fn outside_pool(corruption: nat) -> Seq<&'static str> {
    if corruption < 25 {
        OUTSIDE_CALM@
    } else if corruption < 50 {
        OUTSIDE_UNEASY@
    } else if corruption < 75 {
        OUTSIDE_ALARMED@
    } else {
        OUTSIDE_DREAD@
    }
}

/// Picks 外's vocabulary stage from `corruption` alone.
pub fn outside_body_pool(corruption: u32) -> (res: &'static [&'static str])
    ensures
        res@ == outside_pool(corruption as nat),
        res@.len() >= 6,
{
    if corruption < 25 {
        &OUTSIDE_CALM
    } else if corruption < 50 {
        &OUTSIDE_UNEASY
    } else if corruption < 75 {
        &OUTSIDE_ALARMED
    } else {
        &OUTSIDE_DREAD
    }
}

/// Every stage of 外's vocabulary keeps 「異常なし」: it only grows rarer as
/// corruption rises, never disappears.
pub proof fn law_outside_always_keeps_all_clear(corruption: nat)
    ensures
        outside_pool(corruption).len() > 0,
        outside_pool(corruption)[0] == "異常なし",
{
}

// ---------------------------------------------------------------------------
// Ordinary lines
// ---------------------------------------------------------------------------

/// 焼成室's baking record: `n` baguettes 焼き上がり.
pub open spec fn baking_body(n: nat) -> Seq<char> {
    "バゲットが"@ + decimal(n) + "本 焼き上がり"@
}

/// `n` of `item` 焼き上がり, counted with `counter`.
pub open spec fn item_count_body(item: ItemKind, n: nat, counter: Seq<char>) -> Seq<char> {
    item_label(item) + "が"@ + decimal(n) + counter + " 焼き上がり"@
}

pub open spec fn is_baking_line(millis: nat, n: nat, line: LogLine) -> bool {
    &&& 1 <= n < 20
    &&& is_plain_line(line, stamped_text(millis, baking_body(n)), Classification::Normal)
}

pub open spec fn is_item_normal_line(millis: nat, item: ItemKind, n: nat, line: LogLine) -> bool {
    &&& 1 <= n < 20
    &&& is_plain_line(
        line,
        stamped_text(millis, item_count_body(item, n, item_counter(item))),
        Classification::Normal,
    )
}

pub open spec fn is_ledger_line(millis: nat, i: nat, n: nat, line: LogLine) -> bool {
    &&& i < 10
    &&& 1 <= n < 30
    &&& is_plain_line(line, stamped_text(millis, filled(NORMAL_BODIES@[i as int], n)), Classification::Normal)
}

pub open spec fn is_outside_line(millis: nat, corruption: nat, i: nat, n: nat, line: LogLine) -> bool {
    &&& i < outside_pool(corruption).len()
    &&& 1 <= n < 10
    &&& is_plain_line(
        line,
        stamped_text(millis, filled(outside_pool(corruption)[i as int], n)),
        Classification::Normal,
    )
}

pub open spec fn is_floor_line(millis: nat, i: nat, n: nat, line: LogLine) -> bool {
    &&& i < 7
    &&& 100 <= n < 999
    &&& is_plain_line(line, stamped_text(millis, filled(FLOOR_BODIES@[i as int], n)), Classification::Normal)
}

/// `line` is one of `pane`'s ordinary lines at this time of day and corruption.
pub open spec fn normal_shape(pane: Pane, millis: nat, corruption: nat, line: LogLine) -> bool {
    match pane {
        Pane::Kiln => {
            ||| exists|n: nat| #[trigger] is_baking_line(millis, n, line)
            ||| exists|item: ItemKind, n: nat| #[trigger] is_item_normal_line(millis, item, n, line)
            ||| exists|i: nat, n: nat| #[trigger] is_ledger_line(millis, i, n, line)
        },
        Pane::Outside => exists|i: nat, n: nat| #[trigger] is_outside_line(millis, corruption, i, n, line),
        Pane::Floor => exists|i: nat, n: nat| #[trigger] is_floor_line(millis, i, n, line),
    }
}

/// Ledger entry `i` of 焼成室's ordinary business, filled with `n`.
pub fn ledger_line(clock: DayClock, i: usize, n: u32) -> (res: LogLine)
    requires
        i < 10,
    ensures
        is_plain_line(res, stamped_text(clock@, filled(NORMAL_BODIES@[i as int], n as nat)), Classification::Normal),
{
    let body = fill_n(NORMAL_BODIES[i], n);
    let text = stamped(clock, body.as_str());
    LogLine::new(text, Classification::Normal)
}

/// `n` baguettes 焼き上がり.
pub fn baking_line(clock: DayClock, n: u32) -> (res: LogLine)
    ensures
        is_plain_line(res, stamped_text(clock@, baking_body(n as nat)), Classification::Normal),
{
    let mut body = String::new();
    body.append("バゲットが");
    let count = number_text(n);
    body.append(count.as_str());
    body.append("本 焼き上がり");
    let text = stamped(clock, body.as_str());
    LogLine::new(text, Classification::Normal)
}

fn item_count_text(item: ItemKind, n: u32, counter: &str) -> (res: String)
    ensures
        res@ == item_count_body(item, n as nat, counter@),
{
    let mut body = String::new();
    body.append(item.label());
    body.append("が");
    let count = number_text(n);
    body.append(count.as_str());
    body.append(counter);
    body.append(" 焼き上がり");
    body
}

/// `n` of `item` 焼き上がり, counted the way the baker always counts it -- the
/// baseline an item miscount is read against.
pub fn item_normal_line(clock: DayClock, item: ItemKind, n: u32) -> (res: LogLine)
    ensures
        is_plain_line(
            res,
            stamped_text(clock@, item_count_body(item, n as nat, item_counter(item))),
            Classification::Normal,
        ),
{
    let body = item_count_text(item, n, item.counter());
    let text = stamped(clock, body.as_str());
    LogLine::new(text, Classification::Normal)
}

/// 外's report number `i` of its current vocabulary stage, filled with `n`.
pub fn outside_line(clock: DayClock, corruption: u32, i: usize, n: u32) -> (res: LogLine)
    requires
        i < outside_pool(corruption as nat).len(),
    ensures
        is_plain_line(
            res,
            stamped_text(clock@, filled(outside_pool(corruption as nat)[i as int], n as nat)),
            Classification::Normal,
        ),
{
    let pool = outside_body_pool(corruption);
    let body = fill_n(pool[i], n);
    let text = stamped(clock, body.as_str());
    LogLine::new(text, Classification::Normal)
}

/// 売り場's line number `i`, filled with `n`.
pub fn floor_line(clock: DayClock, i: usize, n: u32) -> (res: LogLine)
    requires
        i < 7,
    ensures
        is_plain_line(res, stamped_text(clock@, filled(FLOOR_BODIES@[i as int], n as nat)), Classification::Normal),
{
    let body = fill_n(FLOOR_BODIES[i], n);
    let text = stamped(clock, body.as_str());
    LogLine::new(text, Classification::Normal)
}

/// The item with index `i` (0 クロワッサン, 1 塩パン, 2 ホットドッグ, 3 食パン).
pub open spec fn item_at(i: nat) -> ItemKind {
    if i == 0 {
        ItemKind::Croissant
    } else if i == 1 {
        ItemKind::ShioPan
    } else if i == 2 {
        ItemKind::HotDog
    } else {
        ItemKind::MilkLoaf
    }
}

fn item_from_index(i: u32) -> (res: ItemKind)
    ensures
        res == item_at(i as nat),
{
    if i == 0 {
        ItemKind::Croissant
    } else if i == 1 {
        ItemKind::ShioPan
    } else if i == 2 {
        ItemKind::HotDog
    } else {
        ItemKind::MilkLoaf
    }
}

/// The dice a line's words are built from once its bucket is known. Each
/// bucket reads only the draws it needs (see `draws_fit`); the rest are unused.
#[derive(Clone, Copy, Debug, PartialEq, Eq)]
pub struct Draws {
    /// 焼成室's ordinary business: the baking record (the 7-in-20 flip)?
    pub first_flip: bool,
    /// Otherwise, an item's batch (the 1-in-4 flip)?
    pub second_flip: bool,
    /// Which wording, item, rumor or deviation.
    pub pick: u32,
    /// Which place of the zone a 呼びかけ names.
    pub place: u32,
    /// The number written into the line.
    pub n: u32,
}

/// Draws that `pane`'s ordinary business can be built from: on 焼成室 the two
/// flips pick the baking record, an item's batch or a ledger entry, and each
/// form has its own range of numbers; 外 and 売り場 pick a wording of their
/// own pool and a number.
pub open spec fn normal_draws_fit(pane: Pane, corruption: nat, d: Draws) -> bool {
    match pane {
        Pane::Kiln => if d.first_flip {
            1 <= d.n < 20
        } else if d.second_flip {
            d.pick < 4 && 1 <= d.n < 20
        } else {
            d.pick < 10 && 1 <= d.n < 30
        },
        Pane::Outside => d.pick < outside_pool(corruption).len() && 1 <= d.n < 10,
        Pane::Floor => d.pick < 7 && 100 <= d.n < 999,
    }
}

/// `line` is exactly the ordinary line `pane` writes from draws `d`.
pub open spec fn normal_line_of(pane: Pane, millis: nat, corruption: nat, d: Draws, line: LogLine) -> bool {
    match pane {
        Pane::Kiln => if d.first_flip {
            is_baking_line(millis, d.n as nat, line)
        } else if d.second_flip {
            is_item_normal_line(millis, item_at(d.pick as nat), d.n as nat, line)
        } else {
            is_ledger_line(millis, d.pick as nat, d.n as nat, line)
        },
        Pane::Outside => is_outside_line(millis, corruption, d.pick as nat, d.n as nat, line),
        Pane::Floor => is_floor_line(millis, d.pick as nat, d.n as nat, line),
    }
}

/// `pane`'s ordinary line from draws `d`: on 焼成室 the baking record when the
/// first flip came up, else an item's properly counted batch when the second
/// did, else a ledger entry; 外 and 売り場 fill a wording of their own pool.
pub fn normal_line_with(pane: Pane, clock: DayClock, corruption: u32, d: Draws) -> (res: LogLine)
    requires
        normal_draws_fit(pane, corruption as nat, d),
    ensures
        normal_line_of(pane, clock@, corruption as nat, d, res),
{
    match pane {
        Pane::Kiln => {
            if d.first_flip {
                baking_line(clock, d.n)
            } else if d.second_flip {
                item_normal_line(clock, item_from_index(d.pick), d.n)
            } else {
                ledger_line(clock, d.pick as usize, d.n)
            }
        },
        Pane::Outside => outside_line(clock, corruption, d.pick as usize, d.n),
        Pane::Floor => floor_line(clock, d.pick as usize, d.n),
    }
}

proof fn lemma_normal_line_has_normal_shape(pane: Pane, millis: nat, corruption: nat, d: Draws, line: LogLine)
    requires
        normal_line_of(pane, millis, corruption, d, line),
    ensures
        normal_shape(pane, millis, corruption, line),
        line.classification == Classification::Normal,
{
    match pane {
        Pane::Kiln => {
            if d.first_flip {
                assert(is_baking_line(millis, d.n as nat, line));
            } else if d.second_flip {
                assert(is_item_normal_line(millis, item_at(d.pick as nat), d.n as nat, line));
            } else {
                assert(is_ledger_line(millis, d.pick as nat, d.n as nat, line));
            }
        },
        Pane::Outside => {
            assert(is_outside_line(millis, corruption, d.pick as nat, d.n as nat, line));
        },
        Pane::Floor => {
            assert(is_floor_line(millis, d.pick as nat, d.n as nat, line));
        },
    }
}

/// Draws for `pane`'s ordinary business: on 焼成室 the 7-in-20 flip for the
/// baking record, then the 1-in-4 flip for an item's batch, then the numbers
/// the chosen form needs.
fn draw_normal(pane: Pane, corruption: u32, rng: &mut ThreadRng) -> (d: Draws)
    ensures
        normal_draws_fit(pane, corruption as nat, d),
{
    match pane {
        Pane::Kiln => {
            if random_ratio(rng, 7, 20) {
                let n = random_below(rng, 1, 20);
                Draws { first_flip: true, second_flip: false, pick: 0, place: 0, n }
            } else if random_ratio(rng, 1, 4) {
                let pick = random_below(rng, 0, 4);
                let n = random_below(rng, 1, 20);
                Draws { first_flip: false, second_flip: true, pick, place: 0, n }
            } else {
                let n = random_below(rng, 1, 30);
                let pick = random_below(rng, 0, 10);
                Draws { first_flip: false, second_flip: false, pick, place: 0, n }
            }
        },
        Pane::Outside => {
            let n = random_below(rng, 1, 10);
            let pool = outside_body_pool(corruption);
            let pick = random_below(rng, 0, pool.len() as u32);
            Draws { first_flip: false, second_flip: false, pick, place: 0, n }
        },
        Pane::Floor => {
            let n = random_below(rng, 100, 999);
            let pick = random_below(rng, 0, 7);
            Draws { first_flip: false, second_flip: false, pick, place: 0, n }
        },
    }
}

/// Each pane's ordinary business, in its own register. `Kiln` swaps in the
/// baking line 35% of the time, and otherwise a quarter of the time an item's
/// properly counted batch; the other two panes draw from their own pools.
/// `corruption` only matters to `Outside`. Whatever the dice do, the line is
/// what `normal_line_with` writes from some fitting draws.
pub fn normal_line_for(pane: Pane, clock: DayClock, corruption: u32, rng: &mut ThreadRng) -> (res: LogLine)
    ensures
        normal_shape(pane, clock@, corruption as nat, res),
        exists|d: Draws|
            normal_draws_fit(pane, corruption as nat, d) && #[trigger] normal_line_of(
                pane,
                clock@,
                corruption as nat,
                d,
                res,
            ),
{
    let d = draw_normal(pane, corruption, rng);
    let line = normal_line_with(pane, clock, corruption, d);
    proof {
        lemma_normal_line_has_normal_shape(pane, clock@, corruption as nat, d, line);
    }
    line
}

// ---------------------------------------------------------------------------
// Scripted and special lines
// ---------------------------------------------------------------------------

/// `HH:MM body` stamped with the clock's true (unrounded) minute.
pub open spec fn true_stamped_text(millis: nat, body: Seq<char>) -> Seq<char> {
    stamp_text(hour_of(millis), minute_of(millis)) + " "@ + body
}

/// 呼びかけ number `i` naming place `loc`.
pub open spec fn call_body(i: nat, loc: Seq<char>) -> Seq<char> {
    replace_all(CALL_BODIES@[i as int]@, "{loc}"@, loc)
}

/// How 呼びかけ counts on `pane`: on 焼成室, the one pane the player works,
/// it is the line to leave alone (`ShouldNotReact`); 外 and 売り場 are
/// read-only, so there it is flavor like everything else they write.
pub open spec fn call_class(pane: Pane) -> Classification {
    if pane == Pane::Kiln {
        Classification::ShouldNotReact
    } else {
        Classification::Normal
    }
}

/// `line` is 呼びかけ number `i` on `pane`, naming place number `j` of `zone`,
/// at the clock's true minute.
pub open spec fn is_call_line(pane: Pane, millis: nat, zone: Zone, i: nat, j: nat, line: LogLine) -> bool {
    &&& i < 5
    &&& j < 4
    &&& is_plain_line(
        line,
        true_stamped_text(millis, call_body(i, zone_locations(zone)[j as int]@)),
        call_class(pane),
    )
}

/// 呼びかけ number `i` on `pane`, naming place number `j` of the current zone,
/// stamped with the clock's true minute (never rounded, never fabricated).
pub fn call_line_with(pane: Pane, clock: DayClock, zone: Zone, i: usize, j: usize) -> (res: LogLine)
    requires
        i < 5,
        j < 4,
    ensures
        is_call_line(pane, clock@, zone, i as nat, j as nat, res),
{
    proof {
        reveal_strlit("{loc}");
    }
    let loc = zone.location_pool()[j];
    let body = replace_text(CALL_BODIES[i], "{loc}", loc);
    let mut text = timestamp(clock.hour(), clock.minute());
    text.append(" ");
    text.append(body.as_str());
    let class = if pane == Pane::Kiln {
        Classification::ShouldNotReact
    } else {
        Classification::Normal
    };
    LogLine::new(text, class)
}

/// The 二人称 beat's words for `verb`.
pub open spec fn mistake_body(verb: Verb) -> Seq<char> {
    "あなたは 行を "@ + verb_label(verb) + "した"@
}

/// The scripted 二人称 beat that fires the first time the player mishandles a
/// line: the log itself briefly describes the player's own action back to them.
pub fn mistake_beat(clock: DayClock, verb: Verb) -> (res: LogLine)
    ensures
        is_scripted_line(res, stamped_text(clock@, mistake_body(verb)), Classification::Normal, LineFont::Mistake),
{
    let mut body = String::new();
    body.append("あなたは 行を ");
    body.append(verb.label());
    body.append("した");
    let text = stamped(clock, body.as_str());
    LogLine::new(text, Classification::Normal).scripted().with_font(LineFont::Mistake)
}

/// A line of 「別の何かの記録」 at hour `h`, minute `m`, body `i` filled with `n`.
pub open spec fn corrupted_text(h: nat, m: nat, i: nat, n: nat) -> Seq<char> {
    stamp_text(h, m) + " "@ + filled(CORRUPTED_BODIES@[i as int], n)
}

pub open spec fn is_corrupted_line(h: nat, m: nat, i: nat, n: nat, line: LogLine) -> bool {
    &&& h < 24
    &&& m < 60
    &&& i < 6
    &&& 1 <= n < 30
    &&& is_scripted_line(line, corrupted_text(h, m, i, n), Classification::Normal, LineFont::Call)
}

/// One line of 「別の何かの記録」 with the given hour, minute, body and count.
pub fn corrupted_line_with(h: u32, m: u32, i: usize, n: u32) -> (res: LogLine)
    requires
        i < 6,
    ensures
        is_scripted_line(res, corrupted_text(h as nat, m as nat, i as nat, n as nat), Classification::Normal, LineFont::Call),
{
    let body = fill_n(CORRUPTED_BODIES[i], n);
    let mut text = timestamp(h, m);
    text.append(" ");
    text.append(body.as_str());
    LogLine::new(text, Classification::Normal).scripted().with_font(LineFont::Call)
}

/// Unlike every other line, this one's timestamp is *not* a read of the
/// shared clock -- time has stopped meaning anything, so an incoherent,
/// independently rolled hour and minute is the intended behavior.
pub fn corrupted_line(rng: &mut ThreadRng) -> (res: LogLine)
    ensures
        exists|h: nat, m: nat, i: nat, n: nat| #[trigger] is_corrupted_line(h, m, i, n, res),
{
    let h = random_below(rng, 0, 24);
    let m = random_below(rng, 0, 60);
    let n = random_below(rng, 1, 30);
    let i = random_below(rng, 0, 6) as usize;
    let line = corrupted_line_with(h, m, i, n);
    assert(is_corrupted_line(h as nat, m as nat, i as nat, n as nat, line));
    line
}

/// 呼ばれる's words: `HH:MM 名前さん、場所`.
pub open spec fn name_call_text(hour: nat, minute: nat, name: Seq<char>, loc: Seq<char>) -> Seq<char> {
    stamp_text(hour, minute) + " "@ + name + "さん、"@ + loc
}

/// 呼ばれる: the player's own name, once, at night. Never queued into any pane.
pub fn name_call(hour: u32, minute: u32, player_name: &str, loc: &str) -> (res: LogLine)
    ensures
        is_scripted_line(
            res,
            name_call_text(hour as nat, minute as nat, player_name@, loc@),
            Classification::ShouldNotReact,
            LineFont::Call,
        ),
{
    let mut text = timestamp(hour, minute);
    text.append(" ");
    text.append(player_name);
    text.append("さん、");
    text.append(loc);
    LogLine::new(text, Classification::ShouldNotReact).scripted().with_font(LineFont::Call)
}

/// The day marker's words: 「開店から{day}日目 仕込みを始める」.
pub open spec fn day_marker_text(day: nat) -> Seq<char> {
    "開店から"@ + decimal(day) + "日目 仕込みを始める"@
}

/// 焼成室's scripted entry for the start of a new day.
pub fn day_marker(day: u32) -> (res: LogLine)
    ensures
        is_scripted_line(res, day_marker_text(day as nat), Classification::Normal, LineFont::Normal),
{
    let mut text = String::new();
    text.append("開店から");
    let count = number_text(day);
    text.append(count.as_str());
    text.append("日目 仕込みを始める");
    LogLine::new(text, Classification::Normal).scripted()
}

pub open spec fn is_reset_notice(millis: nat, i: nat, line: LogLine) -> bool {
    &&& i < 3
    &&& is_scripted_line(line, stamped_text(millis, RESET_NOTICE_BODIES@[i as int]@), Classification::Normal, LineFont::Normal)
}

/// `line` is one of 売り場's notices that yesterday's talk is over.
pub open spec fn is_any_reset_notice(millis: nat, line: LogLine) -> bool {
    exists|i: nat| #[trigger] is_reset_notice(millis, i, line)
}

/// 売り場's notice number `i` that yesterday's talk is over.
pub fn rule_reset_notice_with(clock: DayClock, i: usize) -> (res: LogLine)
    requires
        i < 3,
    ensures
        is_scripted_line(res, stamped_text(clock@, RESET_NOTICE_BODIES@[i as int]@), Classification::Normal, LineFont::Normal),
{
    let text = stamped(clock, RESET_NOTICE_BODIES[i]);
    LogLine::new(text, Classification::Normal).scripted()
}

/// 売り場's day-change hint: rules reset every midnight, but the shop never
/// says so in meta terms -- just a customer-facing remark, the counterpart of
/// 焼成室's `day_marker`.
pub fn rule_reset_notice(clock: DayClock, rng: &mut ThreadRng) -> (res: LogLine)
    ensures
        exists|i: nat| #[trigger] is_reset_notice(clock@, i, res),
{
    let i = random_below(rng, 0, 3) as usize;
    let line = rule_reset_notice_with(clock, i);
    assert(is_reset_notice(clock@, i as nat, line));
    line
}

// ---------------------------------------------------------------------------
// Item miscounts
// ---------------------------------------------------------------------------

/// The classification an item miscount takes under a verdict.
pub open spec fn miscount_class(verdict: Verdict) -> Classification {
    match verdict {
        Verdict::Active => Classification::ShouldReact,
        Verdict::Suppressed => Classification::Normal,
    }
}

/// `n` of `item` counted with the wrong counter word. The words are the same
/// whichever way the verdict falls -- only the classification differs, so the
/// player can tell only by remembering what was said about the item today.
pub fn item_miscount_line(clock: DayClock, item: ItemKind, n: u32, verdict: Verdict) -> (res: LogLine)
    ensures
        is_plain_line(
            res,
            stamped_text(clock@, item_count_body(item, n as nat, item_wrong_counter(item))),
            miscount_class(verdict),
        ),
{
    let body = item_count_text(item, n, item.wrong_counter());
    let text = stamped(clock, body.as_str());
    let class = match verdict {
        Verdict::Active => Classification::ShouldReact,
        Verdict::Suppressed => Classification::Normal,
    };
    LogLine::new(text, class)
}

// ---------------------------------------------------------------------------
// Weighted choice of what a pane writes next
// ---------------------------------------------------------------------------

/// How strongly each content bucket is weighted for one pane this tick. A
/// bucket at weight 0 just never wins, which is how `Kiln`-only content and
/// `Floor`-only rumors stay exclusive without a separate code path.
#[derive(Clone, Copy, Debug, PartialEq, Eq)]
pub struct Weights {
    pub normal: u32,
    pub rumor: u32,
    pub deviation: u32,
    pub repeat: u32,
    /// Item miscounts: `Kiln` only. Weighted whatever the verdicts, since
    /// their words never depend on whether they are reactable.
    pub item_miscount: u32,
    /// The night delivery: possible only once its rumor has been heard today,
    /// and only at night.
    pub taboo_event: u32,
    pub call: u32,
}

/// The content buckets, in the order a roll walks through them.
#[derive(Clone, Copy, Debug, PartialEq, Eq, Structural)]
pub enum Bucket {
    Normal,
    Rumor,
    Deviation,
    Repeat,
    ItemMiscount,
    TabooEvent,
    Call,
}

/// The threat-weight baseline: grows with the day (up to day 10) and peaks at
/// `Phase::Peak`.
pub open spec fn react_base(phase: Phase, day: nat) -> nat {
    12 + (if day < 10 {
        day
    } else {
        10
    }) * 2 + if phase == Phase::Peak {
        10nat
    } else {
        0nat
    }
}

/// The 呼びかけ baseline: zero on an even minute (its odd-minute tell is a
/// true read of the clock), heavier at night and once the threat is at the
/// counter.
pub open spec fn not_react_base(phase: Phase, zone: Zone, minute_is_odd: bool) -> nat {
    if minute_is_odd {
        4 + (if phase == Phase::Night {
            10nat
        } else {
            2nat
        }) + if zone == Zone::Counter {
            5nat
        } else {
            0nat
        }
    } else {
        0
    }
}

/// The weights for `pane`, given whether the night delivery is currently
/// enabled on it.
pub open spec fn weights_spec(
    pane: Pane,
    phase: Phase,
    zone: Zone,
    day: nat,
    minute_is_odd: bool,
    night_delivery_active: bool,
) -> Weights {
    let react = react_base(phase, day);
    let not_react = not_react_base(phase, zone, minute_is_odd);
    let zone_bonus: nat = if pane_matches_zone(pane, zone) {
        2
    } else {
        1
    };
    match pane {
        Pane::Kiln => Weights {
            normal: 60,
            rumor: 0,
            deviation: (react * zone_bonus) as u32,
            repeat: (react / 4) as u32,
            item_miscount: (react / 4) as u32,
            taboo_event: if night_delivery_active && phase == Phase::Night {
                14
            } else {
                0
            },
            call: (not_react / 3) as u32,
        },
        Pane::Floor => Weights {
            normal: 60,
            rumor: if phase == Phase::Prep {
                10
            } else {
                2
            },
            deviation: 0,
            repeat: (react * zone_bonus) as u32,
            item_miscount: 0,
            taboo_event: 0,
            call: (not_react / 2) as u32,
        },
        Pane::Outside => Weights {
            normal: 60,
            rumor: 0,
            deviation: 0,
            repeat: (react / 4) as u32,
            item_miscount: 0,
            taboo_event: 0,
            call: (not_react * zone_bonus) as u32,
        },
    }
}

pub open spec fn bucket_weight(w: Weights, b: Bucket) -> nat {
    match b {
        Bucket::Normal => w.normal as nat,
        Bucket::Rumor => w.rumor as nat,
        Bucket::Deviation => w.deviation as nat,
        Bucket::Repeat => w.repeat as nat,
        Bucket::ItemMiscount => w.item_miscount as nat,
        Bucket::TabooEvent => w.taboo_event as nat,
        Bucket::Call => w.call as nat,
    }
}

pub open spec fn weight_total(w: Weights) -> nat {
    (w.normal + w.rumor + w.deviation + w.repeat + w.item_miscount + w.taboo_event + w.call) as nat
}

/// The bucket a roll in `[0, weight_total(w))` lands in, walking the buckets in
/// order through their cumulative weights.
pub open spec fn bucket_of(w: Weights, roll: nat) -> Bucket {
    let a = w.normal as nat;
    let b = a + w.rumor;
    let c = b + w.deviation;
    let d = c + w.repeat;
    let e = d + w.item_miscount;
    let f = e + w.taboo_event;
    if roll < a {
        Bucket::Normal
    } else if roll < b {
        Bucket::Rumor
    } else if roll < c {
        Bucket::Deviation
    } else if roll < d {
        Bucket::Repeat
    } else if roll < e {
        Bucket::ItemMiscount
    } else if roll < f {
        Bucket::TabooEvent
    } else {
        Bucket::Call
    }
}

/// Whether `threat` is currently reactable on `pane`.
pub fn is_active(ledger: &RuleLedger, pane: Pane, threat: ThreatKind, day: u32) -> (res: bool)
    ensures
        res == (verdict_of(ledger.heard(), pane, threat, day as nat) == Verdict::Active),
{
    match ledger.verdict(pane, threat, Context { day }) {
        Verdict::Active => true,
        Verdict::Suppressed => false,
    }
}

/// The weights for what `pane` writes next.
pub fn weights_for(
    pane: Pane,
    phase: Phase,
    zone: Zone,
    day: u32,
    minute_is_odd: bool,
    ledger: &RuleLedger,
) -> (res: Weights)
    ensures
        res == weights_spec(
            pane,
            phase,
            zone,
            day as nat,
            minute_is_odd,
            verdict_of(ledger.heard(), pane, ThreatKind::NightDelivery, day as nat) == Verdict::Active,
        ),
        weight_total(res) <= 400,
{
    let capped_day: u32 = if day < 10 {
        day
    } else {
        10
    };
    let react_base: u32 = 12 + capped_day * 2 + if phase == Phase::Peak {
        10
    } else {
        0
    };
    // 呼びかけは必ず奇数分 -- on an even minute this bucket is zeroed out
    // entirely rather than rolled and then reassigned an odd minute.
    let not_react_base: u32 = if minute_is_odd {
        4 + (if phase == Phase::Night {
            10
        } else {
            2
        }) + if zone == Zone::Counter {
            5
        } else {
            0
        }
    } else {
        0
    };
    // 禁忌集は売り場の噂話としてのみ流れる -- busiest in the quiet of 仕込み.
    let rumor: u32 = if phase == Phase::Prep {
        10
    } else {
        2
    };
    let normal: u32 = 60;
    // The pane the current escalation stage is "pointed at" gets a bonus.
    let zone_bonus: u32 = if pane.matches_zone(zone) {
        2
    } else {
        1
    };
    // 夜の納品: only once its rumor has made it reactable today, and only at
    // night -- the rumor itself is about a night-only custom.
    let taboo_event: u32 = match pane {
        Pane::Kiln => {
            if is_active(ledger, pane, ThreatKind::NightDelivery, day) && phase == Phase::Night {
                14
            } else {
                0
            }
        },
        Pane::Floor | Pane::Outside => 0,
    };
    match pane {
        Pane::Kiln => Weights {
            normal,
            rumor: 0,
            deviation: react_base * zone_bonus,
            repeat: react_base / 4,
            item_miscount: react_base / 4,
            taboo_event,
            call: not_react_base / 3,
        },
        Pane::Floor => Weights {
            normal,
            rumor,
            deviation: 0,
            repeat: react_base * zone_bonus,
            item_miscount: 0,
            taboo_event,
            call: not_react_base / 2,
        },
        Pane::Outside => Weights {
            normal,
            rumor: 0,
            deviation: 0,
            repeat: react_base / 4,
            item_miscount: 0,
            taboo_event,
            call: not_react_base * zone_bonus,
        },
    }
}

/// The bucket that `roll` lands in.
pub fn pick_bucket(w: Weights, roll: u32) -> (res: Bucket)
    requires
        weight_total(w) <= u32::MAX,
    ensures
        res == bucket_of(w, roll as nat),
{
    let a = w.normal;
    let b = a + w.rumor;
    let c = b + w.deviation;
    let d = c + w.repeat;
    let e = d + w.item_miscount;
    let f = e + w.taboo_event;
    if roll < a {
        Bucket::Normal
    } else if roll < b {
        Bucket::Rumor
    } else if roll < c {
        Bucket::Deviation
    } else if roll < d {
        Bucket::Repeat
    } else if roll < e {
        Bucket::ItemMiscount
    } else if roll < f {
        Bucket::TabooEvent
    } else {
        Bucket::Call
    }
}

/// A bucket at weight 0 never wins: any roll below the total lands in a bucket
/// whose weight is positive.
pub proof fn law_zero_weight_never_wins(w: Weights, roll: nat)
    requires
        roll < weight_total(w),
    ensures
        bucket_weight(w, bucket_of(w, roll)) > 0,
{
}

/// What the weights promise: 呼びかけ only on an odd minute; deviations, item
/// miscounts and the night delivery only on 焼成室; rumors only on 売り場; the
/// night delivery only at night and only once its rumor is active; and
/// ordinary business always possible.
pub proof fn law_weights_keep_content_in_place(
    pane: Pane,
    phase: Phase,
    zone: Zone,
    day: nat,
    minute_is_odd: bool,
    night_delivery_active: bool,
)
    ensures
        ({
            let w = weights_spec(pane, phase, zone, day, minute_is_odd, night_delivery_active);
            &&& !minute_is_odd ==> w.call == 0
            &&& pane != Pane::Kiln ==> w.deviation == 0 && w.item_miscount == 0 && w.taboo_event == 0
            &&& pane != Pane::Floor ==> w.rumor == 0
            &&& w.taboo_event > 0 ==> pane == Pane::Kiln && phase == Phase::Night && night_delivery_active
            &&& w.normal > 0
        }),
{
}

/// Threats crowd the lunch rush: for the same pane, zone, day and minute,
/// 焼成室's deviations and item miscounts and 売り場's repeats weigh more at
/// `Phase::Peak` than in any other phase -- deviations by exactly ten times
/// the zone bonus -- while every other phase weighs them alike.
pub proof fn law_threats_peak_at_peak(
    other: Phase,
    another: Phase,
    zone: Zone,
    day: nat,
    minute_is_odd: bool,
    night_delivery_active: bool,
)
    requires
        other != Phase::Peak,
        another != Phase::Peak,
    ensures
        ({
            let peak_kiln = weights_spec(Pane::Kiln, Phase::Peak, zone, day, minute_is_odd, night_delivery_active);
            let kiln = weights_spec(Pane::Kiln, other, zone, day, minute_is_odd, night_delivery_active);
            let kiln2 = weights_spec(Pane::Kiln, another, zone, day, minute_is_odd, night_delivery_active);
            let peak_floor = weights_spec(Pane::Floor, Phase::Peak, zone, day, minute_is_odd, night_delivery_active);
            let floor = weights_spec(Pane::Floor, other, zone, day, minute_is_odd, night_delivery_active);
            let floor2 = weights_spec(Pane::Floor, another, zone, day, minute_is_odd, night_delivery_active);
            &&& peak_kiln.deviation == kiln.deviation + 10 * (if zone == Zone::Counter { 2int } else { 1int })
            &&& peak_kiln.item_miscount > kiln.item_miscount
            &&& peak_kiln.repeat > kiln.repeat
            &&& peak_floor.repeat > floor.repeat
            &&& kiln.deviation == kiln2.deviation
            &&& kiln.item_miscount == kiln2.item_miscount
            &&& floor.repeat == floor2.repeat
        }),
{
}

// ---------------------------------------------------------------------------
// Putting it together
// ---------------------------------------------------------------------------

/// The text of the pane's last ordinary line, if any.
pub open spec fn text_of(last_normal: Option<&str>) -> Option<Seq<char>> {
    match last_normal {
        Some(t) => Some(t@),
        None => None,
    }
}

/// What the repeat bucket writes from draws `d`. 外's own repeat used to
/// carry a threat of its own; with that gone it is one more of 外's ordinary
/// reports. Elsewhere the pane's last ordinary line comes back word for word
/// -- on 焼成室 a reactable 反復 (carrying any charm's relief) while `Repeat`
/// is active, and plain business while it is voided or on the read-only
/// 売り場 -- or, with no line to repeat yet, an ordinary line.
pub open spec fn repeat_line_of(
    pane: Pane,
    verdict: Verdict,
    relief: u32,
    last_normal: Option<Seq<char>>,
    millis: nat,
    corruption: nat,
    d: Draws,
    line: LogLine,
) -> bool {
    if pane == Pane::Outside {
        normal_line_of(pane, millis, corruption, d, line)
    } else {
        match last_normal {
            Some(t) => if pane == Pane::Kiln && verdict == Verdict::Active {
                &&& line.text@ == t
                &&& line.classification == Classification::ShouldReact
                &&& !line.scripted
                &&& line.font == LineFont::Normal
                &&& line.relief == relief
            } else {
                is_plain_line(line, t, Classification::Normal)
            },
            None => normal_line_of(pane, millis, corruption, d, line),
        }
    }
}

fn line_from(text: &str, classification: Classification) -> (res: LogLine)
    ensures
        is_plain_line(res, text@, classification),
{
    let mut owned = String::new();
    owned.append(text);
    LogLine::new(owned, classification)
}

/// Builds the repeat bucket's line once its verdict is known. `relief` is only
/// ever nonzero when a charm about `Repeat` has been heard today.
fn repeated_line(
    verdict: Verdict,
    relief: u32,
    last_normal: Option<&str>,
    pane: Pane,
    clock: DayClock,
    corruption: u32,
    d: Draws,
) -> (res: LogLine)
    requires
        (pane == Pane::Outside || last_normal is None) ==> normal_draws_fit(pane, corruption as nat, d),
    ensures
        repeat_line_of(pane, verdict, relief, text_of(last_normal), clock@, corruption as nat, d, res),
{
    if pane == Pane::Outside {
        return normal_line_with(pane, clock, corruption, d);
    }
    match last_normal {
        Some(text) => {
            let reactable = match verdict {
                Verdict::Active => pane == Pane::Kiln,
                Verdict::Suppressed => false,
            };
            if reactable {
                let mut line = line_from(text, Classification::ShouldReact);
                if relief > 0 {
                    line = line.relieved(relief);
                }
                line
            } else {
                line_from(text, Classification::Normal)
            }
        },
        None => normal_line_with(pane, clock, corruption, d),
    }
}

/// `line` is `item`'s batch of `n` counted with the wrong counter word,
/// classified by the item's verdict.
pub open spec fn is_item_miscount_line(
    millis: nat,
    item: ItemKind,
    n: nat,
    verdict: Verdict,
    line: LogLine,
) -> bool {
    &&& 1 <= n < 20
    &&& is_plain_line(
        line,
        stamped_text(millis, item_count_body(item, n, item_wrong_counter(item))),
        miscount_class(verdict),
    )
}

/// Draws that bucket `bucket` can build its line from on `pane`: the ranges
/// each bucket reads its wording and number from (a repeat needs the
/// ordinary-business draws only when it falls back on an ordinary line).
pub open spec fn draws_fit(
    bucket: Bucket,
    pane: Pane,
    corruption: nat,
    last_normal: Option<Seq<char>>,
    d: Draws,
) -> bool {
    match bucket {
        Bucket::Normal => normal_draws_fit(pane, corruption, d),
        Bucket::Rumor => d.pick < CATALOG_LEN,
        Bucket::Deviation => d.pick < DEVIATION_KINDS && 1 <= d.n < deviation_count_limit(d.pick as nat),
        Bucket::Repeat => (pane == Pane::Outside || last_normal is None) ==> normal_draws_fit(
            pane,
            corruption,
            d,
        ),
        Bucket::ItemMiscount => d.pick < 4 && 1 <= d.n < 20,
        Bucket::TabooEvent => 1 <= d.n < 10,
        Bucket::Call => d.pick < 5 && d.place < 4,
    }
}

/// Exactly the line bucket `bucket` writes on `pane` from draws `d`, and what
/// it does to the ledger's heard rumors (`heard_after`): only a rumor (number
/// `d.pick`) adds to them.
pub open spec fn rolled_line(
    bucket: Bucket,
    pane: Pane,
    millis: nat,
    zone: Zone,
    day: nat,
    last_normal: Option<Seq<char>>,
    heard: Seq<RumorId>,
    cast: Seq<super::customer::CustomerId>,
    corruption: nat,
    d: Draws,
    heard_after: Seq<RumorId>,
    line: LogLine,
) -> bool {
    match bucket {
        Bucket::Rumor => {
            &&& heard_after == heard.push(d.pick as RumorId)
            &&& is_plain_line(
                line,
                rumor_text(millis, d.pick as nat, cast[d.pick as int].0 as nat),
                Classification::Normal,
            )
        },
        _ => heard_after == heard && match bucket {
            Bucket::Normal => normal_line_of(pane, millis, corruption, d, line),
            Bucket::Deviation => is_deviation_line(millis, d.pick as nat, d.n as nat, line),
            Bucket::Repeat => repeat_line_of(
                pane,
                verdict_of(heard, pane, ThreatKind::Repeat, day),
                relief_of(heard, ThreatKind::Repeat),
                last_normal,
                millis,
                corruption,
                d,
                line,
            ),
            Bucket::ItemMiscount => is_item_miscount_line(
                millis,
                item_at(d.pick as nat),
                d.n as nat,
                verdict_of(heard, pane, ThreatKind::ItemMiscount(item_at(d.pick as nat)), day),
                line,
            ),
            Bucket::TabooEvent => is_night_delivery_line(millis, d.n as nat, line),
            _ => is_call_line(pane, millis, zone, d.pick as nat, d.place as nat, line),
        },
    }
}

/// On 焼成室 a repeat echoes the pane's last ordinary line word for word, and
/// the echo is a threat exactly while `Repeat` is in force today: once a heard
/// rumor voids it (say, rumor 2 on a day whose number contains a 3) the echo is
/// ordinary business, to be stamped, and it carries no relief. The repeat
/// never touches the ledger.
pub proof fn law_repeat_threatens_only_while_in_force(
    millis: nat,
    zone: Zone,
    day: nat,
    last: Seq<char>,
    heard: Seq<RumorId>,
    cast: Seq<super::customer::CustomerId>,
    corruption: nat,
    d: Draws,
    heard_after: Seq<RumorId>,
    line: LogLine,
)
    requires
        rolled_line(Bucket::Repeat, Pane::Kiln, millis, zone, day, Some(last), heard, cast, corruption, d, heard_after, line),
    ensures
        line.text@ == last,
        !line.scripted,
        heard_after == heard,
        line.classification == Classification::ShouldReact <==> verdict_of(heard, Pane::Kiln, ThreatKind::Repeat, day)
            == Verdict::Active,
        verdict_of(heard, Pane::Kiln, ThreatKind::Repeat, day) == Verdict::Suppressed ==> {
            &&& line.classification == Classification::Normal
            &&& line.relief == 0
        },
{
}

/// The weights in force for `pane` at this time of day and state.
pub open spec fn weights_now(pane: Pane, millis: nat, zone: Zone, day: nat, heard: Seq<RumorId>) -> Weights {
    weights_spec(
        pane,
        super::phase::phase_of_hour(hour_of(millis)),
        zone,
        day,
        minute_of(millis) % 2 == 1,
        verdict_of(heard, pane, ThreatKind::NightDelivery, day) == Verdict::Active,
    )
}

/// `line` (with the ledger's heard rumors becoming `heard_after`) is what some
/// roll below the total weight in force, and some fitting draws for the bucket
/// it lands in, produce.
pub open spec fn generated(
    pane: Pane,
    millis: nat,
    zone: Zone,
    day: nat,
    last_normal: Option<Seq<char>>,
    heard: Seq<RumorId>,
    cast: Seq<super::customer::CustomerId>,
    corruption: nat,
    heard_after: Seq<RumorId>,
    line: LogLine,
) -> bool {
    exists|roll: nat, d: Draws|
        #![trigger rolled_line(bucket_of(weights_now(pane, millis, zone, day, heard), roll), pane, millis, zone, day, last_normal, heard, cast, corruption, d, heard_after, line)]
        roll < weight_total(weights_now(pane, millis, zone, day, heard)) && draws_fit(
            bucket_of(weights_now(pane, millis, zone, day, heard), roll),
            pane,
            corruption,
            last_normal,
            d,
        ) && rolled_line(
            bucket_of(weights_now(pane, millis, zone, day, heard), roll),
            pane,
            millis,
            zone,
            day,
            last_normal,
            heard,
            cast,
            corruption,
            d,
            heard_after,
            line,
        )
}

/// The line `pane` writes for weighted roll `roll` and draws `draws`: the roll
/// picks the bucket by the weights in force (`bucket_of`), and that bucket
/// builds its line from the draws exactly as `rolled_line` says. 外 and
/// 売り場 only ever write `Normal` lines.
pub fn generate_from_roll(
    pane: Pane,
    clock: DayClock,
    zone: Zone,
    day: u32,
    last_normal: Option<&str>,
    ledger: &mut RuleLedger,
    corruption: u32,
    roll: u32,
    draws: Draws,
) -> (res: LogLine)
    requires
        roll < weight_total(weights_now(pane, clock@, zone, day as nat, old(ledger).heard())),
        draws_fit(
            bucket_of(weights_now(pane, clock@, zone, day as nat, old(ledger).heard()), roll as nat),
            pane,
            corruption as nat,
            text_of(last_normal),
            draws,
        ),
    ensures
        rolled_line(
            bucket_of(weights_now(pane, clock@, zone, day as nat, old(ledger).heard()), roll as nat),
            pane,
            clock@,
            zone,
            day as nat,
            text_of(last_normal),
            old(ledger).heard(),
            old(ledger).cast(),
            corruption as nat,
            draws,
            final(ledger).heard(),
            res,
        ),
        final(ledger).cast() == old(ledger).cast(),
        pane != Pane::Kiln ==> res.classification == Classification::Normal,
{
    let phase = Phase::for_hour(clock.hour());
    let w = weights_for(pane, phase, zone, day, clock.minute_is_odd(), ledger);
    let bucket = pick_bucket(w, roll);
    let ghost heard = ledger.heard();
    proof {
        law_zero_weight_never_wins(w, roll as nat);
        law_weights_keep_content_in_place(
            pane,
            phase,
            zone,
            day as nat,
            minute_of(clock@) % 2 == 1,
            verdict_of(heard, pane, ThreatKind::NightDelivery, day as nat) == Verdict::Active,
        );
        assert(bucket_of(weights_now(pane, clock@, zone, day as nat, heard), roll as nat) == bucket);
    }
    match bucket {
        Bucket::Normal => {
            let line = normal_line_with(pane, clock, corruption, draws);
            proof {
                lemma_normal_line_has_normal_shape(pane, clock@, corruption as nat, draws, line);
            }
            line
        },
        Bucket::Rumor => heard_rumor_line(clock, ledger, draws.pick as usize),
        Bucket::Deviation => deviation_line(clock, draws.pick, draws.n),
        Bucket::Repeat => {
            let verdict = ledger.verdict(pane, ThreatKind::Repeat, Context { day });
            let relief = ledger.relief_bonus(ThreatKind::Repeat);
            let line = repeated_line(verdict, relief, last_normal, pane, clock, corruption, draws);
            proof {
                if pane == Pane::Outside || last_normal is None {
                    lemma_normal_line_has_normal_shape(pane, clock@, corruption as nat, draws, line);
                }
            }
            line
        },
        Bucket::ItemMiscount => {
            let item = item_from_index(draws.pick);
            let verdict = ledger.verdict(pane, ThreatKind::ItemMiscount(item), Context { day });
            item_miscount_line(clock, item, draws.n, verdict)
        },
        Bucket::TabooEvent => night_delivery_line(clock, draws.n),
        Bucket::Call => call_line_with(pane, clock, zone, draws.pick as usize, draws.place as usize),
    }
}

/// Draws the dice bucket `bucket` reads, in the order its line uses them.
fn draw_for(bucket: Bucket, pane: Pane, corruption: u32, last_normal: Option<&str>, rng: &mut ThreadRng) -> (d: Draws)
    ensures
        draws_fit(bucket, pane, corruption as nat, text_of(last_normal), d),
{
    match bucket {
        Bucket::Normal => draw_normal(pane, corruption, rng),
        Bucket::Rumor => {
            let pick = random_below(rng, 0, CATALOG_LEN as u32);
            Draws { first_flip: false, second_flip: false, pick, place: 0, n: 0 }
        },
        Bucket::Deviation => {
            let pick = random_below(rng, 0, DEVIATION_KINDS);
            let limit: u32 = if pick == 2 {
                30
            } else {
                20
            };
            let n = random_below(rng, 1, limit);
            Draws { first_flip: false, second_flip: false, pick, place: 0, n }
        },
        Bucket::Repeat => {
            let falls_back = match last_normal {
                Some(_) => pane == Pane::Outside,
                None => true,
            };
            if falls_back {
                draw_normal(pane, corruption, rng)
            } else {
                Draws { first_flip: false, second_flip: false, pick: 0, place: 0, n: 0 }
            }
        },
        Bucket::ItemMiscount => {
            let pick = random_below(rng, 0, 4);
            let n = random_below(rng, 1, 20);
            Draws { first_flip: false, second_flip: false, pick, place: 0, n }
        },
        Bucket::TabooEvent => {
            let n = random_below(rng, 1, 10);
            Draws { first_flip: false, second_flip: false, pick: 0, place: 0, n }
        },
        Bucket::Call => {
            let place = random_below(rng, 0, 4);
            let pick = random_below(rng, 0, 5);
            Draws { first_flip: false, second_flip: false, pick, place, n: 0 }
        },
    }
}

/// What `pane` writes next: a weighted roll over its content buckets, then
/// the draws that bucket reads, then `generate_from_roll`. Whatever the dice
/// do, the line is one that some roll below the total weight and some fitting
/// draws produce, only a rumor touches the ledger, and 外 and 売り場 only ever
/// write `Normal` lines.
pub fn generate(
    pane: Pane,
    clock: DayClock,
    zone: Zone,
    day: u32,
    last_normal: Option<&str>,
    ledger: &mut RuleLedger,
    corruption: u32,
    rng: &mut ThreadRng,
) -> (res: LogLine)
    ensures
        generated(
            pane,
            clock@,
            zone,
            day as nat,
            text_of(last_normal),
            old(ledger).heard(),
            old(ledger).cast(),
            corruption as nat,
            final(ledger).heard(),
            res,
        ),
        final(ledger).cast() == old(ledger).cast(),
        pane != Pane::Kiln ==> res.classification == Classification::Normal,
{
    let phase = Phase::for_hour(clock.hour());
    let w = weights_for(pane, phase, zone, day, clock.minute_is_odd(), ledger);
    let total = w.normal + w.rumor + w.deviation + w.repeat + w.item_miscount + w.taboo_event
        + w.call;
    let roll = random_below(rng, 0, total);
    let bucket = pick_bucket(w, roll);
    let draws = draw_for(bucket, pane, corruption, last_normal, rng);
    let ghost heard = ledger.heard();
    let ghost cast = ledger.cast();
    proof {
        assert(bucket_of(weights_now(pane, clock@, zone, day as nat, heard), roll as nat) == bucket);
    }
    let line = generate_from_roll(pane, clock, zone, day, last_normal, ledger, corruption, roll, draws);
    proof {
        assert(rolled_line(
            bucket_of(weights_now(pane, clock@, zone, day as nat, heard), roll as nat),
            pane,
            clock@,
            zone,
            day as nat,
            text_of(last_normal),
            heard,
            cast,
            corruption as nat,
            draws,
            ledger.heard(),
            line,
        ));
    }
    line
}

} // verus!
