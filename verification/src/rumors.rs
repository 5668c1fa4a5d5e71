use rand::rngs::ThreadRng;
use vstd::prelude::*;

use super::chance::random_below;
use super::clock::{hour_of, minute_of, DayClock};
use super::customer::customer_name;
use super::log_line::{is_plain_line, Classification, LogLine};
use super::pane::Pane;
use super::rules::{Context, RuleLedger};
use super::timestamp::{decimal, even_minute_of, fill_name, replace_all, stamp_text, timestamp};

verus! {

/// The bakery's own goods other than the baguette, each counted its own way.
#[derive(Clone, Copy, PartialEq, Eq, Debug, Structural)]
pub enum ItemKind {
    Croissant,
    ShioPan,
    HotDog,
    MilkLoaf,
}

pub open spec fn item_label(item: ItemKind) -> Seq<char> {
    match item {
        ItemKind::Croissant => "クロワッサン"@,
        ItemKind::ShioPan => "塩パン"@,
        ItemKind::HotDog => "ホットドッグ"@,
        ItemKind::MilkLoaf => "食パン"@,
    }
}

/// The counter word the baker really uses for each item.
pub open spec fn item_counter(item: ItemKind) -> Seq<char> {
    match item {
        ItemKind::Croissant => "個"@,
        ItemKind::ShioPan => "個"@,
        ItemKind::HotDog => "本"@,
        ItemKind::MilkLoaf => "斤"@,
    }
}

/// A real counter word that is wrong for the item.
pub open spec fn item_wrong_counter(item: ItemKind) -> Seq<char> {
    match item {
        ItemKind::Croissant => "本"@,
        ItemKind::ShioPan => "本"@,
        ItemKind::HotDog => "個"@,
        ItemKind::MilkLoaf => "個"@,
    }
}

impl ItemKind {
    pub fn label(self) -> (res: &'static str)
        ensures
            res@ == item_label(self),
    {
        match self {
            ItemKind::Croissant => "クロワッサン",
            ItemKind::ShioPan => "塩パン",
            ItemKind::HotDog => "ホットドッグ",
            ItemKind::MilkLoaf => "食パン",
        }
    }

    /// The counter word the baker's own records use for this item.
    pub fn counter(self) -> (res: &'static str)
        ensures
            res@ == item_counter(self),
    {
        match self {
            ItemKind::Croissant => "個",
            ItemKind::ShioPan => "個",
            ItemKind::HotDog => "本",
            ItemKind::MilkLoaf => "斤",
        }
    }

    /// A counter word that exists but is wrong for this item -- the tell of
    /// an item miscount.
    pub fn wrong_counter(self) -> (res: &'static str)
        ensures
            res@ == item_wrong_counter(self),
    {
        match self {
            ItemKind::Croissant => "本",
            ItemKind::ShioPan => "本",
            ItemKind::HotDog => "個",
            ItemKind::MilkLoaf => "個",
        }
    }
}

/// Which recurring anomaly pattern a rumor's effect talks about. Every variant
/// is 焼成室 content only.
#[derive(Clone, Copy, PartialEq, Eq, Debug, Structural)]
pub enum ThreatKind {
    /// 焼成室の既定の反復 -- reactable from day one; only ever *voided*.
    Repeat,
    /// 夜の納品
    NightDelivery,
    /// One item counted with the wrong counter word; each item has its own
    /// history of `Enable`/`Void` rumors.
    ItemMiscount(ItemKind),
}

/// A condition a `Void` effect can be guarded on.
#[derive(Clone, Copy, PartialEq, Eq, Debug, Structural)]
pub enum Condition {
    /// 三のつく日 -- the day number, written in decimal, contains the digit 3.
    DayHasThree,
}

/// Whether `condition` holds on day `day`.
pub open spec fn condition_holds(condition: Condition, day: nat) -> bool {
    match condition {
        Condition::DayHasThree => decimal(day).contains('3'),
    }
}

proof fn lemma_digit_is_three(d: nat)
    requires
        d < 10,
    ensures
        (super::timestamp::digit_char(d) == '3') <==> d == 3,
{
}

proof fn lemma_decimal_has_three(n: nat)
    ensures
        decimal(n).contains('3') <==> (n % 10 == 3 || (n >= 10 && decimal(n / 10).contains('3'))),
{
    lemma_digit_is_three(n % 10);
    if n < 10 {
        assert(decimal(n)[0] == super::timestamp::digit_char(n));
        if n == 3 {
            assert(decimal(n)[0] == '3');
        }
    } else {
        let front = decimal(n / 10);
        assert(decimal(n) == front.push(super::timestamp::digit_char(n % 10)));
        if front.contains('3') {
            let i = choose|i: int| 0 <= i < front.len() && front[i] == '3';
            assert(decimal(n)[i] == '3');
        }
        if n % 10 == 3 {
            assert(decimal(n)[front.len() as int] == '3');
        }
        if decimal(n).contains('3') {
            let i = choose|i: int| 0 <= i < decimal(n).len() && decimal(n)[i] == '3';
            if i < front.len() {
                assert(front[i] == '3');
            }
        }
    }
}

impl Condition {
    pub fn holds(self, ctx: Context) -> (res: bool)
        ensures
            res == condition_holds(self, ctx.day as nat),
    {
        match self {
            Condition::DayHasThree => {
                let mut d = ctx.day;
                loop
                    invariant
                        condition_holds(self, ctx.day as nat) == decimal(d as nat).contains('3'),
                    decreases d,
                {
                    proof {
                        lemma_decimal_has_three(d as nat);
                    }
                    if d % 10 == 3 {
                        return true;
                    }
                    if d < 10 {
                        return false;
                    }
                    d = d / 10;
                }
            },
        }
    }
}

/// What a rumor does to the ruleset the moment it's spoken.
#[derive(Clone, Copy, PartialEq, Eq, Debug, Structural)]
pub enum Effect {
    /// Pure foreshadowing -- describes a rule that's already always active.
    /// Hearing it changes nothing mechanically.
    Foreshadow,
    /// For the rest of the day it is heard, `threat` is reactable on `pane`.
    Enable { pane: Pane, threat: ThreatKind },
    /// For the rest of the day it is heard, `threat` stops being reactable
    /// whenever `condition` holds.
    Void { threat: ThreatKind, condition: Condition },
    /// 援助系の禁忌: for the rest of the day it is heard, correctly catching
    /// `threat` refunds an extra `bonus` corruption.
    Relieve { threat: ThreatKind, bonus: u32 },
}

/// An index into the catalog of rumors.
pub type RumorId = usize;

/// One rumor: its words (with a `{name}` placeholder for the speaker) and
/// what it does.
#[derive(Clone, Copy, Debug)]
pub struct RumorDef {
    pub body: &'static str,
    pub effect: Effect,
}

/// How many rumors the catalog holds.
pub const CATALOG_LEN: usize = 11;

/// Each catalog entry's effect.
pub open spec fn rumor_effect(id: nat) -> Effect {
    if id == 1 {
        Effect::Enable { pane: Pane::Kiln, threat: ThreatKind::NightDelivery }
    } else if id == 2 {
        Effect::Void { threat: ThreatKind::Repeat, condition: Condition::DayHasThree }
    } else if id == 6 {
        Effect::Relieve { threat: ThreatKind::Repeat, bonus: 3 }
    } else if id == 7 {
        Effect::Enable { pane: Pane::Kiln, threat: ThreatKind::ItemMiscount(ItemKind::Croissant) }
    } else if id == 8 {
        Effect::Enable { pane: Pane::Kiln, threat: ThreatKind::ItemMiscount(ItemKind::ShioPan) }
    } else if id == 9 {
        Effect::Enable { pane: Pane::Kiln, threat: ThreatKind::ItemMiscount(ItemKind::MilkLoaf) }
    } else if id == 10 {
        Effect::Void {
            threat: ThreatKind::ItemMiscount(ItemKind::HotDog),
            condition: Condition::DayHasThree,
        }
    } else {
        Effect::Foreshadow
    }
}

/// Each catalog entry's words.
pub open spec fn rumor_body(id: nat) -> Seq<char> {
    if id == 0 {
        "{name}さんが、奇数分に帳面をつけるのは良くないと、真顔でおっしゃっていました"@
    } else if id == 1 {
        "{name}さんが「夜の納品だけは、お断りしたほうがいいですよ」と念を押していらっしゃいました"@
    } else if id == 2 {
        "三のつく日は窯の火を落とさないほうがいいのだと、{name}さんが声をひそめておっしゃっていました"@
    } else if id == 3 {
        "{name}さんが「同じ話を二度されても、続けて聞かないほうがいいですよ」と教えてくださいました"@
    } else if id == 4 {
        "名前を呼ばれても、すぐには信じないほうがいいのだと、{name}さんがぽつりとおっしゃっていました"@
    } else if id == 5 {
        "{name}さんに「焼き上がりの字だけは、崩さないでくださいね」と頼まれました"@
    } else if id == 6 {
        "{name}さんが「帳面の同じ行に気づいたら、すぐに消してしまうと楽になりますよ」と、にっこり教えてくれました"@
    } else if id == 7 {
        "{name}さんが「クロワッサンの数が違っていたら、ちゃんと消したほうがいいですよ」とおっしゃっていました"@
    } else if id == 8 {
        "塩パンだけは、数え間違いを見逃さないほうがいいのだと、{name}さんが小声でおっしゃっていました"@
    } else if id == 9 {
        "{name}さんに「食パンの数だけは、間違えたままにしないでくださいね」と念を押されました"@
    } else {
        "ホットドッグの数は、三のつく日だけは気にしなくていいのだと、{name}さんが教えてくださいました"@
    }
}

/// `text` contains `word` somewhere.
pub open spec fn mentions(text: Seq<char>, word: Seq<char>) -> bool {
    exists|i: int|
        0 <= i && i + word.len() <= text.len() && #[trigger] text.subrange(i, i + word.len()) == word
}

/// Whether `effect` rules on `item`'s miscount.
pub open spec fn governs_item(effect: Effect, item: ItemKind) -> bool {
    match effect {
        Effect::Enable { threat, .. } => threat == ThreatKind::ItemMiscount(item),
        Effect::Void { threat, .. } => threat == ThreatKind::ItemMiscount(item),
        Effect::Relieve { threat, .. } => threat == ThreatKind::ItemMiscount(item),
        Effect::Foreshadow => false,
    }
}

/// Each rumor about an item's count names that item in its own words.
pub proof fn lemma_item_rumors_name_their_items()
    ensures
        mentions(rumor_body(7), item_label(ItemKind::Croissant)),
        mentions(rumor_body(8), item_label(ItemKind::ShioPan)),
        mentions(rumor_body(9), item_label(ItemKind::MilkLoaf)),
        mentions(rumor_body(10), item_label(ItemKind::HotDog)),
{
    reveal_strlit("{name}さんが「クロワッサンの数が違っていたら、ちゃんと消したほうがいいですよ」とおっしゃっていました");
    reveal_strlit("塩パンだけは、数え間違いを見逃さないほうがいいのだと、{name}さんが小声でおっしゃっていました");
    reveal_strlit("{name}さんに「食パンの数だけは、間違えたままにしないでくださいね」と念を押されました");
    reveal_strlit("ホットドッグの数は、三のつく日だけは気にしなくていいのだと、{name}さんが教えてくださいました");
    reveal_strlit("クロワッサン");
    reveal_strlit("塩パン");
    reveal_strlit("食パン");
    reveal_strlit("ホットドッグ");
    assert(rumor_body(7).subrange(10int, 10int + item_label(ItemKind::Croissant).len()) =~= item_label(ItemKind::Croissant));
    assert(rumor_body(8).subrange(0int, 0int + item_label(ItemKind::ShioPan).len()) =~= item_label(ItemKind::ShioPan));
    assert(rumor_body(9).subrange(10int, 10int + item_label(ItemKind::MilkLoaf).len()) =~= item_label(ItemKind::MilkLoaf));
    assert(rumor_body(10).subrange(0int, 0int + item_label(ItemKind::HotDog).len()) =~= item_label(ItemKind::HotDog));
}

/// 禁忌集: the rumors that drift through 売り場's small talk -- the one and
/// only source of every rule change. Who voices each is decided per run
/// (`rules::RuleLedger`), not here.
pub fn catalog(id: RumorId) -> (res: RumorDef)
    requires
        id < CATALOG_LEN,
    ensures
        res.body@ == rumor_body(id as nat),
        res.effect == rumor_effect(id as nat),
{
    if id == 0 {
        RumorDef {
            body: "{name}さんが、奇数分に帳面をつけるのは良くないと、真顔でおっしゃっていました",
            effect: Effect::Foreshadow,
        }
    } else if id == 1 {
        RumorDef {
            body: "{name}さんが「夜の納品だけは、お断りしたほうがいいですよ」と念を押していらっしゃいました",
            effect: Effect::Enable { pane: Pane::Kiln, threat: ThreatKind::NightDelivery },
        }
    } else if id == 2 {
        RumorDef {
            body: "三のつく日は窯の火を落とさないほうがいいのだと、{name}さんが声をひそめておっしゃっていました",
            effect: Effect::Void { threat: ThreatKind::Repeat, condition: Condition::DayHasThree },
        }
    } else if id == 3 {
        RumorDef {
            body: "{name}さんが「同じ話を二度されても、続けて聞かないほうがいいですよ」と教えてくださいました",
            effect: Effect::Foreshadow,
        }
    } else if id == 4 {
        RumorDef {
            body: "名前を呼ばれても、すぐには信じないほうがいいのだと、{name}さんがぽつりとおっしゃっていました",
            effect: Effect::Foreshadow,
        }
    } else if id == 5 {
        RumorDef {
            body: "{name}さんに「焼き上がりの字だけは、崩さないでくださいね」と頼まれました",
            effect: Effect::Foreshadow,
        }
    } else if id == 6 {
        RumorDef {
            body: "{name}さんが「帳面の同じ行に気づいたら、すぐに消してしまうと楽になりますよ」と、にっこり教えてくれました",
            effect: Effect::Relieve { threat: ThreatKind::Repeat, bonus: 3 },
        }
    } else if id == 7 {
        RumorDef {
            body: "{name}さんが「クロワッサンの数が違っていたら、ちゃんと消したほうがいいですよ」とおっしゃっていました",
            effect: Effect::Enable {
                pane: Pane::Kiln,
                threat: ThreatKind::ItemMiscount(ItemKind::Croissant),
            },
        }
    } else if id == 8 {
        RumorDef {
            body: "塩パンだけは、数え間違いを見逃さないほうがいいのだと、{name}さんが小声でおっしゃっていました",
            effect: Effect::Enable {
                pane: Pane::Kiln,
                threat: ThreatKind::ItemMiscount(ItemKind::ShioPan),
            },
        }
    } else if id == 9 {
        RumorDef {
            body: "{name}さんに「食パンの数だけは、間違えたままにしないでくださいね」と念を押されました",
            effect: Effect::Enable {
                pane: Pane::Kiln,
                threat: ThreatKind::ItemMiscount(ItemKind::MilkLoaf),
            },
        }
    } else {
        RumorDef {
            body: "ホットドッグの数は、三のつく日だけは気にしなくていいのだと、{name}さんが教えてくださいました",
            effect: Effect::Void {
                threat: ThreatKind::ItemMiscount(ItemKind::HotDog),
                condition: Condition::DayHasThree,
            },
        }
    }
}

/// A line stamped with the clock's hour and even-rounded minute: `HH:MM body`.
pub open spec fn stamped_text(millis: nat, body: Seq<char>) -> Seq<char> {
    stamp_text(hour_of(millis), (minute_of(millis) - minute_of(millis) % 2) as nat) + " "@ + body
}

/// `HH:MM body`, stamped with the clock's hour and even-rounded minute.
pub fn stamped(clock: DayClock, body: &str) -> (res: String)
    ensures
        res@ == stamped_text(clock@, body@),
{
    let h = clock.hour();
    let m = even_minute_of(clock);
    let mut text = timestamp(h, m);
    text.append(" ");
    text.append(body);
    text
}

/// The words of rumor `id` spoken by the regular with index `speaker`,
/// stamped at the clock's even-rounded time.
pub open spec fn rumor_text(millis: nat, id: nat, speaker: nat) -> Seq<char> {
    stamped_text(millis, replace_all(rumor_body(id), "{name}"@, customer_name(speaker)))
}

/// Rumor `id` spoken now: records it in the ledger as heard, and returns the
/// line voicing it through this run's assigned speaker.
pub fn heard_rumor_line(clock: DayClock, ledger: &mut RuleLedger, id: RumorId) -> (res: LogLine)
    requires
        id < CATALOG_LEN,
    ensures
        final(ledger).heard() == old(ledger).heard().push(id),
        final(ledger).cast() == old(ledger).cast(),
        is_plain_line(
            res,
            rumor_text(clock@, id as nat, old(ledger).cast()[id as int].0 as nat),
            Classification::Normal,
        ),
{
    ledger.hear(id);
    let def = catalog(id);
    let speaker = ledger.speaker_of(id);
    let body = fill_name(def.body, speaker.name());
    let text = stamped(clock, body.as_str());
    LogLine::new(text, Classification::Normal)
}

/// One rumor, picked at random, as 売り場 overhears it: the pick is recorded in
/// the ledger as heard, and the line voices it through this run's assigned
/// speaker.
pub fn rumor_line(clock: DayClock, ledger: &mut RuleLedger, rng: &mut ThreadRng) -> (res: LogLine)
    ensures
        exists|id: RumorId|
            #![trigger old(ledger).heard().push(id)]
            id < CATALOG_LEN && final(ledger).heard() == old(ledger).heard().push(id) && is_plain_line(
                res,
                rumor_text(clock@, id as nat, old(ledger).cast()[id as int].0 as nat),
                Classification::Normal,
            ),
        final(ledger).cast() == old(ledger).cast(),
{
    let id = random_below(rng, 0, CATALOG_LEN as u32) as usize;
    heard_rumor_line(clock, ledger, id)
}

} // verus!
