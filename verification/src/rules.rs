use rand::rngs::ThreadRng;
use vstd::prelude::*;

use super::chance::{random_below, thread_rng};
use super::customer::{CustomerId, CUSTOMER_COUNT};
use super::pane::Pane;
use super::rumors::{
    condition_holds, governs_item, item_label, lemma_item_rumors_name_their_items, mentions,
    rumor_body, rumor_effect, Effect, ItemKind, RumorId, ThreatKind, CATALOG_LEN,
};

verus! {

/// The facts a `Condition` needs to evaluate itself.
#[derive(Clone, Copy, Debug)]
pub struct Context {
    pub day: u32,
}

/// The live answer to "is `threat` currently reactable on `pane`?", after
/// folding every heard rumor's effect in speaking order.
#[derive(Clone, Copy, PartialEq, Eq, Debug, Structural)]
pub enum Verdict {
    /// Reactable right now.
    Active,
    /// Not reactable right now -- resolves as ordinary business instead.
    Suppressed,
}

/// What each threat is when nothing heard today says anything about it:
/// `Repeat` and the hot dog's miscount are reactable from day one, every
/// other threat only once some rumor enables it.
pub open spec fn baseline_verdict(threat: ThreatKind) -> Verdict {
    match threat {
        ThreatKind::Repeat => Verdict::Active,
        ThreatKind::ItemMiscount(ItemKind::HotDog) => Verdict::Active,
        _ => Verdict::Suppressed,
    }
}

/// What rumor `id` says about `threat` on `pane` on day `day`, if anything.
pub open spec fn rumor_ruling(id: nat, pane: Pane, threat: ThreatKind, day: nat) -> Option<Verdict> {
    match rumor_effect(id) {
        Effect::Enable { pane: p, threat: t } => if p == pane && t == threat {
            Some(Verdict::Active)
        } else {
            None
        },
        Effect::Void { threat: t, condition } => if t == threat && condition_holds(condition, day) {
            Some(Verdict::Suppressed)
        } else {
            None
        },
        _ => None,
    }
}

/// The verdict after hearing `heard` in order: the most recently heard rumor
/// that rules on `(pane, threat)` wins; with none, the threat's baseline.
pub open spec fn verdict_of(heard: Seq<RumorId>, pane: Pane, threat: ThreatKind, day: nat) -> Verdict
    decreases heard.len(),
{
    if heard.len() == 0 {
        baseline_verdict(threat)
    } else {
        match rumor_ruling(heard.last() as nat, pane, threat, day) {
            Some(v) => v,
            None => verdict_of(heard.drop_last(), pane, threat, day),
        }
    }
}

/// The extra relief for catching `threat` after hearing `heard`: the most
/// recently heard `Relieve` naming it, or 0.
pub open spec fn relief_of(heard: Seq<RumorId>, threat: ThreatKind) -> u32
    decreases heard.len(),
{
    if heard.len() == 0 {
        0
    } else {
        match rumor_effect(heard.last() as nat) {
            Effect::Relieve { threat: t, bonus } => if t == threat {
                bonus
            } else {
                relief_of(heard.drop_last(), threat)
            },
            _ => relief_of(heard.drop_last(), threat),
        }
    }
}

/// Which customer voices each catalog entry *this run*. A rumor's content and
/// effect are fixed, but who delivers it is re-rolled every run.
struct Cast {
    /// Index-aligned with the catalog.
    assignment: Vec<CustomerId>,
}

/// A customer chosen uniformly at random.
fn random_customer(rng: &mut ThreadRng) -> (res: CustomerId)
    ensures
        res.0 < CUSTOMER_COUNT,
{
    CustomerId(random_below(rng, 0, CUSTOMER_COUNT as u32) as u8)
}

impl Cast {
    spec fn well_cast(&self) -> bool {
        &&& self.assignment@.len() == CATALOG_LEN
        &&& forall|i: int| 0 <= i < self.assignment@.len() ==> #[trigger] self.assignment@[i].0 < CUSTOMER_COUNT
    }

    fn roll(rng: &mut ThreadRng) -> (res: Self)
        ensures
            res.well_cast(),
    {
        let mut assignment: Vec<CustomerId> = Vec::new();
        let mut i: usize = 0;
        while i < CATALOG_LEN
            invariant
                i <= CATALOG_LEN,
                assignment@.len() == i,
                forall|j: int| 0 <= j < i ==> #[trigger] assignment@[j].0 < CUSTOMER_COUNT,
            decreases CATALOG_LEN - i,
        {
            assignment.push(random_customer(rng));
            i += 1;
        }
        Cast { assignment }
    }

    fn speaker_of(&self, id: RumorId) -> (res: CustomerId)
        requires
            self.well_cast(),
            id < CATALOG_LEN,
        ensures
            res == self.assignment@[id as int],
            res.0 < CUSTOMER_COUNT,
    {
        self.assignment[id]
    }
}

/// Today's body of 禁忌集 knowledge: every rumor spoken *today*, in the order
/// it was spoken, plus this run's cast. Nothing is ever removed or reordered
/// within a day -- contradictions are resolved at query time (`verdict`), not
/// by mutating history. `heard` is wiped wholesale at the next in-fiction
/// midnight (`reset_day`); only the cast survives.
pub struct RuleLedger {
    heard: Vec<RumorId>,
    cast: Cast,
}

impl RuleLedger {
    #[verifier::type_invariant]
    spec fn well_formed(&self) -> bool {
        &&& self.cast.well_cast()
        &&& forall|i: int| 0 <= i < self.heard@.len() ==> #[trigger] self.heard@[i] < CATALOG_LEN
    }

    /// The rumors heard today, oldest first.
    pub closed spec fn heard(&self) -> Seq<RumorId> {
        self.heard@
    }

    /// Who voices each catalog entry this run, index-aligned with the catalog.
    pub closed spec fn cast(&self) -> Seq<CustomerId> {
        self.cast.assignment@
    }

    /// Starts a fresh run's ledger: no rumor heard yet, and a freshly rolled
    /// cast deciding who *would* voice each rumor if it comes up.
    pub fn new() -> (res: Self)
        ensures
            res.heard() == Seq::<RumorId>::empty(),
            res.cast().len() == CATALOG_LEN,
            forall|i: int| 0 <= i < CATALOG_LEN ==> #[trigger] res.cast()[i].0 < CUSTOMER_COUNT,
    {
        let mut rng = thread_rng();
        let cast = Cast::roll(&mut rng);
        RuleLedger { heard: Vec::new(), cast }
    }

    /// Records that rumor `id` has just been spoken.
    pub fn hear(&mut self, id: RumorId)
        requires
            id < CATALOG_LEN,
        ensures
            final(self).heard() == old(self).heard().push(id),
            final(self).cast() == old(self).cast(),
    {
        proof {
            use_type_invariant(&*self);
        }
        let mut heard = Vec::new();
        std::mem::swap(&mut heard, &mut self.heard);
        heard.push(id);
        self.heard = heard;
    }

    /// Clears everything heard so far, leaving the cast untouched. Called once
    /// per in-fiction midnight -- a rumor's effect only lasts through the rest
    /// of the day it was spoken on.
    pub fn reset_day(&mut self)
        ensures
            final(self).heard() == Seq::<RumorId>::empty(),
            final(self).cast() == old(self).cast(),
    {
        proof {
            use_type_invariant(&*self);
        }
        self.heard = Vec::new();
    }

    /// Which customer this run's cast has voicing `id`.
    pub fn speaker_of(&self, id: RumorId) -> (res: CustomerId)
        requires
            id < CATALOG_LEN,
        ensures
            res == self.cast()[id as int],
            res.0 < CUSTOMER_COUNT,
    {
        proof {
            use_type_invariant(self);
        }
        self.cast.speaker_of(id)
    }

    /// Scans heard rumors newest-first and returns the first `Enable`/`Void`
    /// that rules on `threat` -- the most recently spoken word on the subject
    /// wins. Falls back to each threat's own baseline when nothing heard says
    /// anything about it.
    pub fn verdict(&self, pane: Pane, threat: ThreatKind, ctx: super::rules::Context) -> (res: Verdict)
        ensures
            res == verdict_of(self.heard(), pane, threat, ctx.day as nat),
    {
        proof {
            use_type_invariant(self);
        }
        let mut i = self.heard.len();
        proof {
            assert(self.heard@.subrange(0, i as int) =~= self.heard@);
        }
        while i > 0
            invariant
                i <= self.heard@.len(),
                forall|j: int| 0 <= j < self.heard@.len() ==> #[trigger] self.heard@[j] < CATALOG_LEN,
                verdict_of(self.heard@, pane, threat, ctx.day as nat) == verdict_of(
                    self.heard@.subrange(0, i as int),
                    pane,
                    threat,
                    ctx.day as nat,
                ),
            decreases i,
        {
            let id = self.heard[i - 1];
            let def = super::rumors::catalog(id);
            proof {
                assert(self.heard@.subrange(0, i as int).drop_last() =~= self.heard@.subrange(
                    0,
                    i - 1,
                ));
            }
            match def.effect {
                Effect::Enable { pane: p, threat: t } => {
                    if p == pane && t == threat {
                        return Verdict::Active;
                    }
                },
                Effect::Void { threat: t, condition } => {
                    if t == threat && condition.holds(ctx) {
                        return Verdict::Suppressed;
                    }
                },
                _ => {},
            }
            i -= 1;
        }
        match threat {
            ThreatKind::Repeat => Verdict::Active,
            ThreatKind::ItemMiscount(ItemKind::HotDog) => Verdict::Active,
            _ => Verdict::Suppressed,
        }
    }

    /// The extra corruption a correct catch of `threat` refunds right now, on
    /// top of the flat 1 every correct `ShouldReact` catch already earns -- 0
    /// if no heard `Relieve` names `threat`. Same newest-wins scan as
    /// `verdict`.
    pub fn relief_bonus(&self, threat: ThreatKind) -> (res: u32)
        ensures
            res == relief_of(self.heard(), threat),
    {
        proof {
            use_type_invariant(self);
        }
        let mut i = self.heard.len();
        proof {
            assert(self.heard@.subrange(0, i as int) =~= self.heard@);
        }
        while i > 0
            invariant
                i <= self.heard@.len(),
                forall|j: int| 0 <= j < self.heard@.len() ==> #[trigger] self.heard@[j] < CATALOG_LEN,
                relief_of(self.heard@, threat) == relief_of(self.heard@.subrange(0, i as int), threat),
            decreases i,
        {
            let id = self.heard[i - 1];
            let def = super::rumors::catalog(id);
            proof {
                assert(self.heard@.subrange(0, i as int).drop_last() =~= self.heard@.subrange(
                    0,
                    i - 1,
                ));
            }
            if let Effect::Relieve { threat: t, bonus } = def.effect {
                if t == threat {
                    return bonus;
                }
            }
            i -= 1;
        }
        0
    }
}

impl Default for RuleLedger {
    fn default() -> (res: Self)
        ensures
            res.heard() == Seq::<RumorId>::empty(),
    {
        Self::new()
    }
}

/// The newest word wins: after hearing rumor `id`, the verdict on
/// `(pane, threat)` is `Active` if `id` enables it there, `Suppressed` if `id`
/// voids it under a condition that holds today, and otherwise exactly what it
/// was before `id` was heard -- a rumor about something else changes nothing.
pub proof fn law_newest_rumor_wins(
    heard: Seq<RumorId>,
    id: RumorId,
    pane: Pane,
    threat: ThreatKind,
    day: nat,
)
    ensures
        rumor_effect(id as nat) == (Effect::Enable { pane, threat }) ==> verdict_of(
            heard.push(id),
            pane,
            threat,
            day,
        ) == Verdict::Active,
        (exists|c: super::rumors::Condition|
            rumor_effect(id as nat) == (Effect::Void { threat, condition: c }) && condition_holds(
                c,
                day,
            )) ==> verdict_of(heard.push(id), pane, threat, day) == Verdict::Suppressed,
        rumor_ruling(id as nat, pane, threat, day) is None ==> verdict_of(
            heard.push(id),
            pane,
            threat,
            day,
        ) == verdict_of(heard, pane, threat, day),
{
    assert(heard.push(id).drop_last() =~= heard);
}

/// Before anything is heard -- at the start of a run, and again after every
/// midnight's reset -- each threat stands at its baseline: `Repeat` and the
/// hot dog's miscount are reactable, the night delivery and the other items'
/// miscounts are not, whatever the pane or day.
pub proof fn law_nothing_heard_means_baseline(pane: Pane, threat: ThreatKind, day: nat)
    ensures
        verdict_of(Seq::empty(), pane, threat, day) == baseline_verdict(threat),
        verdict_of(Seq::empty(), pane, ThreatKind::Repeat, day) == Verdict::Active,
        verdict_of(Seq::empty(), pane, ThreatKind::ItemMiscount(ItemKind::HotDog), day)
            == Verdict::Active,
        verdict_of(Seq::empty(), pane, ThreatKind::NightDelivery, day) == Verdict::Suppressed,
        relief_of(Seq::empty(), threat) == 0,
{
}

/// The newest charm wins: after hearing rumor `id`, the relief for `threat` is
/// `id`'s bonus if `id` is a `Relieve` naming `threat`, and otherwise what it
/// was before.
pub proof fn law_newest_charm_wins(heard: Seq<RumorId>, id: RumorId, threat: ThreatKind)
    ensures
        (forall|b: u32| rumor_effect(id as nat) != (Effect::Relieve { threat, bonus: b }))
            ==> relief_of(heard.push(id), threat) == relief_of(heard, threat),
        forall|b: u32|
            rumor_effect(id as nat) == (Effect::Relieve { threat, bonus: b }) ==> relief_of(
                heard.push(id),
                threat,
            ) == b,
{
    assert(heard.push(id).drop_last() =~= heard);
}

/// Every item's miscount answers to a rumor that names it. Each item but the
/// hot dog (reactable from the start) has a catalog rumor that, heard on its
/// own, makes its miscount reactable on 焼成室 whatever the day, and whose
/// words name that item; and any catalog rumor that rules on an item's
/// miscount names that very item.
pub proof fn law_item_rumors_name_their_item(item: ItemKind, id: RumorId, day: nat)
    ensures
        item != ItemKind::HotDog ==> exists|r: RumorId|
            r < CATALOG_LEN && mentions(rumor_body(r as nat), item_label(item)) && #[trigger] verdict_of(
                seq![r],
                Pane::Kiln,
                ThreatKind::ItemMiscount(item),
                day,
            ) == Verdict::Active,
        id < CATALOG_LEN && governs_item(rumor_effect(id as nat), item) ==> mentions(
            rumor_body(id as nat),
            item_label(item),
        ),
{
    lemma_item_rumors_name_their_items();
    let r: RumorId = match item {
        ItemKind::Croissant => 7,
        ItemKind::ShioPan => 8,
        ItemKind::MilkLoaf => 9,
        ItemKind::HotDog => 10,
    };
    assert(seq![r].drop_last() =~= Seq::<RumorId>::empty());
    assert(seq![r].last() == r);
    if item != ItemKind::HotDog {
        assert(verdict_of(seq![r], Pane::Kiln, ThreatKind::ItemMiscount(item), day) == Verdict::Active);
    }
}

} // verus!
