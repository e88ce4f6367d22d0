//! Appendages, the morphology they form, and the builder that grows one.

use vstd::prelude::*;

verus! {

/// Describes the state of an appendage.
#[derive(Clone, Copy, Debug, PartialEq, Eq, Hash)]
pub enum AppendageHealth {
    /// Full health of the appendage with no impairments.
    Full,
    /// Minor injuries which might degrade performance.
    Wounded,
    /// The appendage is severely impaired and non-functional.
    Disabled,
    /// The appendage has been completely removed or lost.
    Amputated,
}

#[derive(Clone, Copy, Debug, PartialEq, Eq, Hash)]
pub enum AppendageEffect {
    /// There is a cut or laceration.
    Abrasion,
    /// Bones are broken.
    Crush,
    /// The appendage is burned.
    Burn,
    /// Requires an antidote to heal.
    Poison,
    /// The appendage is infected.
    Infect,
}

/// The running total of the impacts of each kind of effect on one appendage.
/// A total is never above zero: healing can cancel damage, not outweigh it.
#[derive(Clone, Copy, Debug, PartialEq, Eq, Hash)]
pub struct EffectHistory {
    abrasion: i8,
    crush: i8,
    burn: i8,
    poison: i8,
    infect: i8,
}

impl EffectHistory {
    #[verifier::type_invariant]
    spec fn never_above_zero(self) -> bool {
        &&& self.abrasion <= 0
        &&& self.crush <= 0
        &&& self.burn <= 0
        &&& self.poison <= 0
        &&& self.infect <= 0
    }

    /// The running total recorded for `effect`.
    pub closed spec fn total(self, effect: AppendageEffect) -> int {
        match effect {
            AppendageEffect::Abrasion => self.abrasion as int,
            AppendageEffect::Crush => self.crush as int,
            AppendageEffect::Burn => self.burn as int,
            AppendageEffect::Poison => self.poison as int,
            AppendageEffect::Infect => self.infect as int,
        }
    }

    /// The sum of the running totals of all kinds of effect.
    pub open spec fn sum(self) -> int {
        self.total(AppendageEffect::Abrasion) + self.total(AppendageEffect::Crush) + self.total(
            AppendageEffect::Burn,
        ) + self.total(AppendageEffect::Poison) + self.total(AppendageEffect::Infect)
    }

    /// No running total is above zero.
    pub open spec fn wf(self) -> bool {
        forall|effect: AppendageEffect| self.total(effect) <= 0
    }

    /// A history with every total at zero.
    pub fn new() -> (r: Self)
        ensures
            forall|effect: AppendageEffect| r.total(effect) == 0,
    {
        EffectHistory { abrasion: 0, crush: 0, burn: 0, poison: 0, infect: 0 }
    }

    /// The running total recorded for `effect`.
    pub fn get(&self, effect: AppendageEffect) -> (r: i8)
        ensures
            r == self.total(effect),
            r <= 0,
            self.wf(),
    {
        proof {
            use_type_invariant(self);
        }
        match effect {
            AppendageEffect::Abrasion => self.abrasion,
            AppendageEffect::Crush => self.crush,
            AppendageEffect::Burn => self.burn,
            AppendageEffect::Poison => self.poison,
            AppendageEffect::Infect => self.infect,
        }
    }

    /// Replaces the running total of `effect`, leaving the others alone.
    pub fn set(&mut self, effect: AppendageEffect, value: i8)
        requires
            value <= 0,
        ensures
            final(self).total(effect) == value,
            forall|other: AppendageEffect|
                other != effect ==> final(self).total(other) == old(self).total(other),
    {
        proof {
            use_type_invariant(&*self);
        }
        match effect {
            AppendageEffect::Abrasion => {
                self.abrasion = value;
            },
            AppendageEffect::Crush => {
                self.crush = value;
            },
            AppendageEffect::Burn => {
                self.burn = value;
            },
            AppendageEffect::Poison => {
                self.poison = value;
            },
            AppendageEffect::Infect => {
                self.infect = value;
            },
        }
    }
}

/// The state that an appendage with the given health is in.
pub open spec fn state_for(health: int) -> AppendageHealth {
    if health >= 99 {
        AppendageHealth::Full
    } else if health >= 30 {
        AppendageHealth::Wounded
    } else if health > 15 {
        AppendageHealth::Disabled
    } else {
        AppendageHealth::Amputated
    }
}

/// The running total of an effect after an impact: the sum, held at zero.
pub open spec fn clamped_total(total: int, impact: int) -> int {
    if total + impact > 0 {
        0
    } else {
        total + impact
    }
}

/// An appendage is an external body part of a creature. It tracks its own
/// state and the effects that have impacted it, and names the appendage it
/// is connected to by that appendage's place in the morphology.
#[derive(Debug)]
pub struct Appendage {
    /// The name of the appendage (e.g., "Left Arm", "Right Leg").
    pub(crate) name: String,
    /// The state of the appendage based on health.
    pub(crate) state: AppendageHealth,
    /// The running totals of the effects that have impacted the appendage.
    pub(crate) effect_history: EffectHistory,
    /// The place of the appendage this one hangs from; none for the root.
    pub(crate) connected_to: Option<usize>,
}

impl Clone for Appendage {
    fn clone(&self) -> (r: Self)
        ensures
            r == *self,
    {
        Appendage {
            name: self.name.clone(),
            state: self.state,
            effect_history: self.effect_history,
            connected_to: self.connected_to,
        }
    }
}

impl Appendage {
    pub closed spec fn name(self) -> Seq<char> {
        self.name@
    }

    pub closed spec fn state(self) -> AppendageHealth {
        self.state
    }

    pub closed spec fn history(self) -> EffectHistory {
        self.effect_history
    }

    pub closed spec fn parent(self) -> Option<usize> {
        self.connected_to
    }

    /// The health of the appendage: 100 and the sum of its running totals.
    pub open spec fn health(self) -> int {
        100 + self.history().sum()
    }

    /// The appendage's totals are at most zero and its state is the one
    /// that belongs to its health.
    pub open spec fn wf(self) -> bool {
        &&& self.history().wf()
        &&& self.state() == state_for(self.health())
    }

    /// Whether the running total of `effect` can take `impact` without
    /// leaving the range of the byte it is kept in.
    pub open spec fn can_take(self, effect: AppendageEffect, impact: i8) -> bool {
        self.history().total(effect) + impact >= i8::MIN
    }

    /// What the appendage is after `impact` has been added to the running
    /// total of `effect`: the same name and connection, the total held at
    /// zero, the other totals unchanged, and the state that belongs to the
    /// new health.
    pub open spec fn affected(self, after: Appendage, effect: AppendageEffect, impact: i8) -> bool {
        &&& after.name() == self.name()
        &&& after.parent() == self.parent()
        &&& after.history().total(effect) == clamped_total(
            self.history().total(effect),
            impact as int,
        )
        &&& forall|other: AppendageEffect|
            other != effect ==> after.history().total(other) == self.history().total(other)
        &&& after.state() == state_for(after.health())
    }

    pub fn new(name: &str) -> (r: Self)
        ensures
            r.name() == name@,
            r.parent() is None,
            r.health() == 100,
            r.state() == AppendageHealth::Full,
            forall|effect: AppendageEffect| r.history().total(effect) == 0,
            r.wf(),
    {
        Appendage {
            name: name.to_owned(),
            state: AppendageHealth::Full,
            effect_history: EffectHistory::new(),
            connected_to: None,
        }
    }

    /// A fresh appendage that hangs from the appendage at place `parent`.
    pub(crate) fn new_connected(name: &str, parent: usize) -> (r: Self)
        ensures
            r.name() == name@,
            r.parent() == Some(parent),
            r.health() == 100,
            r.state() == AppendageHealth::Full,
            forall|effect: AppendageEffect| r.history().total(effect) == 0,
            r.wf(),
    {
        Appendage {
            name: name.to_owned(),
            state: AppendageHealth::Full,
            effect_history: EffectHistory::new(),
            connected_to: Some(parent),
        }
    }

    pub fn get_name(&self) -> (r: &String)
        ensures
            r@ == self.name(),
    {
        &self.name
    }

    pub fn get_state(&self) -> (r: AppendageHealth)
        ensures
            r == self.state(),
    {
        self.state
    }

    pub fn get_history(&self) -> (r: EffectHistory)
        ensures
            r == self.history(),
    {
        self.effect_history
    }

    pub fn get_connected_to(&self) -> (r: Option<usize>)
        ensures
            r == self.parent(),
    {
        self.connected_to
    }

    pub fn get_health(&self) -> (r: i32)
        ensures
            r == self.health(),
            r == 100 + self.history().sum(),
            -540 <= r <= 100,
            self.history().wf(),
    {
        proof {
            use_type_invariant(&self.effect_history);
        }
        let h = &self.effect_history;
        100i32 + h.abrasion as i32 + h.crush as i32 + h.burn as i32 + h.poison as i32
            + h.infect as i32
    }

    pub fn calculate_state(&mut self)
        ensures
            final(self).state() == state_for(old(self).health()),
            final(self).name() == old(self).name(),
            final(self).history() == old(self).history(),
            final(self).parent() == old(self).parent(),
    {
        let total_health = self.get_health();
        self.state = if total_health >= 99 {
            AppendageHealth::Full
        } else if total_health >= 30 {
            AppendageHealth::Wounded
        } else if total_health > 15 {
            AppendageHealth::Disabled
        } else {
            AppendageHealth::Amputated
        };
    }

    pub fn apply_effect(&mut self, attack_effect: AppendageEffect, health_impact: i8)
        requires
            old(self).can_take(attack_effect, health_impact),
        ensures
            old(self).affected(*final(self), attack_effect, health_impact),
            final(self).health() == old(self).health() - old(self).history().total(attack_effect)
                + clamped_total(old(self).history().total(attack_effect), health_impact as int),
            final(self).wf(),
    {
        let entry = self.effect_history.get(attack_effect);
        let sum: i16 = entry as i16 + health_impact as i16;
        let clamped: i8 = if sum > 0 {
            0
        } else {
            sum as i8
        };
        self.effect_history.set(attack_effect, clamped);
        self.calculate_state();
        proof {
            lemma_sum_after_change(
                old(self).effect_history,
                self.effect_history,
                attack_effect,
            );
            use_type_invariant(&self.effect_history);
        }
    }
}

/// The running total of an effect after a series of impacts, each added
/// and held at zero in its turn.
pub open spec fn total_after(total: int, impacts: Seq<i8>) -> int
    decreases impacts.len(),
{
    if impacts.len() == 0 {
        total
    } else {
        clamped_total(total_after(total, impacts.drop_last()), impacts.last() as int)
    }
}

/// A running total that is at most zero stays at most zero whatever impacts
/// follow, and healing alone never lowers it: once it has reached zero,
/// further healing leaves it at zero.
pub proof fn lemma_totals_stay_at_most_zero(total: int, impacts: Seq<i8>)
    requires
        total <= 0,
    ensures
        total_after(total, impacts) <= 0,
        (forall|i: int| 0 <= i < impacts.len() ==> impacts[i] >= 0) ==> total <= total_after(
            total,
            impacts,
        ),
        (forall|i: int| 0 <= i < impacts.len() ==> impacts[i] >= 0) && total == 0 ==> total_after(
            total,
            impacts,
        ) == 0,
    decreases impacts.len(),
{
    if impacts.len() > 0 {
        lemma_totals_stay_at_most_zero(total, impacts.drop_last());
        if forall|i: int| 0 <= i < impacts.len() ==> impacts[i] >= 0 {
            assert(impacts.last() >= 0);
            assert forall|i: int| 0 <= i < impacts.drop_last().len() implies impacts.drop_last()[i]
                >= 0 by {
                assert(impacts.drop_last()[i] == impacts[i]);
            }
        }
    }
}

/// An effect leaves a sound appendage sound: no running total is above
/// zero afterwards, the health is 100 and the sum of the totals, and the
/// health has changed by what the total of the one effect has changed by.
pub proof fn lemma_effect_keeps_appendage_sound(
    before: Appendage,
    after: Appendage,
    effect: AppendageEffect,
    impact: i8,
)
    requires
        before.history().wf(),
        before.affected(after, effect, impact),
    ensures
        after.wf(),
        after.history().total(effect) <= 0,
        after.health() == 100 + after.history().sum(),
        after.health() <= 100,
        after.health() == before.health() - before.history().total(effect)
            + after.history().total(effect),
{
    lemma_sum_after_change(before.history(), after.history(), effect);
    assert forall|e: AppendageEffect| after.history().total(e) <= 0 by {
        if e != effect {
            assert(after.history().total(e) == before.history().total(e));
        }
    }
    assert(after.history().total(AppendageEffect::Abrasion) <= 0);
    assert(after.history().total(AppendageEffect::Crush) <= 0);
    assert(after.history().total(AppendageEffect::Burn) <= 0);
    assert(after.history().total(AppendageEffect::Poison) <= 0);
    assert(after.history().total(AppendageEffect::Infect) <= 0);
}

/// When two histories differ in the total of one effect only, their sums
/// differ by the same amount.
pub proof fn lemma_sum_after_change(
    before: EffectHistory,
    after: EffectHistory,
    effect: AppendageEffect,
)
    requires
        forall|other: AppendageEffect| other != effect ==> after.total(other) == before.total(other),
    ensures
        after.sum() == before.sum() - before.total(effect) + after.total(effect),
{
    assert(effect != AppendageEffect::Abrasion ==> after.total(AppendageEffect::Abrasion)
        == before.total(AppendageEffect::Abrasion));
    assert(effect != AppendageEffect::Crush ==> after.total(AppendageEffect::Crush)
        == before.total(AppendageEffect::Crush));
    assert(effect != AppendageEffect::Burn ==> after.total(AppendageEffect::Burn) == before.total(
        AppendageEffect::Burn,
    ));
    assert(effect != AppendageEffect::Poison ==> after.total(AppendageEffect::Poison)
        == before.total(AppendageEffect::Poison));
    assert(effect != AppendageEffect::Infect ==> after.total(AppendageEffect::Infect)
        == before.total(AppendageEffect::Infect));
}

/// The body of a creature: its appendages in the order they were added, the
/// root first. Each appendage but the root is connected to one that was added
/// before it.
#[derive(Debug)]
pub struct Morphology {
    pub(crate) appendages: Vec<Appendage>,
}

impl View for Morphology {
    type V = Seq<Appendage>;

    closed spec fn view(&self) -> Seq<Appendage> {
        self.appendages@
    }
}

/// Whether an appendage above place `i`, on the way to the root, bears `name`.
pub open spec fn shadowed(parts: Seq<Appendage>, i: int, name: Seq<char>) -> bool
    decreases i,
{
    if 0 < i < parts.len() {
        match parts[i].parent() {
            Some(p) => p < i && (parts[p as int].name() == name || shadowed(parts, p as int, name)),
            None => false,
        }
    } else {
        false
    }
}

/// Whether the appendage at place `i` receives a child that is added under
/// `name`: it bears the name, and no appendage above it does.
pub open spec fn receives(parts: Seq<Appendage>, i: int, name: Seq<char>) -> bool {
    &&& 0 <= i < parts.len()
    &&& parts[i].name() == name
    &&& !shadowed(parts, i, name)
}

/// Whether `node` is an appendage called `name` that hangs from `parent` and
/// that no effect has touched.
pub open spec fn untouched(node: Appendage, name: Seq<char>, parent: Option<usize>) -> bool {
    &&& node.name() == name
    &&& node.parent() == parent
    &&& node.state() == AppendageHealth::Full
    &&& forall|effect: AppendageEffect| node.history().total(effect) == 0
}

/// Whether `node` is a fresh appendage called `name` under place `parent`.
pub open spec fn is_fresh_child(node: Appendage, name: Seq<char>, parent: int) -> bool {
    untouched(node, name, Some(parent as usize))
}

/// Whether `parts` are untouched appendages with the given names, each
/// hanging from the place given for it.
pub open spec fn has_shape(
    parts: Seq<Appendage>,
    names: Seq<Seq<char>>,
    parents: Seq<Option<usize>>,
) -> bool {
    &&& parts.len() == names.len()
    &&& parts.len() == parents.len()
    &&& forall|i: int| 0 <= i < parts.len() ==> untouched(#[trigger] parts[i], names[i], parents[i])
}

/// No appendage is shadowed for a name that no appendage before it bears.
pub proof fn lemma_not_shadowed(parts: Seq<Appendage>, i: int, name: Seq<char>)
    requires
        forall|j: int| 0 <= j < i && j < parts.len() ==> (#[trigger] parts[j]).name() != name,
    ensures
        !shadowed(parts, i, name),
    decreases i,
{
    if 0 < i < parts.len() {
        match parts[i].parent() {
            Some(p) => {
                if p < i {
                    assert(parts[p as int].name() != name);
                    lemma_not_shadowed(parts, p as int, name);
                }
            },
            None => {},
        }
    }
}

/// Where one appendage alone bears a name, it alone receives the children
/// that are added under that name.
pub proof fn lemma_single_receiver(parts: Seq<Appendage>, upto: int, name: Seq<char>, p: int)
    requires
        0 <= p < parts.len(),
        0 <= upto <= parts.len(),
        parts[p].name() == name,
        forall|j: int| 0 <= j < parts.len() && j != p ==> (#[trigger] parts[j]).name() != name,
    ensures
        receivers(parts, upto, name) == if upto > p {
            seq![p]
        } else {
            Seq::<int>::empty()
        },
    decreases upto,
{
    if upto > 0 {
        lemma_single_receiver(parts, upto - 1, name, p);
        if upto - 1 == p {
            lemma_not_shadowed(parts, p, name);
            assert(Seq::<int>::empty().push(p) =~= seq![p]);
        } else {
            assert(parts[upto - 1].name() != name);
        }
    }
}

/// Adding a child under a name that one appendage alone bears adds one
/// untouched appendage under that appendage.
pub proof fn lemma_graft_shape(
    before: Seq<Appendage>,
    after: Seq<Appendage>,
    parent: Seq<char>,
    child: Seq<char>,
    names: Seq<Seq<char>>,
    parents: Seq<Option<usize>>,
    p: int,
)
    requires
        has_shape(before, names, parents),
        grafted(before, after, parent, child),
        0 <= p < names.len(),
        names[p] == parent,
        forall|j: int| 0 <= j < names.len() && j != p ==> names[j] != parent,
    ensures
        has_shape(after, names.push(child), parents.push(Some(p as usize))),
{
    assert(before[p].name() == parent);
    assert forall|j: int| 0 <= j < before.len() && j != p implies (#[trigger] before[j]).name()
        != parent by {
        assert(untouched(before[j], names[j], parents[j]));
    }
    lemma_single_receiver(before, before.len() as int, parent, p);
    let targets = receivers(before, before.len() as int, parent);
    assert(targets == seq![p]);
    assert(is_fresh_child(after[before.len() as int + 0], child, targets[0]));
    assert forall|i: int| 0 <= i < after.len() implies untouched(
        #[trigger] after[i],
        names.push(child)[i],
        parents.push(Some(p as usize))[i],
    ) by {
        if i < before.len() {
            assert(after[i] == before[i]);
            assert(untouched(before[i], names[i], parents[i]));
        }
    }
}

/// The places among the first `upto` of `parts` that receive a child added
/// under `name`, in rising order.
pub open spec fn receivers(parts: Seq<Appendage>, upto: int, name: Seq<char>) -> Seq<int>
    decreases upto,
{
    if upto <= 0 {
        Seq::<int>::empty()
    } else if receives(parts, upto - 1, name) {
        receivers(parts, upto - 1, name).push(upto - 1)
    } else {
        receivers(parts, upto - 1, name)
    }
}

/// One more appendage of a planned body: when the first `k` of the planned
/// appendages are in place, no two planned names are alike, and the next
/// appendage is added under the name of its planned parent, the first
/// `k + 1` are in place.
pub proof fn lemma_shape_grows(
    before: Seq<Appendage>,
    after: Seq<Appendage>,
    names: Seq<Seq<char>>,
    parents: Seq<Option<usize>>,
    k: int,
    p: int,
)
    requires
        names.len() == parents.len(),
        1 <= k < names.len(),
        0 <= p < k,
        parents[k] == Some(p as usize),
        forall|i: int, j: int|
            0 <= i < j < names.len() ==> #[trigger] names[i] != #[trigger] names[j],
        has_shape(before, names.take(k), parents.take(k)),
        grafted(before, after, names[p], names[k]),
    ensures
        has_shape(after, names.take(k + 1), parents.take(k + 1)),
{
    let placed = names.take(k);
    assert forall|j: int| 0 <= j < placed.len() && j != p implies placed[j] != names[p] by {
        assert(placed[j] == names[j]);
        if j < p {
            assert(names[j] != names[p]);
        } else {
            assert(names[p] != names[j]);
        }
    }
    lemma_graft_shape(before, after, names[p], names[k], placed, parents.take(k), p);
    assert(placed.push(names[k]) =~= names.take(k + 1));
    assert(parents.take(k).push(Some(p as usize)) =~= parents.take(k + 1));
}

/// Whether `after` is `before` with a fresh child called `child` added under
/// every appendage that receives one for `parent`: the old appendages stay
/// as they are, and the new ones follow them, one for each receiver.
pub open spec fn grafted(
    before: Seq<Appendage>,
    after: Seq<Appendage>,
    parent: Seq<char>,
    child: Seq<char>,
) -> bool {
    let targets = receivers(before, before.len() as int, parent);
    &&& after.len() == before.len() + targets.len()
    &&& forall|i: int| 0 <= i < before.len() ==> after[i] == before[i]
    &&& forall|k: int|
        0 <= k < targets.len() ==> is_fresh_child(
            #[trigger] after[before.len() + k],
            child,
            targets[k],
        )
}

/// The sum of the healths of the first `upto` appendages of `parts`.
pub open spec fn health_sum(parts: Seq<Appendage>, upto: int) -> int
    decreases upto,
{
    if upto <= 0 {
        0
    } else {
        health_sum(parts, upto - 1) + parts[upto - 1].health()
    }
}

impl Morphology {
    /// The morphology has a root, the root hangs from nothing, every other
    /// appendage hangs from an earlier one, and every appendage is sound.
    pub open spec fn wf(self) -> bool {
        &&& self@.len() >= 1
        &&& self@[0].parent() is None
        &&& forall|i: int|
            0 < i < self@.len() ==> match (#[trigger] self@[i]).parent() {
                Some(p) => p < i,
                None => false,
            }
        &&& forall|i: int| 0 <= i < self@.len() ==> (#[trigger] self@[i]).wf()
    }

    /// The sum of the healths of all appendages.
    pub open spec fn total_health(self) -> int {
        health_sum(self@, self@.len() as int)
    }

    /// Whether every appendage called `target` can take `impact` on `effect`.
    pub open spec fn can_take(self, target: Seq<char>, effect: AppendageEffect, impact: i8) -> bool {
        forall|i: int|
            0 <= i < self@.len() && (#[trigger] self@[i]).name() == target ==> self@[i].can_take(
                effect,
                impact,
            )
    }

    /// Whether `after` is this morphology once `impact` has been applied on
    /// `effect` to every appendage called `target`, and to no other.
    pub open spec fn acted_on(
        self,
        after: Seq<Appendage>,
        target: Seq<char>,
        effect: AppendageEffect,
        impact: i8,
    ) -> bool {
        &&& after.len() == self@.len()
        &&& forall|i: int|
            0 <= i < self@.len() ==> if self@[i].name() == target {
                self@[i].affected(#[trigger] after[i], effect, impact)
            } else {
                after[i] == self@[i]
            }
    }

    /// A morphology that is a single root appendage.
    pub fn new(root_name: &str) -> (r: Self)
        ensures
            has_shape(r@, seq![root_name@], seq![None]),
            r.wf(),
    {
        let mut appendages: Vec<Appendage> = Vec::new();
        appendages.push(Appendage::new(root_name));
        Morphology { appendages }
    }

    /// The number of appendages.
    pub fn len(&self) -> (n: usize)
        ensures
            n == self@.len(),
    {
        self.appendages.len()
    }

    /// The appendage at place `index`, if there is one.
    pub fn get(&self, index: usize) -> (r: Option<&Appendage>)
        ensures
            match r {
                Some(a) => index < self@.len() && *a == self@[index as int],
                None => index >= self@.len(),
            },
    {
        if index < self.appendages.len() {
            Some(&self.appendages[index])
        } else {
            None
        }
    }

    /// Whether every appendage called `target` can take `impact` on
    /// `effect` without its running total leaving the range of a byte.
    pub fn accepts(&self, target: &str, effect: AppendageEffect, impact: i8) -> (r: bool)
        ensures
            r == self.can_take(target@, effect, impact),
    {
        let wanted = target.to_owned();
        let mut i: usize = 0;
        while i < self.appendages.len()
            invariant
                i <= self.appendages@.len(),
                wanted@ == target@,
                forall|j: int|
                    0 <= j < i && (#[trigger] self@[j]).name() == target@ ==> self@[j].can_take(
                        effect,
                        impact,
                    ),
            decreases self.appendages@.len() - i,
        {
            let part = &self.appendages[i];
            if part.name == wanted {
                let total = part.effect_history.get(effect);
                if (total as i16) + (impact as i16) < -128 {
                    assert(!self@[i as int].can_take(effect, impact));
                    return false;
                }
            }
            i += 1;
        }
        true
    }

    /// Applies `impact` on `effect` to every appendage called `target`.
    pub fn apply_action(&mut self, target: &str, effect: AppendageEffect, impact: i8)
        requires
            old(self).can_take(target@, effect, impact),
        ensures
            old(self).acted_on(final(self)@, target@, effect, impact),
            old(self).wf() ==> final(self).wf(),
    {
        let wanted = target.to_owned();
        let n = self.appendages.len();
        let mut i: usize = 0;
        while i < n
            invariant
                i <= n,
                n == old(self)@.len(),
                self@.len() == n,
                wanted@ == target@,
                old(self).can_take(target@, effect, impact),
                forall|j: int|
                    0 <= j < i ==> if old(self)@[j].name() == target@ {
                        old(self)@[j].affected(#[trigger] self@[j], effect, impact)
                    } else {
                        self@[j] == old(self)@[j]
                    },
                forall|j: int| i <= j < n ==> #[trigger] self@[j] == old(self)@[j],
            decreases n - i,
        {
            if self.appendages[i].name == wanted {
                assert(old(self)@[i as int].can_take(effect, impact));
                self.appendages[i].apply_effect(effect, impact);
            }
            i += 1;
        }
        proof {
            if old(self).wf() {
                assert forall|j: int| 0 <= j < self@.len() implies (#[trigger] self@[j]).wf() by {
                    assert(old(self)@[j].wf());
                    if old(self)@[j].name() == target@ {
                        assert(old(self)@[j].affected(self@[j], effect, impact));
                        assert forall|e: AppendageEffect| self@[j].history().total(e) <= 0 by {
                            if e != effect {
                                assert(self@[j].history().total(e) == old(self)@[j].history().total(e));
                            }
                        }
                    }
                }
                assert forall|j: int| 0 < j < self@.len() implies match (#[trigger] self@[j]).parent() {
                    Some(p) => p < j,
                    None => false,
                } by {
                    assert(old(self)@[j].parent() == self@[j].parent());
                }
            }
        }
    }
}

impl Clone for Morphology {
    fn clone(&self) -> (r: Self)
        ensures
            r@ == self@,
    {
        let mut appendages: Vec<Appendage> = Vec::new();
        let mut i: usize = 0;
        while i < self.appendages.len()
            invariant
                i <= self.appendages@.len(),
                appendages@ == self.appendages@.subrange(0, i as int),
            decreases self.appendages@.len() - i,
        {
            appendages.push(self.appendages[i].clone());
            assert(appendages@ =~= self.appendages@.subrange(0, i + 1));
            i += 1;
        }
        assert(appendages@ =~= self.appendages@);
        Morphology { appendages }
    }
}

/// Builder for creating a morphology.
#[derive(Debug)]
pub struct MorphologyBuilder {
    pub(crate) root: Morphology,
}

impl Clone for MorphologyBuilder {
    fn clone(&self) -> (r: Self)
        ensures
            r.so_far() == self.so_far(),
    {
        MorphologyBuilder { root: self.root.clone() }
    }
}

impl MorphologyBuilder {
    /// The morphology built so far.
    pub closed spec fn so_far(self) -> Seq<Appendage> {
        self.root@
    }

    pub closed spec fn wf(self) -> bool {
        self.root.wf()
    }

    pub fn new(root_name: &str) -> (r: Self)
        ensures
            has_shape(r.so_far(), seq![root_name@], seq![None]),
            r.wf(),
    {
        MorphologyBuilder { root: Morphology::new(root_name) }
    }

    /// Adds an appendage called `child_name` under every appendage called
    /// `parent_name` that has no appendage of that name above it.
    pub fn add_appendage(&mut self, parent_name: &str, child_name: &str)
        ensures
            grafted(old(self).so_far(), final(self).so_far(), parent_name@, child_name@),
            old(self).wf() ==> final(self).wf(),
    {
        Self::add_to_tree(&mut self.root, parent_name, child_name);
    }

    pub fn add_to_tree(current: &mut Morphology, parent_name: &str, child_name: &str)
        ensures
            grafted(old(current)@, final(current)@, parent_name@, child_name@),
            old(current).wf() ==> final(current).wf(),
    {
        let wanted = parent_name.to_owned();
        let n = current.appendages.len();
        let mut closed_off: Vec<bool> = Vec::new();
        let ghost before = current@;
        let mut i: usize = 0;
        while i < n
            invariant
                i <= n,
                n == before.len(),
                before == old(current)@,
                wanted@ == parent_name@,
                closed_off@.len() == i,
                forall|j: int|
                    0 <= j < i ==> #[trigger] closed_off@[j] == (before[j].name() == parent_name@
                        || shadowed(before, j, parent_name@)),
                current@.len() == n + receivers(before, i as int, parent_name@).len(),
                forall|j: int| 0 <= j < n ==> #[trigger] current@[j] == before[j],
                forall|k: int|
                    0 <= k < receivers(before, i as int, parent_name@).len() ==> is_fresh_child(
                        #[trigger] current@[n + k],
                        child_name@,
                        receivers(before, i as int, parent_name@)[k],
                    ),
                forall|k: int|
                    0 <= k < receivers(before, i as int, parent_name@).len() ==> 0 <= (
                    #[trigger] receivers(before, i as int, parent_name@)[k]) < i,
            decreases n - i,
        {
            let above: bool = if i == 0 {
                false
            } else {
                match current.appendages[i].connected_to {
                    Some(p) => p < i && closed_off[p],
                    None => false,
                }
            };
            assert(above == shadowed(before, i as int, parent_name@));
            let named = current.appendages[i].name == wanted;
            if named && !above {
                let ghost earlier = receivers(before, i as int, parent_name@);
                current.appendages.push(Appendage::new_connected(child_name, i));
                assert(receivers(before, i + 1, parent_name@) == earlier.push(i as int));
            } else {
                assert(receivers(before, i + 1, parent_name@) == receivers(
                    before,
                    i as int,
                    parent_name@,
                ));
            }
            closed_off.push(named || above);
            i += 1;
        }
        proof {
            if old(current).wf() {
                let targets = receivers(before, n as int, parent_name@);
                assert forall|j: int| 0 <= j < current@.len() implies (#[trigger] current@[j]).wf() by {
                    if j < n {
                        assert(before[j].wf());
                    } else {
                        assert(is_fresh_child(current@[n + (j - n)], child_name@, targets[j - n]));
                    }
                }
                assert forall|j: int| 0 < j < current@.len() implies match (
                #[trigger] current@[j]).parent() {
                    Some(p) => p < j,
                    None => false,
                } by {
                    if j < n {
                        assert(current@[j] == before[j]);
                    } else {
                        assert(is_fresh_child(current@[n + (j - n)], child_name@, targets[j - n]));
                        assert(0 <= targets[j - n] < n);
                    }
                }
            }
        }
    }

    pub fn build(&self) -> (r: Morphology)
        ensures
            r@ == self.so_far(),
            self.wf() ==> r.wf(),
    {
        self.root.clone()
    }
}

} // verus!
