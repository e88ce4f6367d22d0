//! What the world does with creatures: finding them by name and applying
//! the actions that are taken on them.

use crate::creatures::components::CreatureActions;
use crate::creatures::creature_builder::Morphology;
use crate::creatures::Creature;
use crate::ecs::entity::Entity;
use crate::ecs::world::{lookup, World, WorldView};
use crate::errors::{failed_with, runtime_error, SimutronResult, Violation};
use vstd::prelude::*;

verus! {

/// Whether the creature that `action` is meant for, if there is one, can
/// take the impact on every appendage that bears the target's name.
pub open spec fn creature_can_take(world: WorldView, action: CreatureActions) -> bool {
    world.creatures.contains_key(action.to.0) ==> world.creatures[action.to.0].corpus.can_take(
        action.target@,
        action.effect,
        action.impact,
    )
}

/// Whether `after` and `r` are what `action` makes of `before`: where the
/// action is meant for a creature, that creature alone has changed, by the
/// effect on every appendage that bears the target's name, and `r` is a
/// copy of it; where it is not, nothing has changed and `r` says so.
pub open spec fn creature_acted_on(
    before: WorldView,
    after: WorldView,
    action: CreatureActions,
    r: SimutronResult<Creature>,
) -> bool {
    let id = action.to.0;
    if before.creatures.contains_key(id) {
        &&& after.creatures.contains_key(id)
        &&& after == (WorldView {
            creatures: before.creatures.insert(id, after.creatures[id]),
            ..before
        })
        &&& after.creatures[id].name == before.creatures[id].name
        &&& before.creatures[id].corpus.acted_on(
            after.creatures[id].corpus@,
            action.target@,
            action.effect,
            action.impact,
        )
        &&& before.creatures[id].corpus.wf() ==> after.creatures[id].corpus.wf()
        &&& r is Ok
        &&& r->Ok_0.name == before.creatures[id].name
        &&& r->Ok_0.corpus@ == after.creatures[id].corpus@
    } else {
        failed_with(r, Violation::NotACreature) && after == before
    }
}

impl World {
    /// The creature that was created last under `name`, with its entity,
    /// if the entity still carries a creature.
    pub fn get_creature_by_name(&self, name: &str) -> (r: Option<(Entity, &Creature)>)
        ensures
            match lookup(self@.names, name@) {
                Some(id) => if self@.creatures.contains_key(id) {
                    match r {
                        Some((entity, creature)) => entity == Entity(id) && *creature
                            == self@.creatures[id],
                        None => false,
                    }
                } else {
                    r is None
                },
                None => r is None,
            },
    {
        match self.get_creature_id(name) {
            Some(uuid) => {
                let entity = Entity(uuid);
                match self.get_component::<Creature>(entity) {
                    Some(creature) => Some((entity, creature)),
                    None => None,
                }
            },
            None => None,
        }
    }

    /// Applies the effect of `action` to every appendage of `appendage`
    /// that bears the name of the action's target.
    pub fn get_appendage_ref_by_name(appendage: &mut Morphology, action: &CreatureActions)
        requires
            old(appendage).can_take(action.target@, action.effect, action.impact),
        ensures
            old(appendage).acted_on(
                final(appendage)@,
                action.target@,
                action.effect,
                action.impact,
            ),
            old(appendage).wf() ==> final(appendage).wf(),
    {
        appendage.apply_action(action.target.as_str(), action.effect, action.impact);
    }

    /// Applies `action` to the creature it is meant for and returns a copy
    /// of the creature as it is afterwards.
    pub fn apply_creature_action(&mut self, action: &CreatureActions) -> (r: SimutronResult<
        Creature,
    >)
        requires
            creature_can_take(old(self)@, *action),
        ensures
            creature_acted_on(old(self)@, final(self)@, *action, r),
    {
        match self.get_component_mut::<Creature>(action.to) {
            Some(creature) => {
                Self::get_appendage_ref_by_name(&mut creature.corpus, action);
                Ok(creature.clone())
            },
            None => runtime_error(Violation::NotACreature),
        }
    }

    /// Applies `action` as `apply_creature_action` does, unless a running
    /// total of the creature cannot take the impact: then nothing changes
    /// and nothing is returned.
    pub fn checked_creature_action(&mut self, action: &CreatureActions) -> (r: Option<
        SimutronResult<Creature>,
    >)
        ensures
            match r {
                Some(outcome) => creature_can_take(old(self)@, *action) && creature_acted_on(
                    old(self)@,
                    final(self)@,
                    *action,
                    outcome,
                ),
                None => !creature_can_take(old(self)@, *action) && final(self)@ == old(self)@,
            },
    {
        let takes = match self.get_component::<Creature>(action.to) {
            Some(creature) => creature.corpus.accepts(
                action.target.as_str(),
                action.effect,
                action.impact,
            ),
            None => true,
        };
        if takes {
            Some(self.apply_creature_action(action))
        } else {
            None
        }
    }
}

} // verus!
