//! Components and actions that belong to creatures.

use crate::creatures::creature_builder::AppendageEffect;
use crate::ecs::entity::Entity;
use vstd::prelude::*;

verus! {

/// The stats that define a creature's capabilities.
#[derive(Clone, Copy, Debug)]
pub struct CreatureSheet {
    pub speed: u32,
    pub strength: u8,
    pub intelligence: u8,
    pub dexterity: u8,
    pub constitution: u8,
    pub wisdom: u8,
    pub charisma: u8,
}

/// Represents an action taken by a creature on another creature.
#[derive(Debug)]
pub struct CreatureActions {
    /// Who generated the action.
    pub from: Entity,
    /// To whom the action is meant for.
    pub to: Entity,
    /// Which appendage is the target of the action.
    pub target: String,
    /// What effect the action has on the target appendage.
    pub effect: AppendageEffect,
    /// The health impact of the action on the target appendage. Positive
    /// values heal, negative values damage.
    pub impact: i8,
}

impl Clone for CreatureActions {
    fn clone(&self) -> (r: Self)
        ensures
            r == *self,
    {
        CreatureActions {
            from: self.from,
            to: self.to,
            target: self.target.clone(),
            effect: self.effect,
            impact: self.impact,
        }
    }
}

} // verus!
