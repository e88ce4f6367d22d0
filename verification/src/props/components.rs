//! The prop component and the actions that can be taken on props.

use crate::ecs::components::{Inventory, Position, PropHealth};
use crate::ecs::entity::Entity;
use vstd::prelude::*;

verus! {

#[derive(Clone, Copy, Debug, PartialEq, Eq)]
pub enum PropEffect {
    Fix,
    Damage,
    Inspect,
}

#[derive(Clone, Copy, Debug)]
pub struct PropAction {
    pub from: Entity,
    pub to: Entity,
    pub effect: PropEffect,
    pub impact: i32,
}

/// An object of the world. The three optional fields are filled by an
/// inspection with what the object's entity carried at that moment.
#[derive(Debug)]
pub struct Prop {
    pub name: String,
    pub description: String,
    pub health: Option<PropHealth>,
    pub inventory: Option<Inventory>,
    pub position: Option<Position>,
}

/// A prop as plain values.
pub struct PropView {
    pub name: Seq<char>,
    pub description: Seq<char>,
    pub health: Option<PropHealth>,
    pub inventory: Option<Seq<u128>>,
    pub position: Option<Position>,
}

impl View for Prop {
    type V = PropView;

    open spec fn view(&self) -> PropView {
        PropView {
            name: self.name@,
            description: self.description@,
            health: self.health,
            inventory: match self.inventory {
                Some(i) => Some(i@),
                None => None,
            },
            position: self.position,
        }
    }
}

impl Clone for Prop {
    fn clone(&self) -> (r: Self)
        ensures
            r@ == self@,
    {
        Prop {
            name: self.name.clone(),
            description: self.description.clone(),
            health: self.health,
            inventory: match &self.inventory {
                Some(i) => Some(i.clone()),
                None => None,
            },
            position: self.position,
        }
    }
}

impl Prop {
    pub fn new(name: &str, description: &str) -> (r: Self)
        ensures
            r@ == (PropView {
                name: name@,
                description: description@,
                health: None,
                inventory: None,
                position: None,
            }),
    {
        Prop {
            name: name.to_owned(),
            description: description.to_owned(),
            health: None,
            inventory: None,
            position: None,
        }
    }
}

} // verus!
