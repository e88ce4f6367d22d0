//! Plain components that any entity may carry.

use vstd::prelude::*;

verus! {

/// The health of an object, from 0 (destroyed) to 100 (intact).
#[derive(Debug, Copy, Clone)]
pub struct PropHealth {
    pub health: u8,
}

impl PropHealth {
    pub fn new(starting_health: u8) -> (r: Self)
        ensures
            r.health == starting_health,
    {
        Self { health: starting_health }
    }
}

/// A tile of a map, or nowhere when no map is named.
#[derive(Debug, Clone, PartialEq, Eq, Hash, Copy)]
pub struct Position {
    pub map: Option<u128>,
    pub x: u32,
    pub y: u32,
}

/// Lets an entity hold other entities. The items still belong to the world;
/// the inventory only lists their identifiers, in the order they were added.
#[derive(Debug, PartialEq, Eq, Hash)]
pub struct Inventory {
    pub items: Vec<u128>,
}

impl View for Inventory {
    type V = Seq<u128>;

    open spec fn view(&self) -> Seq<u128> {
        self.items@
    }
}

impl Inventory {
    pub fn new() -> (r: Self)
        ensures
            r@ == Seq::<u128>::empty(),
    {
        Self { items: Vec::new() }
    }
}

impl Clone for Inventory {
    fn clone(&self) -> (r: Self)
        ensures
            r@ == self@,
    {
        Inventory { items: self.items.clone() }
    }
}

} // verus!
