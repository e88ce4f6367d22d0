//! Component kinds and the table that holds the components of one kind.

use crate::ecs::world::{World, WorldView};
use std::collections::HashMap;
use vstd::prelude::*;

verus! {

/// The kinds of component that the world keeps a table for.
#[derive(Clone, Copy, Debug, PartialEq, Eq, Hash)]
pub enum ComponentKind {
    Creature,
    CreatureSheet,
    Position,
    Prop,
    PropHealth,
    Inventory,
}

/// A component is a value of a kind that the world keeps a table for. An
/// entity carries at most one component of each kind.
pub trait Component: Sized {
    /// The kind of this component.
    spec fn kind() -> ComponentKind;

    /// The table of this kind in `world`.
    spec fn table(world: WorldView) -> Map<u128, Self>;

    /// `world` with `table` in place of the table of this kind.
    spec fn with_table(world: WorldView, table: Map<u128, Self>) -> WorldView;

    /// Replacing the table of this kind changes that table and nothing
    /// else, and putting back what was there changes nothing.
    proof fn lemma_table(world: WorldView, table: Map<u128, Self>)
        ensures
            Self::table(Self::with_table(world, table)) == table,
            world.same_but(Self::with_table(world, table), Self::kind()),
            Self::with_table(world, Self::table(world)) == world,
            forall|other: Map<u128, Self>| #[trigger]
                Self::with_table(Self::with_table(world, table), other) == Self::with_table(
                    world,
                    other,
                ),
    ;

    /// Puts `component` on the entity, replacing what it carried of this
    /// kind.
    fn store(world: &mut World, entity_id: u128, component: Self)
        ensures
            final(world)@ == Self::with_table(
                old(world)@,
                Self::table(old(world)@).insert(entity_id, component),
            ),
    ;

    /// The component of this kind that the entity carries, if any.
    fn fetch(world: &World, entity_id: u128) -> (r: Option<&Self>)
        ensures
            match r {
                Some(component) => Self::table(world@).contains_key(entity_id) && *component
                    == Self::table(world@)[entity_id],
                None => !Self::table(world@).contains_key(entity_id),
            },
    ;

    /// The component of this kind that the entity carries, if any, to be
    /// changed in place.
    fn fetch_mut(world: &mut World, entity_id: u128) -> (r: Option<&mut Self>)
        ensures
            r.is_some() == Self::table(old(world)@).contains_key(entity_id),
            r.is_some() ==> *r.unwrap() == Self::table(old(world)@)[entity_id] && final(world)@
                == Self::with_table(
                old(world)@,
                Self::table(old(world)@).insert(entity_id, *final(r.unwrap())),
            ),
            r.is_none() ==> final(world)@ == old(world)@,
    ;

    /// Takes the component of this kind off the entity, if it carries one.
    fn discard(world: &mut World, entity_id: u128)
        ensures
            final(world)@ == Self::with_table(
                old(world)@,
                Self::table(old(world)@).remove(entity_id),
            ),
    ;
}

/// Looks `key` up with the standard library's `HashMap::get_mut`. The
/// contract claims what its documentation says: the result is a mutable
/// reference to the value that the table holds for the key, if it holds
/// one; the table afterwards differs from the table before in that value
/// alone, which is what the reference was last made to hold.
#[verifier::external_body]
pub(crate) fn table_get_mut<T>(table: &mut HashMap<u128, T>, key: u128) -> (r: Option<&mut T>)
    ensures
        r.is_some() == old(table)@.contains_key(key),
        r.is_some() ==> *r.unwrap() == old(table)@[key] && final(table)@ == old(table)@.insert(
            key,
            *final(r.unwrap()),
        ),
        r.is_none() ==> final(table)@ == old(table)@,
{
    table.get_mut(&key)
}

/// Storage for the components of one kind, by the identifier of the entity
/// that carries each.
pub struct ComponentVec<T> {
    pub(crate) data: HashMap<u128, T>,
}

impl<T> View for ComponentVec<T> {
    type V = Map<u128, T>;

    closed spec fn view(&self) -> Map<u128, T> {
        self.data@
    }
}

impl<T> ComponentVec<T> {
    pub fn new() -> (r: Self)
        ensures
            r@ == Map::<u128, T>::empty(),
    {
        Self { data: HashMap::new() }
    }

    pub fn insert(&mut self, entity_id: u128, component: T)
        ensures
            final(self)@ == old(self)@.insert(entity_id, component),
    {
        self.data.insert(entity_id, component);
    }

    pub fn get(&self, entity_id: u128) -> (r: Option<&T>)
        ensures
            match r {
                Some(component) => self@.contains_key(entity_id) && *component == self@[entity_id],
                None => !self@.contains_key(entity_id),
            },
    {
        self.data.get(&entity_id)
    }

    pub fn get_mut(&mut self, entity_id: u128) -> (r: Option<&mut T>)
        ensures
            r.is_some() == old(self)@.contains_key(entity_id),
            r.is_some() ==> *r.unwrap() == old(self)@[entity_id] && final(self)@
                == old(self)@.insert(entity_id, *final(r.unwrap())),
            r.is_none() ==> final(self)@ == old(self)@,
    {
        table_get_mut(&mut self.data, entity_id)
    }

    pub fn remove(&mut self, entity_id: u128)
        ensures
            final(self)@ == old(self)@.remove(entity_id),
    {
        self.data.remove(&entity_id);
    }
}

} // verus!
