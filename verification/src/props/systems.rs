//! What the world does with props: fixing, damaging and inspecting them,
//! and moving items in and out of inventories.

use crate::ecs::components::{Inventory, Position, PropHealth};
use crate::ecs::entity::Entity;
use crate::ecs::world::{lookup, World, WorldView};
use crate::errors::{failed_with, runtime_error, SimutronResult, Violation};
use crate::props::components::{Prop, PropAction, PropEffect, PropView};
use vstd::prelude::*;

verus! {

/// The health of a prop after a fix: the sum of health and impact, held
/// at 100 and at what a byte can hold.
pub open spec fn fixed_health(health: u8, impact: i32) -> int {
    if health + impact > 100 {
        100
    } else if health + impact < 0 {
        0
    } else {
        health + impact
    }
}

/// The health of a prop after damage: health less the impact, held at 0
/// and at what a byte can hold.
pub open spec fn damaged_health(health: u8, impact: i32) -> int {
    if health - impact < 0 {
        0
    } else if health - impact > 255 {
        255
    } else {
        health - impact
    }
}

/// The health after a series of fixes, one for each impact in its turn.
pub open spec fn health_after_fixes(health: u8, impacts: Seq<i32>) -> int
    decreases impacts.len(),
{
    if impacts.len() == 0 {
        health as int
    } else {
        fixed_health(health_after_fixes(health, impacts.drop_last()) as u8, impacts.last())
    }
}

/// The health after a series of damages, one for each impact in its turn.
pub open spec fn health_after_damages(health: u8, impacts: Seq<i32>) -> int
    decreases impacts.len(),
{
    if impacts.len() == 0 {
        health as int
    } else {
        damaged_health(health_after_damages(health, impacts.drop_last()) as u8, impacts.last())
    }
}

/// No fix raises health above 100 and no damage lowers it below 0,
/// whatever the impact.
pub proof fn lemma_health_stays_in_range(health: u8, impact: i32)
    ensures
        0 <= fixed_health(health, impact) <= 100,
        0 <= damaged_health(health, impact) <= 255,
        impact >= 0 ==> damaged_health(health, impact) <= health,
        impact >= 0 && health <= 100 ==> health <= fixed_health(health, impact),
{
}

/// No series of fixes raises health above 100 and no series of damages
/// lowers it below 0.
pub proof fn lemma_health_stays_in_range_throughout(health: u8, impacts: Seq<i32>)
    ensures
        impacts.len() > 0 ==> health_after_fixes(health, impacts) <= 100,
        0 <= health_after_fixes(health, impacts) <= 255,
        0 <= health_after_damages(health, impacts) <= 255,
    decreases impacts.len(),
{
    if impacts.len() > 0 {
        lemma_health_stays_in_range_throughout(health, impacts.drop_last());
    }
}

/// Whether `k` is the first place of `item` in `items`.
pub open spec fn first_at(items: Seq<u128>, item: u128, k: int) -> bool {
    &&& 0 <= k < items.len()
    &&& items[k] == item
    &&& forall|j: int| 0 <= j < k ==> items[j] != item
}

/// Whether `after` is `before` without the first occurrence of `item`.
pub open spec fn taken_out(before: Seq<u128>, after: Seq<u128>, item: u128) -> bool {
    exists|k: int| #[trigger] first_at(before, item, k) && after == before.remove(k)
}

/// The first place of `item` in `items`, if it occurs there.
pub fn first_place(items: &Vec<u128>, item: u128) -> (r: Option<usize>)
    ensures
        match r {
            Some(pos) => first_at(items@, item, pos as int),
            None => !items@.contains(item),
        },
{
    let mut pos: usize = 0;
    while pos < items.len()
        invariant
            pos <= items@.len(),
            forall|j: int| 0 <= j < pos ==> items@[j] != item,
        decreases items@.len() - pos,
    {
        if items[pos] == item {
            return Some(pos);
        }
        pos += 1;
    }
    None
}

/// What an action on a prop is refused for, if it is.
pub open spec fn prop_refusal(world: WorldView, action: PropAction) -> Option<Violation> {
    match action.effect {
        PropEffect::Inspect => if world.props.contains_key(action.to.0) {
            None
        } else {
            Some(Violation::PropNotFound)
        },
        _ => if !world.healths.contains_key(action.to.0) {
            Some(Violation::MissingHealth)
        } else if !world.props.contains_key(action.to.0) {
            Some(Violation::PropNotFound)
        } else {
            None
        },
    }
}

/// What an inspection shows of the entity `id`: the prop with the health,
/// the inventory and the position that the entity carries.
pub open spec fn inspected(world: WorldView, id: u128) -> PropView {
    PropView {
        name: world.props[id]@.name,
        description: world.props[id]@.description,
        health: lookup(world.healths, id),
        inventory: match lookup(world.inventories, id) {
            Some(inventory) => Some(inventory@),
            None => None,
        },
        position: lookup(world.positions, id),
    }
}

/// Whether `after` is `before` once `action`, which is not refused, has
/// been applied.
pub open spec fn prop_acted_on(before: WorldView, after: WorldView, action: PropAction) -> bool {
    let id = action.to.0;
    match action.effect {
        PropEffect::Fix => after == (WorldView {
            healths: before.healths.insert(
                id,
                PropHealth { health: fixed_health(before.healths[id].health, action.impact) as u8 },
            ),
            ..before
        }),
        PropEffect::Damage => after == (WorldView {
            healths: before.healths.insert(
                id,
                PropHealth {
                    health: damaged_health(before.healths[id].health, action.impact) as u8,
                },
            ),
            ..before
        }),
        PropEffect::Inspect => {
            &&& after.props.contains_key(id)
            &&& after.props[id]@ == inspected(before, id)
            &&& after == (WorldView { props: before.props.insert(id, after.props[id]), ..before })
        },
    }
}

impl World {
    /// Apply a prop action to a prop in the world. Returns a copy of the
    /// prop after the action is applied.
    pub fn apply_prop_action(&mut self, action: &PropAction) -> (r: SimutronResult<Prop>)
        ensures
            match prop_refusal(old(self)@, *action) {
                Some(violation) => failed_with(r, violation) && final(self)@ == old(self)@,
                None => {
                    &&& prop_acted_on(old(self)@, final(self)@, *action)
                    &&& r is Ok
                    &&& r->Ok_0@ == final(self)@.props[action.to.0]@
                },
            },
    {
        match action.effect {
            PropEffect::Inspect => {},
            _ => {
                if self.get_component::<PropHealth>(action.to).is_none() {
                    return runtime_error(Violation::MissingHealth);
                }
            },
        }
        if self.get_component::<Prop>(action.to).is_none() {
            return runtime_error(Violation::PropNotFound);
        }
        match action.effect {
            PropEffect::Fix => {
                self.prop_fix(action);
            },
            PropEffect::Damage => {
                self.prop_damage(action);
            },
            PropEffect::Inspect => {
                self.prop_inspect(action);
            },
        }
        match self.get_component::<Prop>(action.to) {
            Some(prop) => Ok(prop.clone()),
            None => runtime_error(Violation::PropNotFound),
        }
    }

    /// Adds `item` at the end of the inventory of `add_to` and returns a
    /// copy of the item's prop.
    pub fn add_to_inventory(&mut self, add_to: Entity, item: u128) -> (r: SimutronResult<Prop>)
        ensures
            if !old(self)@.inventories.contains_key(add_to.0) {
                failed_with(r, Violation::MissingInventory) && final(self)@ == old(self)@
            } else if !old(self)@.props.contains_key(item) {
                failed_with(r, Violation::ItemNotFound) && final(self)@ == old(self)@
            } else {
                &&& r is Ok
                &&& r->Ok_0@ == old(self)@.props[item]@
                &&& final(self)@.inventories.contains_key(add_to.0)
                &&& final(self)@.inventories[add_to.0]@ == old(self)@.inventories[add_to.0]@.push(
                    item,
                )
                &&& final(self)@ == (WorldView {
                    inventories: old(self)@.inventories.insert(
                        add_to.0,
                        final(self)@.inventories[add_to.0],
                    ),
                    ..old(self)@
                })
            },
    {
        if self.get_component::<Inventory>(add_to).is_none() {
            return runtime_error(Violation::MissingInventory);
        }
        let prop = match self.get_component::<Prop>(Entity(item)) {
            Some(prop) => prop.clone(),
            None => {
                return runtime_error(Violation::ItemNotFound);
            },
        };
        match self.get_component_mut::<Inventory>(add_to) {
            Some(inventory) => {
                inventory.items.push(item);
            },
            None => {},
        }
        Ok(prop)
    }

    /// Takes the first occurrence of `item` out of the inventory of
    /// `take_from` and returns a copy of the item's prop.
    pub fn remove_from_inventory(&mut self, take_from: Entity, item: u128) -> (r: SimutronResult<
        Prop,
    >)
        ensures
            if !old(self)@.inventories.contains_key(take_from.0) {
                failed_with(r, Violation::MissingInventory) && final(self)@ == old(self)@
            } else if !old(self)@.inventories[take_from.0]@.contains(item) {
                failed_with(r, Violation::ItemNotInInventory) && final(self)@ == old(self)@
            } else if !old(self)@.props.contains_key(item) {
                failed_with(r, Violation::ItemNotFound) && final(self)@ == old(self)@
            } else {
                &&& r is Ok
                &&& r->Ok_0@ == old(self)@.props[item]@
                &&& final(self)@.inventories.contains_key(take_from.0)
                &&& taken_out(
                    old(self)@.inventories[take_from.0]@,
                    final(self)@.inventories[take_from.0]@,
                    item,
                )
                &&& final(self)@ == (WorldView {
                    inventories: old(self)@.inventories.insert(
                        take_from.0,
                        final(self)@.inventories[take_from.0],
                    ),
                    ..old(self)@
                })
            },
    {
        let pos = match self.get_component::<Inventory>(take_from) {
            Some(inventory) => match first_place(&inventory.items, item) {
                Some(pos) => pos,
                None => {
                    return runtime_error(Violation::ItemNotInInventory);
                },
            },
            None => {
                return runtime_error(Violation::MissingInventory);
            },
        };
        let prop = match self.get_component::<Prop>(Entity(item)) {
            Some(prop) => prop.clone(),
            None => {
                return runtime_error(Violation::ItemNotFound);
            },
        };
        match self.get_component_mut::<Inventory>(take_from) {
            Some(inventory) => {
                inventory.items.remove(pos);
            },
            None => {},
        }
        Ok(prop)
    }

    /// Adds any attached components to the prop component for inspection.
    pub fn prop_inspect(&mut self, action: &PropAction)
        requires
            old(self)@.props.contains_key(action.to.0),
        ensures
            final(self)@.props.contains_key(action.to.0),
            final(self)@.props[action.to.0]@ == inspected(old(self)@, action.to.0),
            final(self)@ == (WorldView {
                props: old(self)@.props.insert(action.to.0, final(self)@.props[action.to.0]),
                ..old(self)@
            }),
    {
        let entity = action.to;
        let (name, description) = match self.get_component::<Prop>(entity) {
            Some(prop) => (prop.name.clone(), prop.description.clone()),
            None => (String::new(), String::new()),
        };
        let health = match self.get_component::<PropHealth>(entity) {
            Some(health) => Some(*health),
            None => None,
        };
        let inventory = match self.get_component::<Inventory>(entity) {
            Some(inventory) => Some(inventory.clone()),
            None => None,
        };
        let position = match self.get_component::<Position>(entity) {
            Some(position) => Some(*position),
            None => None,
        };
        self.add_component(entity, Prop { name, description, health, inventory, position });
    }

    /// Raises the health of the prop by the impact, to 100 at most.
    pub fn prop_fix(&mut self, action: &PropAction)
        requires
            old(self)@.healths.contains_key(action.to.0),
        ensures
            final(self)@ == (WorldView {
                healths: old(self)@.healths.insert(
                    action.to.0,
                    PropHealth {
                        health: fixed_health(
                            old(self)@.healths[action.to.0].health,
                            action.impact,
                        ) as u8,
                    },
                ),
                ..old(self)@
            }),
    {
        match self.get_component_mut::<PropHealth>(action.to) {
            Some(health_comp) => {
                let raised: i64 = health_comp.health as i64 + action.impact as i64;
                health_comp.health = if raised > 100 {
                    100
                } else if raised < 0 {
                    0
                } else {
                    raised as u8
                };
            },
            None => {},
        }
    }

    /// Lowers the health of the prop by the impact, to 0 at least.
    pub fn prop_damage(&mut self, action: &PropAction)
        requires
            old(self)@.healths.contains_key(action.to.0),
        ensures
            final(self)@ == (WorldView {
                healths: old(self)@.healths.insert(
                    action.to.0,
                    PropHealth {
                        health: damaged_health(
                            old(self)@.healths[action.to.0].health,
                            action.impact,
                        ) as u8,
                    },
                ),
                ..old(self)@
            }),
    {
        match self.get_component_mut::<PropHealth>(action.to) {
            Some(health_comp) => {
                let lowered: i64 = health_comp.health as i64 - action.impact as i64;
                health_comp.health = if lowered < 0 {
                    0
                } else if lowered > 255 {
                    255
                } else {
                    lowered as u8
                };
            },
            None => {},
        }
    }
}

} // verus!
