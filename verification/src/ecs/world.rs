//! The world: the owner of every component, of the registered maps and of
//! the index of creatures by name.

use crate::creatures::components::CreatureSheet;
use crate::creatures::Creature;
use crate::ecs::component::{Component, ComponentKind, ComponentVec};
use crate::ecs::components::{Inventory, Position, PropHealth};
use crate::ecs::entity::{fresh_id, is_random_id, Entity};
use crate::errors::{failed_with, runtime_error, SimutronResult, Violation};
use crate::map::base_terrain::{BaseMap, MapSurface, Terrain, TerrainMap};
use crate::props::components::Prop;
use std::collections::HashMap;
use vstd::prelude::*;

verus! {

/// The world as mathematical maps: one table for each kind of component,
/// the registered maps by their identifiers, and the creatures by name.
pub struct WorldView {
    pub creatures: Map<u128, Creature>,
    pub sheets: Map<u128, CreatureSheet>,
    pub positions: Map<u128, Position>,
    pub props: Map<u128, Prop>,
    pub healths: Map<u128, PropHealth>,
    pub inventories: Map<u128, Inventory>,
    pub maps: Map<u128, MapSurface>,
    pub names: Map<Seq<char>, u128>,
}

/// The world holds all entities and components.
pub struct World {
    pub(crate) creatures: ComponentVec<Creature>,
    pub(crate) sheets: ComponentVec<CreatureSheet>,
    pub(crate) positions: ComponentVec<Position>,
    pub(crate) props: ComponentVec<Prop>,
    pub(crate) healths: ComponentVec<PropHealth>,
    pub(crate) inventories: ComponentVec<Inventory>,
    pub(crate) maps: HashMap<u128, MapSurface>,
    /// The creatures by name, in the order they were created; of two
    /// entries with one name the later one counts.
    pub(crate) creature_lookup: Vec<(String, u128)>,
}

/// The index that a list of names and identifiers stands for: each name
/// leads to the identifier it was listed with last.
pub open spec fn names_of(entries: Seq<(String, u128)>) -> Map<Seq<char>, u128>
    decreases entries.len(),
{
    if entries.len() == 0 {
        Map::empty()
    } else {
        names_of(entries.drop_last()).insert(entries.last().0@, entries.last().1)
    }
}

/// What a table holds for a key, if anything.
pub open spec fn lookup<K, V>(table: Map<K, V>, key: K) -> Option<V> {
    if table.contains_key(key) {
        Some(table[key])
    } else {
        None
    }
}

impl View for World {
    type V = WorldView;

    closed spec fn view(&self) -> WorldView {
        WorldView {
            creatures: self.creatures@,
            sheets: self.sheets@,
            positions: self.positions@,
            props: self.props@,
            healths: self.healths@,
            inventories: self.inventories@,
            maps: self.maps@,
            names: names_of(self.creature_lookup@),
        }
    }
}

impl WorldView {
    /// Whether `other` is this world but for the table of `kind`, of which
    /// nothing is said.
    pub open spec fn same_but(self, other: WorldView, kind: ComponentKind) -> bool {
        &&& kind != ComponentKind::Creature ==> other.creatures == self.creatures
        &&& kind != ComponentKind::CreatureSheet ==> other.sheets == self.sheets
        &&& kind != ComponentKind::Position ==> other.positions == self.positions
        &&& kind != ComponentKind::Prop ==> other.props == self.props
        &&& kind != ComponentKind::PropHealth ==> other.healths == self.healths
        &&& kind != ComponentKind::Inventory ==> other.inventories == self.inventories
        &&& other.maps == self.maps
        &&& other.names == self.names
    }

    /// A world without entities, maps or names.
    pub open spec fn empty() -> WorldView {
        WorldView {
            creatures: Map::empty(),
            sheets: Map::empty(),
            positions: Map::empty(),
            props: Map::empty(),
            healths: Map::empty(),
            inventories: Map::empty(),
            maps: Map::empty(),
            names: Map::empty(),
        }
    }
}

/// The stat sheet that a creature starts with: every stat at zero.
pub open spec fn blank_sheet() -> CreatureSheet {
    CreatureSheet {
        speed: 0,
        strength: 0,
        intelligence: 0,
        dexterity: 0,
        constitution: 0,
        wisdom: 0,
        charisma: 0,
    }
}

/// The position that an entity starts with: on no map.
pub open spec fn nowhere() -> Position {
    Position { map: None, x: 0, y: 0 }
}

/// What a teleport of the entity `id` to `target` is refused for, if it is.
pub open spec fn teleport_refusal(world: WorldView, id: u128, target: Position) -> Option<
    Violation,
> {
    if !world.creatures.contains_key(id) {
        Some(Violation::NotACreature)
    } else if target.map is None {
        Some(Violation::NotOnAMap)
    } else if !world.maps.contains_key(target.map->0) {
        Some(Violation::MapNotFound)
    } else if target.x >= world.maps[target.map->0].width() || target.y
        >= world.maps[target.map->0].height() {
        Some(Violation::OutOfBounds)
    } else {
        None
    }
}

/// A teleport to a tile beyond the width or the height of the map it
/// names is refused, whoever is to be moved.
pub proof fn lemma_teleport_stays_in_bounds(world: WorldView, id: u128, target: Position)
    requires
        target.map is Some,
        world.maps.contains_key(target.map->0),
        target.x >= world.maps[target.map->0].width() || target.y
            >= world.maps[target.map->0].height(),
    ensures
        teleport_refusal(world, id, target) is Some,
        world.creatures.contains_key(id) ==> teleport_refusal(world, id, target) == Some(
            Violation::OutOfBounds,
        ),
{
}

/// What was put on an entity last is what is found on it, and putting it
/// there changes nothing for other entities or other kinds of component.
pub proof fn lemma_component_added_is_found<T: Component>(
    world: WorldView,
    id: u128,
    first: T,
    second: T,
)
    ensures
        ({
            let once = T::with_table(world, T::table(world).insert(id, first));
            let twice = T::with_table(once, T::table(once).insert(id, second));
            &&& lookup(T::table(once), id) == Some(first)
            &&& lookup(T::table(twice), id) == Some(second)
            &&& forall|other: u128|
                other != id ==> lookup(T::table(twice), other) == lookup(T::table(world), other)
            &&& world.same_but(twice, T::kind())
        }),
{
    let once = T::with_table(world, T::table(world).insert(id, first));
    T::lemma_table(world, T::table(world).insert(id, first));
    T::lemma_table(once, T::table(once).insert(id, second));
}

/// What was taken off an entity is not found on it, and to take off what
/// is not there changes nothing.
pub proof fn lemma_component_removed_is_gone<T: Component>(world: WorldView, id: u128)
    ensures
        lookup(T::table(T::with_table(world, T::table(world).remove(id))), id) is None,
        world.same_but(T::with_table(world, T::table(world).remove(id)), T::kind()),
        !T::table(world).contains_key(id) ==> T::with_table(world, T::table(world).remove(id))
            == world,
{
    T::lemma_table(world, T::table(world).remove(id));
    if !T::table(world).contains_key(id) {
        assert(T::table(world).remove(id) =~= T::table(world));
        T::lemma_table(world, T::table(world));
    }
}

/// A world without entities holds no component of any entity.
pub proof fn lemma_empty_world_holds_nothing(id: u128)
    ensures
        lookup(WorldView::empty().creatures, id) is None,
        lookup(WorldView::empty().sheets, id) is None,
        lookup(WorldView::empty().positions, id) is None,
        lookup(WorldView::empty().props, id) is None,
        lookup(WorldView::empty().healths, id) is None,
        lookup(WorldView::empty().inventories, id) is None,
{
}

impl Default for World {
    fn default() -> (r: Self)
        ensures
            r@ == WorldView::empty(),
    {
        Self::new()
    }
}

impl World {
    pub fn new() -> (r: Self)
        ensures
            r@ == WorldView::empty(),
    {
        Self {
            creatures: ComponentVec::new(),
            sheets: ComponentVec::new(),
            positions: ComponentVec::new(),
            props: ComponentVec::new(),
            healths: ComponentVec::new(),
            inventories: ComponentVec::new(),
            maps: HashMap::new(),
            creature_lookup: Vec::new(),
        }
    }

    /// The identifier of the creature that was created last under `name`.
    pub fn get_creature_id(&self, name: &str) -> (r: Option<u128>)
        ensures
            r == lookup(self@.names, name@),
    {
        let wanted = name.to_owned();
        let mut i: usize = self.creature_lookup.len();
        assert(self.creature_lookup@.subrange(0, i as int) =~= self.creature_lookup@);
        while i > 0
            invariant
                i <= self.creature_lookup@.len(),
                wanted@ == name@,
                lookup(names_of(self.creature_lookup@), name@) == lookup(
                    names_of(self.creature_lookup@.subrange(0, i as int)),
                    name@,
                ),
            decreases i,
        {
            i -= 1;
            proof {
                let upto = self.creature_lookup@.subrange(0, i + 1);
                assert(upto.drop_last() =~= self.creature_lookup@.subrange(0, i as int));
                assert(upto.last() == self.creature_lookup@[i as int]);
            }
            if self.creature_lookup[i].0 == wanted {
                return Some(self.creature_lookup[i].1);
            }
        }
        assert(self.creature_lookup@.subrange(0, 0).len() == 0);
        None
    }

    /// The registered maps.
    pub(crate) fn registry(&self) -> (r: &HashMap<u128, MapSurface>)
        ensures
            r@ == self@.maps,
    {
        &self.maps
    }

    /// Whether a map is registered under `map_id`.
    pub fn has_map(&self, map_id: u128) -> (r: bool)
        ensures
            r == self@.maps.contains_key(map_id),
    {
        self.maps.get(&map_id).is_some()
    }

    /// Registers `map` under its own identifier, in place of any map that
    /// was registered under it.
    pub fn add_map<T: Terrain>(&mut self, map: BaseMap<T>)
        requires
            map.wf(),
        ensures
            final(self)@.maps.contains_key(map.id),
            final(self)@.maps[map.id].wf(),
            final(self)@.maps[map.id].mirrors(map),
            final(self)@ == (WorldView {
                maps: old(self)@.maps.insert(map.id, final(self)@.maps[map.id]),
                ..old(self)@
            }),
    {
        let surface = MapSurface::of(&map);
        self.maps.insert(map.id, surface);
    }

    /// Issues a fresh random identifier. Nothing is recorded of it.
    pub fn create_entity(&mut self) -> (r: Entity)
        ensures
            is_random_id(r.0),
            *final(self) == *old(self),
    {
        let new_id = fresh_id();
        Entity(new_id)
    }

    /// Teleport a creature to a new position without any movement rules.
    /// The target must name a registered map and lie within its bounds.
    pub fn teleport_creature(&mut self, creature: Entity, new_position: Position) -> (r:
        SimutronResult<Entity>)
        ensures
            match teleport_refusal(old(self)@, creature.0, new_position) {
                None => r == Ok::<Entity, Box<crate::errors::SimutronError>>(creature)
                    && final(self)@ == (WorldView {
                    positions: old(self)@.positions.insert(creature.0, new_position),
                    ..old(self)@
                }),
                Some(violation) => failed_with(r, violation) && final(self)@ == old(self)@,
            },
    {
        if self.creatures.get(creature.0).is_none() {
            return runtime_error(Violation::NotACreature);
        }
        let map_id = match new_position.map {
            Some(id) => id,
            None => {
                return runtime_error(Violation::NotOnAMap);
            },
        };
        let (map_width, map_height) = match self.maps.get(&map_id) {
            Some(m) => {
                proof {
                    use_type_invariant(m);
                }
                (m.get_width(), m.get_height())
            },
            None => {
                return runtime_error(Violation::MapNotFound);
            },
        };
        if new_position.x >= map_width || new_position.y >= map_height {
            return runtime_error(Violation::OutOfBounds);
        }
        self.positions.insert(creature.0, new_position);
        Ok(creature)
    }

    /// Creates an entity for `creature`: registers its name, and gives the
    /// entity the creature, a blank stat sheet and a position on no map.
    pub fn create_creature(&mut self, creature: Creature) -> (r: Entity)
        ensures
            is_random_id(r.0),
            final(self)@ == (WorldView {
                creatures: old(self)@.creatures.insert(r.0, creature),
                sheets: old(self)@.sheets.insert(r.0, blank_sheet()),
                positions: old(self)@.positions.insert(r.0, nowhere()),
                names: old(self)@.names.insert(creature.name@, r.0),
                ..old(self)@
            }),
    {
        let new_entity = self.create_entity();
        self.creature_lookup.push((creature.name.clone(), new_entity.0));
        proof {
            assert(self.creature_lookup@.drop_last() =~= old(self).creature_lookup@);
        }
        self.creatures.insert(new_entity.0, creature);
        self.sheets.insert(
            new_entity.0,
            CreatureSheet {
                speed: 0,
                strength: 0,
                intelligence: 0,
                dexterity: 0,
                constitution: 0,
                wisdom: 0,
                charisma: 0,
            },
        );
        self.positions.insert(new_entity.0, Position { map: None, x: 0, y: 0 });
        new_entity
    }

    /// Creates an entity for a prop called `prop_name`, with full health,
    /// an empty inventory and a position on no map.
    pub fn create_prop(&mut self, prop_name: &str, prop_description: &str) -> (r: Entity)
        ensures
            is_random_id(r.0),
            final(self)@.props.contains_key(r.0),
            final(self)@.props[r.0]@ == (crate::props::components::PropView {
                name: prop_name@,
                description: prop_description@,
                health: None,
                inventory: None,
                position: None,
            }),
            final(self)@.inventories.contains_key(r.0),
            final(self)@.inventories[r.0]@ == Seq::<u128>::empty(),
            final(self)@ == (WorldView {
                props: old(self)@.props.insert(r.0, final(self)@.props[r.0]),
                healths: old(self)@.healths.insert(r.0, PropHealth { health: 100 }),
                inventories: old(self)@.inventories.insert(r.0, final(self)@.inventories[r.0]),
                positions: old(self)@.positions.insert(r.0, nowhere()),
                ..old(self)@
            }),
    {
        let new_entity = self.create_entity();
        let new_prop = Prop::new(prop_name, prop_description);
        self.props.insert(new_entity.0, new_prop);
        self.healths.insert(new_entity.0, PropHealth::new(100));
        self.inventories.insert(new_entity.0, Inventory::new());
        self.positions.insert(new_entity.0, Position { map: None, x: 0, y: 0 });
        new_entity
    }

    /// Puts `component` on `entity`, replacing what it carried of that kind.
    pub fn add_component<T: Component>(&mut self, entity: Entity, component: T)
        ensures
            final(self)@ == T::with_table(
                old(self)@,
                T::table(old(self)@).insert(entity.0, component),
            ),
            T::table(final(self)@) == T::table(old(self)@).insert(entity.0, component),
            old(self)@.same_but(final(self)@, T::kind()),
    {
        proof {
            T::lemma_table(old(self)@, T::table(old(self)@).insert(entity.0, component));
        }
        T::store(self, entity.0, component);
    }

    /// The component of kind `T` that `entity` carries, if any.
    pub fn get_component<T: Component>(&self, entity: Entity) -> (r: Option<&T>)
        ensures
            match r {
                Some(component) => T::table(self@).contains_key(entity.0) && *component
                    == T::table(self@)[entity.0],
                None => !T::table(self@).contains_key(entity.0),
            },
    {
        T::fetch(self, entity.get_uuid())
    }

    /// The component of kind `T` that `entity` carries, if any, to be
    /// changed in place.
    pub fn get_component_mut<T: Component>(&mut self, entity: Entity) -> (r: Option<&mut T>)
        ensures
            r.is_some() == T::table(old(self)@).contains_key(entity.0),
            r.is_some() ==> *r.unwrap() == T::table(old(self)@)[entity.0] && final(self)@
                == T::with_table(
                old(self)@,
                T::table(old(self)@).insert(entity.0, *final(r.unwrap())),
            ),
            r.is_none() ==> final(self)@ == old(self)@,
    {
        T::fetch_mut(self, entity.get_uuid())
    }

    /// Takes the component of kind `T` off `entity`, if it carries one.
    pub fn remove_component<T: Component>(&mut self, entity: Entity)
        ensures
            final(self)@ == T::with_table(
                old(self)@,
                T::table(old(self)@).remove(entity.0),
            ),
            T::table(final(self)@) == T::table(old(self)@).remove(entity.0),
            old(self)@.same_but(final(self)@, T::kind()),
    {
        proof {
            T::lemma_table(old(self)@, T::table(old(self)@).remove(entity.0));
        }
        T::discard(self, entity.get_uuid());
    }
}

impl Component for Creature {
    open spec fn kind() -> ComponentKind {
        ComponentKind::Creature
    }

    open spec fn table(world: WorldView) -> Map<u128, Self> {
        world.creatures
    }

    open spec fn with_table(world: WorldView, table: Map<u128, Self>) -> WorldView {
        WorldView { creatures: table, ..world }
    }

    proof fn lemma_table(world: WorldView, table: Map<u128, Self>) {
    }

    fn store(world: &mut World, entity_id: u128, component: Self) {
        world.creatures.insert(entity_id, component);
    }

    fn fetch(world: &World, entity_id: u128) -> (r: Option<&Self>) {
        world.creatures.get(entity_id)
    }

    fn fetch_mut(world: &mut World, entity_id: u128) -> (r: Option<&mut Self>) {
        world.creatures.get_mut(entity_id)
    }

    fn discard(world: &mut World, entity_id: u128) {
        world.creatures.remove(entity_id);
    }
}

impl Component for CreatureSheet {
    open spec fn kind() -> ComponentKind {
        ComponentKind::CreatureSheet
    }

    open spec fn table(world: WorldView) -> Map<u128, Self> {
        world.sheets
    }

    open spec fn with_table(world: WorldView, table: Map<u128, Self>) -> WorldView {
        WorldView { sheets: table, ..world }
    }

    proof fn lemma_table(world: WorldView, table: Map<u128, Self>) {
    }

    fn store(world: &mut World, entity_id: u128, component: Self) {
        world.sheets.insert(entity_id, component);
    }

    fn fetch(world: &World, entity_id: u128) -> (r: Option<&Self>) {
        world.sheets.get(entity_id)
    }

    fn fetch_mut(world: &mut World, entity_id: u128) -> (r: Option<&mut Self>) {
        world.sheets.get_mut(entity_id)
    }

    fn discard(world: &mut World, entity_id: u128) {
        world.sheets.remove(entity_id);
    }
}

impl Component for Position {
    open spec fn kind() -> ComponentKind {
        ComponentKind::Position
    }

    open spec fn table(world: WorldView) -> Map<u128, Self> {
        world.positions
    }

    open spec fn with_table(world: WorldView, table: Map<u128, Self>) -> WorldView {
        WorldView { positions: table, ..world }
    }

    proof fn lemma_table(world: WorldView, table: Map<u128, Self>) {
    }

    fn store(world: &mut World, entity_id: u128, component: Self) {
        world.positions.insert(entity_id, component);
    }

    fn fetch(world: &World, entity_id: u128) -> (r: Option<&Self>) {
        world.positions.get(entity_id)
    }

    fn fetch_mut(world: &mut World, entity_id: u128) -> (r: Option<&mut Self>) {
        world.positions.get_mut(entity_id)
    }

    fn discard(world: &mut World, entity_id: u128) {
        world.positions.remove(entity_id);
    }
}

impl Component for Prop {
    open spec fn kind() -> ComponentKind {
        ComponentKind::Prop
    }

    open spec fn table(world: WorldView) -> Map<u128, Self> {
        world.props
    }

    open spec fn with_table(world: WorldView, table: Map<u128, Self>) -> WorldView {
        WorldView { props: table, ..world }
    }

    proof fn lemma_table(world: WorldView, table: Map<u128, Self>) {
    }

    fn store(world: &mut World, entity_id: u128, component: Self) {
        world.props.insert(entity_id, component);
    }

    fn fetch(world: &World, entity_id: u128) -> (r: Option<&Self>) {
        world.props.get(entity_id)
    }

    fn fetch_mut(world: &mut World, entity_id: u128) -> (r: Option<&mut Self>) {
        world.props.get_mut(entity_id)
    }

    fn discard(world: &mut World, entity_id: u128) {
        world.props.remove(entity_id);
    }
}

impl Component for PropHealth {
    open spec fn kind() -> ComponentKind {
        ComponentKind::PropHealth
    }

    open spec fn table(world: WorldView) -> Map<u128, Self> {
        world.healths
    }

    open spec fn with_table(world: WorldView, table: Map<u128, Self>) -> WorldView {
        WorldView { healths: table, ..world }
    }

    proof fn lemma_table(world: WorldView, table: Map<u128, Self>) {
    }

    fn store(world: &mut World, entity_id: u128, component: Self) {
        world.healths.insert(entity_id, component);
    }

    fn fetch(world: &World, entity_id: u128) -> (r: Option<&Self>) {
        world.healths.get(entity_id)
    }

    fn fetch_mut(world: &mut World, entity_id: u128) -> (r: Option<&mut Self>) {
        world.healths.get_mut(entity_id)
    }

    fn discard(world: &mut World, entity_id: u128) {
        world.healths.remove(entity_id);
    }
}

impl Component for Inventory {
    open spec fn kind() -> ComponentKind {
        ComponentKind::Inventory
    }

    open spec fn table(world: WorldView) -> Map<u128, Self> {
        world.inventories
    }

    open spec fn with_table(world: WorldView, table: Map<u128, Self>) -> WorldView {
        WorldView { inventories: table, ..world }
    }

    proof fn lemma_table(world: WorldView, table: Map<u128, Self>) {
    }

    fn store(world: &mut World, entity_id: u128, component: Self) {
        world.inventories.insert(entity_id, component);
    }

    fn fetch(world: &World, entity_id: u128) -> (r: Option<&Self>) {
        world.inventories.get(entity_id)
    }

    fn fetch_mut(world: &mut World, entity_id: u128) -> (r: Option<&mut Self>) {
        world.inventories.get_mut(entity_id)
    }

    fn discard(world: &mut World, entity_id: u128) {
        world.inventories.remove(entity_id);
    }
}

} // verus!
