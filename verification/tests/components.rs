use simutron::creatures::morphologies::human::build_humanoid_morphology;
use simutron::ecs::component::ComponentVec;
use simutron::ecs::entity::is_random_id_bits;
use simutron::prelude::{
    Creature, CreatureSheet, Entity, Inventory, Position, Prop, PropHealth, SimutronError,
    Violation, World,
};

#[test]
fn what_was_added_last_is_what_is_found() {
    let mut world = World::new();
    let entity = world.create_entity();
    assert!(world.get_component::<PropHealth>(entity).is_none());
    world.add_component(entity, PropHealth::new(40));
    assert_eq!(world.get_component::<PropHealth>(entity).unwrap().health, 40);
    world.add_component(entity, PropHealth::new(70));
    assert_eq!(world.get_component::<PropHealth>(entity).unwrap().health, 70);
}

#[test]
fn what_was_removed_is_not_found() {
    let mut world = World::new();
    let entity = world.create_entity();
    world.add_component(entity, Inventory { items: vec![1, 2, 3] });
    world.remove_component::<Inventory>(entity);
    assert!(world.get_component::<Inventory>(entity).is_none());
    // Removing what is not there is no error.
    world.remove_component::<Inventory>(entity);
    world.remove_component::<Prop>(entity);
    assert!(world.get_component::<Inventory>(entity).is_none());
}

#[test]
fn an_entity_without_a_component_of_a_kind_has_none() {
    let mut world = World::new();
    let entity = world.create_entity();
    assert!(world.get_component::<Creature>(entity).is_none());
    assert!(world.get_component::<CreatureSheet>(entity).is_none());
    assert!(world.get_component::<Position>(entity).is_none());
    assert!(world.get_component::<Prop>(entity).is_none());
    assert!(world.get_component::<PropHealth>(entity).is_none());
    assert!(world.get_component::<Inventory>(entity).is_none());
    assert!(world.get_component_mut::<Inventory>(entity).is_none());
    assert!(World::default().get_component::<Prop>(entity).is_none());
}

#[test]
fn kinds_and_entities_are_kept_apart() {
    let mut world = World::new();
    let first = Entity(1);
    let second = Entity(2);
    world.add_component(first, PropHealth::new(10));
    world.add_component(second, PropHealth::new(20));
    world.add_component(first, Position { map: None, x: 3, y: 4 });
    world.remove_component::<PropHealth>(first);
    assert!(world.get_component::<PropHealth>(first).is_none());
    assert_eq!(world.get_component::<PropHealth>(second).unwrap().health, 20);
    assert_eq!(
        *world.get_component::<Position>(first).unwrap(),
        Position { map: None, x: 3, y: 4 }
    );
}

#[test]
fn a_component_can_be_changed_in_place() {
    let mut world = World::new();
    let entity = world.create_prop("Bag", "A bag.");
    world.get_component_mut::<Inventory>(entity).unwrap().items.push(7);
    world.get_component_mut::<PropHealth>(entity).unwrap().health = 12;
    assert_eq!(world.get_component::<Inventory>(entity).unwrap().items, vec![7]);
    assert_eq!(world.get_component::<PropHealth>(entity).unwrap().health, 12);
}

#[test]
fn a_table_holds_one_value_for_each_entity() {
    let mut table: ComponentVec<u32> = ComponentVec::new();
    assert!(table.get(5).is_none());
    table.insert(5, 50);
    table.insert(6, 60);
    table.insert(5, 55);
    assert_eq!(table.get(5), Some(&55));
    *table.get_mut(6).unwrap() += 1;
    assert_eq!(table.get(6), Some(&61));
    assert!(table.get_mut(7).is_none());
    table.remove(5);
    table.remove(5);
    assert!(table.get(5).is_none());
    assert_eq!(table.get(6), Some(&61));
}

#[test]
fn entities_are_random_identifiers() {
    let mut world = World::new();
    let first = world.create_entity();
    let second = world.create_entity();
    assert_ne!(first, second);
    assert!(is_random_id_bits(first.get_uuid()));
    assert!(is_random_id_bits(second.0));
    assert_eq!(first.get_uuid(), first.0);
    assert!(!is_random_id_bits(0));
    assert!(is_random_id_bits(0x4000_8000_0000_0000_0000));
    assert!(!is_random_id_bits(0x4000_4000_0000_0000_0000));
}

#[test]
fn a_new_creature_has_a_blank_sheet_and_stands_nowhere() {
    let mut world = World::new();
    let alice = world.create_creature(Creature {
        name: "Alice".to_string(),
        corpus: build_humanoid_morphology(),
    });
    let sheet = world.get_component::<CreatureSheet>(alice).unwrap();
    assert_eq!(
        (
            sheet.speed,
            sheet.strength,
            sheet.intelligence,
            sheet.dexterity,
            sheet.constitution,
            sheet.wisdom,
            sheet.charisma
        ),
        (0, 0, 0, 0, 0, 0, 0)
    );
    assert_eq!(
        *world.get_component::<Position>(alice).unwrap(),
        Position { map: None, x: 0, y: 0 }
    );
    assert_eq!(world.get_component::<Creature>(alice).unwrap().name, "Alice");
    assert_eq!(world.get_creature_id("Alice"), Some(alice.0));
    assert_eq!(world.get_creature_id("Bob"), None);
    let (entity, creature) = world.get_creature_by_name("Alice").unwrap();
    assert_eq!(entity, alice);
    assert_eq!(creature.corpus.len(), 10);
    assert!(world.get_creature_by_name("alice").is_none());
}

#[test]
fn of_two_creatures_with_one_name_the_later_is_found() {
    let mut world = World::new();
    let first = world.create_creature(Creature {
        name: "Twin".to_string(),
        corpus: build_humanoid_morphology(),
    });
    let other = world.create_creature(Creature {
        name: "Other".to_string(),
        corpus: build_humanoid_morphology(),
    });
    let second = world.create_creature(Creature {
        name: "Twin".to_string(),
        corpus: build_humanoid_morphology(),
    });
    assert_eq!(world.get_creature_id("Twin"), Some(second.0));
    assert_eq!(world.get_creature_id("Other"), Some(other.0));
    // The first twin is still in the world, under its entity.
    assert_eq!(world.get_component::<Creature>(first).unwrap().name, "Twin");
    // Once the later twin is no creature any more, the name leads nowhere.
    world.remove_component::<Creature>(second);
    assert!(world.get_creature_by_name("Twin").is_none());
}

#[test]
fn a_new_prop_is_intact_empty_and_stands_nowhere() {
    let mut world = World::new();
    let jar = world.create_prop("Clay Jar", "A sturdy jar.");
    let prop = world.get_component::<Prop>(jar).unwrap();
    assert_eq!(prop.name, "Clay Jar");
    assert_eq!(prop.description, "A sturdy jar.");
    assert!(prop.health.is_none() && prop.inventory.is_none() && prop.position.is_none());
    assert_eq!(world.get_component::<PropHealth>(jar).unwrap().health, 100);
    assert!(world.get_component::<Inventory>(jar).unwrap().items.is_empty());
    assert_eq!(
        *world.get_component::<Position>(jar).unwrap(),
        Position { map: None, x: 0, y: 0 }
    );
    assert!(world.get_component::<Creature>(jar).is_none());
}

#[test]
fn errors_are_shown_with_their_kind() {
    let runtime = SimutronError::Runtime(Violation::OutOfBounds.message());
    assert_eq!(runtime.to_text(), "Runtime Error: Position is out of map bounds.");
    let generic = SimutronError::from(std::io::Error::other("disk on fire"));
    assert!(matches!(generic, SimutronError::Generic(_)));
    assert_eq!(generic.to_text(), "Uncaught Error: disk on fire");
}

#[test]
fn every_violation_has_a_message_of_its_own() {
    let all = [
        Violation::NotACreature,
        Violation::MissingPosition,
        Violation::MissingSheet,
        Violation::NotOnAMap,
        Violation::MapNotFound,
        Violation::OutOfBounds,
        Violation::NotAdjacent,
        Violation::PropNotFound,
        Violation::MissingHealth,
        Violation::MissingInventory,
        Violation::ItemNotInInventory,
        Violation::ItemNotFound,
    ];
    for (i, a) in all.iter().enumerate() {
        assert!(!a.message().is_empty());
        for b in &all[i + 1..] {
            assert_ne!(a.message(), b.message());
        }
    }
}
