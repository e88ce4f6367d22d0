use simutron::creatures::morphologies::human::build_humanoid_morphology;
use simutron::ecs::movement::{is_adjacent, walk_path};
use simutron::prelude::{
    Creature, CreatureSheet, Entity, ForestBuilder, ForestMaterial, MapBuilder, Position,
    SimutronError, Tile, Violation, World,
};

fn at(map: u128, x: u32, y: u32) -> Position {
    Position { map: Some(map), x, y }
}

fn sheet(speed: u32) -> CreatureSheet {
    CreatureSheet {
        speed,
        strength: 5,
        intelligence: 5,
        dexterity: 5,
        constitution: 5,
        wisdom: 5,
        charisma: 5,
    }
}

/// A world with a 5 by 5 forest of the given scale and a creature that
/// stands on it with the given speed.
fn world_with_walker(scale: u32, speed: u32, x: u32, y: u32) -> (World, Entity, u128) {
    let mut world = World::new();
    let forest = ForestBuilder::new(5, 5, scale, Tile::new(ForestMaterial::Soil)).build();
    let map = forest.id;
    world.add_map(forest);
    let walker = world.create_creature(Creature {
        name: "Alice".to_string(),
        corpus: build_humanoid_morphology(),
    });
    world.teleport_creature(walker, at(map, x, y)).unwrap();
    world.add_component(walker, sheet(speed));
    (world, walker, map)
}

fn message_of<T: std::fmt::Debug>(result: Result<T, Box<SimutronError>>) -> String {
    match *result.unwrap_err() {
        SimutronError::Runtime(message) => message,
        SimutronError::Generic(error) => panic!("unexpected error: {}", error),
    }
}

#[test]
fn test_movement() {
    // WORLD CREATION
    let mut world = World::new();

    let alice = Creature {
        name: "Alice".to_string(),
        corpus: build_humanoid_morphology(),
    };

    let mut forest_map = ForestBuilder::new(5, 5, 5, Tile::new(ForestMaterial::Soil));
    forest_map.add_name("Forest");
    forest_map.add_description("A serene forest filled with tall trees and the sound of chirping birds. A great start to our world.");

    forest_map.add_base_material(0, 0, Tile::new(ForestMaterial::Leaves));
    forest_map.add_base_material(0, 1, Tile::new(ForestMaterial::Gravel).clone());
    forest_map.add_base_material(0, 2, Tile::new(ForestMaterial::Gravel).clone());
    forest_map.add_base_material(0, 3, Tile::new(ForestMaterial::Gravel).clone());
    forest_map.add_base_material(0, 4, Tile::new(ForestMaterial::Gravel).clone());

    let forest_map = forest_map.build();
    world.add_map(forest_map.clone());
    assert!(world.has_map(forest_map.id));
    assert_eq!(alice.name, "Alice");
}

#[test]
fn orthogonal_steps_and_a_first_diagonal_cost_one_scale_each() {
    let (mut world, walker, map) = world_with_walker(5, 15, 0, 4);
    let path = vec![at(map, 0, 3), at(map, 1, 3), at(map, 2, 2)];
    assert_eq!(world.move_creature(walker, path).unwrap(), walker);
    assert_eq!(*world.get_component::<Position>(walker).unwrap(), at(map, 2, 2));
}

#[test]
fn a_second_diagonal_costs_two_scales() {
    let (mut world, walker, map) = world_with_walker(5, 15, 2, 2);
    let path = vec![at(map, 3, 1), at(map, 4, 0)];
    world.move_creature(walker, path).unwrap();
    assert_eq!(*world.get_component::<Position>(walker).unwrap(), at(map, 4, 0));
    // With one unit less the second diagonal cannot be paid for.
    let (mut world, walker, map) = world_with_walker(5, 14, 2, 2);
    let path = vec![at(map, 3, 1), at(map, 4, 0)];
    world.move_creature(walker, path).unwrap();
    assert_eq!(*world.get_component::<Position>(walker).unwrap(), at(map, 3, 1));
}

#[test]
fn a_path_beyond_the_budget_is_cut_short_without_error() {
    let (mut world, walker, map) = world_with_walker(5, 15, 4, 0);
    let path = vec![at(map, 3, 1), at(map, 2, 2), at(map, 1, 3)];
    assert_eq!(world.move_creature(walker, path).unwrap(), walker);
    assert_eq!(*world.get_component::<Position>(walker).unwrap(), at(map, 2, 2));
}

#[test]
fn the_budget_is_fresh_for_every_move() {
    let (mut world, walker, map) = world_with_walker(5, 15, 0, 4);
    world
        .move_creature(walker, vec![at(map, 0, 3), at(map, 1, 3), at(map, 2, 2)])
        .unwrap();
    world
        .move_creature(walker, vec![at(map, 3, 1), at(map, 4, 0)])
        .unwrap();
    assert_eq!(*world.get_component::<Position>(walker).unwrap(), at(map, 4, 0));
    world
        .move_creature(walker, vec![at(map, 3, 1), at(map, 2, 2), at(map, 1, 3)])
        .unwrap();
    assert_eq!(*world.get_component::<Position>(walker).unwrap(), at(map, 2, 2));
}

#[test]
fn diagonal_cost_alternates_over_a_long_path() {
    // Costs 1, 2, 1, 2 with scale 1: four diagonals need six units.
    let (mut world, walker, map) = world_with_walker(1, 6, 0, 0);
    let path = vec![at(map, 1, 1), at(map, 2, 2), at(map, 3, 3), at(map, 4, 4)];
    world.move_creature(walker, path).unwrap();
    assert_eq!(*world.get_component::<Position>(walker).unwrap(), at(map, 4, 4));
    let (mut world, walker, map) = world_with_walker(1, 5, 0, 0);
    let path = vec![at(map, 1, 1), at(map, 2, 2), at(map, 3, 3), at(map, 4, 4)];
    world.move_creature(walker, path).unwrap();
    assert_eq!(*world.get_component::<Position>(walker).unwrap(), at(map, 3, 3));
}

#[test]
fn an_orthogonal_step_between_diagonals_does_not_reset_the_alternation() {
    let (mut world, walker, map) = world_with_walker(5, 20, 0, 0);
    // diagonal 5, orthogonal 5, diagonal 10: 20 in all.
    let path = vec![at(map, 1, 1), at(map, 2, 1), at(map, 3, 2)];
    world.move_creature(walker, path.clone()).unwrap();
    assert_eq!(*world.get_component::<Position>(walker).unwrap(), at(map, 3, 2));
    let (mut world, walker, map) = world_with_walker(5, 19, 0, 0);
    let path = vec![at(map, 1, 1), at(map, 2, 1), at(map, 3, 2)];
    world.move_creature(walker, path).unwrap();
    assert_eq!(*world.get_component::<Position>(walker).unwrap(), at(map, 2, 1));
}

#[test]
fn a_step_that_is_not_adjacent_fails_and_moves_nothing() {
    let (mut world, walker, map) = world_with_walker(5, 100, 0, 4);
    // Two tiles away.
    let far = world.move_creature(walker, vec![at(map, 0, 2)]);
    assert_eq!(message_of(far), Violation::NotAdjacent.message());
    assert_eq!(*world.get_component::<Position>(walker).unwrap(), at(map, 0, 4));
    // The tile the creature stands on.
    let same = world.move_creature(walker, vec![at(map, 0, 4)]);
    assert_eq!(message_of(same), Violation::NotAdjacent.message());
    // A good step followed by a bad one: nothing moves.
    let later = world.move_creature(walker, vec![at(map, 0, 3), at(map, 2, 3)]);
    assert_eq!(message_of(later), Violation::NotAdjacent.message());
    assert_eq!(*world.get_component::<Position>(walker).unwrap(), at(map, 0, 4));
}

#[test]
fn a_bad_step_beyond_the_budget_is_never_looked_at() {
    let (mut world, walker, map) = world_with_walker(5, 5, 0, 4);
    let path = vec![at(map, 0, 3), at(map, 0, 2), at(map, 4, 4)];
    world.move_creature(walker, path).unwrap();
    assert_eq!(*world.get_component::<Position>(walker).unwrap(), at(map, 0, 3));
}

#[test]
fn an_empty_path_leaves_the_creature_where_it_is() {
    let (mut world, walker, map) = world_with_walker(5, 15, 1, 1);
    world.move_creature(walker, Vec::new()).unwrap();
    assert_eq!(*world.get_component::<Position>(walker).unwrap(), at(map, 1, 1));
}

#[test]
fn a_step_needs_a_registered_map() {
    let (mut world, walker, map) = world_with_walker(5, 15, 0, 4);
    let no_map = world.move_creature(walker, vec![Position { map: None, x: 0, y: 3 }]);
    assert_eq!(message_of(no_map), Violation::NotOnAMap.message());
    let unknown = world.move_creature(walker, vec![at(map.wrapping_add(1), 0, 3)]);
    assert_eq!(message_of(unknown), Violation::MapNotFound.message());
    assert_eq!(*world.get_component::<Position>(walker).unwrap(), at(map, 0, 4));
}

#[test]
fn a_mover_needs_creature_position_and_sheet() {
    let (mut world, walker, map) = world_with_walker(5, 15, 0, 4);
    let path = vec![at(map, 0, 3)];

    let stranger = world.create_entity();
    assert_eq!(
        message_of(world.move_creature(stranger, path.clone())),
        Violation::NotACreature.message()
    );

    world.remove_component::<CreatureSheet>(walker);
    assert_eq!(
        message_of(world.move_creature(walker, path.clone())),
        Violation::MissingSheet.message()
    );
    world.add_component(walker, sheet(15));

    world.remove_component::<Position>(walker);
    assert_eq!(
        message_of(world.move_creature(walker, path.clone())),
        Violation::MissingPosition.message()
    );

    world.add_component(walker, Position { map: None, x: 0, y: 4 });
    assert_eq!(
        message_of(world.move_creature(walker, path)),
        Violation::NotOnAMap.message()
    );
}

#[test]
fn a_step_costs_the_scale_of_the_map_it_leads_to() {
    let (mut world, walker, map) = world_with_walker(5, 12, 0, 0);
    let coarse = ForestBuilder::new(5, 5, 7, Tile::new(ForestMaterial::Soil)).build();
    let other = coarse.id;
    world.add_map(coarse);
    // 5 for the first step, 7 for the step onto the other map.
    world
        .move_creature(walker, vec![at(map, 1, 0), at(other, 2, 0)])
        .unwrap();
    assert_eq!(*world.get_component::<Position>(walker).unwrap(), at(other, 2, 0));
}

#[test]
fn walk_path_reports_where_the_walk_ends() {
    let (world, walker, map) = world_with_walker(5, 15, 0, 4);
    let _ = walker;
    let mut registry = std::collections::HashMap::new();
    let forest = ForestBuilder::new(5, 5, 5, Tile::new(ForestMaterial::Soil)).build();
    registry.insert(map, simutron::prelude::MapSurface::of(&forest));
    assert!(world.has_map(map));
    let path = vec![at(map, 3, 1), at(map, 2, 2), at(map, 1, 3)];
    assert_eq!(walk_path(&registry, at(map, 4, 0), 15, &path), Ok(at(map, 2, 2)));
    assert_eq!(walk_path(&registry, at(map, 4, 0), 20, &path), Ok(at(map, 1, 3)));
    assert_eq!(walk_path(&registry, at(map, 4, 0), 4, &path), Ok(at(map, 4, 0)));
    assert_eq!(
        walk_path(&registry, at(map, 4, 0), 20, &vec![at(map, 4, 2)]),
        Err(Violation::NotAdjacent)
    );
}

#[test]
fn adjacency_is_a_distance_of_exactly_one_tile() {
    let here = Position { map: None, x: 3, y: 3 };
    for (x, y, expected) in [
        (3u32, 3u32, false),
        (2, 2, true),
        (2, 3, true),
        (2, 4, true),
        (3, 2, true),
        (3, 4, true),
        (4, 2, true),
        (4, 3, true),
        (4, 4, true),
        (5, 3, false),
        (3, 5, false),
        (1, 1, false),
        (4, 5, false),
    ] {
        assert_eq!(is_adjacent(here, Position { map: None, x, y }), expected, "({}, {})", x, y);
    }
    let corner = Position { map: None, x: 0, y: u32::MAX };
    assert!(is_adjacent(corner, Position { map: None, x: 1, y: u32::MAX - 1 }));
    assert!(!is_adjacent(corner, Position { map: None, x: u32::MAX, y: 0 }));
}

#[test]
fn teleport_is_refused_out_of_bounds_and_moves_nothing() {
    let (mut world, walker, map) = world_with_walker(5, 15, 1, 1);
    for (x, y) in [(5u32, 0u32), (0, 5), (5, 5), (u32::MAX, 2)] {
        let refused = world.teleport_creature(walker, at(map, x, y));
        assert_eq!(message_of(refused), Violation::OutOfBounds.message());
        assert_eq!(*world.get_component::<Position>(walker).unwrap(), at(map, 1, 1));
    }
    assert_eq!(world.teleport_creature(walker, at(map, 4, 4)).unwrap(), walker);
    assert_eq!(*world.get_component::<Position>(walker).unwrap(), at(map, 4, 4));
}

#[test]
fn teleport_needs_a_creature_and_a_registered_map() {
    let (mut world, walker, map) = world_with_walker(5, 15, 1, 1);
    let prop = world.create_prop("Rock", "A rock.");
    assert_eq!(
        message_of(world.teleport_creature(prop, at(map, 0, 0))),
        Violation::NotACreature.message()
    );
    assert_eq!(
        message_of(world.teleport_creature(walker, Position { map: None, x: 0, y: 0 })),
        Violation::NotOnAMap.message()
    );
    assert_eq!(
        message_of(world.teleport_creature(walker, at(map ^ 1, 0, 0))),
        Violation::MapNotFound.message()
    );
    assert_eq!(*world.get_component::<Position>(walker).unwrap(), at(map, 1, 1));
}

#[test]
fn teleport_ignores_distance_and_budget() {
    let (mut world, walker, map) = world_with_walker(5, 0, 0, 0);
    world.teleport_creature(walker, at(map, 4, 3)).unwrap();
    assert_eq!(*world.get_component::<Position>(walker).unwrap(), at(map, 4, 3));
}
