//! Movement of creatures along a path of adjacent tiles.
//!
//! A creature moves with a budget equal to its speed. An orthogonal step
//! costs the scale of the map it leads to. Diagonal steps cost one scale
//! and two scales in turn, which approximates their length without
//! fractions. A path that the budget cannot pay for is cut short where the
//! budget runs out; that is no error.

use crate::ecs::components::Position;
use crate::ecs::entity::Entity;
use crate::ecs::world::{World, WorldView};
use crate::errors::{failed_with, runtime_error, SimutronError, SimutronResult, Violation};
use crate::map::base_terrain::{MapSurface, TerrainMap};
use std::collections::HashMap;
use vstd::prelude::*;

verus! {

/// The distance between two coordinates.
pub open spec fn gap(a: u32, b: u32) -> int {
    if a >= b {
        a - b
    } else {
        b - a
    }
}

/// Whether `to` is exactly one tile away from `from`: the larger of the
/// two coordinate distances is one.
pub open spec fn adjacent(from: Position, to: Position) -> bool {
    &&& gap(from.x, to.x) <= 1
    &&& gap(from.y, to.y) <= 1
    &&& (gap(from.x, to.x) == 1 || gap(from.y, to.y) == 1)
}

/// Whether a step changes both coordinates.
pub open spec fn diagonal(from: Position, to: Position) -> bool {
    from.x != to.x && from.y != to.y
}

/// The cost of a step on a map of the given scale. `odd` says whether an
/// odd number of diagonal steps has been taken before it.
pub open spec fn step_cost(scale: u32, is_diagonal: bool, odd: bool) -> int {
    if is_diagonal && odd {
        2 * scale
    } else {
        scale as int
    }
}

/// Where a walk from `at` along `path` ends with `budget` left to spend, or
/// the rule that the first offending step among those reached breaks.
pub open spec fn walk(
    maps: Map<u128, MapSurface>,
    at: Position,
    budget: int,
    odd: bool,
    path: Seq<Position>,
) -> Result<Position, Violation>
    decreases path.len(),
{
    if path.len() == 0 {
        Ok(at)
    } else {
        let step = path[0];
        if !adjacent(at, step) {
            Err(Violation::NotAdjacent)
        } else if step.map is None {
            Err(Violation::NotOnAMap)
        } else if !maps.contains_key(step.map->0) {
            Err(Violation::MapNotFound)
        } else {
            let cost = step_cost(maps[step.map->0].scale(), diagonal(at, step), odd);
            if budget >= cost {
                walk(maps, step, budget - cost, odd != diagonal(at, step), path.skip(1))
            } else {
                Ok(at)
            }
        }
    }
}

/// Where a move of the entity `id` along `path` ends, or the rule it
/// breaks.
pub open spec fn move_outcome(world: WorldView, id: u128, path: Seq<Position>) -> Result<
    Position,
    Violation,
> {
    if !world.creatures.contains_key(id) {
        Err(Violation::NotACreature)
    } else if !world.positions.contains_key(id) {
        Err(Violation::MissingPosition)
    } else if world.positions[id].map is None {
        Err(Violation::NotOnAMap)
    } else if !world.sheets.contains_key(id) {
        Err(Violation::MissingSheet)
    } else {
        walk(world.maps, world.positions[id], world.sheets[id].speed as int, false, path)
    }
}

/// Where a walker stands after the first `k` steps of `path`, with the
/// budget left and the parity of the diagonal steps taken, if every one of
/// those steps was allowed and paid for.
pub open spec fn progress(
    maps: Map<u128, MapSurface>,
    at: Position,
    budget: int,
    odd: bool,
    path: Seq<Position>,
    k: int,
) -> Option<(Position, int, bool)>
    decreases k,
{
    if k <= 0 {
        Some((at, budget, odd))
    } else if k > path.len() {
        None
    } else {
        match progress(maps, at, budget, odd, path, k - 1) {
            None => None,
            Some((here, left, parity)) => {
                let step = path[k - 1];
                if !adjacent(here, step) || step.map is None || !maps.contains_key(step.map->0) {
                    None
                } else {
                    let cost = step_cost(maps[step.map->0].scale(), diagonal(here, step), parity);
                    if left >= cost {
                        Some((step, left - cost, parity != diagonal(here, step)))
                    } else {
                        None
                    }
                }
            },
        }
    }
}

/// A walk is the walk of its remaining steps from where the walker stands
/// after the first `k`.
pub proof fn lemma_walk_resumes(
    maps: Map<u128, MapSurface>,
    at: Position,
    budget: int,
    odd: bool,
    path: Seq<Position>,
    k: int,
)
    requires
        0 <= k <= path.len(),
        progress(maps, at, budget, odd, path, k) is Some,
    ensures
        ({
            let (here, left, parity) = progress(maps, at, budget, odd, path, k)->0;
            walk(maps, at, budget, odd, path) == walk(maps, here, left, parity, path.skip(k))
        }),
    decreases k,
{
    if k == 0 {
        assert(path.skip(0) =~= path);
    } else {
        lemma_walk_resumes(maps, at, budget, odd, path, k - 1);
        assert(path.skip(k - 1)[0] == path[k - 1]);
        assert(path.skip(k - 1).skip(1) =~= path.skip(k));
    }
}

/// A step that is reached and is not exactly one tile away from where the
/// walker stands makes the whole walk fail.
pub proof fn lemma_non_adjacent_step_fails(
    maps: Map<u128, MapSurface>,
    at: Position,
    budget: int,
    odd: bool,
    path: Seq<Position>,
    k: int,
)
    requires
        0 <= k < path.len(),
        progress(maps, at, budget, odd, path, k) is Some,
        ({
            let (here, left, parity) = progress(maps, at, budget, odd, path, k)->0;
            !adjacent(here, path[k])
        }),
    ensures
        walk(maps, at, budget, odd, path) == Err::<Position, Violation>(Violation::NotAdjacent),
{
    lemma_walk_resumes(maps, at, budget, odd, path, k);
    assert(path.skip(k)[0] == path[k]);
}

/// Whether the entity `id` carries all that a move needs: a creature, a
/// position on a map and a stat sheet.
pub open spec fn can_set_out(world: WorldView, id: u128) -> bool {
    &&& world.creatures.contains_key(id)
    &&& world.positions.contains_key(id)
    &&& world.positions[id].map is Some
    &&& world.sheets.contains_key(id)
}

/// A move is refused when a step that the mover reaches is not exactly one
/// tile away from where it stands by then: for that very reason where the
/// mover carries all that a move needs, and for want of that otherwise.
pub proof fn lemma_move_needs_adjacent_steps(
    world: WorldView,
    id: u128,
    path: Seq<Position>,
    k: int,
)
    requires
        0 <= k < path.len(),
        can_set_out(world, id) ==> ({
            let start = world.positions[id];
            let speed = world.sheets[id].speed as int;
            match progress(world.maps, start, speed, false, path, k) {
                Some((here, left, parity)) => !adjacent(here, path[k]),
                None => false,
            }
        }),
    ensures
        move_outcome(world, id, path) is Err,
        can_set_out(world, id) ==> move_outcome(world, id, path) == Err::<Position, Violation>(
            Violation::NotAdjacent,
        ),
{
    if can_set_out(world, id) {
        lemma_non_adjacent_step_fails(
            world.maps,
            world.positions[id],
            world.sheets[id].speed as int,
            false,
            path,
            k,
        );
    }
}

/// Whether `to` is exactly one tile away from `from`.
pub fn is_adjacent(from: Position, to: Position) -> (r: bool)
    ensures
        r == adjacent(from, to),
{
    let dx = if from.x >= to.x {
        from.x - to.x
    } else {
        to.x - from.x
    };
    let dy = if from.y >= to.y {
        from.y - to.y
    } else {
        to.y - from.y
    };
    dx <= 1 && dy <= 1 && (dx == 1 || dy == 1)
}

/// Walks from `start` along `path` with a budget of `speed`.
pub fn walk_path(
    maps: &HashMap<u128, MapSurface>,
    start: Position,
    speed: u32,
    path: &Vec<Position>,
) -> (r: Result<Position, Violation>)
    ensures
        r == walk(maps@, start, speed as int, false, path@),
{
    let mut at = start;
    let mut budget: u32 = speed;
    let mut odd = false;
    let mut i: usize = 0;
    assert(path@.skip(0) =~= path@);
    while i < path.len()
        invariant
            i <= path@.len(),
            walk(maps@, start, speed as int, false, path@) == walk(
                maps@,
                at,
                budget as int,
                odd,
                path@.skip(i as int),
            ),
        decreases path@.len() - i,
    {
        let step = path[i];
        proof {
            assert(path@.skip(i as int)[0] == step);
            assert(path@.skip(i as int).skip(1) =~= path@.skip(i + 1));
        }
        if !is_adjacent(at, step) {
            return Err(Violation::NotAdjacent);
        }
        let map_id = match step.map {
            Some(id) => id,
            None => {
                return Err(Violation::NotOnAMap);
            },
        };
        let scale = match maps.get(&map_id) {
            Some(map) => map.get_scale(),
            None => {
                return Err(Violation::MapNotFound);
            },
        };
        let is_diagonal = at.x != step.x && at.y != step.y;
        let cost: u64 = if is_diagonal && odd {
            2 * (scale as u64)
        } else {
            scale as u64
        };
        if budget as u64 >= cost {
            budget = (budget as u64 - cost) as u32;
            at = step;
            if is_diagonal {
                odd = !odd;
            }
        } else {
            return Ok(at);
        }
        i += 1;
    }
    Ok(at)
}

impl World {
    /// Moves a creature along `path`, as far as its speed allows, and
    /// records where it came to stand.
    pub fn move_creature(&mut self, creature: Entity, path: Vec<Position>) -> (r: SimutronResult<
        Entity,
    >)
        ensures
            match move_outcome(old(self)@, creature.0, path@) {
                Ok(reached) => r == Ok::<Entity, Box<SimutronError>>(creature) && final(self)@ == (
                WorldView {
                    positions: old(self)@.positions.insert(creature.0, reached),
                    ..old(self)@
                }),
                Err(violation) => failed_with(r, violation) && final(self)@ == old(self)@,
            },
    {
        if self.get_component::<crate::creatures::Creature>(creature).is_none() {
            return runtime_error(Violation::NotACreature);
        }
        let start = match self.get_component::<Position>(creature) {
            Some(position) => *position,
            None => {
                return runtime_error(Violation::MissingPosition);
            },
        };
        if start.map.is_none() {
            return runtime_error(Violation::NotOnAMap);
        }
        let speed = match self.get_component::<crate::creatures::components::CreatureSheet>(
            creature,
        ) {
            Some(sheet) => sheet.speed,
            None => {
                return runtime_error(Violation::MissingSheet);
            },
        };
        match walk_path(self.registry(), start, speed, &path) {
            Ok(reached) => {
                self.add_component(creature, reached);
                Ok(creature)
            },
            Err(violation) => runtime_error(violation),
        }
    }
}

} // verus!
