//! Forest terrain and the builder of forest maps.

use crate::ecs::entity::{fresh_id, is_random_id};
use crate::map::base_terrain::{
    copy_tiles, rows_of, rows_with, uniform_rows, BaseMap, Environments, Maneuverability,
    MapBuilder, MaterialManeuverability, Terrain, Tile,
};
use vstd::prelude::*;

verus! {

#[derive(Clone, Copy, Debug, PartialEq, Eq)]
pub enum ForestMaterial {
    Soil,
    Leaves,
    Gravel,
}

impl MaterialManeuverability for ForestMaterial {
    open spec fn maneuverability(&self) -> Maneuverability {
        match self {
            ForestMaterial::Soil => Maneuverability::Unrestricted,
            ForestMaterial::Leaves => Maneuverability::Unrestricted,
            ForestMaterial::Gravel => Maneuverability::Restricted,
        }
    }

    fn get_maneuverability(&self) -> (r: Maneuverability) {
        match self {
            ForestMaterial::Soil => Maneuverability::Unrestricted,
            ForestMaterial::Leaves => Maneuverability::Unrestricted,
            ForestMaterial::Gravel => Maneuverability::Restricted,
        }
    }
}

#[derive(Clone, Copy, Debug, PartialEq, Eq)]
pub struct Forest;

impl Terrain for Forest {
    type Material = ForestMaterial;
}

pub struct ForestBuilder {
    id: u128,
    tiles: Vec<Vec<Tile<Forest>>>,
    map_name: Option<String>,
    description: Option<String>,
    environment: Environments,
    tile_size: u32,
}

impl MapBuilder<Forest> for ForestBuilder {
    closed spec fn rows(&self) -> Seq<Seq<Tile<Forest>>> {
        rows_of(self.tiles)
    }

    closed spec fn name(&self) -> Option<Seq<char>> {
        match self.map_name {
            Some(n) => Some(n@),
            None => None,
        }
    }

    closed spec fn description(&self) -> Option<Seq<char>> {
        match self.description {
            Some(d) => Some(d@),
            None => None,
        }
    }

    closed spec fn tile_size(&self) -> u32 {
        self.tile_size
    }

    closed spec fn id(&self) -> u128 {
        self.id
    }

    closed spec fn environment(&self) -> Environments {
        self.environment
    }

    fn new(width: u32, height: u32, tile_size: u32, default_tile: Tile<Forest>) -> (r: Self)
        ensures
            r.environment() == Environments::Forest,
            is_random_id(r.id()),
    {
        let id = fresh_id();
        let mut tiles: Vec<Vec<Tile<Forest>>> = Vec::new();
        let mut y: u32 = 0;
        while y < height
            invariant
                y <= height,
                tiles@.len() == y,
                forall|j: int|
                    0 <= j < y ==> (#[trigger] tiles@[j])@ == Seq::new(
                        width as nat,
                        |x: int| default_tile,
                    ),
            decreases height - y,
        {
            let mut row: Vec<Tile<Forest>> = Vec::new();
            let mut x: u32 = 0;
            while x < width
                invariant
                    x <= width,
                    row@ == Seq::new(x as nat, |i: int| default_tile),
                decreases width - x,
            {
                row.push(default_tile);
                assert(row@ =~= Seq::new((x + 1) as nat, |i: int| default_tile));
                x += 1;
            }
            tiles.push(row);
            y += 1;
        }
        assert(rows_of(tiles) =~= uniform_rows(width, height, default_tile));
        ForestBuilder {
            id,
            tile_size,
            tiles,
            environment: Environments::Forest,
            map_name: None,
            description: None,
        }
    }

    fn add_description(&mut self, description: &str) {
        self.description = Some(description.to_owned());
    }

    fn add_name(&mut self, map_name: &str) {
        self.map_name = Some(map_name.to_owned());
    }

    fn add_base_material(&mut self, x: u32, y: u32, tile: Tile<Forest>) {
        assert(rows_of(self.tiles)[y as int] == self.tiles@[y as int]@);
        self.tiles[y as usize][x as usize] = tile;
        assert(rows_of(self.tiles) =~= rows_with(
            rows_of(old(self).tiles),
            x as int,
            y as int,
            tile,
        ));
    }

    fn build(&self) -> (r: BaseMap<Forest>) {
        BaseMap {
            id: self.id,
            scale: self.tile_size,
            environment: self.environment,
            name: self.map_name.clone(),
            description: self.description.clone(),
            tiles: copy_tiles(&self.tiles),
        }
    }

    fn get_tile_size(&self) -> (r: u32) {
        self.tile_size
    }
}

} // verus!
