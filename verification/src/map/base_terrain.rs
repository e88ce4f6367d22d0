//! The terrain-independent part of maps: tiles, the map itself, and the
//! capabilities that the world asks of any map.

use crate::ecs::components::Position;
use vstd::prelude::*;

verus! {

/// There are four levels of maneuverability for terrain:
/// Unrestricted: no penalty to movement.
/// Restricted: minor penalty to movement.
/// HighlyRestricted: major penalty to movement.
/// Blocking: movement is not possible.
#[derive(Debug, Clone, Copy, PartialEq, Eq)]
pub enum Maneuverability {
    Unrestricted,
    Restricted,
    HighlyRestricted,
    Blocking,
}

impl Maneuverability {
    /// The modifier of the level; the largest byte stands for a tile that
    /// cannot be entered at all.
    pub open spec fn modifier(self) -> u8 {
        match self {
            Maneuverability::Unrestricted => 1,
            Maneuverability::Restricted => 2,
            Maneuverability::HighlyRestricted => 3,
            Maneuverability::Blocking => u8::MAX,
        }
    }

    /// Returns the modifier associated with the maneuverability level.
    /// Use this to calculate movement costs.
    pub fn get_modifier(&self) -> (r: u8)
        ensures
            r == self.modifier(),
    {
        match self {
            Maneuverability::Unrestricted => 1,
            Maneuverability::Restricted => 2,
            Maneuverability::HighlyRestricted => 3,
            Maneuverability::Blocking => u8::MAX,
        }
    }
}

/// What a material must tell about itself.
pub trait MaterialManeuverability {
    /// The maneuverability of the material.
    spec fn maneuverability(&self) -> Maneuverability;

    fn get_maneuverability(&self) -> (r: Maneuverability)
        ensures
            r == self.maneuverability(),
    ;
}

/// A kind of terrain: a marker type that names its materials.
pub trait Terrain: Sized + core::fmt::Debug {
    type Material: MaterialManeuverability + Copy + core::fmt::Debug;
}

/// The capabilities that the world asks of a map, whatever its terrain.
pub trait TerrainMap {
    /// Whether the map is sound: its scale is positive and its rows have
    /// one length.
    spec fn wf(&self) -> bool;

    /// The cost of one orthogonal step.
    spec fn scale(&self) -> u32;

    /// The number of tiles in a row; zero for a map without rows.
    spec fn width(&self) -> u32;

    /// The number of rows.
    spec fn height(&self) -> u32;

    /// The maneuverability of the tile at column `x` of row `y`, if the
    /// map has such a tile.
    spec fn maneuverability_at(&self, x: u32, y: u32) -> Option<Maneuverability>;

    fn get_scale(&self) -> (r: u32)
        ensures
            r == self.scale(),
    ;

    fn get_width(&self) -> (r: u32)
        requires
            self.wf(),
        ensures
            r == self.width(),
    ;

    fn get_height(&self) -> (r: u32)
        requires
            self.wf(),
        ensures
            r == self.height(),
    ;

    fn get_maneuverability(&self, position: Position) -> (r: Option<Maneuverability>)
        requires
            self.wf(),
        ensures
            r == self.maneuverability_at(position.x, position.y),
            r is Some <==> position.x < self.width() && position.y < self.height(),
    ;
}

#[derive(Debug, Clone, Copy, PartialEq, Eq)]
pub enum Environments {
    Forest,
    Dungeon,
}

#[derive(Debug)]
pub struct Tile<T: Terrain> {
    pub material: T::Material,
}

impl<T: Terrain> Clone for Tile<T> {
    fn clone(&self) -> (r: Self)
        ensures
            r == *self,
    {
        Tile { material: self.material }
    }
}

impl<T: Terrain> Copy for Tile<T> {

}

impl<T: Terrain> Tile<T> {
    pub fn new(default_material: T::Material) -> (r: Self)
        ensures
            r.material == default_material,
    {
        Tile { material: default_material }
    }
}

/// The tiles of a grid as rows of tiles.
pub open spec fn rows_of<T: Terrain>(tiles: Vec<Vec<Tile<T>>>) -> Seq<Seq<Tile<T>>> {
    Seq::new(tiles@.len(), |y: int| tiles@[y]@)
}

/// Whether `rows` are at most `u32::MAX` rows of one length, itself at most
/// `u32::MAX`.
pub open spec fn is_grid<A>(rows: Seq<Seq<A>>) -> bool {
    &&& rows.len() <= u32::MAX
    &&& forall|y: int| 0 <= y < rows.len() ==> (#[trigger] rows[y]).len() == rows[0].len()
    &&& rows.len() > 0 ==> rows[0].len() <= u32::MAX
}

/// A grid of `height` rows of `width` tiles, each of them `tile`.
pub open spec fn uniform_rows<A>(width: u32, height: u32, tile: A) -> Seq<Seq<A>> {
    Seq::new(height as nat, |y: int| Seq::new(width as nat, |x: int| tile))
}

/// `rows` with the tile at column `x` of row `y` replaced by `tile`.
pub open spec fn rows_with<A>(rows: Seq<Seq<A>>, x: int, y: int, tile: A) -> Seq<Seq<A>> {
    rows.update(y, rows[y].update(x, tile))
}

/// Copies a grid of tiles.
pub fn copy_tiles<T: Terrain>(tiles: &Vec<Vec<Tile<T>>>) -> (r: Vec<Vec<Tile<T>>>)
    ensures
        rows_of(r) == rows_of(*tiles),
{
    let mut rows: Vec<Vec<Tile<T>>> = Vec::new();
    let mut y: usize = 0;
    while y < tiles.len()
        invariant
            y <= tiles@.len(),
            rows@.len() == y,
            forall|j: int| 0 <= j < y ==> (#[trigger] rows@[j])@ == tiles@[j]@,
        decreases tiles@.len() - y,
    {
        let mut row: Vec<Tile<T>> = Vec::new();
        let mut x: usize = 0;
        while x < tiles[y].len()
            invariant
                y < tiles@.len(),
                x <= tiles@[y as int]@.len(),
                row@ == tiles@[y as int]@.subrange(0, x as int),
            decreases tiles@[y as int]@.len() - x,
        {
            row.push(tiles[y][x]);
            assert(row@ =~= tiles@[y as int]@.subrange(0, x + 1));
            x += 1;
        }
        assert(row@ =~= tiles@[y as int]@);
        rows.push(row);
        y += 1;
    }
    assert(rows_of(rows) =~= rows_of(*tiles));
    rows
}

/// The map is made up of tiles, which represent its base terrain.
#[derive(Debug)]
pub struct BaseMap<T: Terrain> {
    pub environment: Environments,
    pub name: Option<String>,
    pub description: Option<String>,
    /// The unitless size of each tile in the map, used for story telling
    /// and movement calculations. If each tile represents a 5 m square,
    /// the scale is 5.
    pub scale: u32,
    pub tiles: Vec<Vec<Tile<T>>>,
    pub id: u128,
}

impl<T: Terrain> BaseMap<T> {
    /// The tiles of the map as rows of tiles.
    pub open spec fn rows(self) -> Seq<Seq<Tile<T>>> {
        rows_of(self.tiles)
    }

    /// Whether the map is sound: its scale is positive and its rows have
    /// one length.
    pub fn is_sound(&self) -> (r: bool)
        ensures
            r == self.wf(),
    {
        if self.scale == 0 {
            return false;
        }
        let height = self.tiles.len();
        if height > u32::MAX as usize {
            return false;
        }
        if height == 0 {
            return true;
        }
        assert(self.rows()[0] == self.tiles@[0]@);
        let width = self.tiles[0].len();
        if width > u32::MAX as usize {
            return false;
        }
        let mut y: usize = 0;
        while y < height
            invariant
                y <= height,
                height == self.tiles@.len(),
                width == self.tiles@[0]@.len(),
                forall|j: int| 0 <= j < y ==> (#[trigger] self.rows()[j]).len() == width,
            decreases height - y,
        {
            assert(self.rows()[y as int] == self.tiles@[y as int]@);
            if self.tiles[y].len() != width {
                return false;
            }
            y += 1;
        }
        true
    }
}

impl<T: Terrain> Clone for BaseMap<T> {
    fn clone(&self) -> (r: Self)
        ensures
            r.environment == self.environment,
            r.name == self.name,
            r.description == self.description,
            r.scale == self.scale,
            r.rows() == self.rows(),
            r.id == self.id,
    {
        BaseMap {
            environment: self.environment,
            name: self.name.clone(),
            description: self.description.clone(),
            scale: self.scale,
            tiles: copy_tiles(&self.tiles),
            id: self.id,
        }
    }
}

impl<T: Terrain> TerrainMap for BaseMap<T> {
    open spec fn wf(&self) -> bool {
        &&& self.scale > 0
        &&& is_grid(self.rows())
    }

    open spec fn scale(&self) -> u32 {
        self.scale
    }

    open spec fn width(&self) -> u32 {
        if self.rows().len() == 0 {
            0
        } else {
            self.rows()[0].len() as u32
        }
    }

    open spec fn height(&self) -> u32 {
        self.rows().len() as u32
    }

    open spec fn maneuverability_at(&self, x: u32, y: u32) -> Option<Maneuverability> {
        if y < self.rows().len() && x < self.rows()[y as int].len() {
            Some(self.rows()[y as int][x as int].material.maneuverability())
        } else {
            None
        }
    }

    fn get_scale(&self) -> (r: u32) {
        self.scale
    }

    fn get_width(&self) -> (r: u32) {
        if self.tiles.len() == 0 {
            0
        } else {
            assert(self.rows()[0] == self.tiles@[0]@);
            self.tiles[0].len() as u32
        }
    }

    fn get_height(&self) -> (r: u32) {
        self.tiles.len() as u32
    }

    fn get_maneuverability(&self, position: Position) -> (r: Option<Maneuverability>) {
        let x = position.x as usize;
        let y = position.y as usize;
        if y < self.tiles.len() {
            assert(self.rows()[y as int] == self.tiles@[y as int]@);
            assert(self.rows()[y as int].len() == self.rows()[0].len());
            if x < self.tiles[y].len() {
                Some(self.tiles[y][x].material.get_maneuverability())
            } else {
                None
            }
        } else {
            None
        }
    }
}

/// What the world keeps of a registered map, whatever its terrain: the
/// scale and the maneuverability of every tile.
#[derive(Debug)]
pub struct MapSurface {
    pub(crate) scale: u32,
    pub(crate) classes: Vec<Vec<Maneuverability>>,
}

impl MapSurface {
    /// Every surface is sound: its scale is positive and its rows have one
    /// length.
    #[verifier::type_invariant]
    pub open spec fn sound(self) -> bool {
        self.wf()
    }

    /// The maneuverability of the tiles, row by row.
    pub closed spec fn rows(self) -> Seq<Seq<Maneuverability>> {
        Seq::new(self.classes@.len(), |y: int| self.classes@[y]@)
    }

    /// Whether this surface has the scale, the bounds and the
    /// maneuverability of `map`.
    pub open spec fn mirrors<T: Terrain>(self, map: BaseMap<T>) -> bool {
        &&& self.scale() == map.scale()
        &&& self.width() == map.width()
        &&& self.height() == map.height()
        &&& forall|x: u32, y: u32| #[trigger]
            self.maneuverability_at(x, y) == map.maneuverability_at(x, y)
    }

    /// The surface of `map`.
    pub fn of<T: Terrain>(map: &BaseMap<T>) -> (r: Self)
        requires
            map.wf(),
        ensures
            r.wf(),
            r.mirrors(*map),
    {
        let ghost scale = map.scale;
        let mut classes: Vec<Vec<Maneuverability>> = Vec::new();
        let mut y: usize = 0;
        while y < map.tiles.len()
            invariant
                y <= map.tiles@.len(),
                classes@.len() == y,
                forall|j: int|
                    0 <= j < y ==> (#[trigger] classes@[j])@.len() == map.tiles@[j]@.len(),
                forall|j: int, i: int|
                    0 <= j < y && 0 <= i < map.tiles@[j]@.len() ==> (#[trigger] classes@[j]@[i])
                        == map.tiles@[j]@[i].material.maneuverability(),
            decreases map.tiles@.len() - y,
        {
            let mut row: Vec<Maneuverability> = Vec::new();
            let mut x: usize = 0;
            while x < map.tiles[y].len()
                invariant
                    y < map.tiles@.len(),
                    x <= map.tiles@[y as int]@.len(),
                    row@.len() == x,
                    forall|i: int|
                        0 <= i < x ==> (#[trigger] row@[i])
                            == map.tiles@[y as int]@[i].material.maneuverability(),
                decreases map.tiles@[y as int]@.len() - x,
            {
                row.push(map.tiles[y][x].material.get_maneuverability());
                x += 1;
            }
            classes.push(row);
            y += 1;
        }
        proof {
            let rows = Seq::new(classes@.len(), |y: int| classes@[y]@);
            assert forall|j: int| 0 <= j < rows.len() implies (#[trigger] rows[j]).len()
                == rows[0].len() by {
                assert(classes@[j]@.len() == map.tiles@[j]@.len());
                assert(classes@[0]@.len() == map.tiles@[0]@.len());
                assert(map.rows()[j].len() == map.rows()[0].len());
            }
            if rows.len() > 0 {
                assert(classes@[0]@.len() == map.tiles@[0]@.len());
                assert(map.rows()[0].len() <= u32::MAX);
            }
            assert(is_grid(rows));
        }
        let r = MapSurface { scale: map.scale, classes };
        proof {
            assert forall|j: int| 0 <= j < r.rows().len() implies (#[trigger] r.rows()[j]).len()
                == map.rows()[j].len() by {
                assert(r.classes@[j]@.len() == map.tiles@[j]@.len());
            }
            assert forall|j: int| 0 <= j < r.rows().len() implies (#[trigger] r.rows()[j]).len()
                == r.rows()[0].len() by {
                assert(map.rows()[j].len() == map.rows()[0].len());
            }
            assert forall|x: u32, y: u32| #[trigger]
                r.maneuverability_at(x, y) == map.maneuverability_at(x, y) by {
                if y < r.rows().len() {
                    assert(r.rows()[y as int].len() == map.rows()[y as int].len());
                    if x < r.rows()[y as int].len() {
                        assert(r.classes@[y as int]@[x as int] == map.tiles@[y as int]@[x as int].material.maneuverability());
                    }
                }
            }
        }
        r
    }
}

impl TerrainMap for MapSurface {
    open spec fn wf(&self) -> bool {
        &&& self.scale() > 0
        &&& is_grid(self.rows())
    }

    closed spec fn scale(&self) -> u32 {
        self.scale
    }

    open spec fn width(&self) -> u32 {
        if self.rows().len() == 0 {
            0
        } else {
            self.rows()[0].len() as u32
        }
    }

    open spec fn height(&self) -> u32 {
        self.rows().len() as u32
    }

    open spec fn maneuverability_at(&self, x: u32, y: u32) -> Option<Maneuverability> {
        if y < self.rows().len() && x < self.rows()[y as int].len() {
            Some(self.rows()[y as int][x as int])
        } else {
            None
        }
    }

    fn get_scale(&self) -> (r: u32) {
        self.scale
    }

    fn get_width(&self) -> (r: u32) {
        if self.classes.len() == 0 {
            0
        } else {
            assert(self.rows()[0] == self.classes@[0]@);
            self.classes[0].len() as u32
        }
    }

    fn get_height(&self) -> (r: u32) {
        self.classes.len() as u32
    }

    fn get_maneuverability(&self, position: Position) -> (r: Option<Maneuverability>) {
        let x = position.x as usize;
        let y = position.y as usize;
        if y < self.classes.len() {
            assert(self.rows()[y as int] == self.classes@[y as int]@);
            assert(self.rows()[y as int].len() == self.rows()[0].len());
            if x < self.classes[y].len() {
                Some(self.classes[y][x])
            } else {
                None
            }
        } else {
            None
        }
    }
}

/// The additive builder of the maps of one terrain.
pub trait MapBuilder<T: Terrain>: Sized {
    /// The tiles laid so far, as rows of tiles.
    spec fn rows(&self) -> Seq<Seq<Tile<T>>>;

    /// The name given so far.
    spec fn name(&self) -> Option<Seq<char>>;

    /// The description given so far.
    spec fn description(&self) -> Option<Seq<char>>;

    /// The scale of the map to be built.
    spec fn tile_size(&self) -> u32;

    /// The identifier of the map to be built.
    spec fn id(&self) -> u128;

    /// The environment of the map to be built.
    spec fn environment(&self) -> Environments;

    /// A builder of a map of `height` rows of `width` tiles, each of them
    /// `default_tile`, without name or description.
    fn new(width: u32, height: u32, tile_size: u32, default_tile: Tile<T>) -> (r: Self)
        ensures
            r.rows() == uniform_rows(width, height, default_tile),
            r.name() is None,
            r.description() is None,
            r.tile_size() == tile_size,
    ;

    fn add_description(&mut self, description: &str)
        ensures
            final(self).description() == Some(description@),
            final(self).rows() == old(self).rows(),
            final(self).name() == old(self).name(),
            final(self).tile_size() == old(self).tile_size(),
            final(self).id() == old(self).id(),
            final(self).environment() == old(self).environment(),
    ;

    fn add_name(&mut self, map_name: &str)
        ensures
            final(self).name() == Some(map_name@),
            final(self).rows() == old(self).rows(),
            final(self).description() == old(self).description(),
            final(self).tile_size() == old(self).tile_size(),
            final(self).id() == old(self).id(),
            final(self).environment() == old(self).environment(),
    ;

    /// Lays `tile` at column `x` of row `y`.
    fn add_base_material(&mut self, x: u32, y: u32, tile: Tile<T>)
        requires
            y < old(self).rows().len(),
            x < old(self).rows()[y as int].len(),
        ensures
            final(self).rows() == rows_with(old(self).rows(), x as int, y as int, tile),
            final(self).name() == old(self).name(),
            final(self).description() == old(self).description(),
            final(self).tile_size() == old(self).tile_size(),
            final(self).id() == old(self).id(),
            final(self).environment() == old(self).environment(),
    ;

    fn build(&self) -> (r: BaseMap<T>)
        ensures
            r.rows() == self.rows(),
            r.scale == self.tile_size(),
            r.id == self.id(),
            r.environment == self.environment(),
            match self.name() {
                Some(n) => r.name is Some && r.name->0@ == n,
                None => r.name is None,
            },
            match self.description() {
                Some(d) => r.description is Some && r.description->0@ == d,
                None => r.description is None,
            },
            self.tile_size() > 0 && is_grid(self.rows()) ==> r.wf(),
    ;

    fn get_tile_size(&self) -> (r: u32)
        ensures
            r == self.tile_size(),
    ;
}

} // verus!
