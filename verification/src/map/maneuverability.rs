//! Movement cost classes of terrain.

use vstd::prelude::*;

verus! {

#[derive(Clone, Copy, Debug, PartialEq, Eq)]
pub enum TerrainManeuverability {
    Unrestricted,
    Restricted,
    SeverelyRestricted,
    Impassable,
}

impl TerrainManeuverability {
    /// The cost factor of the class; the largest byte stands for a tile
    /// that cannot be entered at all.
    pub open spec fn cost_of(self) -> u8 {
        match self {
            TerrainManeuverability::Unrestricted => 1,
            TerrainManeuverability::Restricted => 2,
            TerrainManeuverability::SeverelyRestricted => 3,
            TerrainManeuverability::Impassable => u8::MAX,
        }
    }

    pub fn cost(&self) -> (r: u8)
        ensures
            r == self.cost_of(),
    {
        match self {
            TerrainManeuverability::Unrestricted => 1,
            TerrainManeuverability::Restricted => 2,
            TerrainManeuverability::SeverelyRestricted => 3,
            TerrainManeuverability::Impassable => u8::MAX,
        }
    }
}

} // verus!
