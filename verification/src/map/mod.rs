//! Maps: grids of terrain tiles with a movement cost scale.

pub mod base_terrain;
pub mod forest;
pub mod maneuverability;
