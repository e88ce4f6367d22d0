//! The commonly used items of the crate, for convenient imports.

pub use crate::creatures::components::{CreatureActions, CreatureSheet};
pub use crate::creatures::creature_builder::{
    Appendage, AppendageEffect, AppendageHealth, Morphology, MorphologyBuilder,
};
pub use crate::creatures::morphologies;
pub use crate::creatures::Creature;
pub use crate::ecs::component::{Component, ComponentKind, ComponentVec};
pub use crate::ecs::components::{Inventory, Position, PropHealth};
pub use crate::ecs::entity::Entity;
pub use crate::ecs::world::World;
pub use crate::errors::{SimutronError, SimutronResult, Violation};
pub use crate::map::base_terrain::{
    BaseMap, Environments, Maneuverability, MapBuilder, MapSurface, Terrain, TerrainMap, Tile,
};
pub use crate::map::forest::{Forest, ForestBuilder, ForestMaterial};
pub use crate::map::maneuverability::TerrainManeuverability;
pub use crate::props::components::{Prop, PropAction, PropEffect};
