//! Simutron: a simulation substrate for tabletop-style role-playing worlds.
//!
//! The crate offers an entity-component world, grid maps built from typed
//! terrain tiles, and creatures whose bodies are trees of appendages that
//! remember the damage done to them. Every function carries a contract that
//! is checked by Verus.

pub mod creatures;
pub mod ecs;
pub mod errors;
pub mod map;
pub mod prelude;
pub mod props;
