//! Props are the theatrical kind: objects that creatures can interact with
//! in the game world.

pub mod components;
pub mod systems;
