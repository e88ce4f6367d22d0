//! Entities, their components, and the world that owns both.

pub mod component;
pub mod components;
pub mod entity;
pub mod movement;
pub mod world;
