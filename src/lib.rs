//! Interaction, combat and wander logic of a small real-time world, with
//! integer models: positions in millimetres, time in nanoseconds, entities
//! as `u64` identifiers.

pub mod health;
pub mod timer;
pub mod registry;
pub mod space;
pub mod hitbox;
mod chance;
pub mod enemy;
pub mod building;
pub mod tree;
pub mod input;
pub mod player;
