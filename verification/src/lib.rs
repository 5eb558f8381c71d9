//! Simulation core of a terminal boomerang game.
//!
//! A player token moves on a bounded grid, dodging patrolling enemies and
//! eliminating them with a throwable boomerang. This crate holds the entire
//! game state machine — grid bounds, entity movement, the boomerang's
//! three-phase flight, enemy patrol and respawn, the per-tick collision
//! resolution, and the render-compose step — each operation specified and
//! verified. Terminal input and output live outside the library.

pub mod boomerang;
pub mod enemy;
pub mod entity;
pub mod field;
pub mod laws;
pub mod player;
pub mod world;
