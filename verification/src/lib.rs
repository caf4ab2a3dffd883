//! Deterministic, rollback-safe simulation core of a two-player arena shooter.
//!
//! Every quantity is an integer: lengths are counted in millionths of a world
//! unit and time in microseconds, so that two peers that feed the same inputs
//! to [`state::SimulationState::step`] hold the same state bit for bit.

pub mod animation;
pub mod checksum;
pub mod combat;
pub mod components;
pub mod digest;
pub mod geometry;
pub mod input;
pub mod map;
pub mod movement;
pub mod projectile;
pub mod rng;
pub mod round;
pub mod seed;
pub mod state;
pub mod step;
