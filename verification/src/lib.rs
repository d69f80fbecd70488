//! A verified 2D physics core for a small fixed-timestep game simulation:
//! force accumulation, integration, swept wall-collision resolution,
//! narrow-phase shape tests, and hierarchical transform propagation.
//!
//! All quantities are fixed-point numbers: an `i64` holding the real value
//! scaled by `fx::SCALE`.  The arithmetic saturates at `i64::MAX` /
//! `-i64::MAX` instead of overflowing, and every operation is specified
//! exactly over mathematical integers.

pub mod components;
pub mod control;
pub mod entities;
pub mod errors;
pub mod fx;
pub mod geometry;
pub mod laws;
pub mod mat;
pub mod narrow;
pub mod pipeline;
pub mod schedule;
pub mod sweep;
pub mod timers;
pub mod transform;
pub mod trig;
pub mod vec2;
pub mod world;
