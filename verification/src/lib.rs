//! Simulation core of a two-paddle ball game.
//!
//! The engine advances a single ball with a fixed timestep, reflects it off
//! the playfield's vertical bounds, deflects it away from two paddles, and
//! resets it to the centre when it escapes horizontally. All coordinates and
//! velocities are fixed-point integers counted in thousandths of a world
//! unit, so every step is exact and free of rounding surprises.

pub mod box_collider;
pub mod engine;
pub mod physics;
pub mod rigid_body;
pub mod units;
pub mod vec2;
