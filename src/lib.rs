//! Simulation core of a top-down arcade space shooter.
//!
//! All quantities are fixed-point integers; see [`units`] for the scales.

pub mod units;
pub mod trig;
pub mod geometry;
pub mod input;
pub mod projectile;
pub mod player;
pub mod game;
