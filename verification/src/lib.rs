//! Core simulation of a side-scrolling arcade game: a player body that flaps
//! between moving obstacle bars, axis-aligned collision detection, a recycling
//! obstacle track, a score-driven upgrade progression, ephemeral visual
//! effects, and the session state machine that ties them together.
//!
//! All quantities are fixed-point integers: positions and half-extents in
//! micro-units, velocities in micro-units per second, time deltas in
//! microseconds, angles in nano- or micro-radians, alpha in micro-alpha
//! (one million is fully opaque).

pub mod collision;
pub mod consts;
pub mod fixed;
pub mod fx;
pub mod physics;
pub mod pipes;
pub mod progress;
mod rng;
pub mod session;
