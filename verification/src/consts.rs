//! Fixed-point constants of the simulation.
//!
//! Lengths are in micro-units (one million per world unit), velocities in
//! micro-units per second, accelerations in units per second squared, times
//! in microseconds, alpha in micro-alpha, angles in nano- or micro-radians.

use vstd::prelude::*;

verus! {

/// Fixed-point scale: micro-units per world unit.
pub const MICRO: i64 = 1_000_000;

/// Gravity acceleration, in units per second squared. Multiplying by a time
/// delta in microseconds yields a velocity change in micro-units per second.
pub const GRAVITY: i64 = 140;

/// Lowest velocity gravity alone may reach, in micro-units per second.
pub const MAX_GRAVITY_VEL: i64 = -140_000_000;

/// Descent velocity of the fast-fall ability, in micro-units per second.
/// Once the ability is unlocked it is also the active velocity floor.
pub const FAST_FALL_SPEED: i64 = -160_000_000;

/// Velocity set by a jump, in micro-units per second.
pub const JUMP_FORCE: i64 = 110_000_000;

/// Cosmetic rotation per unit of velocity: nano-radians per (unit/second).
pub const ROT_PER_VEL: i64 = 6_381_360;

/// Screen half height, in micro-units.
pub const HALF_SCREEN_H: i64 = 150_000_000;

/// Fixed horizontal position of the player, in micro-units.
pub const BORB_START_X: i64 = -200_000_000;

/// Player collider half extent on each axis, in micro-units.
pub const BORB_HALF: i64 = 15_000_000;

/// Player sprite half height, in micro-units; used by the bounds check.
pub const BORB_HALF_HEIGHT: i64 = 18_000_000;

/// Out-of-bounds limit on the player's vertical position, in micro-units:
/// half the screen plus half the player sprite.
pub const BOUNDS_LIMIT: i64 = HALF_SCREEN_H + BORB_HALF_HEIGHT;

/// Obstacle bar collider half width, in micro-units.
pub const PIPE_HALF_W: i64 = 18_000_000;

/// Normal obstacle bar collider half height, in micro-units.
pub const PIPE_HALF_H: i64 = 96_000_000;

/// Middle obstacle bar collider half height, in micro-units.
pub const MIDDLE_HALF_H: i64 = 72_000_000;

/// Distance from a slot's gap center to the center of each normal bar,
/// in micro-units.
pub const BAR_OFFSET: i64 = 150_000_000;

/// Half of the screen width plus half of an obstacle's sprite width,
/// in micro-units: the obstacle track spans `[-HALF_TRACK_W, HALF_TRACK_W]`.
pub const HALF_TRACK_W: i64 = 274_000_000;

/// Largest magnitude of a slot's randomized gap-center offset, in micro-units.
pub const MAX_GAP_OFFSET: i64 = 80_000_000;

/// Number of obstacle slots in the ring.
pub const NUM_PIPES: usize = 3;

/// Horizontal spacing between successive slots: a third of the track width,
/// truncated to whole micro-units.
pub const PIPE_SPACING: i64 = 182_666_666;

/// Base scroll speed of the world, in units per second. Multiplying by a
/// time delta in microseconds yields a displacement in micro-units.
pub const PIPE_SPEED: i64 = 50;

/// Scroll speed once fast obstacles are unlocked, in units per second.
pub const FAST_PIPE_SPEED: i64 = 75;

/// Cap of the player-ability upgrade ladder.
pub const MAX_UPGRADES: u32 = 5;

/// Cap of the world-chaos upgrade ladder.
pub const MAX_CHAOS: u32 = 5;

/// Score points needed per upgrade.
pub const PIPES_PER_UPGRADE: u32 = 5;

/// Fully opaque alpha, in micro-alpha.
pub const FULL_ALPHA: i64 = 1_000_000;

/// Starting vertical offset of a notification, in micro-units.
pub const NOTIFICATION_START_Y: i64 = 10_000_000;

/// Upward drift rate of a notification, in units per second.
pub const NOTIFICATION_SPEED: i64 = 20;

/// Notification fade rate: micro-alpha per microsecond (one alpha per second).
pub const NOTIFICATION_ALPHA_SPEED: i64 = 1;

/// Particle deceleration, in units per second squared.
pub const PARTICLE_DECEL: i64 = 170;

/// Initial particle speed, in micro-units per second.
pub const PARTICLE_START_SPEED: i64 = 70_000_000;

/// Particle fade rate: micro-alpha per microsecond (three alpha per second).
pub const PARTICLE_ALPHA_SPEED: i64 = 3;

/// Smallest magnitude of a particle's spin, in micro-radians per unit.
pub const PARTICLE_MIN_SPIN: i64 = 200_000;

/// Largest magnitude of a particle's spin, in micro-radians per unit.
pub const PARTICLE_MAX_SPIN: i64 = 350_000;

/// Largest initial rotation of a particle, in micro-radians (about pi).
pub const PARTICLE_MAX_START_ROT: i64 = 3_141_592;

/// Number of particles spawned by a jump.
pub const JUMP_PARTICLE_NUM: usize = 4;

/// Horizontal offset of the first jump particle from the player center,
/// in micro-units.
pub const JUMP_PARTICLE_START_X: i64 = -15_000_000;

/// Vertical offset of each jump particle from the player center,
/// in micro-units.
pub const JUMP_PARTICLE_START_Y: i64 = -15_000_000;

/// Horizontal spacing between jump particles, in micro-units.
pub const JUMP_PARTICLE_STEP_X: i64 = 10_000_000;

/// Largest accepted time delta for one tick, in microseconds (ten seconds);
/// keeps every intermediate product within the machine integer range.
pub const MAX_DT: i64 = 10_000_000;

} // verus!
