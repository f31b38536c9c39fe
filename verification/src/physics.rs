//! The player body: vertical velocity and position integration, jump and
//! fast-fall inputs, and the cosmetic rotation derived from velocity.

use vstd::prelude::*;
use crate::consts::{
    BORB_HALF, BORB_START_X, FAST_FALL_SPEED, GRAVITY, JUMP_FORCE, MAX_DT, MAX_GRAVITY_VEL,
    ROT_PER_VEL,
};
use crate::fixed::{div_m, scale_down, lemma_abs_mul_bound, lemma_div_m_bounds};
use crate::collision::Aabb;

verus! {

/// The player: vertical position and rotation; the horizontal position is
/// fixed at `BORB_START_X`. Velocity is in micro-units per second, position
/// in micro-units, rotation in nano-radians.
#[derive(Clone, Copy, PartialEq, Eq, Structural, Debug)]
pub struct Borb {
    pub y: i64,
    pub vel: i64,
    pub rot: i64,
}

/// The velocity floor that gravity clamps to: the fast-fall speed once that
/// ability is unlocked, the plain gravity cap before.
pub open spec fn vel_floor(ff_unlocked: bool) -> int {
    if ff_unlocked {
        FAST_FALL_SPEED as int
    } else {
        MAX_GRAVITY_VEL as int
    }
}

/// Velocity after the tick's input edges: a jump sets it to the jump force;
/// otherwise a fast-fall press, once unlocked, sets it to the fast-fall speed.
pub open spec fn vel_after_input(v: int, jump: bool, fast_fall: bool, ff_unlocked: bool) -> int {
    if jump {
        JUMP_FORCE as int
    } else if fast_fall && ff_unlocked {
        FAST_FALL_SPEED as int
    } else {
        v
    }
}

/// Velocity after one gravity integration step over `dt` microseconds,
/// clamped from below by the active floor.
pub open spec fn vel_after_gravity(v: int, dt: int, ff_unlocked: bool) -> int {
    let v1 = v - GRAVITY * dt;
    if v1 < vel_floor(ff_unlocked) {
        vel_floor(ff_unlocked)
    } else {
        v1
    }
}

/// Position after integrating velocity `v` over `dt` microseconds.
pub open spec fn y_after(y: int, v: int, dt: int) -> int {
    y + div_m(v * dt)
}

/// Cosmetic rotation derived from velocity, in nano-radians.
pub open spec fn rot_of_vel(v: int) -> int {
    div_m(v * ROT_PER_VEL)
}

/// Velocity after a whole sequence of gravity steps.
pub open spec fn vel_after_ticks(v: int, dts: Seq<int>, ff_unlocked: bool) -> int
    decreases dts.len(),
{
    if dts.len() == 0 {
        v
    } else {
        vel_after_ticks(vel_after_gravity(v, dts[0], ff_unlocked), dts.skip(1), ff_unlocked)
    }
}

/// Law: whatever the sequence of time deltas, velocity after at least one
/// gravity integration never falls below the active floor.
pub proof fn lemma_velocity_floor(v: int, dts: Seq<int>, ff_unlocked: bool)
    requires
        dts.len() >= 1,
    ensures
        vel_after_ticks(v, dts, ff_unlocked) >= vel_floor(ff_unlocked),
    decreases dts.len(),
{
    if dts.len() == 1 {
        let v1 = vel_after_gravity(v, dts[0], ff_unlocked);
        assert(dts.skip(1).len() == 0);
        assert(vel_after_ticks(v1, dts.skip(1), ff_unlocked) == v1);
    } else {
        lemma_velocity_floor(vel_after_gravity(v, dts[0], ff_unlocked), dts.skip(1), ff_unlocked);
    }
}

impl Borb {
    /// Velocity stays between the fast-fall floor and the jump force.
    pub open spec fn wf(self) -> bool {
        FAST_FALL_SPEED <= self.vel <= JUMP_FORCE
    }

    /// The player's collision box.
    pub open spec fn spec_collider(self) -> Aabb {
        Aabb { cx: BORB_START_X, cy: self.y, hx: BORB_HALF, hy: BORB_HALF }
    }

    /// A fresh player at the session start position: vertical center, at rest.
    pub fn new() -> (b: Borb)
        ensures
            b == (Borb { y: 0i64, vel: 0i64, rot: 0i64 }),
            b.wf(),
    {
        Borb { y: 0, vel: 0, rot: 0 }
    }

    /// Applies the tick's input edges to the velocity: a jump sets it to the
    /// jump force unconditionally; otherwise a fast-fall press sets it to the
    /// fast-fall speed once that ability is unlocked.
    pub fn apply_input(&mut self, jump: bool, fast_fall: bool, ff_unlocked: bool)
        ensures
            final(self).vel == vel_after_input(old(self).vel as int, jump, fast_fall, ff_unlocked),
            final(self).y == old(self).y,
            final(self).rot == old(self).rot,
            old(self).wf() ==> final(self).wf(),
    {
        if jump {
            self.vel = JUMP_FORCE;
        } else if fast_fall && ff_unlocked {
            self.vel = FAST_FALL_SPEED;
        }
    }

    /// One gravity integration step: velocity decreases with gravity, is
    /// clamped to the active floor, then the clamped velocity moves the
    /// position.
    pub fn apply_gravity(&mut self, dt: i64, ff_unlocked: bool)
        requires
            old(self).wf(),
            0 <= dt <= MAX_DT,
            -2_000_000_000 <= old(self).y <= 2_000_000_000,
        ensures
            final(self).vel == vel_after_gravity(old(self).vel as int, dt as int, ff_unlocked),
            final(self).y == y_after(old(self).y as int, final(self).vel as int, dt as int),
            final(self).rot == old(self).rot,
            final(self).wf(),
            -4_000_000_000 <= final(self).y <= 4_000_000_000,
    {
        let floor = if ff_unlocked { FAST_FALL_SPEED } else { MAX_GRAVITY_VEL };
        let v1 = self.vel - GRAVITY * dt;
        self.vel = if v1 < floor { floor } else { v1 };
        proof {
            lemma_abs_mul_bound(self.vel as int, dt as int, 160_000_000, 10_000_000);
            lemma_div_m_bounds(self.vel as int * dt as int, 1_600_000_000_000_000);
        }
        self.y = self.y + scale_down(self.vel * dt);
    }

    /// Recomputes the cosmetic rotation from the current velocity.
    pub fn update_rotation(&mut self)
        requires
            old(self).wf(),
        ensures
            final(self).rot == rot_of_vel(old(self).vel as int),
            final(self).y == old(self).y,
            final(self).vel == old(self).vel,
            final(self).wf(),
    {
        proof {
            lemma_abs_mul_bound(self.vel as int, ROT_PER_VEL as int, 160_000_000, 6_381_360);
            lemma_div_m_bounds(self.vel as int * ROT_PER_VEL, 1_021_017_600_000_000);
        }
        self.rot = scale_down(self.vel * ROT_PER_VEL);
    }

    /// The player's collision box, centered at the fixed horizontal position.
    pub fn collider(&self) -> (r: Aabb)
        ensures
            r == self.spec_collider(),
            -4_000_000_000 <= self.y <= 4_000_000_000 ==> r.wf(),
    {
        Aabb { cx: BORB_START_X, cy: self.y, hx: BORB_HALF, hy: BORB_HALF }
    }
}

} // verus!
