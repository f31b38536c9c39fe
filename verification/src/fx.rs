//! Ephemeral visual effects: drifting unlock notifications and the short
//! lived particles a jump scatters. Both fade at a constant rate and are
//! dropped once fully transparent.

use vstd::prelude::*;
use crate::consts::{
    BORB_START_X, FAST_PIPE_SPEED, FULL_ALPHA, JUMP_PARTICLE_NUM, JUMP_PARTICLE_START_X,
    JUMP_PARTICLE_START_Y, JUMP_PARTICLE_STEP_X, MAX_DT, MICRO, NOTIFICATION_ALPHA_SPEED,
    NOTIFICATION_SPEED, NOTIFICATION_START_Y, PARTICLE_ALPHA_SPEED, PARTICLE_DECEL,
    PARTICLE_MAX_SPIN, PARTICLE_MAX_START_ROT, PARTICLE_MIN_SPIN, PARTICLE_START_SPEED,
};
use crate::fixed::{
    div_m, lemma_abs_mul_bound, lemma_div_m_bounds, lemma_div_m_exact, lemma_div_m_tight,
    scale_down,
};
use crate::progress::UnlockNote;
use crate::rng::random_in_range;

verus! {

/// A fading unlock announcement drifting up the screen; `offset` is its
/// height above its spawn line in micro-units, `alpha` in micro-alpha.
#[derive(Clone, Copy, PartialEq, Eq, Structural, Debug)]
pub struct Notification {
    pub note: UnlockNote,
    pub offset: i64,
    pub alpha: i64,
}

impl Notification {
    /// Alive, and the offset has grown in lockstep with the fade.
    pub open spec fn wf(self) -> bool {
        &&& 0 < self.alpha <= FULL_ALPHA
        &&& self.offset == NOTIFICATION_START_Y + NOTIFICATION_SPEED * (FULL_ALPHA - self.alpha)
    }

    /// A fresh, fully opaque notification at the spawn offset.
    pub open spec fn spec_new(note: UnlockNote) -> Notification {
        Notification { note, offset: NOTIFICATION_START_Y, alpha: FULL_ALPHA }
    }

    /// The notification after drifting and fading for `dt` microseconds.
    pub open spec fn stepped(self, dt: int) -> Notification {
        Notification {
            note: self.note,
            offset: (self.offset + NOTIFICATION_SPEED * dt) as i64,
            alpha: (self.alpha - NOTIFICATION_ALPHA_SPEED * dt) as i64,
        }
    }

    /// A fresh notification for an unlock announcement.
    pub fn new(note: UnlockNote) -> (n: Notification)
        ensures
            n == Notification::spec_new(note),
            n.wf(),
    {
        Notification { note, offset: NOTIFICATION_START_Y, alpha: FULL_ALPHA }
    }

    /// One drift-and-fade step; reports whether the notification survives.
    pub fn update(&mut self, dt: i64) -> (alive: bool)
        requires
            old(self).wf(),
            0 <= dt <= MAX_DT,
        ensures
            *final(self) == old(self).stepped(dt as int),
            alive == (final(self).alpha > 0),
            alive ==> final(self).wf(),
    {
        self.offset = self.offset + NOTIFICATION_SPEED * dt;
        self.alpha = self.alpha - NOTIFICATION_ALPHA_SPEED * dt;
        self.alpha > 0
    }
}

/// The notifications after one tick: each drifts and fades, and the fully
/// transparent ones are dropped.
pub open spec fn stepped_notifications(s: Seq<Notification>, dt: int) -> Seq<Notification>
    decreases s.len(),
{
    if s.len() == 0 {
        Seq::empty()
    } else {
        let prefix = stepped_notifications(s.drop_last(), dt);
        let last = s.last().stepped(dt);
        if last.alpha > 0 {
            prefix.push(last)
        } else {
            prefix
        }
    }
}

/// Fresh notifications for a batch of unlock announcements, in order.
pub open spec fn notifications_of(notes: Seq<UnlockNote>) -> Seq<Notification> {
    notes.map_values(|n: UnlockNote| Notification::spec_new(n))
}

/// Advances every notification one tick and drops the ones that faded out.
pub fn update_notifications(notes: &mut Vec<Notification>, dt: i64)
    requires
        forall|i: int| 0 <= i < old(notes).len() ==> (#[trigger] old(notes)[i]).wf(),
        0 <= dt <= MAX_DT,
    ensures
        final(notes)@ == stepped_notifications(old(notes)@, dt as int),
        forall|i: int| 0 <= i < final(notes).len() ==> (#[trigger] final(notes)[i]).wf(),
{
    let ghost s0 = notes@;
    let mut out: Vec<Notification> = Vec::new();
    let mut i: usize = 0;
    while i < notes.len()
        invariant
            i <= notes.len(),
            notes@ == s0,
            0 <= dt <= MAX_DT,
            forall|j: int| 0 <= j < s0.len() ==> (#[trigger] s0[j]).wf(),
            out@ == stepped_notifications(s0.take(i as int), dt as int),
            forall|j: int| 0 <= j < out.len() ==> (#[trigger] out[j]).wf(),
        decreases notes.len() - i,
    {
        let mut n = notes[i];
        let alive = n.update(dt);
        if alive {
            out.push(n);
        }
        proof {
            assert(s0.take(i + 1).drop_last() =~= s0.take(i as int));
            assert(s0.take(i + 1).last() == s0[i as int]);
        }
        i = i + 1;
    }
    proof {
        assert(s0.take(s0.len() as int) =~= s0);
    }
    *notes = out;
}

/// Appends one fresh notification per unlock announcement, in order.
pub fn append_notifications(fx: &mut Vec<Notification>, notes: &Vec<UnlockNote>)
    ensures
        final(fx)@ == old(fx)@ + notifications_of(notes@),
        forall|i: int| 0 <= i < old(fx).len() ==> #[trigger] final(fx)[i] == old(fx)[i],
        forall|i: int|
            old(fx).len() <= i < final(fx).len() ==> (#[trigger] final(fx)[i]).wf(),
{
    let ghost fx0 = fx@;
    let mut i: usize = 0;
    while i < notes.len()
        invariant
            i <= notes.len(),
            fx@ == fx0 + notifications_of(notes@.take(i as int)),
            forall|j: int| 0 <= j < fx0.len() ==> #[trigger] fx@[j] == fx0[j],
            forall|j: int| fx0.len() <= j < fx.len() ==> (#[trigger] fx[j]).wf(),
        decreases notes.len() - i,
    {
        fx.push(Notification::new(notes[i]));
        proof {
            assert(fx@ =~= fx0 + notifications_of(notes@.take(i + 1)));
        }
        i = i + 1;
    }
    proof {
        assert(notes@.take(notes@.len() as int) =~= notes@);
    }
}

/// One short-lived jump particle: position in micro-units, a fixed
/// micro-scaled direction, a decaying scalar speed in micro-units per
/// second, rotation in micro-radians, spin in micro-radians per unit
/// travelled, and alpha in micro-alpha.
#[derive(Clone, Copy, PartialEq, Eq, Structural, Debug)]
pub struct Particle {
    pub x: i64,
    pub y: i64,
    pub dir_x: i64,
    pub dir_y: i64,
    pub speed: i64,
    pub rot: i64,
    pub rot_speed: i64,
    pub alpha: i64,
}

impl Particle {
    /// Alive, speed and spin within their spawn ranges, and position and
    /// rotation within a band that widens as the particle fades — which
    /// keeps every update within machine integer range.
    pub open spec fn wf(self) -> bool {
        &&& 0 < self.alpha <= FULL_ALPHA
        &&& 0 <= self.speed <= PARTICLE_START_SPEED
        &&& -MICRO <= self.dir_x <= MICRO
        &&& -MICRO <= self.dir_y <= MICRO
        &&& -PARTICLE_MAX_SPIN <= self.rot_speed <= PARTICLE_MAX_SPIN
        &&& -2_000_000_000 - 49 * (FULL_ALPHA - self.alpha) <= self.x <= 2_000_000_000 + 49 * (
        FULL_ALPHA - self.alpha)
        &&& -2_000_000_000 - 49 * (FULL_ALPHA - self.alpha) <= self.y <= 2_000_000_000 + 49 * (
        FULL_ALPHA - self.alpha)
        &&& -2_000_000_000 - 9 * (FULL_ALPHA - self.alpha) <= self.rot <= 2_000_000_000 + 9 * (
        FULL_ALPHA - self.alpha)
    }

    /// The particle after one tick: the speed decays linearly and is floored
    /// at zero, the position integrates the decayed speed along the fixed
    /// direction and drifts left with the world, the rotation accumulates
    /// with the distance travelled, and the alpha fades.
    pub open spec fn stepped(self, world_speed: int, dt: int) -> Particle {
        let sp = if self.speed - PARTICLE_DECEL * dt >= 0 {
            self.speed - PARTICLE_DECEL * dt
        } else {
            0
        };
        let travel = div_m(sp * dt);
        Particle {
            x: (self.x + div_m(self.dir_x * travel) - world_speed * dt) as i64,
            y: (self.y + div_m(self.dir_y * travel)) as i64,
            dir_x: self.dir_x,
            dir_y: self.dir_y,
            speed: sp as i64,
            rot: (self.rot + div_m(travel * self.rot_speed)) as i64,
            rot_speed: self.rot_speed,
            alpha: (self.alpha - PARTICLE_ALPHA_SPEED * dt) as i64,
        }
    }

    /// One decay-move-spin-fade step; reports whether the particle survives.
    pub fn update(&mut self, world_speed: i64, dt: i64) -> (alive: bool)
        requires
            old(self).wf(),
            0 <= world_speed <= FAST_PIPE_SPEED,
            0 <= dt <= MAX_DT,
        ensures
            *final(self) == old(self).stepped(world_speed as int, dt as int),
            alive == (final(self).alpha > 0),
            alive ==> final(self).wf(),
    {
        let sp1 = self.speed - PARTICLE_DECEL * dt;
        self.speed = if sp1 >= 0 { sp1 } else { 0 };
        proof {
            lemma_abs_mul_bound(self.speed as int, dt as int, 70_000_000, 10_000_000);
            lemma_abs_mul_bound(self.speed as int, dt as int, 70_000_000, dt as int);
            lemma_div_m_bounds(self.speed as int * dt as int, 700_000_000_000_000);
            lemma_div_m_tight(self.speed as int * dt as int, 70_000_000 * dt as int);
            lemma_div_m_exact(70 * dt as int);
            assert(70_000_000 * dt as int == (MICRO as int) * (70 * dt as int));
        }
        let travel = scale_down(self.speed * dt);
        proof {
            assert(0 <= travel <= 70 * dt as int);
            lemma_abs_mul_bound(self.dir_x as int, travel as int, 1_000_000, travel as int);
            lemma_abs_mul_bound(self.dir_y as int, travel as int, 1_000_000, travel as int);
            lemma_div_m_tight(self.dir_x as int * travel as int, 1_000_000 * travel as int);
            lemma_div_m_tight(self.dir_y as int * travel as int, 1_000_000 * travel as int);
            lemma_div_m_exact(travel as int);
            lemma_abs_mul_bound(world_speed as int, dt as int, 75, dt as int);
        }
        let dx = scale_down(self.dir_x * travel);
        let dy = scale_down(self.dir_y * travel);
        self.x = self.x + dx - world_speed * dt;
        self.y = self.y + dy;
        proof {
            lemma_abs_mul_bound(travel as int, self.rot_speed as int, 70 * dt as int, 350_000);
            assert((70 * dt as int) * 350_000 == 24_500_000 * dt as int) by (nonlinear_arith);
            lemma_div_m_tight(travel as int * self.rot_speed as int, 25_000_000 * dt as int);
            lemma_div_m_exact(25 * dt as int);
            assert(25_000_000 * dt as int == (MICRO as int) * (25 * dt as int));
        }
        let dr = scale_down(travel * self.rot_speed);
        self.rot = self.rot + dr;
        self.alpha = self.alpha - PARTICLE_ALPHA_SPEED * dt;
        self.alpha > 0
    }
}

/// The particles after one tick, the fully transparent ones dropped.
pub open spec fn stepped_particles(s: Seq<Particle>, world_speed: int, dt: int) -> Seq<Particle>
    decreases s.len(),
{
    if s.len() == 0 {
        Seq::empty()
    } else {
        let prefix = stepped_particles(s.drop_last(), world_speed, dt);
        let last = s.last().stepped(world_speed, dt);
        if last.alpha > 0 {
            prefix.push(last)
        } else {
            prefix
        }
    }
}

/// Advances every particle one tick and drops the ones that faded out.
pub fn update_particles(particles: &mut Vec<Particle>, world_speed: i64, dt: i64)
    requires
        forall|i: int| 0 <= i < old(particles).len() ==> (#[trigger] old(particles)[i]).wf(),
        0 <= world_speed <= FAST_PIPE_SPEED,
        0 <= dt <= MAX_DT,
    ensures
        final(particles)@ == stepped_particles(old(particles)@, world_speed as int, dt as int),
        forall|i: int| 0 <= i < final(particles).len() ==> (#[trigger] final(particles)[i]).wf(),
{
    let ghost s0 = particles@;
    let mut out: Vec<Particle> = Vec::new();
    let mut i: usize = 0;
    while i < particles.len()
        invariant
            i <= particles.len(),
            particles@ == s0,
            0 <= world_speed <= FAST_PIPE_SPEED,
            0 <= dt <= MAX_DT,
            forall|j: int| 0 <= j < s0.len() ==> (#[trigger] s0[j]).wf(),
            out@ == stepped_particles(s0.take(i as int), world_speed as int, dt as int),
            forall|j: int| 0 <= j < out.len() ==> (#[trigger] out[j]).wf(),
        decreases particles.len() - i,
    {
        let mut p = particles[i];
        let alive = p.update(world_speed, dt);
        if alive {
            out.push(p);
        }
        proof {
            assert(s0.take(i + 1).drop_last() =~= s0.take(i as int));
            assert(s0.take(i + 1).last() == s0[i as int]);
        }
        i = i + 1;
    }
    proof {
        assert(s0.take(s0.len() as int) =~= s0);
    }
    *particles = out;
}

/// What a jump particle looks like at spawn: the `i`-th of the row sits at
/// the fixed spacing below the player, fully opaque, moving straight down at
/// the start speed, with a random initial rotation and a random spin of
/// either sign.
pub open spec fn is_jump_particle(p: Particle, y: int, i: int) -> bool {
    &&& p.x == BORB_START_X + JUMP_PARTICLE_START_X + JUMP_PARTICLE_STEP_X * i
    &&& p.y == y + JUMP_PARTICLE_START_Y
    &&& p.dir_x == 0
    &&& p.dir_y == -MICRO
    &&& p.speed == PARTICLE_START_SPEED
    &&& 0 <= p.rot <= PARTICLE_MAX_START_ROT
    &&& (PARTICLE_MIN_SPIN <= p.rot_speed <= PARTICLE_MAX_SPIN || -PARTICLE_MAX_SPIN
        <= p.rot_speed <= -PARTICLE_MIN_SPIN)
    &&& p.alpha == FULL_ALPHA
}

/// Scatters the row of jump particles below the player at height `y`,
/// appending them to `particles`.
pub fn spawn_jump_particles(y: i64, particles: &mut Vec<Particle>)
    requires
        -1_000_000_000 <= y <= 1_000_000_000,
    ensures
        final(particles).len() == old(particles).len() + JUMP_PARTICLE_NUM,
        forall|i: int|
            0 <= i < old(particles).len() ==> #[trigger] final(particles)[i] == old(particles)[i],
        forall|i: int|
            0 <= i < JUMP_PARTICLE_NUM ==> {
                &&& is_jump_particle(
                    #[trigger] final(particles)[old(particles).len() + i],
                    y as int,
                    i,
                )
                &&& final(particles)[old(particles).len() + i].wf()
            },
{
    let ghost len0 = particles.len();
    let mut i: usize = 0;
    while i < JUMP_PARTICLE_NUM
        invariant
            i <= JUMP_PARTICLE_NUM,
            particles.len() == len0 + i,
            -1_000_000_000 <= y <= 1_000_000_000,
            forall|j: int| 0 <= j < len0 ==> #[trigger] particles[j] == old(particles)[j],
            forall|j: int|
                0 <= j < i ==> {
                    &&& is_jump_particle(#[trigger] particles[len0 + j], y as int, j)
                    &&& particles[len0 + j].wf()
                },
        decreases JUMP_PARTICLE_NUM - i,
    {
        let rot = random_in_range(0, PARTICLE_MAX_START_ROT);
        let spin_mag = random_in_range(PARTICLE_MIN_SPIN, PARTICLE_MAX_SPIN);
        let spin = if random_in_range(0, 1) == 1 {
            spin_mag
        } else {
            -spin_mag
        };
        particles.push(
            Particle {
                x: BORB_START_X + JUMP_PARTICLE_START_X + JUMP_PARTICLE_STEP_X * (i as i64),
                y: y + JUMP_PARTICLE_START_Y,
                dir_x: 0,
                dir_y: -MICRO,
                speed: PARTICLE_START_SPEED,
                rot,
                rot_speed: spin,
                alpha: FULL_ALPHA,
            },
        );
        i = i + 1;
    }
}

} // verus!
