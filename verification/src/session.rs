//! The session state machine: main menu, a running game, game over. It owns
//! every entity of a run, spawns them on entering the running state, drives
//! the fixed per-tick update order, and destroys them all on leaving.

use vstd::prelude::*;
use crate::collision::Aabb;
use crate::consts::{BOUNDS_LIMIT, JUMP_PARTICLE_NUM, MAX_DT, NUM_PIPES};
use crate::fx::{
    append_notifications, is_jump_particle, notifications_of, spawn_jump_particles,
    stepped_notifications, stepped_particles, update_notifications, update_particles,
    Notification, Particle,
};
use crate::physics::{rot_of_vel, vel_after_gravity, vel_after_input, y_after, Borb};
use crate::pipes::{count_awards, initial_x, move_pipes, spawn_pipes, PipeSlot};
use crate::progress::{
    n_upgrade_notes, n_upgrades, BorbUpgrades, Scoreboard, UnlockNote, WorldChaos,
};

verus! {

/// Why a run ended.
#[derive(Clone, Copy, PartialEq, Eq, Structural, Debug)]
pub enum GameOverCause {
    HitPipe,
    TooHigh,
    TooLow,
}

/// The top-level state of the session machine.
#[derive(Clone, Copy, PartialEq, Eq, Structural, Debug)]
pub enum SessionState {
    MainMenu,
    Playing,
    GameOver(GameOverCause),
}

/// The abstract input of one tick: the elapsed time in microseconds and the
/// edge-triggered presses.
#[derive(Clone, Copy, PartialEq, Eq, Structural, Debug)]
pub struct TickInput {
    pub dt: i64,
    pub jump: bool,
    pub fast_fall: bool,
}

/// Everything a running session owns: the player, the obstacle ring, the
/// progression state and the in-flight effects.
pub struct World {
    pub borb: Borb,
    pub pipes: Vec<PipeSlot>,
    pub scoreboard: Scoreboard,
    pub upgrades: BorbUpgrades,
    pub chaos: WorldChaos,
    pub notifications: Vec<Notification>,
    pub particles: Vec<Particle>,
}

impl World {
    /// Every component is well formed, the ring is full, and the player sits
    /// within the out-of-bounds limits (a tick that leaves them ends the
    /// run in the same tick).
    pub open spec fn wf(self) -> bool {
        &&& self.borb.wf()
        &&& -BOUNDS_LIMIT <= self.borb.y <= BOUNDS_LIMIT
        &&& self.pipes.len() == NUM_PIPES
        &&& forall|i: int| 0 <= i < self.pipes.len() ==> (#[trigger] self.pipes[i]).wf()
        &&& self.upgrades.wf()
        &&& self.chaos.wf()
        &&& forall|i: int| 0 <= i < self.notifications.len() ==> (#[trigger] self.notifications[i]).wf()
        &&& forall|i: int| 0 <= i < self.particles.len() ==> (#[trigger] self.particles[i]).wf()
    }
}

/// The player after the tick's input and gravity phases; rotation is
/// recomputed later in the tick.
pub open spec fn borb_after(b: Borb, input: TickInput, ff_unlocked: bool) -> Borb {
    let v0 = vel_after_input(b.vel as int, input.jump, input.fast_fall, ff_unlocked);
    let v1 = vel_after_gravity(v0, input.dt as int, ff_unlocked);
    Borb { y: y_after(b.y as int, v1, input.dt as int) as i64, vel: v1 as i64, rot: b.rot }
}

/// A slot after this tick's scroll, before any recycle; the scored flag is
/// irrelevant to geometry and cleared here.
pub open spec fn moved_slot(s: PipeSlot, speed: int, dt: int) -> PipeSlot {
    PipeSlot { x: s.moved_x(speed, dt) as i64, gap_y: s.gap_y, scored: false, kind: s.kind }
}

/// Whether any slot overlaps the box after this tick's scroll. A slot
/// recycled this tick stands at the track's right edge, far from the player,
/// so only the surviving slots can hit.
pub open spec fn any_pipe_hit(pipes: Seq<PipeSlot>, speed: int, dt: int, bbox: Aabb) -> bool {
    exists|i: int|
        0 <= i < pipes.len() && !(#[trigger] pipes[i]).recycles(speed, dt) && moved_slot(
            pipes[i],
            speed,
            dt,
        ).spec_hits(bbox)
}

/// The game-over cause one tick of the world produces, if any: a collision
/// with an obstacle is checked first, then falling below the screen, then
/// flying above it — all against the positions this tick's movement yields.
pub open spec fn tick_cause(w: World, input: TickInput) -> Option<GameOverCause> {
    let b1 = borb_after(w.borb, input, w.upgrades.fast_fall);
    if any_pipe_hit(w.pipes@, w.chaos.world_speed as int, input.dt as int, b1.spec_collider()) {
        Some(GameOverCause::HitPipe)
    } else if b1.y < -BOUNDS_LIMIT {
        Some(GameOverCause::TooLow)
    } else if b1.y > BOUNDS_LIMIT {
        Some(GameOverCause::TooHigh)
    } else {
        None
    }
}

/// Whether any slot of the ring currently overlaps the box.
fn any_hit(pipes: &Vec<PipeSlot>, bbox: &Aabb) -> (r: bool)
    requires
        forall|i: int| 0 <= i < pipes.len() ==> (#[trigger] pipes[i]).wf(),
        bbox.wf(),
    ensures
        r == exists|i: int| 0 <= i < pipes.len() && (#[trigger] pipes[i]).spec_hits(*bbox),
{
    let mut i: usize = 0;
    while i < pipes.len()
        invariant
            i <= pipes.len(),
            bbox.wf(),
            forall|j: int| 0 <= j < pipes.len() ==> (#[trigger] pipes[j]).wf(),
            forall|j: int| 0 <= j < i ==> !(#[trigger] pipes[j]).spec_hits(*bbox),
        decreases pipes.len() - i,
    {
        if pipes[i].hits(bbox) {
            return true;
        }
        i = i + 1;
    }
    false
}

/// The whole game as seen from outside: the current state and, while a run
/// is active, the world it owns. The final score of the last finished run is
/// kept for the menu.
pub struct Session {
    pub state: SessionState,
    pub world: Option<World>,
    pub last_score: u32,
}

impl Session {
    /// A world exists exactly while a run is active, and it is well formed.
    pub open spec fn wf(self) -> bool {
        &&& (self.state is Playing <==> self.world is Some)
        &&& (self.world is Some ==> self.world->Some_0.wf())
    }

    /// The score the menu collaborator reads: the live score of a running
    /// session, else the final score of the last finished run.
    pub open spec fn spec_score(self) -> u32 {
        if self.world is Some {
            self.world->Some_0.scoreboard.score
        } else {
            self.last_score
        }
    }

    /// A fresh session at the main menu, owning nothing.
    pub fn new() -> (s: Session)
        ensures
            s.state is MainMenu,
            s.world is None,
            s.last_score == 0,
            s.wf(),
    {
        Session { state: SessionState::MainMenu, world: None, last_score: 0 }
    }

    /// The score the menu collaborator reads.
    pub fn score(&self) -> (s: u32)
        ensures
            s == self.spec_score(),
    {
        match &self.world {
            Some(w) => w.scoreboard.score,
            None => self.last_score,
        }
    }

    /// Enters a fresh run from the main menu: spawns the player at rest at
    /// the start position and a full ring of normal slots at their starting
    /// positions, and resets the progression to its defaults.
    pub fn start_game(&mut self)
        requires
            old(self).wf(),
            old(self).state is MainMenu,
        ensures
            final(self).wf(),
            final(self).state is Playing,
            final(self).last_score == old(self).last_score,
            ({
                let w = final(self).world->Some_0;
                &&& w.borb == (Borb { y: 0i64, vel: 0i64, rot: 0i64 })
                &&& w.scoreboard == Scoreboard::init_spec()
                &&& w.upgrades == BorbUpgrades::init_spec()
                &&& w.chaos == WorldChaos::init_spec()
                &&& w.notifications@ == Seq::<Notification>::empty()
                &&& w.particles@ == Seq::<Particle>::empty()
                &&& w.pipes.len() == NUM_PIPES
                &&& forall|i: int|
                    0 <= i < w.pipes.len() ==> {
                        &&& (#[trigger] w.pipes[i]).wf()
                        &&& w.pipes[i].x == initial_x(i)
                        &&& w.pipes[i].kind is Normal
                        &&& !w.pipes[i].scored
                    }
            }),
    {
        let world = World {
            borb: Borb::new(),
            pipes: spawn_pipes(),
            scoreboard: Scoreboard { score: 0, last_upgrade_was_chaos: true },
            upgrades: BorbUpgrades { num_upgrades: 0, fast_fall: false },
            chaos: WorldChaos {
                num_chaos: 0,
                fast_pipes: false,
                different_pipes: false,
                world_speed: crate::consts::PIPE_SPEED,
            },
            notifications: Vec::new(),
            particles: Vec::new(),
        };
        self.world = Some(world);
        self.state = SessionState::Playing;
    }

    /// Returns from a finished run to the main menu.
    pub fn return_to_menu(&mut self)
        requires
            old(self).wf(),
            old(self).state is GameOver,
        ensures
            final(self).wf(),
            final(self).state is MainMenu,
            final(self).world is None,
            final(self).last_score == old(self).last_score,
    {
        self.state = SessionState::MainMenu;
    }

    /// One tick of a running session, in the fixed order: input edges,
    /// gravity integration, obstacle scroll and scoring, the collision
    /// check, the bounds check, the cosmetic rotation, then the effect
    /// updates — the checks see the positions this tick's movement yields.
    /// Returns the cause if the run ended this tick; the caller plays the
    /// collision sound on it. A run that ends destroys all its entities in
    /// the same step and keeps only the final score.
    pub fn tick(&mut self, input: TickInput) -> (game_over: Option<GameOverCause>)
        requires
            old(self).wf(),
            old(self).state is Playing,
            0 <= input.dt <= MAX_DT,
            old(self).world->Some_0.scoreboard.score + NUM_PIPES <= u32::MAX,
        ensures
            final(self).wf(),
            ({
                let w = old(self).world->Some_0;
                let b1 = borb_after(w.borb, input, w.upgrades.fast_fall);
                let speed = w.chaos.world_speed as int;
                let a = count_awards(w.pipes@, speed, input.dt as int, w.pipes.len() as int);
                let cause = tick_cause(w, input);
                &&& game_over == cause
                &&& match cause {
                    Some(c) => {
                        &&& final(self).state == SessionState::GameOver(c)
                        &&& final(self).world is None
                        &&& final(self).last_score == w.scoreboard.score + a
                    },
                    None => {
                        let k = Scoreboard::thresholds_crossed(
                            w.scoreboard.score as int,
                            w.scoreboard.score + a,
                        ) as nat;
                        let prog = n_upgrades(
                            w.scoreboard.last_upgrade_was_chaos,
                            w.upgrades,
                            w.chaos,
                            k,
                        );
                        let new_notes = n_upgrade_notes(
                            w.scoreboard.last_upgrade_was_chaos,
                            w.upgrades,
                            w.chaos,
                            k,
                        );
                        let w2 = final(self).world->Some_0;
                        &&& final(self).state is Playing
                        &&& final(self).world is Some
                        &&& final(self).last_score == old(self).last_score
                        &&& w2.borb.y == b1.y
                        &&& w2.borb.vel == b1.vel
                        &&& w2.borb.rot == rot_of_vel(b1.vel as int)
                        &&& w2.pipes.len() == w.pipes.len()
                        &&& forall|i: int|
                            0 <= i < w.pipes.len() ==> w.pipes@[i].stepped(
                                #[trigger] w2.pipes@[i],
                                speed,
                                input.dt as int,
                                w.chaos.different_pipes,
                            )
                        &&& w2.scoreboard.score == w.scoreboard.score + a
                        &&& w2.scoreboard.last_upgrade_was_chaos == prog.0
                        &&& w2.upgrades == prog.1
                        &&& w2.chaos == prog.2
                        &&& w2.notifications@ == stepped_notifications(
                            w.notifications@,
                            input.dt as int,
                        ) + notifications_of(new_notes)
                        &&& w2.particles@.len() == stepped_particles(
                            w.particles@,
                            speed,
                            input.dt as int,
                        ).len() + if input.jump {
                            JUMP_PARTICLE_NUM as int
                        } else {
                            0int
                        }
                        &&& forall|i: int|
                            0 <= i < stepped_particles(w.particles@, speed, input.dt as int).len()
                                ==> #[trigger] w2.particles@[i] == stepped_particles(
                                w.particles@,
                                speed,
                                input.dt as int,
                            )[i]
                        &&& (input.jump ==> forall|i: int|
                            0 <= i < JUMP_PARTICLE_NUM ==> is_jump_particle(
                                #[trigger] w2.particles@[stepped_particles(
                                    w.particles@,
                                    speed,
                                    input.dt as int,
                                ).len() + i],
                                w.borb.y as int,
                                i,
                            ))
                    },
                }
            }),
    {
        let cause: Option<GameOverCause>;
        let final_score: u32;
        match &mut self.world {
            Some(w) => {
                let ghost w0 = *w;
                let speed = w.chaos.world_speed;
                // a jump scatters particles at the pre-gravity position, but
                // they join the world only at the end of the tick and are
                // first moved by the next one
                let y_at_jump = w.borb.y;
                // input edges
                w.borb.apply_input(input.jump, input.fast_fall, w.upgrades.fast_fall);
                // gravity integration
                w.borb.apply_gravity(input.dt, w.upgrades.fast_fall);
                // obstacle scroll, scoring, unlocks
                let mut new_notes: Vec<UnlockNote> = Vec::new();
                move_pipes(
                    &mut w.pipes,
                    &mut w.scoreboard,
                    &mut w.upgrades,
                    &mut w.chaos,
                    &mut new_notes,
                    input.dt,
                );
                // collision check against the post-movement positions
                let bbox = w.borb.collider();
                let hit = any_hit(&w.pipes, &bbox);
                proof {
                    let speedi = speed as int;
                    let dti = input.dt as int;
                    assert forall|i: int| 0 <= i < w.pipes@.len() implies (#[trigger] w.pipes@[i]).spec_hits(
                        bbox,
                    ) == (!w0.pipes@[i].recycles(speedi, dti) && moved_slot(
                        w0.pipes@[i],
                        speedi,
                        dti,
                    ).spec_hits(bbox)) by {
                        assert(w0.pipes@[i].stepped(w.pipes@[i], speedi, dti, w0.chaos.different_pipes));
                        if w0.pipes@[i].recycles(speedi, dti) {
                            assert(!w.pipes@[i].spec_hits(bbox));
                        } else {
                            let m = moved_slot(w0.pipes@[i], speedi, dti);
                            assert(w.pipes@[i].bottom_bar() == m.bottom_bar());
                            assert(w.pipes@[i].top_bar() == m.top_bar());
                            assert(w.pipes@[i].middle_bar() == m.middle_bar());
                            assert(w.pipes@[i].kind == m.kind);
                        }
                    }
                    if hit {
                        let i = choose|i: int|
                            0 <= i < w.pipes@.len() && (#[trigger] w.pipes@[i]).spec_hits(bbox);
                        assert(!w0.pipes@[i].recycles(speedi, dti) && moved_slot(
                            w0.pipes@[i],
                            speedi,
                            dti,
                        ).spec_hits(bbox));
                        assert(any_pipe_hit(w0.pipes@, speedi, dti, bbox));
                    } else if any_pipe_hit(w0.pipes@, speedi, dti, bbox) {
                        let i = choose|i: int|
                            0 <= i < w0.pipes@.len() && !(#[trigger] w0.pipes@[i]).recycles(
                                speedi,
                                dti,
                            ) && moved_slot(w0.pipes@[i], speedi, dti).spec_hits(bbox);
                        assert(w.pipes@[i].spec_hits(bbox));
                        assert(false);
                    }
                    assert(hit == any_pipe_hit(w0.pipes@, speedi, dti, bbox));
                }
                // bounds checks, in the fixed order, after the collision check
                let go: Option<GameOverCause> = if hit {
                    Some(GameOverCause::HitPipe)
                } else if w.borb.y < -BOUNDS_LIMIT {
                    Some(GameOverCause::TooLow)
                } else if w.borb.y > BOUNDS_LIMIT {
                    Some(GameOverCause::TooHigh)
                } else {
                    None
                };
                if go.is_none() {
                    // cosmetic rotation, then the effect updates
                    w.borb.update_rotation();
                    update_notifications(&mut w.notifications, input.dt);
                    update_particles(&mut w.particles, speed, input.dt);
                    append_notifications(&mut w.notifications, &new_notes);
                    if input.jump {
                        let ghost pmid = w.particles@;
                        spawn_jump_particles(y_at_jump, &mut w.particles);
                        proof {
                            assert forall|i: int|
                                0 <= i < w.particles.len() implies (#[trigger] w.particles[i]).wf() by {
                                if i < pmid.len() {
                                    assert(w.particles[i] == pmid[i]);
                                } else {
                                    let j = i - pmid.len();
                                    assert(is_jump_particle(
                                        w.particles[pmid.len() + j],
                                        y_at_jump as int,
                                        j,
                                    ));
                                    assert(w.particles[pmid.len() + j].wf());
                                }
                            };
                        }
                    }
                }
                final_score = w.scoreboard.score;
                cause = go;
            },
            None => {
                proof {
                    assert(false);
                }
                cause = None;
                final_score = 0;
            },
        }
        match cause {
            Some(c) => {
                self.state = SessionState::GameOver(c);
                self.world = None;
                self.last_score = final_score;
            },
            None => {},
        }
        cause
    }
}

} // verus!
