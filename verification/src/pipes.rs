//! The obstacle track: a fixed ring of slots that scroll leftward, recycle
//! with a fresh random gap when they cross the lower bound, and award one
//! score point each time they pass the player.

use vstd::prelude::*;
use crate::collision::{intersects, spec_intersects, Aabb};
use crate::consts::{
    BAR_OFFSET, BORB_START_X, HALF_TRACK_W, MAX_DT, MAX_GAP_OFFSET, MIDDLE_HALF_H, NUM_PIPES,
    PIPE_HALF_H, PIPE_HALF_W, PIPE_SPACING,
};
use crate::progress::{
    n_upgrade_notes, n_upgrades, lemma_n_upgrade_notes_add, lemma_n_upgrades_add,
    lemma_thresholds_nonneg, BorbUpgrades, Scoreboard, UnlockNote, WorldChaos,
};
use crate::fixed::lemma_abs_mul_bound;
use crate::rng::random_in_range;

verus! {

/// The variant of an obstacle slot: two opposing bars around a gap, or a
/// single bar across the middle.
#[derive(Clone, Copy, PartialEq, Eq, Structural, Debug)]
pub enum PipeType {
    Normal,
    Middle,
}

/// One recyclable obstacle slot: its horizontal position and gap-center
/// offset in micro-units, whether it has already awarded its score point
/// since the last recycle, and its variant.
#[derive(Clone, Copy, PartialEq, Eq, Structural, Debug)]
pub struct PipeSlot {
    pub x: i64,
    pub gap_y: i64,
    pub scored: bool,
    pub kind: PipeType,
}

impl PipeSlot {
    /// The position stays on the track, the gap offset within its roll
    /// bounds, and the middle variant keeps its gap centered.
    pub open spec fn wf(self) -> bool {
        &&& -HALF_TRACK_W <= self.x <= HALF_TRACK_W
        &&& -MAX_GAP_OFFSET <= self.gap_y <= MAX_GAP_OFFSET
        &&& (self.kind is Middle ==> self.gap_y == 0)
    }

    /// The collider of the lower bar of a normal slot.
    pub open spec fn bottom_bar(self) -> Aabb {
        Aabb {
            cx: self.x,
            cy: (self.gap_y - BAR_OFFSET) as i64,
            hx: PIPE_HALF_W,
            hy: PIPE_HALF_H,
        }
    }

    /// The collider of the upper bar of a normal slot.
    pub open spec fn top_bar(self) -> Aabb {
        Aabb {
            cx: self.x,
            cy: (self.gap_y + BAR_OFFSET) as i64,
            hx: PIPE_HALF_W,
            hy: PIPE_HALF_H,
        }
    }

    /// The collider of the single bar of a middle slot.
    pub open spec fn middle_bar(self) -> Aabb {
        Aabb { cx: self.x, cy: self.gap_y, hx: PIPE_HALF_W, hy: MIDDLE_HALF_H }
    }

    /// Whether any live collider of the slot overlaps the box; only the
    /// active variant's colliders count.
    pub open spec fn spec_hits(self, b: Aabb) -> bool {
        match self.kind {
            PipeType::Normal => spec_intersects(self.bottom_bar(), b) || spec_intersects(
                self.top_bar(),
                b,
            ),
            PipeType::Middle => spec_intersects(self.middle_bar(), b),
        }
    }

    /// The slot's live colliders: both bars of a normal slot, the single bar
    /// of a middle slot. Only these take part in collision and rendering.
    pub fn colliders(&self) -> (v: Vec<Aabb>)
        requires
            self.wf(),
        ensures
            self.kind is Normal ==> v@ == seq![self.bottom_bar(), self.top_bar()],
            self.kind is Middle ==> v@ == seq![self.middle_bar()],
    {
        match self.kind {
            PipeType::Normal => {
                let bottom = Aabb {
                    cx: self.x,
                    cy: self.gap_y - BAR_OFFSET,
                    hx: PIPE_HALF_W,
                    hy: PIPE_HALF_H,
                };
                let top = Aabb {
                    cx: self.x,
                    cy: self.gap_y + BAR_OFFSET,
                    hx: PIPE_HALF_W,
                    hy: PIPE_HALF_H,
                };
                let v = vec![bottom, top];
                proof {
                    assert(v@ =~= seq![self.bottom_bar(), self.top_bar()]);
                }
                v
            },
            PipeType::Middle => {
                let mid = Aabb { cx: self.x, cy: self.gap_y, hx: PIPE_HALF_W, hy: MIDDLE_HALF_H };
                let v = vec![mid];
                proof {
                    assert(v@ =~= seq![self.middle_bar()]);
                }
                v
            },
        }
    }

    /// Collision test of the slot's live colliders against a box.
    pub fn hits(&self, b: &Aabb) -> (r: bool)
        requires
            self.wf(),
            b.wf(),
        ensures
            r == self.spec_hits(*b),
    {
        match self.kind {
            PipeType::Normal => {
                let bottom = Aabb {
                    cx: self.x,
                    cy: self.gap_y - BAR_OFFSET,
                    hx: PIPE_HALF_W,
                    hy: PIPE_HALF_H,
                };
                let top = Aabb {
                    cx: self.x,
                    cy: self.gap_y + BAR_OFFSET,
                    hx: PIPE_HALF_W,
                    hy: PIPE_HALF_H,
                };
                intersects(&bottom, b) || intersects(&top, b)
            },
            PipeType::Middle => {
                let mid = Aabb { cx: self.x, cy: self.gap_y, hx: PIPE_HALF_W, hy: MIDDLE_HALF_H };
                intersects(&mid, b)
            },
        }
    }

    /// Where one scroll step puts the slot, before any recycle.
    pub open spec fn moved_x(self, speed: int, dt: int) -> int {
        self.x - speed * dt
    }

    /// Whether this step takes the slot past the track's lower bound.
    pub open spec fn recycles(self, speed: int, dt: int) -> bool {
        self.moved_x(speed, dt) < -HALF_TRACK_W
    }

    /// Whether this step makes the slot pass the player's horizontal
    /// position for the first time since its last recycle.
    pub open spec fn awards(self, speed: int, dt: int) -> bool {
        &&& !self.recycles(speed, dt)
        &&& !self.scored
        &&& self.moved_x(speed, dt) < BORB_START_X
    }

    /// How a slot before one scroll step relates to the slot after it:
    /// either a plain move whose scored flag picks up this step's award, or
    /// a recycle to the upper bound with a re-rolled gap and variant.
    pub open spec fn stepped(self, post: PipeSlot, speed: int, dt: int, different_pipes: bool) -> bool {
        if self.recycles(speed, dt) {
            &&& post.x == HALF_TRACK_W
            &&& !post.scored
            &&& (post.kind is Middle ==> different_pipes && self.kind is Normal && post.gap_y == 0)
            &&& (post.kind is Normal ==> -MAX_GAP_OFFSET <= post.gap_y <= MAX_GAP_OFFSET)
            &&& (!different_pipes || self.kind is Middle ==> post.kind is Normal)
        } else {
            &&& post.x == self.moved_x(speed, dt)
            &&& post.gap_y == self.gap_y
            &&& post.kind == self.kind
            &&& post.scored == (self.scored || self.awards(speed, dt))
        }
    }

    /// A fresh slot: normal variant, not yet scored.
    pub fn new(x: i64, gap_y: i64) -> (s: PipeSlot)
        requires
            -HALF_TRACK_W <= x <= HALF_TRACK_W,
            -MAX_GAP_OFFSET <= gap_y <= MAX_GAP_OFFSET,
        ensures
            s == (PipeSlot { x, gap_y, scored: false, kind: PipeType::Normal }),
            s.wf(),
    {
        PipeSlot { x, gap_y, scored: false, kind: PipeType::Normal }
    }

    /// One scroll step of this slot alone: moves it left; past the lower
    /// bound it recycles to the upper bound, clears the scored flag and
    /// re-rolls its gap — with a one-in-five chance of the middle variant
    /// once variant obstacles are unlocked. Reports whether the slot passed
    /// the player unscored this step.
    pub fn step_slot(&mut self, speed: i64, dt: i64, different_pipes: bool) -> (award: bool)
        requires
            old(self).wf(),
            0 <= speed <= 100,
            0 <= dt <= MAX_DT,
        ensures
            final(self).wf(),
            old(self).stepped(*final(self), speed as int, dt as int, different_pipes),
            award == old(self).awards(speed as int, dt as int),
    {
        proof {
            lemma_abs_mul_bound(speed as int, dt as int, 100, 10_000_000);
        }
        self.x = self.x - speed * dt;
        if self.x < -HALF_TRACK_W {
            if different_pipes && !(self.kind == PipeType::Middle) && random_in_range(0, 4) == 0 {
                self.kind = PipeType::Middle;
                self.gap_y = 0;
            } else {
                self.kind = PipeType::Normal;
                self.gap_y = random_in_range(-MAX_GAP_OFFSET, MAX_GAP_OFFSET);
            }
            self.x = HALF_TRACK_W;
            self.scored = false;
            false
        } else if !self.scored && self.x < BORB_START_X {
            self.scored = true;
            true
        } else {
            false
        }
    }
}

/// Law: each pass awards exactly one point. A step that awards, or follows
/// an award, leaves the scored flag set, and a slot whose flag is set cannot
/// award again under any later speed or time delta — only a recycle, which
/// clears the flag, opens the next cycle.
pub proof fn lemma_score_once_per_cycle(
    pre: PipeSlot,
    post: PipeSlot,
    speed: int,
    dt: int,
    different_pipes: bool,
    speed2: int,
    dt2: int,
)
    requires
        pre.stepped(post, speed, dt, different_pipes),
        !pre.recycles(speed, dt),
    ensures
        pre.awards(speed, dt) || pre.scored ==> post.scored,
        post.scored ==> !post.awards(speed2, dt2),
{
}

/// Law: a scroll step keeps every slot's position on the track, and the
/// step recycles the slot exactly when its moved position would cross the
/// lower bound — once per crossing, never more, since a recycled slot
/// restarts at the upper bound.
pub proof fn lemma_slot_position_bounded(
    pre: PipeSlot,
    post: PipeSlot,
    speed: int,
    dt: int,
    different_pipes: bool,
)
    requires
        pre.wf(),
        0 <= speed,
        0 <= dt,
        pre.stepped(post, speed, dt, different_pipes),
    ensures
        -HALF_TRACK_W <= post.x <= HALF_TRACK_W,
        pre.recycles(speed, dt) <==> post.x == HALF_TRACK_W && !post.scored && pre.moved_x(
            speed,
            dt,
        ) < -HALF_TRACK_W,
{
    assert(speed * dt >= 0) by (nonlinear_arith)
        requires
            0 <= speed,
            0 <= dt,
    ;
}

/// The evenly spaced starting position of slot `i`, measured from the left
/// edge of the track.
pub open spec fn initial_x(i: int) -> int {
    -HALF_TRACK_W + PIPE_SPACING * (i + 1)
}

/// A fresh ring of slots at their starting positions, each with a random
/// gap offset, all normal and unscored.
pub fn spawn_pipes() -> (v: Vec<PipeSlot>)
    ensures
        v.len() == NUM_PIPES,
        forall|i: int|
            0 <= i < v.len() ==> {
                &&& (#[trigger] v[i]).wf()
                &&& v[i].x == initial_x(i)
                &&& v[i].kind is Normal
                &&& !v[i].scored
            },
{
    let mut v: Vec<PipeSlot> = Vec::new();
    let mut i: usize = 0;
    while i < NUM_PIPES
        invariant
            i <= NUM_PIPES,
            v.len() == i,
            forall|j: int|
                0 <= j < i ==> {
                    &&& (#[trigger] v[j]).wf()
                    &&& v[j].x == initial_x(j)
                    &&& v[j].kind is Normal
                    &&& !v[j].scored
                },
        decreases NUM_PIPES - i,
    {
        let x = -HALF_TRACK_W + PIPE_SPACING * (i as i64 + 1);
        let gap = random_in_range(-MAX_GAP_OFFSET, MAX_GAP_OFFSET);
        v.push(PipeSlot::new(x, gap));
        i = i + 1;
    }
    v
}

/// How many of the first `upto` slots pass the player this step.
pub open spec fn count_awards(slots: Seq<PipeSlot>, speed: int, dt: int, upto: int) -> int
    decreases upto,
{
    if upto <= 0 {
        0
    } else {
        count_awards(slots, speed, dt, upto - 1) + if slots[upto - 1].awards(speed, dt) {
            1int
        } else {
            0int
        }
    }
}

/// At most one award per slot.
pub proof fn lemma_count_awards_bounds(slots: Seq<PipeSlot>, speed: int, dt: int, upto: int)
    requires
        upto >= 0,
    ensures
        0 <= count_awards(slots, speed, dt, upto) <= upto,
    decreases upto,
{
    if upto > 0 {
        lemma_count_awards_bounds(slots, speed, dt, upto - 1);
    }
}

/// One tick of the whole track: scrolls every slot with the scroll speed
/// read at the start of the tick, recycles the slots that cross the lower
/// bound, and awards one score point per slot that passes the player for
/// the first time since its recycle; each threshold the score crosses
/// performs one alternating unlock, as `Scoreboard::add` describes.
pub fn move_pipes(
    slots: &mut Vec<PipeSlot>,
    sb: &mut Scoreboard,
    upgrades: &mut BorbUpgrades,
    chaos: &mut WorldChaos,
    notes: &mut Vec<UnlockNote>,
    dt: i64,
)
    requires
        forall|i: int| 0 <= i < old(slots).len() ==> (#[trigger] old(slots)[i]).wf(),
        old(sb).score + old(slots).len() <= u32::MAX,
        old(upgrades).wf(),
        old(chaos).wf(),
        0 <= dt <= MAX_DT,
    ensures
        final(slots).len() == old(slots).len(),
        final(upgrades).wf(),
        final(chaos).wf(),
        ({
            let speed = old(chaos).world_speed as int;
            let different = old(chaos).different_pipes;
            let a = count_awards(old(slots)@, speed, dt as int, old(slots).len() as int);
            let k = Scoreboard::thresholds_crossed(old(sb).score as int, old(sb).score + a) as nat;
            let s = n_upgrades(old(sb).last_upgrade_was_chaos, *old(upgrades), *old(chaos), k);
            &&& forall|i: int|
                0 <= i < old(slots).len() ==> old(slots)@[i].stepped(
                    #[trigger] final(slots)@[i],
                    speed,
                    dt as int,
                    different,
                )
            &&& forall|i: int| 0 <= i < final(slots).len() ==> (#[trigger] final(slots)@[i]).wf()
            &&& final(sb).score == old(sb).score + a
            &&& final(sb).last_upgrade_was_chaos == s.0
            &&& *final(upgrades) == s.1
            &&& *final(chaos) == s.2
            &&& final(notes)@ == old(notes)@ + n_upgrade_notes(
                old(sb).last_upgrade_was_chaos,
                *old(upgrades),
                *old(chaos),
                k,
            )
        }),
{
    let speed = chaos.world_speed;
    let different = chaos.different_pipes;
    let ghost slots0 = slots@;
    let ghost sb0 = *sb;
    let ghost u0 = *upgrades;
    let ghost c0 = *chaos;
    let ghost notes0 = notes@;
    let n = slots.len();
    let mut i: usize = 0;
    while i < n
        invariant
            i <= n,
            slots.len() == n,
            slots0.len() == n,
            0 <= dt <= MAX_DT,
            0 <= speed <= 100,
            speed == c0.world_speed,
            different == c0.different_pipes,
            sb0.score + n <= u32::MAX,
            upgrades.wf(),
            chaos.wf(),
            forall|j: int| 0 <= j < n ==> (#[trigger] slots0[j]).wf(),
            forall|j: int|
                0 <= j < i ==> slots0[j].stepped(
                    #[trigger] slots@[j],
                    speed as int,
                    dt as int,
                    different,
                ),
            forall|j: int| 0 <= j < i ==> (#[trigger] slots@[j]).wf(),
            forall|j: int| i <= j < n ==> #[trigger] slots@[j] == slots0[j],
            sb.score == sb0.score + count_awards(slots0, speed as int, dt as int, i as int),
            ({
                let k = Scoreboard::thresholds_crossed(sb0.score as int, sb.score as int) as nat;
                let s = n_upgrades(sb0.last_upgrade_was_chaos, u0, c0, k);
                &&& sb.last_upgrade_was_chaos == s.0
                &&& *upgrades == s.1
                &&& *chaos == s.2
                &&& notes@ == notes0 + n_upgrade_notes(sb0.last_upgrade_was_chaos, u0, c0, k)
            }),
        decreases n - i,
    {
        proof {
            lemma_count_awards_bounds(slots0, speed as int, dt as int, i as int);
        }
        let award = slots[i].step_slot(speed, dt, different);
        if award {
            proof {
                let k1 = Scoreboard::thresholds_crossed(sb0.score as int, sb.score as int) as nat;
                let k2 = Scoreboard::thresholds_crossed(sb.score as int, sb.score + 1) as nat;
                lemma_thresholds_nonneg(sb0.score as int, sb.score as int);
                lemma_thresholds_nonneg(sb.score as int, sb.score + 1);
                lemma_thresholds_nonneg(sb0.score as int, sb.score + 1);
                lemma_n_upgrades_add(sb0.last_upgrade_was_chaos, u0, c0, k1, k2);
                lemma_n_upgrade_notes_add(sb0.last_upgrade_was_chaos, u0, c0, k1, k2);
            }
            sb.add(1, upgrades, chaos, notes);
            proof {
                let k = Scoreboard::thresholds_crossed(sb0.score as int, sb.score as int) as nat;
                assert(notes@ =~= notes0 + n_upgrade_notes(sb0.last_upgrade_was_chaos, u0, c0, k));
            }
        }
        proof {
            assert(count_awards(slots0, speed as int, dt as int, i + 1) == count_awards(
                slots0,
                speed as int,
                dt as int,
                i as int,
            ) + if slots0[i as int].awards(speed as int, dt as int) {
                1int
            } else {
                0int
            });
        }
        i = i + 1;
    }
}

} // verus!
