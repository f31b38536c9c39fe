//! The progression engine: the score counter and the two alternating
//! upgrade ladders (player abilities and world chaos).

use vstd::prelude::*;
use crate::consts::{FAST_PIPE_SPEED, MAX_CHAOS, MAX_UPGRADES, PIPES_PER_UPGRADE, PIPE_SPEED};

verus! {

/// An unlock announcement emitted when a ladder reaches a new capability.
#[derive(Clone, Copy, PartialEq, Eq, Structural, Debug)]
pub enum UnlockNote {
    FastFall,
    FastPipes,
    DifferentPipes,
}

/// The player-ability ladder; its first level unlocks fast fall.
#[derive(Clone, Copy, PartialEq, Eq, Structural, Debug)]
pub struct BorbUpgrades {
    pub num_upgrades: u32,
    pub fast_fall: bool,
}

/// The world-chaos ladder; its first level unlocks fast obstacles and its
/// second level variant obstacles. `world_speed` is in units per second.
#[derive(Clone, Copy, PartialEq, Eq, Structural, Debug)]
pub struct WorldChaos {
    pub num_chaos: u32,
    pub fast_pipes: bool,
    pub different_pipes: bool,
    pub world_speed: i64,
}

/// The score and the flag that alternates the two ladders. The flag starts
/// true, so the first unlock advances the ability ladder.
#[derive(Clone, Copy, PartialEq, Eq, Structural, Debug)]
pub struct Scoreboard {
    pub score: u32,
    pub last_upgrade_was_chaos: bool,
}

impl BorbUpgrades {
    /// The level is capped and the fast-fall flag holds exactly from the
    /// first level on.
    pub open spec fn wf(self) -> bool {
        &&& self.num_upgrades <= MAX_UPGRADES
        &&& self.fast_fall <==> self.num_upgrades >= 1
    }

    /// A fresh ladder: no levels, nothing unlocked.
    pub open spec fn init_spec() -> BorbUpgrades {
        BorbUpgrades { num_upgrades: 0, fast_fall: false }
    }

    /// The ladder after one advance: one more level up to the cap, and fast
    /// fall unlocked.
    pub open spec fn upgraded(self) -> BorbUpgrades {
        if self.num_upgrades < MAX_UPGRADES {
            BorbUpgrades { num_upgrades: (self.num_upgrades + 1) as u32, fast_fall: true }
        } else {
            self
        }
    }

    /// The announcement an advance emits: fast fall, on the first level only.
    pub open spec fn upgrade_note(self) -> Option<UnlockNote> {
        if self.num_upgrades == 0 {
            Some(UnlockNote::FastFall)
        } else {
            None
        }
    }

    /// Advances the ladder one level, up to its cap.
    pub fn upgrade(&mut self) -> (note: Option<UnlockNote>)
        requires
            old(self).wf(),
        ensures
            *final(self) == old(self).upgraded(),
            note == old(self).upgrade_note(),
            final(self).wf(),
    {
        if self.num_upgrades != MAX_UPGRADES {
            let first = self.num_upgrades == 0;
            self.fast_fall = true;
            self.num_upgrades = self.num_upgrades + 1;
            if first {
                Some(UnlockNote::FastFall)
            } else {
                None
            }
        } else {
            None
        }
    }
}

impl Default for BorbUpgrades {
    /// A fresh ability ladder.
    fn default() -> (d: BorbUpgrades)
        ensures
            d == BorbUpgrades::init_spec(),
    {
        BorbUpgrades { num_upgrades: 0, fast_fall: false }
    }
}

impl WorldChaos {
    /// The level is capped, the flags hold exactly from their levels on, and
    /// the scroll speed follows the fast-obstacle flag.
    pub open spec fn wf(self) -> bool {
        &&& self.num_chaos <= MAX_CHAOS
        &&& self.fast_pipes <==> self.num_chaos >= 1
        &&& self.different_pipes <==> self.num_chaos >= 2
        &&& self.world_speed == if self.fast_pipes {
            FAST_PIPE_SPEED
        } else {
            PIPE_SPEED
        }
    }

    /// A fresh ladder: no levels, base scroll speed.
    pub open spec fn init_spec() -> WorldChaos {
        WorldChaos {
            num_chaos: 0,
            fast_pipes: false,
            different_pipes: false,
            world_speed: PIPE_SPEED,
        }
    }

    /// The ladder after one advance: one more level up to the cap; the first
    /// level unlocks fast obstacles, the second variant obstacles.
    pub open spec fn upgraded(self) -> WorldChaos {
        if self.num_chaos < MAX_CHAOS {
            WorldChaos {
                num_chaos: (self.num_chaos + 1) as u32,
                fast_pipes: true,
                different_pipes: self.num_chaos >= 1,
                world_speed: FAST_PIPE_SPEED,
            }
        } else {
            self
        }
    }

    /// The announcement an advance emits: fast obstacles on the first level,
    /// variant obstacles on the second.
    pub open spec fn upgrade_note(self) -> Option<UnlockNote> {
        if self.num_chaos == 0 {
            Some(UnlockNote::FastPipes)
        } else if self.num_chaos == 1 {
            Some(UnlockNote::DifferentPipes)
        } else {
            None
        }
    }

    /// Advances the ladder one level, up to its cap.
    pub fn upgrade(&mut self) -> (note: Option<UnlockNote>)
        requires
            old(self).wf(),
        ensures
            *final(self) == old(self).upgraded(),
            note == old(self).upgrade_note(),
            final(self).wf(),
    {
        if self.num_chaos != MAX_CHAOS {
            self.num_chaos = self.num_chaos + 1;
            if self.fast_pipes {
                let second = !self.different_pipes;
                self.different_pipes = true;
                if second {
                    Some(UnlockNote::DifferentPipes)
                } else {
                    None
                }
            } else {
                self.fast_pipes = true;
                self.world_speed = FAST_PIPE_SPEED;
                Some(UnlockNote::FastPipes)
            }
        } else {
            None
        }
    }
}

impl Default for WorldChaos {
    /// A fresh chaos ladder at base scroll speed.
    fn default() -> (d: WorldChaos)
        ensures
            d == WorldChaos::init_spec(),
    {
        WorldChaos {
            num_chaos: 0,
            fast_pipes: false,
            different_pipes: false,
            world_speed: PIPE_SPEED,
        }
    }
}

/// One alternating unlock: the flag true sends the advance to the ability
/// ladder, false to the chaos ladder; the flag flips either way.
pub open spec fn one_upgrade(f: bool, u: BorbUpgrades, c: WorldChaos) -> (bool, BorbUpgrades, WorldChaos) {
    if f {
        (false, u.upgraded(), c)
    } else {
        (true, u, c.upgraded())
    }
}

/// The announcement of one alternating unlock.
pub open spec fn one_upgrade_note(f: bool, u: BorbUpgrades, c: WorldChaos) -> Option<UnlockNote> {
    if f {
        u.upgrade_note()
    } else {
        c.upgrade_note()
    }
}

/// The ladders and flag after `k` alternating unlocks.
pub open spec fn n_upgrades(f: bool, u: BorbUpgrades, c: WorldChaos, k: nat) -> (bool, BorbUpgrades, WorldChaos)
    decreases k,
{
    if k == 0 {
        (f, u, c)
    } else {
        let s = one_upgrade(f, u, c);
        n_upgrades(s.0, s.1, s.2, (k - 1) as nat)
    }
}

/// The announcements of `k` alternating unlocks, in order.
pub open spec fn n_upgrade_notes(f: bool, u: BorbUpgrades, c: WorldChaos, k: nat) -> Seq<UnlockNote>
    decreases k,
{
    if k == 0 {
        Seq::empty()
    } else {
        let head = match one_upgrade_note(f, u, c) {
            Some(n) => seq![n],
            None => Seq::empty(),
        };
        let s = one_upgrade(f, u, c);
        head + n_upgrade_notes(s.0, s.1, s.2, (k - 1) as nat)
    }
}

/// Unlocks compose: `k1` unlocks followed by `k2` more are `k1 + k2` unlocks.
pub proof fn lemma_n_upgrades_add(f: bool, u: BorbUpgrades, c: WorldChaos, k1: nat, k2: nat)
    ensures
        ({
            let s = n_upgrades(f, u, c, k1);
            n_upgrades(s.0, s.1, s.2, k2) == n_upgrades(f, u, c, k1 + k2)
        }),
    decreases k1,
{
    if k1 > 0 {
        let s1 = one_upgrade(f, u, c);
        lemma_n_upgrades_add(s1.0, s1.1, s1.2, (k1 - 1) as nat, k2);
    }
}

/// Announcements compose the same way, by concatenation.
pub proof fn lemma_n_upgrade_notes_add(f: bool, u: BorbUpgrades, c: WorldChaos, k1: nat, k2: nat)
    ensures
        ({
            let s = n_upgrades(f, u, c, k1);
            n_upgrade_notes(f, u, c, k1 + k2) == n_upgrade_notes(f, u, c, k1) + n_upgrade_notes(
                s.0,
                s.1,
                s.2,
                k2,
            )
        }),
    decreases k1,
{
    let s = n_upgrades(f, u, c, k1);
    if k1 == 0 {
        assert(n_upgrade_notes(f, u, c, 0) + n_upgrade_notes(s.0, s.1, s.2, k2) =~= n_upgrade_notes(
            f,
            u,
            c,
            k2,
        ));
    } else {
        let s1 = one_upgrade(f, u, c);
        lemma_n_upgrade_notes_add(s1.0, s1.1, s1.2, (k1 - 1) as nat, k2);
        let head = match one_upgrade_note(f, u, c) {
            Some(n) => seq![n],
            None => Seq::<UnlockNote>::empty(),
        };
        assert(head + (n_upgrade_notes(s1.0, s1.1, s1.2, (k1 - 1) as nat) + n_upgrade_notes(
            s.0,
            s.1,
            s.2,
            k2,
        )) =~= (head + n_upgrade_notes(s1.0, s1.1, s1.2, (k1 - 1) as nat)) + n_upgrade_notes(
            s.0,
            s.1,
            s.2,
            k2,
        ));
    }
}

/// Law: across any number of unlocks both ladders stay well formed, their
/// levels never decrease and stay capped, and the capability flags are
/// one-way — once set they never revert.
pub proof fn lemma_n_upgrades_wf(f: bool, u: BorbUpgrades, c: WorldChaos, k: nat)
    requires
        u.wf(),
        c.wf(),
    ensures
        ({
            let s = n_upgrades(f, u, c, k);
            &&& s.1.wf()
            &&& s.2.wf()
            &&& s.1.num_upgrades >= u.num_upgrades
            &&& s.2.num_chaos >= c.num_chaos
            &&& (u.fast_fall ==> s.1.fast_fall)
            &&& (c.fast_pipes ==> s.2.fast_pipes)
            &&& (c.different_pipes ==> s.2.different_pipes)
        }),
    decreases k,
{
    if k > 0 {
        let s = one_upgrade(f, u, c);
        lemma_n_upgrades_wf(s.0, s.1, s.2, (k - 1) as nat);
    }
}

/// Crossing counts are non-negative when the score does not decrease.
pub proof fn lemma_thresholds_nonneg(a: int, b: int)
    requires
        a <= b,
    ensures
        0 <= Scoreboard::thresholds_crossed(a, b),
{
    vstd::arithmetic::div_mod::lemma_div_is_ordered(a, b, PIPES_PER_UPGRADE as int);
}

/// `x`, capped at `cap`.
pub open spec fn capped(x: int, cap: int) -> int {
    if x <= cap {
        x
    } else {
        cap
    }
}

/// With the flag true, unlocks alternate ability first: after `k` of them
/// the ability ladder gained `ceil(k / 2)` levels and the chaos ladder
/// `floor(k / 2)`, each capped, and the flag records the parity.
pub proof fn lemma_alternation_from(u: BorbUpgrades, c: WorldChaos, k: nat)
    requires
        u.wf(),
        c.wf(),
    ensures
        ({
            let s = n_upgrades(true, u, c, k);
            &&& s.0 == (k % 2 == 0)
            &&& s.1.num_upgrades == capped(u.num_upgrades + (k + 1) as int / 2, MAX_UPGRADES as int)
            &&& s.2.num_chaos == capped(c.num_chaos + k as int / 2, MAX_CHAOS as int)
            &&& s.1.wf()
            &&& s.2.wf()
        }),
    decreases k,
{
    if k == 0 {
    } else if k == 1 {
        let s1 = one_upgrade(true, u, c);
        assert(n_upgrades(s1.0, s1.1, s1.2, 0) == (s1.0, s1.1, s1.2));
    } else {
        let s1 = one_upgrade(true, u, c);
        let s2 = one_upgrade(s1.0, s1.1, s1.2);
        assert(n_upgrades(true, u, c, k) == n_upgrades(s1.0, s1.1, s1.2, (k - 1) as nat));
        assert(n_upgrades(s1.0, s1.1, s1.2, (k - 1) as nat) == n_upgrades(
            s2.0,
            s2.1,
            s2.2,
            (k - 2) as nat,
        ));
        assert(s2 == (true, u.upgraded(), c.upgraded()));
        lemma_alternation_from(u.upgraded(), c.upgraded(), (k - 2) as nat);
    }
}

/// Law: from a fresh progression the unlocks alternate, ability ladder
/// first: after `k` unlocks the ability ladder holds `ceil(k / 2)` levels
/// and the chaos ladder `floor(k / 2)`, each capped at its maximum, and
/// fast fall, fast obstacles and variant obstacles are unlocked exactly
/// from the first, second and fourth unlock on.
pub proof fn lemma_upgrade_alternation(k: nat)
    ensures
        ({
            let s = n_upgrades(true, BorbUpgrades::init_spec(), WorldChaos::init_spec(), k);
            &&& s.0 == (k % 2 == 0)
            &&& s.1.num_upgrades == capped((k + 1) as int / 2, MAX_UPGRADES as int)
            &&& s.2.num_chaos == capped(k as int / 2, MAX_CHAOS as int)
            &&& (s.1.fast_fall <==> k >= 1)
            &&& (s.2.fast_pipes <==> k >= 2)
            &&& (s.2.different_pipes <==> k >= 4)
        }),
{
    lemma_alternation_from(BorbUpgrades::init_spec(), WorldChaos::init_spec(), k);
}

/// Once both ladders are past their announcing levels, further unlocks are
/// silent.
pub proof fn lemma_notes_silent(f: bool, u: BorbUpgrades, c: WorldChaos, k: nat)
    requires
        u.num_upgrades >= 1,
        c.num_chaos >= 2,
    ensures
        n_upgrade_notes(f, u, c, k) == Seq::<UnlockNote>::empty(),
    decreases k,
{
    if k > 0 {
        let s = one_upgrade(f, u, c);
        lemma_notes_silent(s.0, s.1, s.2, (k - 1) as nat);
        assert(n_upgrade_notes(f, u, c, k) =~= Seq::<UnlockNote>::empty());
    }
}

/// Law: a fresh progression announces fast fall on the first unlock, fast
/// obstacles on the second, variant obstacles on the fourth, and nothing
/// else, in that order.
pub proof fn lemma_unlock_notes(k: nat)
    ensures
        ({
            let notes = n_upgrade_notes(true, BorbUpgrades::init_spec(), WorldChaos::init_spec(), k);
            notes == if k == 0 {
                Seq::<UnlockNote>::empty()
            } else if k == 1 {
                seq![UnlockNote::FastFall]
            } else if k <= 3 {
                seq![UnlockNote::FastFall, UnlockNote::FastPipes]
            } else {
                seq![UnlockNote::FastFall, UnlockNote::FastPipes, UnlockNote::DifferentPipes]
            }
        }),
{
    reveal_with_fuel(n_upgrade_notes, 6);
    let u0 = BorbUpgrades::init_spec();
    let c0 = WorldChaos::init_spec();
    let s1 = one_upgrade(true, u0, c0);
    let s2 = one_upgrade(s1.0, s1.1, s1.2);
    let s3 = one_upgrade(s2.0, s2.1, s2.2);
    let s4 = one_upgrade(s3.0, s3.1, s3.2);
    if k == 0 {
    } else if k == 1 {
        assert(n_upgrade_notes(true, u0, c0, 1) =~= seq![UnlockNote::FastFall]);
    } else if k == 2 {
        assert(n_upgrade_notes(true, u0, c0, 2) =~= seq![
            UnlockNote::FastFall,
            UnlockNote::FastPipes,
        ]);
    } else if k == 3 {
        assert(n_upgrade_notes(true, u0, c0, 3) =~= seq![
            UnlockNote::FastFall,
            UnlockNote::FastPipes,
        ]);
    } else {
        lemma_notes_silent(s4.0, s4.1, s4.2, (k - 4) as nat);
        assert(n_upgrade_notes(s4.0, s4.1, s4.2, (k - 4) as nat) == Seq::<UnlockNote>::empty());
        assert(n_upgrade_notes(true, u0, c0, k) =~= seq![
            UnlockNote::FastFall,
            UnlockNote::FastPipes,
            UnlockNote::DifferentPipes,
        ]);
    }
}

impl Scoreboard {
    /// A fresh scoreboard: zero score; the alternation flag starts true so
    /// that the first unlock advances the ability ladder.
    pub open spec fn init_spec() -> Scoreboard {
        Scoreboard { score: 0, last_upgrade_was_chaos: true }
    }

    /// How many upgrade thresholds lie strictly between two scores.
    pub open spec fn thresholds_crossed(old_score: int, new_score: int) -> int {
        new_score / (PIPES_PER_UPGRADE as int) - old_score / (PIPES_PER_UPGRADE as int)
    }

    /// One alternating unlock across the two ladders; flips the flag.
    pub fn upgrade(&mut self, upgrades: &mut BorbUpgrades, chaos: &mut WorldChaos) -> (note: Option<
        UnlockNote,
    >)
        requires
            old(upgrades).wf(),
            old(chaos).wf(),
        ensures
            (final(self).last_upgrade_was_chaos, *final(upgrades), *final(chaos)) == one_upgrade(
                old(self).last_upgrade_was_chaos,
                *old(upgrades),
                *old(chaos),
            ),
            note == one_upgrade_note(old(self).last_upgrade_was_chaos, *old(upgrades), *old(chaos)),
            final(self).score == old(self).score,
            final(upgrades).wf(),
            final(chaos).wf(),
    {
        let note = if self.last_upgrade_was_chaos {
            upgrades.upgrade()
        } else {
            chaos.upgrade()
        };
        self.last_upgrade_was_chaos = !self.last_upgrade_was_chaos;
        note
    }

    /// Adds to the score and performs one alternating unlock per upgrade
    /// threshold the score crosses, appending each announcement to `notes`.
    /// A single call can cross several thresholds and then unlocks several
    /// times.
    pub fn add(
        &mut self,
        n: u32,
        upgrades: &mut BorbUpgrades,
        chaos: &mut WorldChaos,
        notes: &mut Vec<UnlockNote>,
    )
        requires
            old(self).score + n <= u32::MAX,
            old(upgrades).wf(),
            old(chaos).wf(),
        ensures
            final(self).score == old(self).score + n,
            ({
                let k = Scoreboard::thresholds_crossed(
                    old(self).score as int,
                    old(self).score + n,
                ) as nat;
                let s = n_upgrades(old(self).last_upgrade_was_chaos, *old(upgrades), *old(chaos), k);
                &&& final(self).last_upgrade_was_chaos == s.0
                &&& *final(upgrades) == s.1
                &&& *final(chaos) == s.2
                &&& final(notes)@ == old(notes)@ + n_upgrade_notes(
                    old(self).last_upgrade_was_chaos,
                    *old(upgrades),
                    *old(chaos),
                    k,
                )
            }),
            final(upgrades).wf(),
            final(chaos).wf(),
    {
        let ghost f0 = self.last_upgrade_was_chaos;
        let ghost u0 = *upgrades;
        let ghost c0 = *chaos;
        let ghost notes0 = notes@;
        let prev = self.score / PIPES_PER_UPGRADE;
        self.score = self.score + n;
        let k = self.score / PIPES_PER_UPGRADE - prev;
        let mut i: u32 = 0;
        while i < k
            invariant
                i <= k,
                upgrades.wf(),
                chaos.wf(),
                (self.last_upgrade_was_chaos, *upgrades, *chaos) == n_upgrades(f0, u0, c0, i as nat),
                notes@ == notes0 + n_upgrade_notes(f0, u0, c0, i as nat),
                self.score == old(self).score + n,
            decreases k - i,
        {
            proof {
                let s = n_upgrades(f0, u0, c0, i as nat);
                let t = one_upgrade(s.0, s.1, s.2);
                assert(n_upgrades(t.0, t.1, t.2, 0) == (t.0, t.1, t.2));
                assert(n_upgrades(s.0, s.1, s.2, 1) == (t.0, t.1, t.2));
                lemma_n_upgrades_add(f0, u0, c0, i as nat, 1);
                assert(n_upgrade_notes(t.0, t.1, t.2, 0) == Seq::<UnlockNote>::empty());
                assert(n_upgrade_notes(s.0, s.1, s.2, 1) =~= match one_upgrade_note(s.0, s.1, s.2) {
                    Some(nn) => seq![nn],
                    None => Seq::<UnlockNote>::empty(),
                });
                lemma_n_upgrade_notes_add(f0, u0, c0, i as nat, 1);
            }
            let note = self.upgrade(upgrades, chaos);
            match note {
                Some(nn) => notes.push(nn),
                None => {},
            }
            proof {
                assert(notes@ =~= notes0 + n_upgrade_notes(f0, u0, c0, (i + 1) as nat));
            }
            i = i + 1;
        }
        assert(k == Scoreboard::thresholds_crossed(old(self).score as int, old(self).score + n));
    }
}

impl Default for Scoreboard {
    /// A fresh scoreboard.
    fn default() -> (d: Scoreboard)
        ensures
            d == Scoreboard::init_spec(),
    {
        Scoreboard { score: 0, last_upgrade_was_chaos: true }
    }
}

} // verus!
