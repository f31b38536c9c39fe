use flappy_borb::consts::{FAST_PIPE_SPEED, PIPE_SPEED};
use flappy_borb::progress::{BorbUpgrades, Scoreboard, UnlockNote, WorldChaos};

fn fresh() -> (Scoreboard, BorbUpgrades, WorldChaos) {
    (
        Scoreboard { score: 0, last_upgrade_was_chaos: true },
        BorbUpgrades::default(),
        WorldChaos::default(),
    )
}

#[test]
fn defaults_are_locked_and_slow() {
    let (sb, u, c) = fresh();
    assert_eq!(sb.score, 0);
    assert!(sb.last_upgrade_was_chaos);
    assert_eq!(u.num_upgrades, 0);
    assert!(!u.fast_fall);
    assert_eq!(c.num_chaos, 0);
    assert!(!c.fast_pipes);
    assert!(!c.different_pipes);
    assert_eq!(c.world_speed, PIPE_SPEED);
}

#[test]
fn first_unlock_is_fast_fall_at_five_points() {
    let (mut sb, mut u, mut c) = fresh();
    let mut notes: Vec<UnlockNote> = Vec::new();
    for _ in 0..4 {
        sb.add(1, &mut u, &mut c, &mut notes);
        assert!(!u.fast_fall);
        assert!(notes.is_empty());
    }
    sb.add(1, &mut u, &mut c, &mut notes);
    assert_eq!(sb.score, 5);
    assert_eq!(u.num_upgrades, 1);
    assert!(u.fast_fall);
    assert_eq!(c.num_chaos, 0);
    assert_eq!(notes, vec![UnlockNote::FastFall]);
}

#[test]
fn unlocks_alternate_ability_chaos_over_five_thresholds() {
    let (mut sb, mut u, mut c) = fresh();
    let mut notes: Vec<UnlockNote> = Vec::new();
    for _ in 0..25 {
        sb.add(1, &mut u, &mut c, &mut notes);
    }
    assert_eq!(sb.score, 25);
    // five unlocks: ability, chaos, ability, chaos, ability
    assert_eq!(u.num_upgrades, 3);
    assert_eq!(c.num_chaos, 2);
    assert!(u.fast_fall);
    assert!(c.fast_pipes);
    assert!(c.different_pipes);
    assert_eq!(c.world_speed, FAST_PIPE_SPEED);
    assert_eq!(
        notes,
        vec![UnlockNote::FastFall, UnlockNote::FastPipes, UnlockNote::DifferentPipes]
    );
}

#[test]
fn one_increment_can_cross_several_thresholds() {
    let (mut sb, mut u, mut c) = fresh();
    let mut notes: Vec<UnlockNote> = Vec::new();
    sb.add(25, &mut u, &mut c, &mut notes);
    assert_eq!(sb.score, 25);
    assert_eq!(u.num_upgrades, 3);
    assert_eq!(c.num_chaos, 2);
    assert_eq!(
        notes,
        vec![UnlockNote::FastFall, UnlockNote::FastPipes, UnlockNote::DifferentPipes]
    );
}

#[test]
fn ladders_cap_and_stay_capped() {
    let (mut sb, mut u, mut c) = fresh();
    let mut notes: Vec<UnlockNote> = Vec::new();
    sb.add(1000, &mut u, &mut c, &mut notes);
    assert_eq!(sb.score, 1000);
    assert_eq!(u.num_upgrades, 5);
    assert_eq!(c.num_chaos, 5);
    // two hundred threshold crossings, an even count: the flag is back where
    // it started
    assert!(sb.last_upgrade_was_chaos);
    // still only the three announcements ever emitted
    assert_eq!(notes.len(), 3);
    sb.add(5, &mut u, &mut c, &mut notes);
    assert_eq!(u.num_upgrades, 5);
    assert_eq!(c.num_chaos, 5);
    assert_eq!(notes.len(), 3);
}

#[test]
fn threshold_count_does_not_depend_on_step_size() {
    let (mut sb1, mut u1, mut c1) = fresh();
    let mut notes1: Vec<UnlockNote> = Vec::new();
    for _ in 0..17 {
        sb1.add(1, &mut u1, &mut c1, &mut notes1);
    }
    let (mut sb2, mut u2, mut c2) = fresh();
    let mut notes2: Vec<UnlockNote> = Vec::new();
    sb2.add(17, &mut u2, &mut c2, &mut notes2);
    assert_eq!(sb1.score, sb2.score);
    assert_eq!(u1.num_upgrades, u2.num_upgrades);
    assert_eq!(c1.num_chaos, c2.num_chaos);
    assert_eq!(notes1, notes2);
}
