use flappy_borb::consts::{FAST_PIPE_SPEED, HALF_TRACK_W, MAX_GAP_OFFSET};
use flappy_borb::pipes::{move_pipes, PipeSlot, PipeType};
use flappy_borb::progress::{BorbUpgrades, Scoreboard, UnlockNote, WorldChaos};

#[test]
fn crossing_the_lower_bound_recycles_to_the_upper_bound() {
    let mut slot = PipeSlot::new(-270_000_000, 40_000_000);
    // a second of scroll at base speed pushes it past the lower bound
    let award = slot.step_slot(50, 1_000_000, false);
    assert!(!award);
    assert_eq!(slot.x, HALF_TRACK_W);
    assert_eq!(slot.kind, PipeType::Normal);
    assert!(!slot.scored);
    assert!(-MAX_GAP_OFFSET <= slot.gap_y && slot.gap_y <= MAX_GAP_OFFSET);
}

#[test]
fn recycled_gaps_vary_and_stay_in_bounds() {
    let mut gaps: Vec<i64> = Vec::new();
    for _ in 0..100 {
        let mut slot = PipeSlot::new(-270_000_000, 0);
        slot.step_slot(50, 1_000_000, false);
        assert!(-MAX_GAP_OFFSET <= slot.gap_y && slot.gap_y <= MAX_GAP_OFFSET);
        assert_eq!(slot.kind, PipeType::Normal);
        gaps.push(slot.gap_y);
    }
    let first = gaps[0];
    assert!(
        gaps.iter().any(|&g| g != first),
        "one hundred re-rolled gaps never differed"
    );
}

#[test]
fn variant_obstacles_appear_once_unlocked_and_alternate_back() {
    let mut slot = PipeSlot::new(274_000_000, 0);
    let mut middles = 0u32;
    let mut normals = 0u32;
    for _ in 0..400 {
        let was_middle = slot.kind == PipeType::Middle;
        // a long scroll at fast speed forces one recycle per step
        slot.step_slot(75, 8_000_000, true);
        assert_eq!(slot.x, HALF_TRACK_W);
        match slot.kind {
            PipeType::Middle => {
                assert!(!was_middle, "a middle slot must re-roll to normal");
                assert_eq!(slot.gap_y, 0);
                middles += 1;
            },
            PipeType::Normal => {
                assert!(-MAX_GAP_OFFSET <= slot.gap_y && slot.gap_y <= MAX_GAP_OFFSET);
                normals += 1;
            },
        }
    }
    assert!(middles > 0, "the middle variant never appeared in 400 recycles");
    assert!(normals > 0);
}

#[test]
fn no_middle_variant_while_locked() {
    let mut slot = PipeSlot::new(274_000_000, 0);
    for _ in 0..200 {
        slot.step_slot(75, 8_000_000, false);
        assert_eq!(slot.kind, PipeType::Normal);
    }
}

#[test]
fn each_pass_scores_exactly_once_over_two_recycle_cycles() {
    let mut slots = vec![PipeSlot::new(-150_000_000, 0)];
    let mut sb = Scoreboard { score: 0, last_upgrade_was_chaos: true };
    let mut upgrades = BorbUpgrades::default();
    let mut chaos = WorldChaos::default();
    let mut notes: Vec<UnlockNote> = Vec::new();

    // first cycle: the slot crosses the player's position
    move_pipes(&mut slots, &mut sb, &mut upgrades, &mut chaos, &mut notes, 1_100_000);
    assert_eq!(sb.score, 1);
    assert!(slots[0].scored);

    // moving further along the same cycle scores nothing
    move_pipes(&mut slots, &mut sb, &mut upgrades, &mut chaos, &mut notes, 1_100_000);
    assert_eq!(sb.score, 1);

    // the slot crosses the lower bound: recycled, flag cleared
    move_pipes(&mut slots, &mut sb, &mut upgrades, &mut chaos, &mut notes, 1_100_000);
    assert_eq!(sb.score, 1);
    assert_eq!(slots[0].x, HALF_TRACK_W);
    assert!(!slots[0].scored);

    // second cycle: crossing the player again scores again, once
    move_pipes(&mut slots, &mut sb, &mut upgrades, &mut chaos, &mut notes, 10_000_000);
    assert_eq!(sb.score, 2);
    assert!(slots[0].scored);
}

#[test]
fn scroll_speed_follows_the_chaos_ladder() {
    let mut chaos = WorldChaos::default();
    assert_eq!(chaos.world_speed, 50);
    let note = chaos.upgrade();
    assert_eq!(note, Some(UnlockNote::FastPipes));
    assert_eq!(chaos.world_speed, FAST_PIPE_SPEED);
}

#[test]
fn a_normal_slot_exposes_two_bars_and_a_middle_slot_one() {
    let slot = PipeSlot::new(10_000_000, 20_000_000);
    let bars = slot.colliders();
    assert_eq!(bars.len(), 2);
    // the bars straddle the gap center at the fixed offset
    assert_eq!(bars[0].cx, 10_000_000);
    assert_eq!(bars[0].cy, 20_000_000 - 150_000_000);
    assert_eq!(bars[1].cy, 20_000_000 + 150_000_000);
    assert_eq!(bars[0].hx, 18_000_000);
    assert_eq!(bars[0].hy, 96_000_000);

    let middle = PipeSlot { x: 10_000_000, gap_y: 0, scored: false, kind: PipeType::Middle };
    let bars = middle.colliders();
    assert_eq!(bars.len(), 1);
    assert_eq!(bars[0].cy, 0);
    assert_eq!(bars[0].hy, 72_000_000);
}
