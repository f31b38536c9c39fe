use flappy_borb::consts::NUM_PIPES;
use flappy_borb::pipes::{PipeSlot, PipeType};
use flappy_borb::progress::UnlockNote;
use flappy_borb::session::{GameOverCause, Session, SessionState, TickInput, World};

const SIXTIETH_US: i64 = 16_667;

fn world(s: &Session) -> &World {
    match &s.world {
        Some(w) => w,
        None => panic!("session is not playing"),
    }
}

fn world_mut(s: &mut Session) -> &mut World {
    match &mut s.world {
        Some(w) => w,
        None => panic!("session is not playing"),
    }
}

fn coast(dt: i64) -> TickInput {
    TickInput { dt, jump: false, fast_fall: false }
}

#[test]
fn starting_a_game_spawns_a_fresh_world() {
    let mut s = Session::new();
    assert_eq!(s.state, SessionState::MainMenu);
    assert!(s.world.is_none());
    s.start_game();
    assert_eq!(s.state, SessionState::Playing);
    let w = world(&s);
    assert_eq!(w.borb.y, 0);
    assert_eq!(w.borb.vel, 0);
    assert_eq!(w.scoreboard.score, 0);
    assert_eq!(w.pipes.len(), NUM_PIPES);
    for slot in w.pipes.iter() {
        assert_eq!(slot.kind, PipeType::Normal);
        assert!(!slot.scored);
    }
    assert!(w.notifications.is_empty());
    assert!(w.particles.is_empty());
}

#[test]
fn a_long_fall_ends_the_run_below_the_screen() {
    let mut s = Session::new();
    s.start_game();
    // ten seconds in one tick: gravity drives the player far below the screen
    let over = s.tick(coast(10_000_000));
    assert_eq!(over, Some(GameOverCause::TooLow));
    assert_eq!(s.state, SessionState::GameOver(GameOverCause::TooLow));
    assert!(s.world.is_none());
}

#[test]
fn relentless_flapping_ends_the_run_above_the_screen() {
    let mut s = Session::new();
    s.start_game();
    // park the obstacles at the right edge so nothing blocks the climb
    {
        let w = world_mut(&mut s);
        for i in 0..w.pipes.len() {
            w.pipes[i] = PipeSlot::new(274_000_000, 0);
        }
    }
    let mut cause = None;
    for _ in 0..1000 {
        if let Some(c) = s.tick(TickInput { dt: 100_000, jump: true, fast_fall: false }) {
            cause = Some(c);
            break;
        }
    }
    assert_eq!(cause, Some(GameOverCause::TooHigh));
    assert_eq!(s.state, SessionState::GameOver(GameOverCause::TooHigh));
    assert!(s.world.is_none());
}

#[test]
fn an_obstacle_in_the_player_lane_ends_the_run() {
    let mut s = Session::new();
    s.start_game();
    // park a slot over the player with the gap shifted far enough up that
    // the lower bar reaches the player's box
    world_mut(&mut s).pipes[0] = PipeSlot::new(-200_000_000, 80_000_000);
    let over = s.tick(coast(1_000));
    assert_eq!(over, Some(GameOverCause::HitPipe));
    assert_eq!(s.state, SessionState::GameOver(GameOverCause::HitPipe));
    assert!(s.world.is_none());
}

#[test]
fn a_middle_bar_in_the_player_lane_ends_the_run() {
    let mut s = Session::new();
    s.start_game();
    let w = world_mut(&mut s);
    w.pipes[0] = PipeSlot { x: -200_000_000, gap_y: 0, scored: false, kind: PipeType::Middle };
    let over = s.tick(coast(1_000));
    assert_eq!(over, Some(GameOverCause::HitPipe));
}

#[test]
fn a_centered_gap_lets_the_player_through() {
    let mut s = Session::new();
    s.start_game();
    // same lane, but the gap centered on the player: no collision
    world_mut(&mut s).pipes[0] = PipeSlot::new(-200_000_000, 0);
    let over = s.tick(coast(1_000));
    assert_eq!(over, None);
    assert_eq!(s.state, SessionState::Playing);
}

#[test]
fn game_over_keeps_the_final_score_and_restart_is_fresh() {
    let mut s = Session::new();
    s.start_game();
    world_mut(&mut s).scoreboard.score = 7;
    let over = s.tick(coast(10_000_000));
    assert!(over.is_some());
    // everything the run owned is gone, only the score is readable; the
    // dying tick still scored the third slot as it swept past the player
    assert!(s.world.is_none());
    assert_eq!(s.score(), 8);
    s.return_to_menu();
    assert_eq!(s.state, SessionState::MainMenu);
    assert_eq!(s.score(), 8);
    s.start_game();
    let w = world(&s);
    assert_eq!(w.scoreboard.score, 0);
    assert_eq!(w.upgrades.num_upgrades, 0);
    assert!(!w.upgrades.fast_fall);
    assert_eq!(w.chaos.num_chaos, 0);
    assert!(!w.chaos.fast_pipes);
    assert!(!w.chaos.different_pipes);
    assert!(w.notifications.is_empty());
    assert!(w.particles.is_empty());
    assert_eq!(s.score(), 0);
}

#[test]
fn a_pass_scores_and_a_threshold_unlocks_with_a_notification() {
    let mut s = Session::new();
    s.start_game();
    {
        let w = world_mut(&mut s);
        w.scoreboard.score = 4;
        // a slot just right of the player's position, about to cross it
        w.pipes[0] = PipeSlot::new(-199_000_000, 0);
    }
    let over = s.tick(coast(100_000));
    assert_eq!(over, None);
    let w = world(&s);
    assert_eq!(w.scoreboard.score, 5);
    assert!(w.pipes[0].scored);
    assert_eq!(w.upgrades.num_upgrades, 1);
    assert!(w.upgrades.fast_fall);
    assert_eq!(w.notifications.len(), 1);
    assert_eq!(w.notifications[0].note, UnlockNote::FastFall);
    assert_eq!(w.notifications[0].alpha, 1_000_000);
}

#[test]
fn notifications_fade_out_and_are_dropped() {
    let mut s = Session::new();
    s.start_game();
    {
        let w = world_mut(&mut s);
        w.scoreboard.score = 4;
        w.pipes[0] = PipeSlot::new(-199_000_000, 0);
    }
    assert!(s.tick(coast(100_000)).is_none());
    assert_eq!(world(&s).notifications.len(), 1);
    // one full second of fading brings the alpha to zero exactly
    assert!(s.tick(coast(1_000_000)).is_none());
    assert!(world(&s).notifications.is_empty());
}

#[test]
fn jump_particles_expire_after_a_third_of_a_second() {
    let mut s = Session::new();
    s.start_game();
    assert!(s.tick(TickInput { dt: 0, jump: true, fast_fall: false }).is_none());
    assert_eq!(world(&s).particles.len(), 4);
    assert!(s.tick(coast(400_000)).is_none());
    assert!(world(&s).particles.is_empty());
}

#[test]
fn score_survives_only_through_the_menu_read() {
    let mut s = Session::new();
    assert_eq!(s.score(), 0);
    s.start_game();
    assert_eq!(s.score(), 0);
    world_mut(&mut s).scoreboard.score = 3;
    assert_eq!(s.score(), 3);
}
