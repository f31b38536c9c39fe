use flappy_borb::consts::{
    FAST_FALL_SPEED, JUMP_FORCE, JUMP_PARTICLE_NUM, MAX_GRAVITY_VEL,
};
use flappy_borb::session::{Session, SessionState, TickInput, World};

const SIXTIETH_US: i64 = 16_667;

fn world(s: &Session) -> &World {
    match &s.world {
        Some(w) => w,
        None => panic!("session is not playing"),
    }
}

fn coast(dt: i64) -> TickInput {
    TickInput { dt, jump: false, fast_fall: false }
}

#[test]
fn one_second_of_gravity_clamps_velocity_and_sinks_monotonically() {
    let mut s = Session::new();
    s.start_game();
    assert_eq!(world(&s).borb.y, 0);
    assert_eq!(world(&s).borb.vel, 0);
    let mut prev_y = world(&s).borb.y;
    for _ in 0..60 {
        let over = s.tick(coast(SIXTIETH_US));
        assert!(over.is_none());
        let y = world(&s).borb.y;
        assert!(y < prev_y, "position must fall on every gravity tick");
        prev_y = y;
    }
    assert_eq!(world(&s).borb.vel, MAX_GRAVITY_VEL);
}

#[test]
fn jump_sets_velocity_and_ten_ticks_of_gravity_take_their_share() {
    let mut s = Session::new();
    s.start_game();
    let over = s.tick(TickInput { dt: 0, jump: true, fast_fall: false });
    assert!(over.is_none());
    assert_eq!(world(&s).borb.vel, JUMP_FORCE);
    assert_eq!(world(&s).particles.len(), JUMP_PARTICLE_NUM);
    for _ in 0..10 {
        let over = s.tick(coast(SIXTIETH_US));
        assert!(over.is_none());
    }
    // ten times 140 * 16_667 micro-units per second of gravity
    assert_eq!(world(&s).borb.vel, JUMP_FORCE - 10 * 140 * SIXTIETH_US);
    assert_eq!(world(&s).borb.vel, 86_666_200);
}

#[test]
fn fast_fall_press_is_ignored_until_unlocked() {
    let mut s = Session::new();
    s.start_game();
    let over = s.tick(TickInput { dt: SIXTIETH_US, jump: false, fast_fall: true });
    assert!(over.is_none());
    // the press did nothing: plain gravity from rest
    assert_eq!(world(&s).borb.vel, -140 * SIXTIETH_US);
}

#[test]
fn fast_fall_sets_velocity_once_unlocked_and_floor_widens() {
    let mut s = Session::new();
    s.start_game();
    match &mut s.world {
        Some(w) => {
            w.upgrades.num_upgrades = 1;
            w.upgrades.fast_fall = true;
        },
        None => panic!("session is not playing"),
    }
    let over = s.tick(TickInput { dt: SIXTIETH_US, jump: false, fast_fall: true });
    assert!(over.is_none());
    // set to the fast-fall speed, and gravity cannot push below the new floor
    assert_eq!(world(&s).borb.vel, FAST_FALL_SPEED);
}

#[test]
fn rotation_follows_velocity() {
    let mut s = Session::new();
    s.start_game();
    for _ in 0..60 {
        assert!(s.tick(coast(SIXTIETH_US)).is_none());
    }
    // velocity is clamped at -140 units/s; rotation is that velocity times
    // the fixed conversion factor
    assert_eq!(world(&s).borb.vel, -140_000_000);
    assert_eq!(world(&s).borb.rot, -893_390_400);
}
