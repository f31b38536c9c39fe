use flappy_borb::fx::{Notification, Particle};
use flappy_borb::progress::UnlockNote;

#[test]
fn a_notification_drifts_up_and_fades_at_fixed_rates() {
    let mut n = Notification::new(UnlockNote::FastFall);
    assert_eq!(n.offset, 10_000_000);
    assert_eq!(n.alpha, 1_000_000);
    // a fifth of a second: four units of drift, a fifth of the alpha gone
    let alive = n.update(200_000);
    assert!(alive);
    assert_eq!(n.offset, 14_000_000);
    assert_eq!(n.alpha, 800_000);
}

#[test]
fn a_notification_dies_exactly_when_transparent() {
    let mut n = Notification::new(UnlockNote::FastPipes);
    let alive = n.update(999_999);
    assert!(alive);
    assert_eq!(n.alpha, 1);
    let mut m = Notification::new(UnlockNote::FastPipes);
    let alive = m.update(1_000_000);
    assert!(!alive);
    assert_eq!(m.alpha, 0);
}

#[test]
fn a_particle_integrates_decayed_speed_drift_spin_and_fade() {
    let mut p = Particle {
        x: 0,
        y: 0,
        dir_x: 0,
        dir_y: -1_000_000,
        speed: 70_000_000,
        rot: 0,
        rot_speed: 200_000,
        alpha: 1_000_000,
    };
    // a tenth of a second at base scroll speed
    let alive = p.update(50, 100_000);
    assert!(alive);
    // speed decayed by 170 * 0.1 units/s
    assert_eq!(p.speed, 53_000_000);
    // it travelled 5.3 units straight down and drifted 5 units left
    assert_eq!(p.y, -5_300_000);
    assert_eq!(p.x, -5_000_000);
    // rotation accumulates with the distance travelled
    assert_eq!(p.rot, 1_060_000);
    assert_eq!(p.alpha, 700_000);
}

#[test]
fn particle_speed_floors_at_zero_and_never_reverses() {
    let mut p = Particle {
        x: 0,
        y: 0,
        dir_x: 0,
        dir_y: -1_000_000,
        speed: 70_000_000,
        rot: 0,
        rot_speed: -350_000,
        alpha: 1_000_000,
    };
    // half a second of deceleration would overshoot zero; it must floor
    let alive = p.update(0, 300_000);
    assert!(alive);
    assert_eq!(p.speed, 19_000_000);
    let y_before = p.y;
    let alive = p.update(0, 300_000);
    assert!(!alive || p.speed == 0);
    assert_eq!(p.speed, 0);
    // with speed zero and no world drift the particle holds still
    let mut q = p;
    q.alpha = 1_000_000;
    q.update(0, 10_000);
    assert_eq!(q.y, p.y);
    assert!(p.y <= y_before);
}
