use asteroids::game::{outside_window, random_place, screen_wrap};
use asteroids::movement::Movement;
use asteroids::trig::{angle_add, cos_fixed, sin_fixed};

#[test]
fn wrap_is_noop_inside_viewport() {
    let mut x: i64 = 123_456;
    let mut y: i64 = 1;
    screen_wrap(&mut x, &mut y, 800_000, 600_000);
    assert_eq!(x, 123_456);
    assert_eq!(y, 1);

    let mut x0: i64 = 0;
    let mut y0: i64 = 599_999;
    screen_wrap(&mut x0, &mut y0, 800_000, 600_000);
    assert_eq!(x0, 0);
    assert_eq!(y0, 599_999);
}

#[test]
fn wrap_brings_overflow_back_by_one_dimension() {
    let mut x: i64 = 800_001;
    let mut y: i64 = -3_000;
    screen_wrap(&mut x, &mut y, 800_000, 600_000);
    assert_eq!(x, 1);
    assert_eq!(y, 597_000);
}

#[test]
fn outside_window_tests_each_edge() {
    assert!(!outside_window((0, 0), 800_000, 600_000));
    assert!(!outside_window((800_000, 600_000), 800_000, 600_000));
    assert!(outside_window((800_001, 0), 800_000, 600_000));
    assert!(outside_window((-1, 0), 800_000, 600_000));
    assert!(outside_window((0, 600_001), 800_000, 600_000));
    assert!(outside_window((0, -1), 800_000, 600_000));
}

#[test]
fn random_place_stays_on_the_canvas() {
    for _ in 0..50 {
        let (x, y): (i64, i64) = random_place(800_000, 600_000);
        assert!(0 <= x && x <= 800_000);
        assert!(0 <= y && y <= 600_000);
    }
}

#[test]
fn trig_hits_exact_values_at_quarter_turns() {
    assert_eq!(sin_fixed(0), 0);
    assert_eq!(sin_fixed(1571), 1000);
    assert_eq!(sin_fixed(3142), 0);
    assert_eq!(cos_fixed(0), 1000);
    assert_eq!(cos_fixed(1571), 0);
    assert_eq!(cos_fixed(3142), -1000);
    // Facing up (3π/2): straight along negative y.
    assert_eq!(cos_fixed(4713), 0);
    assert_eq!(sin_fixed(4713), -1000);
}

#[test]
fn angle_add_wraps_both_ways() {
    assert_eq!(angle_add(6000, 500), 216);
    assert_eq!(angle_add(100, -300), 6084);
    assert_eq!(angle_add(3000, 100), 3100);
}

#[test]
fn integrator_computes_exact_acceleration() {
    let mut m = Movement::new(300, 10_000);
    m.speed_x = 10_000;
    m.force_x = 5_000;
    m.update();
    // drag term: 300 * 10000 / 1000 = 3000; accel: (5000 - 3000) * 1000 / 10000 = 200
    assert_eq!(m.acceleration_x, 200);
    assert_eq!(m.speed_x, 10_200);
    assert_eq!(m.acceleration_y, 0);
    assert_eq!(m.speed_y, 0);
}

#[test]
fn integrator_decays_speed_toward_zero_without_force() {
    let mut m = Movement::new(300, 10_000);
    m.speed_x = 10_000;
    m.speed_y = -10_000;
    let mut last_x: i64 = m.speed_x;
    let mut last_y: i64 = -m.speed_y;
    for _ in 0..600 {
        m.update();
        assert!(m.speed_x.abs() <= last_x);
        assert!(m.speed_y.abs() <= last_y);
        last_x = m.speed_x.abs();
        last_y = m.speed_y.abs();
    }
    // The drag term floors to zero below 34 fixed-point units, so the speed
    // settles inside that band instead of at exactly zero.
    assert!(m.speed_x.abs() <= 33);
    assert!(m.speed_y.abs() <= 33);
    assert!(m.speed_x >= 0);
    assert!(m.speed_y <= 0);
}
