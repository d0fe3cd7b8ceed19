use asteroids::objects::{Asteroid, AsteroidSize, Laser, Ship};
use asteroids::Input;

fn still_asteroid(x: i64, y: i64, size: AsteroidSize) -> Asteroid {
    Asteroid {
        x,
        y,
        rotation: 0,
        rotation_speed: 0,
        speed_x: 0,
        speed_y: 0,
        size,
        mirrored: false,
        mesh: 0,
    }
}

#[test]
fn ship_starts_centered_facing_up() {
    let s = Ship::new(800_000, 600_000, 0);
    assert_eq!(s.x, (800_000 - 18_000) / 2);
    assert_eq!(s.y, (600_000 - 20_000) / 2);
    assert_eq!(s.rotation, 4713);
    assert_eq!(s.mov.speed_x, 0);
    assert_eq!(s.mov.speed_y, 0);
    assert!(!s.moving);
}

#[test]
fn thrust_accelerates_along_the_heading() {
    let mut s = Ship::new(800_000, 600_000, 0);
    let x0: i64 = s.x;
    let y0: i64 = s.y;
    let input = Input { thrust: true, ..Input::default() };
    s.update_movement(input);
    // Facing up: the thrust force is (0, -5000), so one integrator step
    // gives a speed of (0, -500) and the ship moves 0.5 pixels up.
    assert!(s.moving);
    assert_eq!(s.mov.force_y, -5_000);
    assert_eq!(s.mov.speed_y, -500);
    assert_eq!(s.y, y0 - 500);
    assert_eq!(s.x, x0);
}

#[test]
fn rotation_keys_turn_the_ship() {
    let mut s = Ship::new(800_000, 600_000, 0);
    let r0: i64 = s.rotation;
    s.update_movement(Input { rotate_right: true, ..Input::default() });
    assert_eq!(s.rotation, r0 + 100);
    s.update_movement(Input { rotate_left: true, ..Input::default() });
    assert_eq!(s.rotation, r0);
    // Both keys cancel out.
    s.update_movement(Input { rotate_left: true, rotate_right: true, ..Input::default() });
    assert_eq!(s.rotation, r0);
}

#[test]
fn shoot_spawns_a_laser_offset_from_the_ship() {
    let s = Ship::new(800_000, 600_000, 0);
    let mut lasers: Vec<Laser> = Vec::new();
    s.shoot(&mut lasers);
    assert_eq!(lasers.len(), 1);
    assert_eq!(lasers[0].x, s.x + 10_000);
    assert_eq!(lasers[0].y, s.y - 9_000);
    assert_eq!(lasers[0].rotation, s.rotation);
    assert_eq!(lasers[0].speed, 17_000);
}

#[test]
fn fire_rate_gate_admits_one_shot_per_cooldown() {
    // A ship created at time 0 may fire once 200 ms have passed.
    let mut s = Ship::new(800_000, 600_000, 0);
    let mut lasers: Vec<Laser> = Vec::new();
    assert!(!s.fire(100, &mut lasers));
    assert_eq!(lasers.len(), 0);
    assert!(s.fire(200, &mut lasers));
    assert_eq!(lasers.len(), 1);
    // A second attempt inside the cooldown window is refused...
    assert!(!s.fire(399, &mut lasers));
    assert_eq!(lasers.len(), 1);
    // ...and allowed again once the cooldown has passed.
    assert!(s.fire(400, &mut lasers));
    assert_eq!(lasers.len(), 2);
}

#[test]
fn laser_flies_along_its_heading() {
    let mut l = Laser::new(100_000, 200_000, 0);
    l.update();
    assert_eq!(l.x, 117_000);
    assert_eq!(l.y, 200_000);

    let mut up = Laser::new(100_000, 200_000, 4713);
    up.update();
    assert_eq!(up.x, 100_000);
    assert_eq!(up.y, 183_000);
}

#[test]
fn hit_test_is_strict_at_the_radius() {
    let a = still_asteroid(100_000, 100_000, AsteroidSize::Big);
    // Exactly at the radius (40 pixels): not a hit.
    assert!(!a.in_hitbox((140_000, 100_000)));
    // Just inside: a hit.
    assert!(a.in_hitbox((139_999, 100_000)));
    assert!(a.in_hitbox((100_000, 100_000)));

    let m = still_asteroid(0, 0, AsteroidSize::Medium);
    assert!(!m.in_hitbox((0, 30_000)));
    assert!(m.in_hitbox((0, 29_999)));

    let s = still_asteroid(0, 0, AsteroidSize::Small);
    assert!(!s.in_hitbox((20_000, 0)));
    assert!(s.in_hitbox((19_999, 0)));
}

#[test]
fn asteroid_update_applies_drift_and_spin() {
    let mut a = still_asteroid(10_000, 20_000, AsteroidSize::Big);
    a.speed_x = 3_000;
    a.speed_y = -2_000;
    a.rotation_speed = 100;
    a.update();
    assert_eq!(a.x, 13_000);
    assert_eq!(a.y, 18_000);
    assert_eq!(a.rotation, 100);
}

#[test]
fn split_conserves_the_size_ladder() {
    let big = still_asteroid(50_000, 60_000, AsteroidSize::Big);
    let [b1, b2] = big.split().expect("a Big asteroid splits");
    assert_eq!(b1.size, AsteroidSize::Medium);
    assert_eq!(b2.size, AsteroidSize::Medium);
    assert_eq!(b1.x, 50_000);
    assert_eq!(b1.y, 60_000);
    assert_eq!(b2.x, 50_000);
    assert_eq!(b2.y, 60_000);

    let medium = still_asteroid(0, 0, AsteroidSize::Medium);
    let [m1, m2] = medium.split().expect("a Medium asteroid splits");
    assert_eq!(m1.size, AsteroidSize::Small);
    assert_eq!(m2.size, AsteroidSize::Small);

    let small = still_asteroid(0, 0, AsteroidSize::Small);
    assert!(small.split().is_none());
}

#[test]
fn split_children_get_fresh_bounded_velocities() {
    let big = still_asteroid(50_000, 60_000, AsteroidSize::Big);
    for _ in 0..20 {
        let [c1, c2] = big.split().expect("a Big asteroid splits");
        for c in [c1, c2] {
            assert!(0 <= c.speed_x && c.speed_x <= 5_000);
            assert!(0 <= c.speed_y && c.speed_y <= 5_000);
            assert!(0 <= c.rotation_speed && c.rotation_speed <= 100);
        }
    }
}

#[test]
fn spawn_lands_inside_viewport_outside_safe_zone() {
    for _ in 0..30 {
        let a = Asteroid::new(400_000, 300_000, None, 800_000, 600_000);
        assert!(0 <= a.x && a.x <= 800_000);
        assert!(0 <= a.y && a.y <= 600_000);
        let dx: i64 = 400_000 - a.x;
        let dy: i64 = 300_000 - a.y;
        assert!(dx.abs() > 150_000 || dy.abs() > 150_000);
        assert!(a.speed_x.abs() <= 5_000);
        assert!(a.speed_y.abs() <= 5_000);
        assert!(a.rotation_speed.abs() <= 100);
        assert_eq!(a.rotation, 0);
        assert_eq!(a.mesh, 0);
    }
}

#[test]
fn spawn_respects_a_size_override() {
    let a = Asteroid::new(400_000, 300_000, Some(AsteroidSize::Big), 800_000, 600_000);
    assert_eq!(a.size, AsteroidSize::Big);
    let b = Asteroid::new(400_000, 300_000, Some(AsteroidSize::Small), 800_000, 600_000);
    assert_eq!(b.size, AsteroidSize::Small);
}
