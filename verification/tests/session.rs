use asteroids::game::GameState;
use asteroids::objects::{Asteroid, AsteroidSize, Laser};
use asteroids::Input;

fn still_asteroid(x: i64, y: i64, size: AsteroidSize) -> Asteroid {
    Asteroid {
        x,
        y,
        rotation: 0,
        rotation_speed: 0,
        speed_x: 0,
        speed_y: 0,
        size,
        mirrored: false,
        mesh: 0,
    }
}

#[test]
fn new_session_is_empty_and_alive() {
    let g = GameState::new(800_000, 600_000, 0);
    assert_eq!(g.points, 0);
    assert!(!g.dead);
    assert!(g.lasers.is_empty());
    assert!(g.asteroids.is_empty());
    assert_eq!(g.ship.x, (800_000 - 18_000) / 2);
    assert_eq!(g.ship.y, (600_000 - 20_000) / 2);
}

#[test]
fn spawn_asteroids_avoids_the_ship() {
    let mut g = GameState::new(800_000, 600_000, 0);
    g.spawn_asteroids(5);
    assert_eq!(g.asteroids.len(), 5);
    for a in &g.asteroids {
        assert!(0 <= a.x && a.x <= 800_000);
        assert!(0 <= a.y && a.y <= 600_000);
        let dx: i64 = g.ship.x - a.x;
        let dy: i64 = g.ship.y - a.y;
        assert!(dx.abs() > 150_000 || dy.abs() > 150_000);
    }
}

#[test]
fn destroying_the_last_asteroid_respawns_a_wave_of_five() {
    let mut g = GameState::new(800_000, 600_000, 0);
    // One Small asteroid far from the ship, and a laser that will land
    // exactly on its center this tick.
    g.asteroids.push(still_asteroid(100_000, 100_000, AsteroidSize::Small));
    g.lasers.push(Laser::new(100_000 - 17_000, 100_000, 0));
    g.tick(Input::default(), 1);
    // The kill scored a point, the Small asteroid left no pieces, and the
    // now-empty field respawned a wave of five before the tick resolved.
    assert_eq!(g.points, 1);
    assert_eq!(g.asteroids.len(), 5);
    assert!(g.lasers.is_empty());
    assert!(!g.dead);
}

#[test]
fn splitting_a_big_asteroid_adds_two_children() {
    let mut g = GameState::new(800_000, 600_000, 0);
    g.asteroids.push(still_asteroid(100_000, 100_000, AsteroidSize::Big));
    g.lasers.push(Laser::new(100_000 - 17_000, 100_000, 0));
    g.tick(Input::default(), 1);
    assert_eq!(g.points, 1);
    assert_eq!(g.asteroids.len(), 2);
    for a in &g.asteroids {
        assert_eq!(a.size, AsteroidSize::Medium);
        assert_eq!(a.x, 100_000);
        assert_eq!(a.y, 100_000);
    }
    assert!(g.lasers.is_empty());
}

#[test]
fn a_laser_destroys_at_most_one_asteroid_per_tick() {
    let mut g = GameState::new(800_000, 600_000, 0);
    // Two Small asteroids stacked at the same spot: the laser claims only
    // the first one, in collection order.
    g.asteroids.push(still_asteroid(100_000, 100_000, AsteroidSize::Small));
    g.asteroids.push(still_asteroid(100_000, 100_000, AsteroidSize::Small));
    g.lasers.push(Laser::new(100_000 - 17_000, 100_000, 0));
    g.tick(Input::default(), 1);
    assert_eq!(g.points, 1);
    assert_eq!(g.asteroids.len(), 1);
}

#[test]
fn ship_overlap_resets_the_run() {
    let mut g = GameState::new(800_000, 600_000, 0);
    g.points = 7;
    g.lasers.push(Laser::new(0, 0, 0));
    // A Big asteroid sitting on the ship's position.
    g.asteroids.push(still_asteroid(g.ship.x, g.ship.y, AsteroidSize::Big));
    g.tick(Input::default(), 1);
    assert!(g.dead);
    assert_eq!(g.points, 0);
    assert!(g.asteroids.is_empty());
    assert!(g.lasers.is_empty());
    assert_eq!(g.ship.x, (800_000 - 18_000) / 2);
    assert_eq!(g.ship.y, (600_000 - 20_000) / 2);
}

#[test]
fn dead_session_ignores_everything_but_restart() {
    let mut g = GameState::new(800_000, 600_000, 0);
    g.asteroids.push(still_asteroid(g.ship.x, g.ship.y, AsteroidSize::Big));
    g.tick(Input::default(), 1);
    assert!(g.dead);
    // Ticks without the restart key change nothing.
    g.tick(Input { thrust: true, fire: true, ..Input::default() }, 500);
    assert!(g.dead);
    assert!(g.asteroids.is_empty());
    // The restart key brings the session back with a fresh wave.
    g.tick(Input { restart: true, ..Input::default() }, 1_000);
    assert!(!g.dead);
    assert_eq!(g.points, 0);
    assert_eq!(g.asteroids.len(), 5);
    assert!(g.lasers.is_empty());
}

#[test]
fn tick_fires_through_the_cadence_gate() {
    let mut g = GameState::new(800_000, 600_000, 0);
    // Park an asteroid far from the ship so no wave spawn interferes.
    g.asteroids.push(still_asteroid(100_000, 100_000, AsteroidSize::Big));
    let fire = Input { fire: true, ..Input::default() };
    g.tick(fire, 200);
    assert_eq!(g.lasers.len(), 1);
    // Within the cooldown window nothing more comes out...
    g.tick(fire, 300);
    assert_eq!(g.lasers.len(), 1);
    // ...and after it, a second laser does.
    g.tick(fire, 400);
    assert_eq!(g.lasers.len(), 2);
}

#[test]
fn lasers_expire_once_off_screen() {
    let mut g = GameState::new(800_000, 600_000, 0);
    g.asteroids.push(still_asteroid(100_000, 100_000, AsteroidSize::Big));
    // A laser heading right, close to the edge: one tick keeps it inside,
    // the next tick carries it out and discards it.
    g.lasers.push(Laser::new(800_000 - 20_000, 300_000, 0));
    g.tick(Input::default(), 1);
    assert_eq!(g.lasers.len(), 1);
    assert_eq!(g.lasers[0].x, 800_000 - 3_000);
    g.tick(Input::default(), 2);
    assert!(g.lasers.is_empty());
}

#[test]
fn the_ship_wraps_around_the_screen() {
    let mut g = GameState::new(800_000, 600_000, 0);
    g.asteroids.push(still_asteroid(100_000, 100_000, AsteroidSize::Big));
    // Drift the ship to the right edge by hand and let one tick carry it
    // over.
    g.ship.x = 799_990;
    g.ship.mov.speed_x = 2_000;
    g.tick(Input::default(), 1);
    // 799_990 + (2000 - drag term 60 fixed-point tenths) keeps it past the
    // edge; the wrap subtracts one width.
    assert!(g.ship.x < 2_000);
    assert!(!g.dead);
}
