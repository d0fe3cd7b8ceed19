//! The three kinds of body in the game: the ship, its lasers, and the
//! asteroids they destroy.

use vstd::prelude::*;
use crate::movement::{accel_of, Movement, MovementV};
use crate::rng::rand_in_range;
use crate::trig::{cos_milli, sin_milli, wrap_angle, cos_fixed, sin_fixed, angle_add, TWO_PI_MILLI};
use crate::{div_trunc, div_trunc_i64, lemma_div_trunc_bounds, Input, POS_LIMIT, SCALE, TIME_LIMIT, VIEW_LIMIT};

verus! {

/// Ship body width (across), fixed-point pixels.
pub const SHIP_WIDTH: i64 = 18_000;

/// Ship body height (nose to tail), fixed-point pixels.
pub const SHIP_HEIGHT: i64 = 20_000;

/// Thrust force the ship's rocket applies along its heading.
pub const SHIP_MOVEMENT_FORCE: i64 = 5_000;

/// How far the ship turns in one tick, milliradians.
pub const SHIP_ROTATION_SPEED: i64 = 100;

/// Drag coefficient of the ship's movement state.
pub const SHIP_DRAG: i64 = 300;

/// Mass of the ship's movement state.
pub const SHIP_MASS: i64 = 10_000;

/// Shots per second the ship may fire.
pub const SHIP_FIRE_RATE: i64 = 5;

/// Proved cap on the ship's speed per axis: the drag/mass/force constants
/// above never push one integration step past 20 pixels per tick.
pub const SHIP_SPEED_LIMIT: i64 = 20_000;

/// How far a laser flies per tick.
pub const LASER_SPEED: i64 = 17_000;

/// Length of a laser bolt (used by the renderer's draw offset).
pub const LASER_WIDTH: i64 = 15_000;

/// Collision radius of a Big asteroid.
pub const ASTEROID_BIG: i64 = 40_000;

/// Collision radius of a Medium asteroid.
pub const ASTEROID_MEDIUM: i64 = 30_000;

/// Collision radius of a Small asteroid.
pub const ASTEROID_SMALL: i64 = 20_000;

/// Largest asteroid drift speed per axis.
pub const ASTEROID_MAX_MOVEMENT_SPEED: i64 = 5_000;

/// Largest asteroid spin per tick, milliradians.
pub const ASTEROID_MAX_ROTATION_SPEED: i64 = 100;

/// Side of the square around the ship in which no asteroid may spawn.
pub const SHIP_SAFEZONE: i64 = 300_000;

/// Half of [`SHIP_SAFEZONE`].
pub const SHIP_SAFEZONE_HALF: i64 = 150_000;

/// How many polygon silhouettes the asteroid mesh library offers.
pub const ASTEROID_MESH_VARIANTS: i64 = 1;

// ---------------------------------------------------------------------------
// Laser
// ---------------------------------------------------------------------------

/// A laser bolt fired from the ship; it keeps its heading and speed and is
/// discarded once it leaves the viewport.
#[derive(Clone, Copy, Debug, PartialEq, Eq, Structural)]
pub struct Laser {
    pub x: i64,
    pub y: i64,
    pub rotation: i64,
    pub speed: i64,
    pub width: i64,
}

/// Mathematical image of a [`Laser`].
pub struct LaserV {
    pub x: int,
    pub y: int,
    pub rotation: int,
    pub speed: int,
    pub width: int,
}

impl View for Laser {
    type V = LaserV;

    open spec fn view(&self) -> LaserV {
        LaserV {
            x: self.x as int,
            y: self.y as int,
            rotation: self.rotation as int,
            speed: self.speed as int,
            width: self.width as int,
        }
    }
}

/// The images of a sequence of lasers.
pub open spec fn lasers_view(s: Seq<Laser>) -> Seq<LaserV> {
    s.map_values(|l: Laser| l@)
}

/// Mapping the image over a push appends the image of the pushed laser.
pub proof fn lemma_lasers_view_push(s: Seq<Laser>, l: Laser)
    ensures
        lasers_view(s.push(l)) == lasers_view(s).push(l@),
{
    assert(lasers_view(s.push(l)) =~= lasers_view(s).push(l@));
}

/// One tick of laser flight: the unit heading vector times the speed.
pub open spec fn laser_step(l: LaserV) -> LaserV {
    LaserV {
        x: l.x + div_trunc(cos_milli(l.rotation) * l.speed, SCALE as int),
        y: l.y + div_trunc(sin_milli(l.rotation) * l.speed, SCALE as int),
        ..l
    }
}

impl Laser {
    /// A fresh bolt at the given position and heading, at standard speed.
    pub fn new(x: i64, y: i64, rotation: i64) -> (l: Laser)
        ensures
            l == (Laser { x, y, rotation, speed: LASER_SPEED, width: LASER_WIDTH }),
    {
        Laser { x, y, rotation, speed: LASER_SPEED, width: LASER_WIDTH }
    }

    /// Advance the bolt one tick along its heading.
    pub fn update(&mut self)
        requires
            0 <= old(self).rotation < TWO_PI_MILLI,
            0 <= old(self).speed <= 1_000_000,
            -POS_LIMIT <= old(self).x <= POS_LIMIT,
            -POS_LIMIT <= old(self).y <= POS_LIMIT,
        ensures
            final(self)@ == laser_step(old(self)@),
            old(self).x - old(self).speed <= final(self).x <= old(self).x + old(self).speed,
            old(self).y - old(self).speed <= final(self).y <= old(self).y + old(self).speed,
    {
        let c = cos_fixed(self.rotation);
        let s = sin_fixed(self.rotation);
        proof {
            assert(-1000 * (self.speed as int) <= (c as int) * (self.speed as int) <= 1000 * (
            self.speed as int)) by (nonlinear_arith)
                requires
                    -1000 <= c <= 1000,
                    0 <= self.speed,
            ;
            assert(-1000 * (self.speed as int) <= (s as int) * (self.speed as int) <= 1000 * (
            self.speed as int)) by (nonlinear_arith)
                requires
                    -1000 <= s <= 1000,
                    0 <= self.speed,
            ;
            lemma_div_trunc_bounds((c as int) * (self.speed as int), SCALE as int);
            lemma_div_trunc_bounds((s as int) * (self.speed as int), SCALE as int);
        }
        self.x = self.x + div_trunc_i64(c * self.speed, SCALE);
        self.y = self.y + div_trunc_i64(s * self.speed, SCALE);
    }
}

// ---------------------------------------------------------------------------
// Ship
// ---------------------------------------------------------------------------

/// The player's ship.  The width/height naming follows the mesh, which is
/// drawn facing right and then rotated: `height` runs along the body axis.
#[derive(Clone, Copy, Debug, PartialEq, Eq, Structural)]
pub struct Ship {
    pub width: i64,
    pub height: i64,
    pub x: i64,
    pub y: i64,
    pub mov: Movement,
    /// Current heading in milliradians, always reduced to `[0, 2π)`.
    pub rotation: i64,
    /// Force the rocket adds along the heading while thrusting.
    pub movement_force: i64,
    /// Turn per tick while a rotation key is held, milliradians.
    pub rotation_speed: i64,
    /// Shots per second the cadence gate allows.
    pub fire_rate: i64,
    /// Clock reading (ms) of the most recent shot.
    pub last_fire: u64,
    /// Whether the rocket burned this tick (the renderer draws the flame).
    pub moving: bool,
}

/// Mathematical image of a [`Ship`].
pub struct ShipV {
    pub width: int,
    pub height: int,
    pub x: int,
    pub y: int,
    pub mov: MovementV,
    pub rotation: int,
    pub movement_force: int,
    pub rotation_speed: int,
    pub fire_rate: int,
    pub last_fire: int,
    pub moving: bool,
}

impl View for Ship {
    type V = ShipV;

    open spec fn view(&self) -> ShipV {
        ShipV {
            width: self.width as int,
            height: self.height as int,
            x: self.x as int,
            y: self.y as int,
            mov: self.mov@,
            rotation: self.rotation as int,
            movement_force: self.movement_force as int,
            rotation_speed: self.rotation_speed as int,
            fire_rate: self.fire_rate as int,
            last_fire: self.last_fire as int,
            moving: self.moving,
        }
    }
}

/// Well-formed ship state: the session constants in place, the heading
/// reduced, and speed and force within their proved caps.
pub open spec fn ship_wf(s: ShipV) -> bool {
    &&& s.width == SHIP_WIDTH
    &&& s.height == SHIP_HEIGHT
    &&& s.movement_force == SHIP_MOVEMENT_FORCE
    &&& 0 <= s.rotation_speed <= TWO_PI_MILLI
    &&& 1 <= s.fire_rate <= 1000
    &&& s.mov.drag == SHIP_DRAG
    &&& s.mov.mass == SHIP_MASS
    &&& 0 <= s.rotation < TWO_PI_MILLI
    &&& -SHIP_SPEED_LIMIT <= s.mov.speed_x <= SHIP_SPEED_LIMIT
    &&& -SHIP_SPEED_LIMIT <= s.mov.speed_y <= SHIP_SPEED_LIMIT
    &&& -SHIP_MOVEMENT_FORCE <= s.mov.force_x <= SHIP_MOVEMENT_FORCE
    &&& -SHIP_MOVEMENT_FORCE <= s.mov.force_y <= SHIP_MOVEMENT_FORCE
    &&& 0 <= s.last_fire < TIME_LIMIT
}

/// The ship state a new session starts from: centered in the viewport,
/// facing up, at rest.
pub open spec fn ship_spawn(w: int, h: int, now: int) -> ShipV {
    ShipV {
        width: SHIP_WIDTH as int,
        height: SHIP_HEIGHT as int,
        x: (w - SHIP_WIDTH) / 2,
        y: (h - SHIP_HEIGHT) / 2,
        mov: MovementV {
            drag: SHIP_DRAG as int,
            mass: SHIP_MASS as int,
            speed_x: 0,
            speed_y: 0,
            force_x: 0,
            force_y: 0,
            acceleration_x: 0,
            acceleration_y: 0,
        },
        rotation: 3 * (crate::trig::HALF_PI_MILLI as int),
        movement_force: SHIP_MOVEMENT_FORCE as int,
        rotation_speed: SHIP_ROTATION_SPEED as int,
        fire_rate: SHIP_FIRE_RATE as int,
        last_fire: now,
        moving: false,
    }
}

/// The heading after this tick's rotation keys: left turns subtract, right
/// turns add, both reduced to `[0, 2π)`.
pub open spec fn ship_rotation_after(s: ShipV, input: Input) -> int {
    let r1 = if input.rotate_left {
        wrap_angle(s.rotation - s.rotation_speed)
    } else {
        s.rotation
    };
    if input.rotate_right {
        wrap_angle(r1 + s.rotation_speed)
    } else {
        r1
    }
}

/// One movement tick of the ship: turn, compose the thrust force from the
/// new heading, integrate, and advance the position by the new speed.
pub open spec fn ship_step(s: ShipV, input: Input) -> ShipV {
    let rot = ship_rotation_after(s, input);
    let fx = if input.thrust {
        div_trunc(cos_milli(rot) * s.movement_force, SCALE as int)
    } else {
        0
    };
    let fy = if input.thrust {
        div_trunc(sin_milli(rot) * s.movement_force, SCALE as int)
    } else {
        0
    };
    let ax = accel_of(fx, s.mov.drag, s.mov.speed_x, s.mov.mass);
    let ay = accel_of(fy, s.mov.drag, s.mov.speed_y, s.mov.mass);
    let vx = s.mov.speed_x + ax;
    let vy = s.mov.speed_y + ay;
    ShipV {
        x: s.x + vx,
        y: s.y + vy,
        rotation: rot,
        moving: input.thrust,
        mov: MovementV {
            force_x: fx,
            force_y: fy,
            acceleration_x: ax,
            acceleration_y: ay,
            speed_x: vx,
            speed_y: vy,
            ..s.mov
        },
        ..s
    }
}

/// The laser a shot spawns: offset from the ship's origin by half the body
/// length along x and half the body width back along y, sharing the ship's
/// heading.
pub open spec fn laser_spawn(s: ShipV) -> LaserV {
    LaserV {
        x: s.x + s.height / 2,
        y: s.y - s.width / 2,
        rotation: s.rotation,
        speed: LASER_SPEED as int,
        width: LASER_WIDTH as int,
    }
}

/// The cadence gate: a shot is allowed once `1000 / fire_rate` milliseconds
/// have passed since the last one.
pub open spec fn fire_allowed(s: ShipV, now: int) -> bool
    recommends
        s.fire_rate > 0,
{
    now >= s.last_fire + 1000int / s.fire_rate
}

/// The ship's own constants keep one integration step inside the speed cap.
proof fn lemma_ship_speed_step(force: int, speed: int)
    requires
        -SHIP_MOVEMENT_FORCE <= force <= SHIP_MOVEMENT_FORCE,
        -SHIP_SPEED_LIMIT <= speed <= SHIP_SPEED_LIMIT,
    ensures
        -SHIP_SPEED_LIMIT <= speed + accel_of(force, SHIP_DRAG as int, speed, SHIP_MASS as int)
            <= SHIP_SPEED_LIMIT,
{
    let t = div_trunc(300 * speed, 1000);
    lemma_div_trunc_bounds(300 * speed, 1000);
    let n = (force - t) * 1000;
    lemma_div_trunc_bounds(n, 10000);
}

impl Ship {
    /// Well-formed ship state (see [`ship_wf`]).
    pub open spec fn wf(self) -> bool {
        ship_wf(self@)
    }

    /// A fresh ship centered in a viewport of the given size, facing up.
    pub fn new(width: i64, height: i64, now: u64) -> (s: Ship)
        requires
            SHIP_WIDTH <= width <= VIEW_LIMIT,
            SHIP_HEIGHT <= height <= VIEW_LIMIT,
            now < TIME_LIMIT,
        ensures
            s@ == ship_spawn(width as int, height as int, now as int),
            s.wf(),
            0 <= s.x <= width,
            0 <= s.y <= height,
    {
        proof {
            lemma_div_trunc_bounds(width - SHIP_WIDTH, 2);
            lemma_div_trunc_bounds(height - SHIP_HEIGHT, 2);
        }
        Ship {
            width: SHIP_WIDTH,
            height: SHIP_HEIGHT,
            x: (width - SHIP_WIDTH) / 2,
            y: (height - SHIP_HEIGHT) / 2,
            rotation: 3 * crate::trig::HALF_PI_MILLI,
            movement_force: SHIP_MOVEMENT_FORCE,
            rotation_speed: SHIP_ROTATION_SPEED,
            mov: Movement::new(SHIP_DRAG, SHIP_MASS),
            fire_rate: SHIP_FIRE_RATE,
            last_fire: now,
            moving: false,
        }
    }

    /// Handle this tick's movement input: turn, thrust, integrate, advance.
    pub fn update_movement(&mut self, input: Input)
        requires
            old(self).wf(),
            -POS_LIMIT <= old(self).x <= POS_LIMIT,
            -POS_LIMIT <= old(self).y <= POS_LIMIT,
        ensures
            final(self)@ == ship_step(old(self)@, input),
            final(self).wf(),
            old(self).x - SHIP_SPEED_LIMIT <= final(self).x <= old(self).x + SHIP_SPEED_LIMIT,
            old(self).y - SHIP_SPEED_LIMIT <= final(self).y <= old(self).y + SHIP_SPEED_LIMIT,
    {
        self.mov.force_x = 0;
        self.mov.force_y = 0;
        self.moving = false;
        if input.rotate_left {
            self.rotation = angle_add(self.rotation, -self.rotation_speed);
        }
        if input.rotate_right {
            self.rotation = angle_add(self.rotation, self.rotation_speed);
        }
        if input.thrust {
            let c = cos_fixed(self.rotation);
            let s = sin_fixed(self.rotation);
            proof {
                lemma_div_trunc_bounds((c as int) * (self.movement_force as int), SCALE as int);
                lemma_div_trunc_bounds((s as int) * (self.movement_force as int), SCALE as int);
            }
            self.mov.force_x = div_trunc_i64(c * self.movement_force, SCALE);
            self.mov.force_y = div_trunc_i64(s * self.movement_force, SCALE);
            self.moving = true;
        }
        proof {
            lemma_ship_speed_step(self.mov.force_x as int, self.mov.speed_x as int);
            lemma_ship_speed_step(self.mov.force_y as int, self.mov.speed_y as int);
        }
        self.mov.update();
        self.x = self.x + self.mov.speed_x;
        self.y = self.y + self.mov.speed_y;
    }

    /// Push a fresh laser bolt, offset from the ship, onto the collection.
    pub fn shoot(&self, lasers: &mut Vec<Laser>)
        requires
            -POS_LIMIT <= self.x <= POS_LIMIT,
            -POS_LIMIT <= self.y <= POS_LIMIT,
            0 <= self.width,
            0 <= self.height,
        ensures
            lasers_view(final(lasers)@) == lasers_view(old(lasers)@).push(laser_spawn(self@)),
            final(lasers)@.len() == old(lasers)@.len() + 1,
    {
        let l = Laser::new(self.x + self.height / 2, self.y - self.width / 2, self.rotation);
        lasers.push(l);
        proof {
            lemma_lasers_view_push(old(lasers)@, l);
        }
    }

    /// Fire if the cadence gate allows it: spawn a laser and remember the
    /// time of the shot; otherwise change nothing.
    pub fn fire(&mut self, now: u64, lasers: &mut Vec<Laser>) -> (fired: bool)
        requires
            old(self).wf(),
            now < TIME_LIMIT,
            -POS_LIMIT <= old(self).x <= POS_LIMIT,
            -POS_LIMIT <= old(self).y <= POS_LIMIT,
        ensures
            fired == fire_allowed(old(self)@, now as int),
            fired ==> final(self)@ == (ShipV { last_fire: now as int, ..old(self)@ })
                && lasers_view(final(lasers)@) == lasers_view(old(lasers)@).push(
                laser_spawn(old(self)@),
            ) && final(lasers)@.len() == old(lasers)@.len() + 1 && final(self).wf(),
            !fired ==> *final(self) == *old(self) && final(lasers)@ == old(lasers)@,
    {
        proof {
            lemma_div_trunc_bounds(1000, self.fire_rate as int);
        }
        let period: u64 = (1000 / self.fire_rate) as u64;
        if now >= self.last_fire + period {
            self.shoot(lasers);
            self.last_fire = now;
            true
        } else {
            false
        }
    }
}

// ---------------------------------------------------------------------------
// Asteroid
// ---------------------------------------------------------------------------

/// The three asteroid size classes.
#[derive(Clone, Copy, Debug, PartialEq, Eq, Structural)]
pub enum AsteroidSize {
    Big,
    Medium,
    Small,
}

/// A drifting asteroid: position, spin, drift velocity, size class and the
/// silhouette the renderer draws it with.
#[derive(Clone, Copy, Debug, PartialEq, Eq, Structural)]
pub struct Asteroid {
    pub x: i64,
    pub y: i64,
    /// Current orientation in milliradians, always reduced to `[0, 2π)`.
    pub rotation: i64,
    /// Spin per tick, milliradians.
    pub rotation_speed: i64,
    pub speed_x: i64,
    pub speed_y: i64,
    pub size: AsteroidSize,
    /// Whether the silhouette is drawn mirrored.
    pub mirrored: bool,
    /// Index into the silhouette library.
    pub mesh: usize,
}

/// Mathematical image of an [`Asteroid`].
pub struct AsteroidV {
    pub x: int,
    pub y: int,
    pub rotation: int,
    pub rotation_speed: int,
    pub speed_x: int,
    pub speed_y: int,
    pub size: AsteroidSize,
    pub mirrored: bool,
    pub mesh: int,
}

impl View for Asteroid {
    type V = AsteroidV;

    open spec fn view(&self) -> AsteroidV {
        AsteroidV {
            x: self.x as int,
            y: self.y as int,
            rotation: self.rotation as int,
            rotation_speed: self.rotation_speed as int,
            speed_x: self.speed_x as int,
            speed_y: self.speed_y as int,
            size: self.size,
            mirrored: self.mirrored,
            mesh: self.mesh as int,
        }
    }
}

/// The images of a sequence of asteroids.
pub open spec fn asteroids_view(s: Seq<Asteroid>) -> Seq<AsteroidV> {
    s.map_values(|a: Asteroid| a@)
}

/// Mapping the image over a push appends the image of the pushed asteroid.
pub proof fn lemma_asteroids_view_push(s: Seq<Asteroid>, a: Asteroid)
    ensures
        asteroids_view(s.push(a)) == asteroids_view(s).push(a@),
{
    assert(asteroids_view(s.push(a)) =~= asteroids_view(s).push(a@));
}

/// The collision radius of a size class.
pub open spec fn radius_of(s: AsteroidSize) -> int {
    match s {
        AsteroidSize::Big => ASTEROID_BIG as int,
        AsteroidSize::Medium => ASTEROID_MEDIUM as int,
        AsteroidSize::Small => ASTEROID_SMALL as int,
    }
}

/// The size class one split step down.
pub open spec fn smaller_size(s: AsteroidSize) -> AsteroidSize {
    match s {
        AsteroidSize::Big => AsteroidSize::Medium,
        AsteroidSize::Medium => AsteroidSize::Small,
        AsteroidSize::Small => AsteroidSize::Small,
    }
}

/// Whether a point lies strictly inside the asteroid's collision circle:
/// the squared distance to the center is compared against the squared
/// radius, so the boundary itself is not a hit.
pub open spec fn hits(a: AsteroidV, px: int, py: int) -> bool {
    (a.x - px) * (a.x - px) + (a.y - py) * (a.y - py) < radius_of(a.size) * radius_of(a.size)
}

/// One tick of asteroid drift: the position moves by the velocity and the
/// orientation by the spin (reduced to `[0, 2π)`); wrapping the position
/// around the viewport is the orchestrator's step.
pub open spec fn asteroid_step(a: AsteroidV) -> AsteroidV {
    AsteroidV {
        x: a.x + a.speed_x,
        y: a.y + a.speed_y,
        rotation: wrap_angle(a.rotation + a.rotation_speed),
        ..a
    }
}

/// What holds of each asteroid a split produces: the parent's pose and
/// silhouette, the demoted size, and freshly drawn nonnegative drift and
/// spin within the spawn ranges.
pub open spec fn split_child_ok(c: AsteroidV, p: AsteroidV) -> bool {
    &&& c.x == p.x
    &&& c.y == p.y
    &&& c.rotation == p.rotation
    &&& c.mirrored == p.mirrored
    &&& c.mesh == p.mesh
    &&& c.size == smaller_size(p.size)
    &&& 0 <= c.speed_x <= ASTEROID_MAX_MOVEMENT_SPEED
    &&& 0 <= c.speed_y <= ASTEROID_MAX_MOVEMENT_SPEED
    &&& 0 <= c.rotation_speed <= ASTEROID_MAX_ROTATION_SPEED
}

/// Whether an offset from the ship lands inside the square safe zone.
pub open spec fn in_safe_zone(dx: int, dy: int) -> bool {
    &&& -SHIP_SAFEZONE_HALF <= dx <= SHIP_SAFEZONE_HALF
    &&& -SHIP_SAFEZONE_HALF <= dy <= SHIP_SAFEZONE_HALF
}

/// What holds of every freshly spawned asteroid: inside the viewport but
/// outside the ship's safe zone, drift and spin within the spawn ranges,
/// unrotated, a silhouette from the library, and the requested size class
/// if one was requested.
pub open spec fn asteroid_spawn_ok(
    a: AsteroidV,
    ship_x: int,
    ship_y: int,
    size_option: Option<AsteroidSize>,
    w: int,
    h: int,
) -> bool {
    &&& 0 <= a.x <= w
    &&& 0 <= a.y <= h
    &&& !in_safe_zone(ship_x - a.x, ship_y - a.y)
    &&& -ASTEROID_MAX_MOVEMENT_SPEED <= a.speed_x <= ASTEROID_MAX_MOVEMENT_SPEED
    &&& -ASTEROID_MAX_MOVEMENT_SPEED <= a.speed_y <= ASTEROID_MAX_MOVEMENT_SPEED
    &&& -ASTEROID_MAX_ROTATION_SPEED <= a.rotation_speed <= ASTEROID_MAX_ROTATION_SPEED
    &&& a.rotation == 0
    &&& 0 <= a.mesh < ASTEROID_MESH_VARIANTS
    &&& (match size_option {
        Option::Some(sz) => a.size == sz,
        Option::None => true,
    })
}

/// Well-formed asteroid state relative to a viewport: position inside it,
/// orientation reduced, drift and spin within the spawn ranges, and a
/// silhouette from the library.
pub open spec fn asteroid_wf(a: AsteroidV, w: int, h: int) -> bool {
    &&& 0 <= a.x <= w
    &&& 0 <= a.y <= h
    &&& 0 <= a.rotation < TWO_PI_MILLI
    &&& -ASTEROID_MAX_ROTATION_SPEED <= a.rotation_speed <= ASTEROID_MAX_ROTATION_SPEED
    &&& -ASTEROID_MAX_MOVEMENT_SPEED <= a.speed_x <= ASTEROID_MAX_MOVEMENT_SPEED
    &&& -ASTEROID_MAX_MOVEMENT_SPEED <= a.speed_y <= ASTEROID_MAX_MOVEMENT_SPEED
    &&& 0 <= a.mesh < ASTEROID_MESH_VARIANTS
}

impl Asteroid {
    /// Spawn an asteroid at a random viewport position outside the ship's
    /// safe zone, with random drift, spin, silhouette and mirroring, and a
    /// random size class unless one is requested.  Sampling retries a fixed
    /// number of times and then falls back to the viewport corner farthest
    /// from the ship, which the viewport precondition keeps outside the
    /// safe zone, so the call always terminates.
    pub fn new(
        ship_x: i64,
        ship_y: i64,
        size_option: Option<AsteroidSize>,
        width: i64,
        height: i64,
    ) -> (a: Asteroid)
        requires
            SHIP_SAFEZONE < width <= VIEW_LIMIT,
            SHIP_SAFEZONE < height <= VIEW_LIMIT,
            0 <= ship_x <= width,
            0 <= ship_y <= height,
        ensures
            asteroid_spawn_ok(
                a@,
                ship_x as int,
                ship_y as int,
                size_option,
                width as int,
                height as int,
            ),
            asteroid_wf(a@, width as int, height as int),
    {
        // Deterministic fallback: the viewport corner farthest from the
        // ship on each axis is more than half a viewport away, and half a
        // viewport is more than half a safe zone.
        let mut px: i64 = if 2 * ship_x >= width {
            0
        } else {
            width
        };
        let mut py: i64 = if 2 * ship_y >= height {
            0
        } else {
            height
        };
        let mut tries: u32 = 0;
        while tries < 100
            invariant
                SHIP_SAFEZONE < width <= VIEW_LIMIT,
                SHIP_SAFEZONE < height <= VIEW_LIMIT,
                0 <= ship_x <= width,
                0 <= ship_y <= height,
                0 <= px <= width,
                0 <= py <= height,
                !in_safe_zone(ship_x - px, ship_y - py),
            decreases 100 - tries,
        {
            let (cx, cy) = crate::game::random_place(width, height);
            let dx = ship_x - cx;
            let dy = ship_y - cy;
            if dx < -SHIP_SAFEZONE_HALF || dx > SHIP_SAFEZONE_HALF || dy < -SHIP_SAFEZONE_HALF
                || dy > SHIP_SAFEZONE_HALF {
                px = cx;
                py = cy;
                tries = 100;
            } else {
                tries = tries + 1;
            }
        }
        let size: AsteroidSize = match size_option {
            Option::Some(sz) => sz,
            Option::None => {
                let draw = rand_in_range(1, 3);
                if draw == 1 {
                    AsteroidSize::Small
                } else if draw == 2 {
                    AsteroidSize::Medium
                } else {
                    AsteroidSize::Big
                }
            },
        };
        let speed_x = rand_in_range(-ASTEROID_MAX_MOVEMENT_SPEED, ASTEROID_MAX_MOVEMENT_SPEED);
        let speed_y = rand_in_range(-ASTEROID_MAX_MOVEMENT_SPEED, ASTEROID_MAX_MOVEMENT_SPEED);
        let rotation_speed = rand_in_range(
            -ASTEROID_MAX_ROTATION_SPEED,
            ASTEROID_MAX_ROTATION_SPEED,
        );
        let mesh = rand_in_range(0, ASTEROID_MESH_VARIANTS - 1) as usize;
        let mirrored = rand_in_range(0, 1) == 1;
        Asteroid {
            x: px,
            y: py,
            size,
            speed_x,
            speed_y,
            rotation_speed,
            rotation: 0,
            mirrored,
            mesh,
        }
    }

    /// Advance the asteroid one tick of drift and spin.
    pub fn update(&mut self)
        requires
            0 <= old(self).rotation < TWO_PI_MILLI,
            -TWO_PI_MILLI <= old(self).rotation_speed <= TWO_PI_MILLI,
            -POS_LIMIT <= old(self).x <= POS_LIMIT,
            -POS_LIMIT <= old(self).y <= POS_LIMIT,
            -POS_LIMIT <= old(self).speed_x <= POS_LIMIT,
            -POS_LIMIT <= old(self).speed_y <= POS_LIMIT,
        ensures
            final(self)@ == asteroid_step(old(self)@),
    {
        self.x = self.x + self.speed_x;
        self.y = self.y + self.speed_y;
        self.rotation = angle_add(self.rotation, self.rotation_speed);
    }

    /// Whether a point lies strictly inside this asteroid's collision
    /// circle; a point at exactly the radius is not a hit.
    pub fn in_hitbox(&self, p: (i64, i64)) -> (r: bool)
        requires
            -POS_LIMIT <= self.x <= POS_LIMIT,
            -POS_LIMIT <= self.y <= POS_LIMIT,
            -POS_LIMIT <= p.0 <= POS_LIMIT,
            -POS_LIMIT <= p.1 <= POS_LIMIT,
        ensures
            r == hits(self@, p.0 as int, p.1 as int),
    {
        let (px, py) = p;
        let dx: i128 = (self.x as i128) - (px as i128);
        let dy: i128 = (self.y as i128) - (py as i128);
        let radius: i64 = match self.size {
            AsteroidSize::Big => ASTEROID_BIG,
            AsteroidSize::Medium => ASTEROID_MEDIUM,
            AsteroidSize::Small => ASTEROID_SMALL,
        };
        proof {
            assert(0 <= dx * dx <= 0x1000_0000_0000_0000_0000_0000_0000_0000int && 0 <= dy * dy
                <= 0x1000_0000_0000_0000_0000_0000_0000_0000int) by (nonlinear_arith)
                requires
                    -0x4000_0000_0000_0000 <= dx <= 0x4000_0000_0000_0000,
                    -0x4000_0000_0000_0000 <= dy <= 0x4000_0000_0000_0000,
            ;
            assert(0 <= (radius as int) * (radius as int) <= 1_600_000_000) by (nonlinear_arith)
                requires
                    0 <= radius <= 40_000,
            ;
        }
        let d2: i128 = dx * dx + dy * dy;
        let r2: i128 = (radius as i128) * (radius as i128);
        d2 < r2
    }

    /// Split the asteroid: a Small one is destroyed outright (no pieces),
    /// a Big or Medium one yields exactly two children one size class down
    /// at the parent's position, each with freshly drawn drift and spin.
    pub fn split(&self) -> (r: Option<[Asteroid; 2]>)
        ensures
            r is None <==> self.size == AsteroidSize::Small,
            match r {
                Option::Some(pair) => split_child_ok(pair[0]@, self@) && split_child_ok(
                    pair[1]@,
                    self@,
                ),
                Option::None => true,
            },
    {
        let size: AsteroidSize = match self.size {
            AsteroidSize::Big => AsteroidSize::Medium,
            AsteroidSize::Medium => AsteroidSize::Small,
            AsteroidSize::Small => {
                return Option::None;
            },
        };
        let first = Asteroid {
            speed_x: rand_in_range(0, ASTEROID_MAX_MOVEMENT_SPEED),
            speed_y: rand_in_range(0, ASTEROID_MAX_MOVEMENT_SPEED),
            rotation_speed: rand_in_range(0, ASTEROID_MAX_ROTATION_SPEED),
            size,
            ..*self
        };
        let second = Asteroid {
            speed_x: rand_in_range(0, ASTEROID_MAX_MOVEMENT_SPEED),
            speed_y: rand_in_range(0, ASTEROID_MAX_MOVEMENT_SPEED),
            rotation_speed: rand_in_range(0, ASTEROID_MAX_ROTATION_SPEED),
            size,
            ..*self
        };
        Option::Some([first, second])
    }
}

/// The fire-rate gate admits at most one shot per cooldown window: after a
/// shot at `t1`, a second attempt before `t1 + 1000/fire_rate` is refused,
/// and an attempt at or past that time is allowed again.
pub proof fn lemma_fire_rate_gate(s: ShipV, t1: int, t2: int, t3: int)
    requires
        s.fire_rate > 0,
        fire_allowed(s, t1),
        t2 < t1 + 1000int / s.fire_rate,
        t3 >= t1 + 1000int / s.fire_rate,
    ensures
        !fire_allowed(ShipV { last_fire: t1, ..s }, t2),
        fire_allowed(ShipV { last_fire: t1, ..s }, t3),
{
}

} // verus!
