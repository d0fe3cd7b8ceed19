//! The simulation orchestrator: screen-space topology, the game state, and
//! the per-frame tick that advances ship, lasers and asteroids as one atomic
//! step.

use vstd::prelude::*;
use crate::objects::{
    asteroid_spawn_ok, asteroid_step, asteroid_wf, asteroids_view, fire_allowed, hits, laser_spawn,
    laser_step, lasers_view, lemma_asteroids_view_push, lemma_lasers_view_push, ship_spawn,
    ship_step, ship_wf, split_child_ok, Asteroid, AsteroidSize, AsteroidV, Laser, LaserV, Ship,
    ShipV, LASER_SPEED, LASER_WIDTH, SHIP_SAFEZONE,
};
use crate::trig::TWO_PI_MILLI;
use crate::rng::rand_in_range;
use crate::{Input, POS_LIMIT, TIME_LIMIT, VIEW_LIMIT};

verus! {

/// How many asteroids a fresh wave holds.
pub const WAVE_SIZE: u32 = 5;

/// How far outside the viewport a laser can stand at a tick boundary: it
/// spawns at most half a ship body away from the ship, which is inside.
pub const LASER_POS_SLACK: i64 = 10_000;

// ---------------------------------------------------------------------------
// Screen-space topology
// ---------------------------------------------------------------------------

/// One axis of the toroidal screen wrap: a coordinate past the dimension
/// comes back by one dimension, a negative one comes forward by one.
pub open spec fn wrap_coord(v: int, d: int) -> int {
    if v > d {
        v - d
    } else if v < 0 {
        v + d
    } else {
        v
    }
}

/// Wrapping a position already inside `[0, width) × [0, height)` changes
/// nothing: the wrap is idempotent on the visible area.
pub proof fn lemma_wrap_inside_is_noop(x: int, y: int, w: int, h: int)
    requires
        0 <= x < w,
        0 <= y < h,
    ensures
        wrap_coord(x, w) == x,
        wrap_coord(y, h) == y,
{
}

/// Wrap both coordinates of a position around the viewport.  A coordinate
/// that drifted at most one viewport out lands back inside `[0, d]`.
pub fn screen_wrap(x: &mut i64, y: &mut i64, width: i64, height: i64)
    requires
        0 < width <= VIEW_LIMIT,
        0 < height <= VIEW_LIMIT,
        -POS_LIMIT <= *old(x) <= POS_LIMIT,
        -POS_LIMIT <= *old(y) <= POS_LIMIT,
    ensures
        *final(x) == wrap_coord(*old(x) as int, width as int),
        *final(y) == wrap_coord(*old(y) as int, height as int),
{
    if *x > width {
        *x = *x - width;
    } else if *x < 0 {
        *x = *x + width;
    }
    if *y > height {
        *y = *y - height;
    } else if *y < 0 {
        *y = *y + height;
    }
}

/// Whether a position lies outside the viewport on either axis.
pub open spec fn outside_at(x: int, y: int, w: int, h: int) -> bool {
    x > w || x < 0 || y > h || y < 0
}

/// Returns true when the position has exited the visible area; used only to
/// expire lasers, which never wrap.
pub fn outside_window(p: (i64, i64), width: i64, height: i64) -> (r: bool)
    ensures
        r == outside_at(p.0 as int, p.1 as int, width as int, height as int),
{
    let (x, y) = p;
    x > width || x < 0 || y > height || y < 0
}

/// A uniformly random position on the viewport.
pub fn random_place(width: i64, height: i64) -> (p: (i64, i64))
    requires
        0 <= width,
        0 <= height,
    ensures
        0 <= p.0 <= width,
        0 <= p.1 <= height,
{
    (rand_in_range(0, width), rand_in_range(0, height))
}

// ---------------------------------------------------------------------------
// Game state
// ---------------------------------------------------------------------------

/// Well-formed laser state relative to a viewport: at most a spawn offset
/// outside it, heading reduced, and the standard speed and width.
pub open spec fn laser_wf(l: LaserV, w: int, h: int) -> bool {
    &&& -LASER_POS_SLACK <= l.x <= w + LASER_POS_SLACK
    &&& -LASER_POS_SLACK <= l.y <= h + LASER_POS_SLACK
    &&& 0 <= l.rotation < TWO_PI_MILLI
    &&& l.speed == LASER_SPEED
    &&& l.width == LASER_WIDTH
}

// ---------------------------------------------------------------------------
// The tick, as mathematics
// ---------------------------------------------------------------------------

/// One tick of asteroid motion, wrapped around the viewport.
pub open spec fn asteroid_moved(a: AsteroidV, w: int, h: int) -> AsteroidV {
    let s = asteroid_step(a);
    AsteroidV { x: wrap_coord(s.x, w), y: wrap_coord(s.y, h), ..s }
}

/// All asteroids advanced by one tick.
pub open spec fn moved_asteroids(av: Seq<AsteroidV>, w: int, h: int) -> Seq<AsteroidV> {
    av.map_values(|a: AsteroidV| asteroid_moved(a, w, h))
}

/// All lasers advanced by one tick (lasers never wrap).
pub open spec fn moved_lasers(lv: Seq<LaserV>) -> Seq<LaserV> {
    lv.map_values(|l: LaserV| laser_step(l))
}

/// Whether any asteroid's collision circle contains the ship's position.
pub open spec fn any_hits_ship(av: Seq<AsteroidV>, x: int, y: int) -> bool {
    exists|i: int| 0 <= i < av.len() && hits(#[trigger] av[i], x, y)
}

/// The first asteroid from index `i` on that is not yet destroyed and whose
/// collision circle contains the laser's position.
pub open spec fn first_target(l: LaserV, av: Seq<AsteroidV>, killed: Seq<bool>, i: int) -> Option<
    int,
>
    recommends
        0 <= i,
        killed.len() == av.len(),
    decreases av.len() - i,
{
    if i < 0 || i >= av.len() {
        Option::None
    } else if !killed[i] && hits(av[i], l.x, l.y) {
        Option::Some(i)
    } else {
        first_target(l, av, killed, i + 1)
    }
}

/// Which asteroids the first `j` lasers have destroyed, in firing order:
/// each laser claims at most its first surviving target.
pub open spec fn scan_killed(lv: Seq<LaserV>, av: Seq<AsteroidV>, j: int) -> Seq<bool>
    decreases j,
{
    if j <= 0 {
        Seq::new(av.len(), |k: int| false)
    } else {
        let prev = scan_killed(lv, av, j - 1);
        match first_target(lv[j - 1], av, prev, 0) {
            Option::Some(i) => prev.update(i, true),
            Option::None => prev,
        }
    }
}

/// The target laser `j` destroys, after the lasers before it claimed theirs.
pub open spec fn laser_hit(lv: Seq<LaserV>, av: Seq<AsteroidV>, j: int) -> Option<int> {
    first_target(lv[j], av, scan_killed(lv, av, j), 0)
}

/// How many of the first `j` lasers destroyed an asteroid.
pub open spec fn kills_up_to(lv: Seq<LaserV>, av: Seq<AsteroidV>, j: int) -> int
    decreases j,
{
    if j <= 0 {
        0
    } else {
        kills_up_to(lv, av, j - 1) + if laser_hit(lv, av, j - 1) is Some {
            1int
        } else {
            0int
        }
    }
}

/// The destroyed asteroids that are large enough to split, in firing order.
pub open spec fn split_parents(lv: Seq<LaserV>, av: Seq<AsteroidV>, j: int) -> Seq<AsteroidV>
    decreases j,
{
    if j <= 0 {
        Seq::empty()
    } else {
        let p = split_parents(lv, av, j - 1);
        match laser_hit(lv, av, j - 1) {
            Option::Some(i) => if 0 <= i < av.len() && av[i].size != AsteroidSize::Small {
                p.push(av[i])
            } else {
                p
            },
            Option::None => p,
        }
    }
}

/// The asteroids that survive the scan, keeping their original order.
pub open spec fn survivors_prefix(av: Seq<AsteroidV>, killed: Seq<bool>, i: int) -> Seq<AsteroidV>
    decreases i,
{
    if i <= 0 {
        Seq::empty()
    } else {
        let p = survivors_prefix(av, killed, i - 1);
        if 0 <= i - 1 < killed.len() && killed[i - 1] {
            p
        } else {
            p.push(av[i - 1])
        }
    }
}

/// The lasers that survive the scan and the off-screen cull, in order.
pub open spec fn retained_lasers_prefix(
    lv: Seq<LaserV>,
    av: Seq<AsteroidV>,
    w: int,
    h: int,
    j: int,
) -> Seq<LaserV>
    decreases j,
{
    if j <= 0 {
        Seq::empty()
    } else {
        let p = retained_lasers_prefix(lv, av, w, h, j - 1);
        if laser_hit(lv, av, j - 1) is None && !outside_at(lv[j - 1].x, lv[j - 1].y, w, h) {
            p.push(lv[j - 1])
        } else {
            p
        }
    }
}

/// Each splitting parent contributes exactly two children, in order, each
/// inheriting the parent's pose at one size class down.
pub open spec fn children_match(children: Seq<AsteroidV>, parents: Seq<AsteroidV>) -> bool {
    &&& children.len() == 2 * parents.len()
    &&& forall|k: int|
        0 <= k < children.len() ==> split_child_ok(#[trigger] children[k], parents[k / 2])
}

/// A fresh wave: five asteroids, each a valid random spawn for the ship.
pub open spec fn wave_ok(wave: Seq<AsteroidV>, sx: int, sy: int, w: int, h: int) -> bool {
    &&& wave.len() == WAVE_SIZE
    &&& forall|i: int|
        0 <= i < wave.len() ==> asteroid_spawn_ok(#[trigger] wave[i], sx, sy, Option::None, w, h)
}

/// Score addition, saturating at the top of the counter.
pub open spec fn sat_points(p: int, k: int) -> int {
    if p + k > u32::MAX {
        u32::MAX as int
    } else {
        p + k
    }
}

/// Whether an executable scan result denotes the same target as the model.
pub open spec fn opt_target_eq(t: Option<usize>, m: Option<int>) -> bool {
    match t {
        Option::Some(a) => m == Option::Some(a as int),
        Option::None => m is None,
    }
}

/// A found target is a surviving asteroid, at or past the search start,
/// whose circle contains the laser.
pub proof fn lemma_first_target_valid(l: LaserV, av: Seq<AsteroidV>, killed: Seq<bool>, i: int)
    requires
        0 <= i,
        killed.len() == av.len(),
    ensures
        match first_target(l, av, killed, i) {
            Option::Some(t) => i <= t < av.len() && !killed[t] && hits(av[t], l.x, l.y),
            Option::None => true,
        },
    decreases av.len() - i,
{
    if i < av.len() && !(!killed[i] && hits(av[i], l.x, l.y)) {
        lemma_first_target_valid(l, av, killed, i + 1);
    }
}

/// The kill flags always cover exactly the asteroid sequence.
pub proof fn lemma_scan_killed_len(lv: Seq<LaserV>, av: Seq<AsteroidV>, j: int)
    ensures
        scan_killed(lv, av, j).len() == av.len(),
    decreases j,
{
    if j > 0 {
        lemma_scan_killed_len(lv, av, j - 1);
        lemma_first_target_valid(lv[j - 1], av, scan_killed(lv, av, j - 1), 0);
    }
}

/// Find each laser's first surviving target, in firing order: the returned
/// targets and kill flags agree with the [`laser_hit`]/[`scan_killed`]
/// model of the scan.
fn scan_targets(lasers: &Vec<Laser>, asteroids: &Vec<Asteroid>) -> (r: (
    Vec<Option<usize>>,
    Vec<bool>,
))
    requires
        forall|k: int|
            0 <= k < lasers@.len() ==> -POS_LIMIT <= (#[trigger] lasers@[k]).x <= POS_LIMIT
                && -POS_LIMIT <= lasers@[k].y <= POS_LIMIT,
        forall|k: int|
            0 <= k < asteroids@.len() ==> -POS_LIMIT <= (#[trigger] asteroids@[k]).x <= POS_LIMIT
                && -POS_LIMIT <= asteroids@[k].y <= POS_LIMIT,
    ensures
        r.0@.len() == lasers@.len(),
        r.1@ == scan_killed(
            lasers_view(lasers@),
            asteroids_view(asteroids@),
            lasers@.len() as int,
        ),
        forall|j: int|
            0 <= j < lasers@.len() ==> opt_target_eq(
                #[trigger] r.0@[j],
                laser_hit(lasers_view(lasers@), asteroids_view(asteroids@), j),
            ),
{
    let ghost lv = lasers_view(lasers@);
    let ghost av = asteroids_view(asteroids@);
    let n = asteroids.len();
    let mut killed: Vec<bool> = vec![false; n];
    let mut targets: Vec<Option<usize>> = Vec::new();
    proof {
        assert(killed@ =~= scan_killed(lv, av, 0));
    }
    let mut j: usize = 0;
    while j < lasers.len()
        invariant
            j <= lasers@.len(),
            targets@.len() == j,
            killed@ == scan_killed(lv, av, j as int),
            killed@.len() == n,
            forall|jj: int|
                0 <= jj < j ==> opt_target_eq(#[trigger] targets@[jj], laser_hit(lv, av, jj)),
        decreases lasers@.len() - j,
    {
        let l = lasers[j];
        let mut found: bool = false;
        let mut hit_idx: usize = 0;
        let mut i: usize = 0;
        while !found && i < n
            invariant
                i <= n,
                j < lasers@.len(),
                l == lasers@[j as int],
                killed@ == scan_killed(lv, av, j as int),
                killed@.len() == n,
                !found ==> first_target(lv[j as int], av, killed@, 0) == first_target(
                    lv[j as int],
                    av,
                    killed@,
                    i as int,
                ),
                found ==> first_target(lv[j as int], av, killed@, 0) == Option::Some(
                    hit_idx as int,
                ) && hit_idx < n,
            decreases n - i + (if found {
                0int
            } else {
                1int
            }),
        {
            if !killed[i] && asteroids[i].in_hitbox((l.x, l.y)) {
                hit_idx = i;
                found = true;
            } else {
                i = i + 1;
            }
        }
        if found {
            vstd::std_specs::core::index_set(&mut killed, hit_idx, true);
            targets.push(Option::Some(hit_idx));
            proof {
                assert(laser_hit(lv, av, j as int) == Option::Some(hit_idx as int));
                assert(scan_killed(lv, av, j as int + 1) == scan_killed(lv, av, j as int).update(
                    hit_idx as int,
                    true,
                ));
            }
        } else {
            targets.push(Option::None);
            proof {
                assert(first_target(lv[j as int], av, killed@, n as int) is None);
                assert(laser_hit(lv, av, j as int) is None);
                assert(scan_killed(lv, av, j as int + 1) == scan_killed(lv, av, j as int));
            }
        }
        j = j + 1;
    }
    (targets, killed)
}

/// What one tick of the session does while dead and restarted: everything
/// reset, a fresh centered ship, a fresh wave, playing again.
pub open spec fn restart_rel(pre: GameState, post: GameState, now: int) -> bool {
    &&& !post.dead
    &&& post.points == 0
    &&& post.lasers@.len() == 0
    &&& post.ship@ == ship_spawn(pre.width as int, pre.height as int, now)
    &&& wave_ok(
        asteroids_view(post.asteroids@),
        post.ship@.x,
        post.ship@.y,
        pre.width as int,
        pre.height as int,
    )
}

/// What one tick of the session does, relating the state before to the
/// state after.  The random draws of splits and wave spawns are not pinned;
/// everything else is.
pub open spec fn tick_rel(pre: GameState, post: GameState, input: Input, now: int) -> bool {
    let w = pre.width as int;
    let h = pre.height as int;
    &&& post.width == pre.width
    &&& post.height == pre.height
    &&& if pre.dead {
        if input.restart {
            restart_rel(pre, post, now)
        } else {
            post == pre
        }
    } else {
        // The ship advances and wraps first.
        let s2 = {
            let s1 = ship_step(pre.ship@, input);
            ShipV { x: wrap_coord(s1.x, w), y: wrap_coord(s1.y, h), ..s1 }
        };
        // Then every asteroid advances and wraps.
        let av = moved_asteroids(asteroids_view(pre.asteroids@), w, h);
        if any_hits_ship(av, s2.x, s2.y) {
            // An overlap with the ship ends the run: everything resets and
            // the tick stops processing.
            &&& post.dead
            &&& post.points == 0
            &&& post.lasers@.len() == 0
            &&& post.asteroids@.len() == 0
            &&& post.ship@ == ship_spawn(w, h, now)
        } else {
            // Lasers advance, each claims its first surviving target, the
            // scan's removals and additions apply in one batch, off-screen
            // lasers expire, an empty field respawns a wave, and the
            // cadence gate may admit one new shot.
            let lv = moved_lasers(lasers_view(pre.lasers@));
            let nl = lv.len() as int;
            let killed = scan_killed(lv, av, nl);
            let keep = survivors_prefix(av, killed, av.len() as int);
            let retained = retained_lasers_prefix(lv, av, w, h, nl);
            let fired = input.fire && fire_allowed(s2, now);
            &&& post.ship@ == (if fired {
                ShipV { last_fire: now, ..s2 }
            } else {
                s2
            })
            &&& !post.dead
            &&& post.points == sat_points(pre.points as int, kills_up_to(lv, av, nl))
            &&& (exists|children: Seq<AsteroidV>|
                children_match(children, split_parents(lv, av, nl)) && (if keep.len()
                    + children.len() == 0 {
                    wave_ok(asteroids_view(post.asteroids@), s2.x, s2.y, w, h)
                } else {
                    asteroids_view(post.asteroids@) == keep + children
                }))
            &&& lasers_view(post.lasers@) == (if fired {
                retained.push(laser_spawn(s2))
            } else {
                retained
            })
        }
    }
}

/// The whole game session: the ship, the two entity collections, the score
/// and the death flag, plus the viewport the session was created for.
pub struct GameState {
    pub ship: Ship,
    pub lasers: Vec<Laser>,
    pub asteroids: Vec<Asteroid>,
    pub points: u32,
    pub dead: bool,
    /// Viewport width, fixed at session start.
    pub width: i64,
    /// Viewport height, fixed at session start.
    pub height: i64,
}

impl GameState {
    /// Session invariant: a viewport larger than the safe zone, a
    /// well-formed ship inside it, and every laser and asteroid well-formed
    /// relative to it.
    pub open spec fn wf(self) -> bool {
        &&& SHIP_SAFEZONE < self.width <= VIEW_LIMIT
        &&& SHIP_SAFEZONE < self.height <= VIEW_LIMIT
        &&& ship_wf(self.ship@)
        &&& 0 <= self.ship.x <= self.width
        &&& 0 <= self.ship.y <= self.height
        &&& forall|i: int|
            0 <= i < self.lasers@.len() ==> laser_wf(
                #[trigger] self.lasers@[i]@,
                self.width as int,
                self.height as int,
            )
        &&& forall|i: int|
            0 <= i < self.asteroids@.len() ==> asteroid_wf(
                #[trigger] self.asteroids@[i]@,
                self.width as int,
                self.height as int,
            )
    }

    /// A fresh session: ship centered in the viewport, no lasers, no
    /// asteroids (the host spawns the first wave), zero score, alive.
    pub fn new(width: i64, height: i64, now: u64) -> (g: GameState)
        requires
            SHIP_SAFEZONE < width <= VIEW_LIMIT,
            SHIP_SAFEZONE < height <= VIEW_LIMIT,
            now < TIME_LIMIT,
        ensures
            g.wf(),
            g.width == width,
            g.height == height,
            g.ship@ == ship_spawn(width as int, height as int, now as int),
            g.lasers@.len() == 0,
            g.asteroids@.len() == 0,
            g.points == 0,
            !g.dead,
    {
        GameState {
            ship: Ship::new(width, height, now),
            lasers: Vec::new(),
            asteroids: Vec::new(),
            points: 0,
            dead: false,
            width,
            height,
        }
    }

    /// Spawn the given number of random asteroids, each outside the ship's
    /// safe zone; everything else is untouched.
    pub fn spawn_asteroids(&mut self, amount: u32)
        requires
            old(self).wf(),
        ensures
            final(self).wf(),
            final(self).ship == old(self).ship,
            final(self).lasers == old(self).lasers,
            final(self).points == old(self).points,
            final(self).dead == old(self).dead,
            final(self).width == old(self).width,
            final(self).height == old(self).height,
            final(self).asteroids@.len() == old(self).asteroids@.len() + amount,
            forall|i: int|
                0 <= i < old(self).asteroids@.len() ==> final(self).asteroids@[i] == old(
                    self,
                ).asteroids@[i],
            forall|i: int|
                old(self).asteroids@.len() <= i < final(self).asteroids@.len()
                    ==> asteroid_spawn_ok(
                    #[trigger] final(self).asteroids@[i]@,
                    old(self).ship@.x,
                    old(self).ship@.y,
                    Option::None,
                    old(self).width as int,
                    old(self).height as int,
                ),
    {
        let mut k: u32 = 0;
        while k < amount
            invariant
                k <= amount,
                self.ship == old(self).ship,
                self.lasers == old(self).lasers,
                self.points == old(self).points,
                self.dead == old(self).dead,
                self.width == old(self).width,
                self.height == old(self).height,
                self.asteroids@.len() == old(self).asteroids@.len() + k,
                forall|i: int|
                    0 <= i < old(self).asteroids@.len() ==> self.asteroids@[i] == old(
                        self,
                    ).asteroids@[i],
                forall|i: int|
                    old(self).asteroids@.len() <= i < self.asteroids@.len() ==> asteroid_spawn_ok(
                        #[trigger] self.asteroids@[i]@,
                        old(self).ship@.x,
                        old(self).ship@.y,
                        Option::None,
                        old(self).width as int,
                        old(self).height as int,
                    ),
                self.wf(),
            decreases amount - k,
        {
            let a = Asteroid::new(self.ship.x, self.ship.y, Option::None, self.width, self.height);
            self.asteroids.push(a);
            k = k + 1;
        }
    }

        /// Advance every asteroid one tick and wrap it around the viewport.
    fn advance_asteroids(&mut self)
        requires
            old(self).wf(),
        ensures
            final(self).wf(),
            final(self).ship == old(self).ship,
            final(self).lasers == old(self).lasers,
            final(self).points == old(self).points,
            final(self).dead == old(self).dead,
            final(self).width == old(self).width,
            final(self).height == old(self).height,
            asteroids_view(final(self).asteroids@) == moved_asteroids(
                asteroids_view(old(self).asteroids@),
                old(self).width as int,
                old(self).height as int,
            ),
    {
        let ghost av = asteroids_view(self.asteroids@);
        let w = self.width;
        let h = self.height;
        let mut moved: Vec<Asteroid> = Vec::new();
        let mut i: usize = 0;
        while i < self.asteroids.len()
            invariant
                i <= self.asteroids@.len(),
                moved@.len() == i,
                forall|k: int|
                    0 <= k < i ==> #[trigger] moved@[k]@ == asteroid_moved(
                        av[k],
                        w as int,
                        h as int,
                    ),
                forall|k: int|
                    0 <= k < i ==> asteroid_wf(#[trigger] moved@[k]@, w as int, h as int),
            decreases self.asteroids@.len() - i,
        {
            let mut a = self.asteroids[i];
            proof {
                assert(asteroid_wf(self.asteroids@[i as int]@, w as int, h as int));
            }
            a.update();
            let mut ax = a.x;
            let mut ay = a.y;
            screen_wrap(&mut ax, &mut ay, w, h);
            a.x = ax;
            a.y = ay;
            moved.push(a);
            i = i + 1;
        }
        proof {
            assert(asteroids_view(moved@) =~= moved_asteroids(av, w as int, h as int));
        }
        self.asteroids = moved;
    }

    /// Whether any asteroid's collision circle contains the ship position.
    fn any_ship_hit(&self) -> (r: bool)
        requires
            self.wf(),
        ensures
            r == any_hits_ship(
                asteroids_view(self.asteroids@),
                self.ship@.x,
                self.ship@.y,
            ),
    {
        let mut i: usize = 0;
        while i < self.asteroids.len()
            invariant
                i <= self.asteroids@.len(),
                forall|k: int|
                    0 <= k < i ==> !hits(
                        #[trigger] asteroids_view(self.asteroids@)[k],
                        self.ship@.x,
                        self.ship@.y,
                    ),
            decreases self.asteroids@.len() - i,
        {
            proof {
                assert(asteroid_wf(
                    self.asteroids@[i as int]@,
                    self.width as int,
                    self.height as int,
                ));
            }
            if self.asteroids[i].in_hitbox((self.ship.x, self.ship.y)) {
                proof {
                    assert(hits(
                        asteroids_view(self.asteroids@)[i as int],
                        self.ship@.x,
                        self.ship@.y,
                    ));
                }
                return true;
            }
            i = i + 1;
        }
        false
    }

    /// Advance every laser one tick along its heading.
    fn advance_lasers(&mut self)
        requires
            old(self).wf(),
        ensures
            final(self).ship == old(self).ship,
            final(self).asteroids == old(self).asteroids,
            final(self).points == old(self).points,
            final(self).dead == old(self).dead,
            final(self).width == old(self).width,
            final(self).height == old(self).height,
            lasers_view(final(self).lasers@) == moved_lasers(lasers_view(old(self).lasers@)),
            forall|k: int|
                0 <= k < final(self).lasers@.len() ==> {
                    let l = #[trigger] final(self).lasers@[k]@;
                    &&& -LASER_POS_SLACK - LASER_SPEED <= l.x <= old(self).width + LASER_POS_SLACK
                        + LASER_SPEED
                    &&& -LASER_POS_SLACK - LASER_SPEED <= l.y <= old(self).height + LASER_POS_SLACK
                        + LASER_SPEED
                    &&& 0 <= l.rotation < TWO_PI_MILLI
                    &&& l.speed == LASER_SPEED
                    &&& l.width == LASER_WIDTH
                },
    {
        let ghost lv = lasers_view(self.lasers@);
        let mut moved: Vec<Laser> = Vec::new();
        let mut i: usize = 0;
        while i < self.lasers.len()
            invariant
                i <= self.lasers@.len(),
                moved@.len() == i,
                forall|k: int| 0 <= k < i ==> #[trigger] moved@[k]@ == laser_step(lv[k]),
                forall|k: int|
                    0 <= k < i ==> {
                        let l = #[trigger] moved@[k]@;
                        &&& -LASER_POS_SLACK - LASER_SPEED <= l.x <= self.width + LASER_POS_SLACK
                            + LASER_SPEED
                        &&& -LASER_POS_SLACK - LASER_SPEED <= l.y <= self.height + LASER_POS_SLACK
                            + LASER_SPEED
                        &&& 0 <= l.rotation < TWO_PI_MILLI
                        &&& l.speed == LASER_SPEED
                        &&& l.width == LASER_WIDTH
                    },
            decreases self.lasers@.len() - i,
        {
            let mut l = self.lasers[i];
            proof {
                assert(laser_wf(self.lasers@[i as int]@, self.width as int, self.height as int));
            }
            l.update();
            moved.push(l);
            i = i + 1;
        }
        proof {
            assert(lasers_view(moved@) =~= moved_lasers(lv));
        }
        self.lasers = moved;
    }

    /// The death reset: a fresh centered ship, cleared collections, zero
    /// score, and the dead flag raised until the player restarts.
    pub fn death(&mut self, now: u64)
        requires
            old(self).wf(),
            now < TIME_LIMIT,
        ensures
            final(self).wf(),
            final(self).ship@ == ship_spawn(
                old(self).width as int,
                old(self).height as int,
                now as int,
            ),
            final(self).lasers@.len() == 0,
            final(self).asteroids@.len() == 0,
            final(self).points == 0,
            final(self).dead,
            final(self).width == old(self).width,
            final(self).height == old(self).height,
    {
        self.ship = Ship::new(self.width, self.height, now);
        self.lasers = Vec::new();
        self.asteroids = Vec::new();
        self.points = 0;
        self.dead = true;
    }

    /// One simulation tick (see [`tick_rel`] for the full statement).
    ///
    /// While playing: the ship advances and wraps; every asteroid advances
    /// and wraps, and an overlap with the ship resets the run; every laser
    /// advances and claims at most its first surviving target, scoring one
    /// point per kill and splitting the target; the batched removals and
    /// additions apply; off-screen lasers expire; an empty field respawns a
    /// wave of five; and the fire key may spawn one laser through the
    /// cadence gate.  While dead, only the restart key does anything.
    #[verifier::rlimit(100)]
    pub fn tick(&mut self, input: Input, now: u64)
        requires
            old(self).wf(),
            now < TIME_LIMIT,
        ensures
            final(self).wf(),
            tick_rel(*old(self), *final(self), input, now as int),
    {
        if self.dead {
            if input.restart {
                self.ship = Ship::new(self.width, self.height, now);
                self.lasers = Vec::new();
                self.asteroids = Vec::new();
                self.points = 0;
                self.dead = false;
                self.spawn_asteroids(WAVE_SIZE);
                proof {
                    assert(wave_ok(
                        asteroids_view(self.asteroids@),
                        self.ship@.x,
                        self.ship@.y,
                        self.width as int,
                        self.height as int,
                    ));
                }
            }
            return ;
        }
        let w = self.width;
        let h = self.height;
        // Step 1: the ship advances and wraps.
        self.ship.update_movement(input);
        let mut sx = self.ship.x;
        let mut sy = self.ship.y;
        screen_wrap(&mut sx, &mut sy, w, h);
        self.ship.x = sx;
        self.ship.y = sy;
        let ghost s2 = self.ship@;
        // Step 2: the asteroids advance and wrap; an overlap with the ship
        // ends the run.
        self.advance_asteroids();
        let ghost av = asteroids_view(self.asteroids@);
        proof {
            assert forall|k: int| 0 <= k < av.len() implies asteroid_wf(
                #[trigger] av[k],
                w as int,
                h as int,
            ) by {
                assert(av[k] == self.asteroids@[k]@);
                assert(asteroid_wf(self.asteroids@[k]@, w as int, h as int));
            }
        }
        if self.any_ship_hit() {
            self.death(now);
            return ;
        }
        // Step 3: the lasers advance and each claims its first surviving
        // target.
        self.advance_lasers();
        let ghost lv = lasers_view(self.lasers@);
        let ghost ship1 = self.ship;
        let ghost lasers1 = self.lasers@;
        proof {
            assert forall|k: int| 0 <= k < self.lasers@.len() implies -POS_LIMIT <= (
            #[trigger] self.lasers@[k]).x <= POS_LIMIT && -POS_LIMIT <= self.lasers@[k].y
                <= POS_LIMIT by {
                assert(-LASER_POS_SLACK - LASER_SPEED <= self.lasers@[k]@.x);
            }
            assert forall|k: int| 0 <= k < self.asteroids@.len() implies -POS_LIMIT <= (
            #[trigger] self.asteroids@[k]).x <= POS_LIMIT && -POS_LIMIT <= self.asteroids@[k].y
                <= POS_LIMIT by {
                assert(asteroid_wf(self.asteroids@[k]@, w as int, h as int));
            }
        }
        let pair = scan_targets(&self.lasers, &self.asteroids);
        let targets = pair.0;
        let killed = pair.1;
        let nl = self.lasers.len();
        proof {
            lemma_scan_killed_len(lv, av, nl as int);
        }
        // Score each kill and collect the split children.
        let ghost points0 = self.points as int;
        let mut children: Vec<Asteroid> = Vec::new();
        let mut j: usize = 0;
        while j < nl
            invariant
                j <= nl,
                nl == self.lasers@.len(),
                self.ship == ship1,
                self.lasers@ == lasers1,
                asteroids_view(self.asteroids@) == av,
                self.dead == false,
                self.width == w,
                self.height == h,
                self.points == sat_points(points0, kills_up_to(lv, av, j as int)),
                children_match(asteroids_view(children@), split_parents(lv, av, j as int)),
                forall|k: int|
                    0 <= k < children@.len() ==> asteroid_wf(
                        #[trigger] children@[k]@,
                        w as int,
                        h as int,
                    ),
            decreases nl - j,
        {
            match targets[j] {
                Option::Some(i) => {
                    proof {
                        lemma_scan_killed_len(lv, av, j as int);
                        lemma_first_target_valid(lv[j as int], av, scan_killed(lv, av, j as int), 0);
                        assert(laser_hit(lv, av, j as int) == Option::Some(i as int));
                    }
                    if self.points < u32::MAX {
                        self.points = self.points + 1;
                    }
                    let ghost children0 = children@;
                    match self.asteroids[i].split() {
                        Option::Some(split_pair) => {
                            let c0 = split_pair[0];
                            let c1 = split_pair[1];
                            children.push(c0);
                            children.push(c1);
                            proof {
                                assert(asteroids_view(children@) =~= asteroids_view(
                                    children0,
                                ).push(c0@).push(c1@));
                            }
                        },
                        Option::None => {},
                    }
                },
                Option::None => {},
            }
            j = j + 1;
        }
        // Step 4: apply the batched removals and additions.
        let ghost childv = asteroids_view(children@);
        let mut remaining: Vec<Asteroid> = Vec::new();
        let mut i2: usize = 0;
        while i2 < self.asteroids.len()
            invariant
                i2 <= self.asteroids@.len(),
                asteroids_view(self.asteroids@) == av,
                killed@ == scan_killed(lv, av, nl as int),
                killed@.len() == av.len(),
                asteroids_view(remaining@) == survivors_prefix(av, killed@, i2 as int),
                forall|k: int|
                    0 <= k < remaining@.len() ==> asteroid_wf(
                        #[trigger] remaining@[k]@,
                        w as int,
                        h as int,
                    ),
            decreases self.asteroids@.len() - i2,
        {
            if !killed[i2] {
                let kept_a = self.asteroids[i2];
                let ghost rem0 = remaining@;
                remaining.push(kept_a);
                proof {
                    lemma_asteroids_view_push(rem0, kept_a);
                    assert(kept_a@ == av[i2 as int]);
                    assert(asteroid_wf(kept_a@, w as int, h as int));
                }
            }
            i2 = i2 + 1;
        }
        let ghost keep = asteroids_view(remaining@);
        let ghost rem_snap = remaining@;
        let ghost child_snap = children@;
        remaining.append(&mut children);
        self.asteroids = remaining;
        proof {
            assert(asteroids_view(self.asteroids@) =~= keep + childv);
            assert forall|k: int| 0 <= k < self.asteroids@.len() implies asteroid_wf(
                #[trigger] self.asteroids@[k]@,
                w as int,
                h as int,
            ) by {
                if k < rem_snap.len() {
                    assert(self.asteroids@[k] == rem_snap[k]);
                    assert(asteroid_wf(rem_snap[k]@, w as int, h as int));
                } else {
                    assert(self.asteroids@[k] == child_snap[k - rem_snap.len()]);
                    assert(asteroid_wf(child_snap[k - rem_snap.len()]@, w as int, h as int));
                }
            }
        }
        // Step 5: off-screen lasers expire (hit lasers were consumed by the
        // scan).
        let mut kept: Vec<Laser> = Vec::new();
        let mut j2: usize = 0;
        while j2 < nl
            invariant
                j2 <= nl,
                nl == self.lasers@.len(),
                lasers_view(self.lasers@) == lv,
                lasers_view(kept@) == retained_lasers_prefix(lv, av, w as int, h as int, j2 as int),
                forall|k: int|
                    0 <= k < kept@.len() ==> laser_wf(#[trigger] kept@[k]@, w as int, h as int),
            decreases nl - j2,
        {
            match targets[j2] {
                Option::None => {
                    proof {
                        assert(laser_hit(lv, av, j2 as int) is None);
                    }
                    let l = self.lasers[j2];
                    if !outside_window((l.x, l.y), w, h) {
                        let ghost kept0 = kept@;
                        kept.push(l);
                        proof {
                            lemma_lasers_view_push(kept0, l);
                        }
                    }
                },
                Option::Some(_) => {},
            }
            j2 = j2 + 1;
        }
        let ghost kept_snap = kept@;
        self.lasers = kept;
        // Step 6: an empty field respawns a wave.
        if self.asteroids.len() == 0 {
            self.spawn_asteroids(WAVE_SIZE);
        }
        // Step 7: the fire key may spawn one laser through the cadence gate.
        proof {
            assert(self.ship@ == s2);
            assert(self.lasers@ == kept_snap);
        }
        let mut did_fire = false;
        if input.fire {
            did_fire = self.ship.fire(now, &mut self.lasers);
        }
        proof {
            assert forall|k: int| 0 <= k < self.lasers@.len() implies laser_wf(
                #[trigger] self.lasers@[k]@,
                w as int,
                h as int,
            ) by {
                assert(lasers_view(self.lasers@)[k] == self.lasers@[k]@);
                if k < kept_snap.len() {
                    assert(self.lasers@[k]@ == lasers_view(kept_snap)[k]);
                    assert(laser_wf(kept_snap[k]@, w as int, h as int));
                } else {
                    assert(did_fire);
                    assert(lasers_view(kept_snap).len() == kept_snap.len());
                    assert(self.lasers@[k]@ == laser_spawn(s2));
                }
            }
        }
        proof {
            let parents = split_parents(lv, av, nl as int);
            assert(children_match(childv, parents));
            assert(exists|children_w: Seq<AsteroidV>|
                children_match(children_w, parents) && (if survivors_prefix(
                    av,
                    scan_killed(lv, av, nl as int),
                    av.len() as int,
                ).len() + children_w.len() == 0 {
                    wave_ok(asteroids_view(self.asteroids@), s2.x, s2.y, w as int, h as int)
                } else {
                    asteroids_view(self.asteroids@) == survivors_prefix(
                        av,
                        scan_killed(lv, av, nl as int),
                        av.len() as int,
                    ) + children_w
                }));
        }
    }
}

} // verus!
