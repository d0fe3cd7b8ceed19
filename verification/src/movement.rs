//! The velocity integrator shared by every self-propelled body.

use vstd::prelude::*;
use crate::{div_trunc, div_trunc_i64, lemma_div_trunc_bounds, SCALE};
use vstd::math::abs;

verus! {

/// Largest drag coefficient the integrator accepts (fixed-point, so 1000.0).
pub const DRAG_LIMIT: i64 = 1_000_000;

/// Largest mass the integrator accepts.
pub const MASS_LIMIT: i64 = 1_000_000_000;

/// Largest speed or force magnitude the integrator accepts in one step.
pub const STATE_LIMIT: i64 = 1_000_000_000;

/// Movement state of one body: a force accumulator, the velocity it drives,
/// and the acceleration of the most recent step, all fixed-point.
#[derive(Clone, Copy, Debug, PartialEq, Eq, Structural)]
pub struct Movement {
    pub drag: i64,
    pub mass: i64,
    pub speed_x: i64,
    pub speed_y: i64,
    pub force_x: i64,
    pub force_y: i64,
    pub acceleration_x: i64,
    pub acceleration_y: i64,
}

/// Mathematical image of a [`Movement`]: the same fields over unbounded
/// integers, the form the step functions of the simulation are written in.
pub struct MovementV {
    pub drag: int,
    pub mass: int,
    pub speed_x: int,
    pub speed_y: int,
    pub force_x: int,
    pub force_y: int,
    pub acceleration_x: int,
    pub acceleration_y: int,
}

impl View for Movement {
    type V = MovementV;

    open spec fn view(&self) -> MovementV {
        MovementV {
            drag: self.drag as int,
            mass: self.mass as int,
            speed_x: self.speed_x as int,
            speed_y: self.speed_y as int,
            force_x: self.force_x as int,
            force_y: self.force_y as int,
            acceleration_x: self.acceleration_x as int,
            acceleration_y: self.acceleration_y as int,
        }
    }
}

/// The acceleration produced by one integration step: the applied force less
/// the drag term `drag·speed`, divided by the mass.  Every product of two
/// fixed-point quantities is rescaled by 1000.
pub open spec fn accel_of(force: int, drag: int, speed: int, mass: int) -> int
    recommends
        mass > 0,
{
    div_trunc((force - div_trunc(drag * speed, SCALE as int)) * (SCALE as int), mass)
}

impl Movement {
    /// Drag and mass stay inside the ranges the integrator is specified for.
    pub open spec fn wf(self) -> bool {
        0 <= self.drag <= DRAG_LIMIT && 0 < self.mass <= MASS_LIMIT
    }

    /// All transient state (speeds and forces) within magnitude `b`.
    pub open spec fn bounded(self, b: int) -> bool {
        &&& -b <= self.speed_x <= b
        &&& -b <= self.speed_y <= b
        &&& -b <= self.force_x <= b
        &&& -b <= self.force_y <= b
    }

    /// A body at rest with the given drag and mass.
    pub fn new(drag: i64, mass: i64) -> (m: Movement)
        requires
            0 <= drag <= DRAG_LIMIT,
            0 < mass <= MASS_LIMIT,
        ensures
            m == (Movement {
                drag,
                mass,
                speed_x: 0,
                speed_y: 0,
                force_x: 0,
                force_y: 0,
                acceleration_x: 0,
                acceleration_y: 0,
            }),
    {
        Movement {
            drag,
            mass,
            speed_x: 0,
            speed_y: 0,
            force_x: 0,
            force_y: 0,
            acceleration_x: 0,
            acceleration_y: 0,
        }
    }

    /// One physics step: recompute the acceleration from the current force
    /// and speed, then add it to the speed.  The position is advanced by the
    /// owning entity, which may first compose forces from its heading.
    pub fn update(&mut self)
        requires
            old(self).wf(),
            old(self).bounded(STATE_LIMIT as int),
        ensures
            final(self).acceleration_x == accel_of(
                old(self).force_x as int,
                old(self).drag as int,
                old(self).speed_x as int,
                old(self).mass as int,
            ),
            final(self).acceleration_y == accel_of(
                old(self).force_y as int,
                old(self).drag as int,
                old(self).speed_y as int,
                old(self).mass as int,
            ),
            final(self).speed_x == old(self).speed_x + final(self).acceleration_x,
            final(self).speed_y == old(self).speed_y + final(self).acceleration_y,
            final(self).force_x == old(self).force_x,
            final(self).force_y == old(self).force_y,
            final(self).drag == old(self).drag,
            final(self).mass == old(self).mass,
    {
        proof {
            assert((self.drag as int) * (self.speed_x as int) <= 1_000_000_000_000_000
                && (self.drag as int) * (self.speed_x as int) >= -1_000_000_000_000_000)
                by (nonlinear_arith)
                requires
                    0 <= self.drag <= 1_000_000,
                    -1_000_000_000 <= self.speed_x <= 1_000_000_000,
            ;
            assert((self.drag as int) * (self.speed_y as int) <= 1_000_000_000_000_000
                && (self.drag as int) * (self.speed_y as int) >= -1_000_000_000_000_000)
                by (nonlinear_arith)
                requires
                    0 <= self.drag <= 1_000_000,
                    -1_000_000_000 <= self.speed_y <= 1_000_000_000,
            ;
        }
        let tx: i64 = div_trunc_i64(self.drag * self.speed_x, SCALE);
        let ty: i64 = div_trunc_i64(self.drag * self.speed_y, SCALE);
        let ax: i64 = div_trunc_i64((self.force_x - tx) * SCALE, self.mass);
        let ay: i64 = div_trunc_i64((self.force_y - ty) * SCALE, self.mass);
        self.acceleration_x = ax;
        self.acceleration_y = ay;
        self.speed_x = self.speed_x + ax;
        self.speed_y = self.speed_y + ay;
    }
}

/// With no applied force and a positive drag no larger than the mass, one
/// integration step never increases the speed's magnitude, and strictly
/// decreases it as long as the drag term exceeds one integration quantum;
/// repeated steps therefore drive the speed monotonically toward zero.
pub proof fn lemma_integrator_decay(drag: int, mass: int, speed: int)
    requires
        0 < drag <= mass,
    ensures
        abs(speed + accel_of(0, drag, speed, mass)) <= abs(speed),
        drag * abs(speed) >= mass + SCALE ==> abs(speed + accel_of(0, drag, speed, mass)) < abs(
            speed,
        ),
{
    let t = div_trunc(drag * speed, SCALE as int);
    let n = (0 - t) * (SCALE as int);
    let a = div_trunc(n, mass);
    lemma_div_trunc_bounds(drag * speed, SCALE as int);
    lemma_div_trunc_bounds(n, mass);
    if speed >= 0 {
        assert(drag * speed >= 0) by (nonlinear_arith)
            requires
                drag > 0,
                speed >= 0,
        ;
        // 0 <= 1000·t <= drag·speed, so n = -1000·t >= -drag·speed >= -mass·speed.
        assert(drag * speed <= mass * speed) by (nonlinear_arith)
            requires
                0 < drag <= mass,
                speed >= 0,
        ;
        assert(mass * a >= n);
        assert(n >= -(drag * speed));
        assert(a >= -speed) by (nonlinear_arith)
            requires
                mass > 0,
                mass * a >= -(mass * speed),
        ;
        assert(a <= 0);
        if drag * speed >= mass + SCALE {
            // 1000·t > drag·speed - 1000 >= mass, so mass·a < -1000·t + mass < 0.
            assert(mass * a < 0);
            assert(a < 0) by (nonlinear_arith)
                requires
                    mass > 0,
                    mass * a < 0,
            ;
            assert(speed > 0) by (nonlinear_arith)
                requires
                    drag * speed >= mass + 1000,
                    mass > 0,
                    drag > 0,
                    speed >= 0,
            ;
        }
    } else {
        assert(drag * speed < 0) by (nonlinear_arith)
            requires
                drag > 0,
                speed < 0,
        ;
        assert(drag * speed >= mass * speed) by (nonlinear_arith)
            requires
                0 < drag <= mass,
                speed < 0,
        ;
        assert(mass * a <= n);
        assert(n <= -(drag * speed));
        assert(a <= -speed) by (nonlinear_arith)
            requires
                mass > 0,
                mass * a <= -(mass * speed),
        ;
        assert(a >= 0);
        if drag * (-speed) >= mass + SCALE {
            assert(drag * speed == -(drag * (-speed))) by (nonlinear_arith);
            assert(mass * a > 0);
            assert(a > 0) by (nonlinear_arith)
                requires
                    mass > 0,
                    mass * a > 0,
            ;
        }
    }
}

} // verus!
