//! A verified simulation core for a small 2D "Asteroids"-style arcade game.
//!
//! The library models a ship that rotates, thrusts and fires, drifting
//! asteroids that split when hit, and the per-frame tick that advances all of
//! them.  Every quantity is kept in fixed-point arithmetic (units of 1/1000 of
//! a pixel, a milliradian, or a millisecond) so that each simulation step has
//! an exact, machine-checkable specification.  Rendering, windowing and input
//! polling are left to a host program built on top of these types.

#![verifier::loop_isolation(false)]

use vstd::prelude::*;

pub mod game;
pub mod movement;
pub mod objects;
mod rng;
pub mod trig;

verus! {

/// Fixed-point scale: all lengths, speeds and forces carry three fractional
/// decimal digits, so `1000` stands for one pixel (or one pixel per tick).
pub const SCALE: i64 = 1000;

/// Magnitude cap (2^61) on any coordinate handed to the geometry functions:
/// far beyond any viewport, it only keeps squares and sums inside the
/// machine integers.
pub const POS_LIMIT: i64 = 0x2000_0000_0000_0000;

/// Largest viewport dimension the simulation accepts: a million pixels, in
/// fixed-point units.
pub const VIEW_LIMIT: i64 = 1_000_000_000;

/// Clock values (milliseconds) the simulation accepts, 2^62: far beyond any
/// real session, it only keeps the fire-rate arithmetic from overflowing.
pub const TIME_LIMIT: u64 = 0x4000_0000_0000_0000;

/// The player's input flags for one frame, as polled by the host.
#[derive(Clone, Copy, Debug, PartialEq, Eq, Structural, Default)]
pub struct Input {
    pub rotate_left: bool,
    pub rotate_right: bool,
    pub thrust: bool,
    pub fire: bool,
    pub restart: bool,
}

/// Truncating (round-toward-zero) division, the meaning of `/` on the
/// machine integers the simulation is computed with.  `d` must be positive.
pub open spec fn div_trunc(a: int, d: int) -> int
    recommends
        d > 0,
{
    if a >= 0 {
        a / d
    } else {
        -((-a) / d)
    }
}

/// Truncating division on `i64`, proved to agree with [`div_trunc`]; the
/// result never grows past the dividend in magnitude.
pub fn div_trunc_i64(a: i64, d: i64) -> (r: i64)
    requires
        d > 0,
    ensures
        r == div_trunc(a as int, d as int),
        a >= 0 ==> 0 <= r <= a,
        a <= 0 ==> a <= r <= 0,
{
    proof {
        lemma_div_trunc_bounds(a as int, d as int);
    }
    a / d
}

/// How far truncating division can stray from the exact quotient: the scaled
/// result `d * div_trunc(a, d)` stays within `d` of `a`, on the zero side.
pub proof fn lemma_div_trunc_bounds(a: int, d: int)
    requires
        d > 0,
    ensures
        a >= 0 ==> 0 <= div_trunc(a, d) <= a && d * div_trunc(a, d) <= a < d * div_trunc(a, d)
            + d,
        a <= 0 ==> a <= div_trunc(a, d) <= 0 && a <= d * div_trunc(a, d) && d * div_trunc(a, d)
            < a + d,
{
    if a >= 0 {
        vstd::arithmetic::div_mod::lemma_fundamental_div_mod(a, d);
        vstd::arithmetic::div_mod::lemma_div_pos_is_pos(a, d);
        let q = a / d;
        assert(q <= d * q) by (nonlinear_arith)
            requires
                q >= 0,
                d >= 1,
        ;
    } else {
        vstd::arithmetic::div_mod::lemma_fundamental_div_mod(-a, d);
        vstd::arithmetic::div_mod::lemma_div_pos_is_pos(-a, d);
        let q = (-a) / d;
        assert(q <= d * q) by (nonlinear_arith)
            requires
                q >= 0,
                d >= 1,
        ;
        assert(d * (-q) == -(d * q)) by (nonlinear_arith);
    }
}

} // verus!
