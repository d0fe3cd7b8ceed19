//! Angles and fixed-point trigonometry.
//!
//! Angles are kept in milliradians, always reduced to `[0, 2π)`; sine and
//! cosine are computed by an integer rational approximation and returned
//! scaled by 1000, so a heading can be turned into a unit direction vector
//! without leaving integer arithmetic.

use vstd::prelude::*;

verus! {

/// π in milliradians, the angle unit of the simulation.
pub const PI_MILLI: i64 = 3142;

/// 2π in milliradians: one full turn.
pub const TWO_PI_MILLI: i64 = 6284;

/// π/2 in milliradians: a quarter turn.
pub const HALF_PI_MILLI: i64 = 1571;

/// Fixed-point one: sine and cosine results are scaled by 1000.
pub const TRIG_ONE: i64 = 1000;

/// Folds an angle back into `[0, 2π)` after at most one full turn of drift
/// in either direction.
pub open spec fn wrap_angle(a: int) -> int {
    if a < 0 {
        a + TWO_PI_MILLI
    } else if a >= TWO_PI_MILLI {
        a - TWO_PI_MILLI
    } else {
        a
    }
}

/// Rational approximation of sine on `[0, π]` (milliradians in, result
/// scaled by 1000): `16·x·(π−x)·1000 / (5·π² − 4·x·(π−x))`.  It is exact at
/// 0, π/2 and π and close to the real sine everywhere between.
pub open spec fn sin_half_milli(x: int) -> int {
    (16 * x * (PI_MILLI - x) * 1000) / (5 * PI_MILLI * PI_MILLI - 4 * x * (PI_MILLI - x))
}

/// Sine of an angle in `[0, 2π)`, scaled by 1000.
pub open spec fn sin_milli(a: int) -> int {
    if a < PI_MILLI {
        sin_half_milli(a)
    } else {
        -sin_half_milli(a - PI_MILLI)
    }
}

/// Cosine of an angle in `[0, 2π)`, scaled by 1000: sine a quarter turn on.
pub open spec fn cos_milli(a: int) -> int {
    sin_milli(wrap_angle(a + HALF_PI_MILLI))
}

/// On `[0, π]` the sine approximation stays within `[0, 1000]`.
pub proof fn lemma_sin_half_bounds(x: int)
    requires
        0 <= x <= PI_MILLI,
    ensures
        0 <= sin_half_milli(x) <= TRIG_ONE,
{
    let u = x * (PI_MILLI - x);
    assert(0 <= u <= 2468041) by (nonlinear_arith)
        requires
            0 <= x <= 3142,
            u == x * (3142 - x),
    ;
    assert(16 * x * (PI_MILLI - x) == 16 * u) by (nonlinear_arith)
        requires
            u == x * (3142 - x),
    ;
    assert(4 * x * (PI_MILLI - x) == 4 * u) by (nonlinear_arith)
        requires
            u == x * (3142 - x),
    ;
    let num = 16 * u * 1000;
    let den = 5 * PI_MILLI * PI_MILLI - 4 * u;
    assert(39488656 <= den <= 49360820);
    assert(sin_half_milli(x) == num / den);
    vstd::arithmetic::div_mod::lemma_div_pos_is_pos(num, den);
    vstd::arithmetic::div_mod::lemma_div_is_ordered(num, 1000 * den, den);
    vstd::arithmetic::div_mod::lemma_div_multiples_vanish(1000, den);
}

/// Adds a signed offset of at most one full turn to a reduced angle and
/// folds the sum back into `[0, 2π)`.
pub fn angle_add(a: i64, d: i64) -> (r: i64)
    requires
        0 <= a < TWO_PI_MILLI,
        -TWO_PI_MILLI <= d <= TWO_PI_MILLI,
    ensures
        r == wrap_angle(a + d),
        0 <= r < TWO_PI_MILLI,
{
    let s: i64 = a + d;
    if s < 0 {
        s + TWO_PI_MILLI
    } else if s >= TWO_PI_MILLI {
        s - TWO_PI_MILLI
    } else {
        s
    }
}

/// Sine on `[0, π]`, the executable half of the approximation.
fn sin_half_fixed(x: i64) -> (r: i64)
    requires
        0 <= x <= PI_MILLI,
    ensures
        r == sin_half_milli(x as int),
        0 <= r <= TRIG_ONE,
{
    proof {
        lemma_sin_half_bounds(x as int);
        assert(0 <= (x as int) * ((PI_MILLI - x) as int) <= 2468041) by (nonlinear_arith)
            requires
                0 <= x <= 3142,
        ;
    }
    let u: i64 = x * (PI_MILLI - x);
    let num: i64 = 16 * u * 1000;
    let den: i64 = 5 * PI_MILLI * PI_MILLI - 4 * u;
    proof {
        assert(16 * (x as int) * ((PI_MILLI - x) as int) == 16 * (u as int)) by (nonlinear_arith)
            requires
                u == x * (3142 - x),
        ;
        assert(4 * (x as int) * ((PI_MILLI - x) as int) == 4 * (u as int)) by (nonlinear_arith)
            requires
                u == x * (3142 - x),
        ;
        vstd::arithmetic::div_mod::lemma_div_pos_is_pos(num as int, den as int);
        vstd::arithmetic::div_mod::lemma_div_is_ordered(num as int, 1000 * den, den as int);
        vstd::arithmetic::div_mod::lemma_div_multiples_vanish(1000, den as int);
    }
    num / den
}

/// Sine of a reduced angle, scaled by 1000.
pub fn sin_fixed(a: i64) -> (r: i64)
    requires
        0 <= a < TWO_PI_MILLI,
    ensures
        r == sin_milli(a as int),
        -TRIG_ONE <= r <= TRIG_ONE,
{
    if a < PI_MILLI {
        sin_half_fixed(a)
    } else {
        -sin_half_fixed(a - PI_MILLI)
    }
}

/// Cosine of a reduced angle, scaled by 1000.
pub fn cos_fixed(a: i64) -> (r: i64)
    requires
        0 <= a < TWO_PI_MILLI,
    ensures
        r == cos_milli(a as int),
        -TRIG_ONE <= r <= TRIG_ONE,
{
    let b = angle_add(a, HALF_PI_MILLI);
    sin_fixed(b)
}

} // verus!
