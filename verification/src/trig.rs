//! Fixed-point circular functions for the orbital camera.
//!
//! Angles are fixed-point radians (`SCALE` steps per radian). The sine is
//! computed with the classical rational half-wave approximation
//! `16 x (pi - x) / (5 pi^2 - 4 x (pi - x))` on `[0, pi]`, extended by odd
//! symmetry to the full turn; the cosine is the sine shifted by a quarter
//! turn. The result is exact against its specification and always lies in
//! `[-SCALE, SCALE]`.

use vstd::prelude::*;

use crate::fixed::SCALE;

verus! {

/// One half turn, in fixed-point radians.
pub const PI_FX: i64 = 3_141_593;

/// One quarter turn, in fixed-point radians.
pub const HALF_PI_FX: i64 = 1_570_796;

/// One full turn, in fixed-point radians.
pub const TWO_PI_FX: i64 = 6_283_185;

/// The half-wave rational approximation of the sine on `[0, PI_FX]`,
/// as specification (quotients are Euclidean).
pub open spec fn spec_halfwave(x: int) -> int {
    let p = x * (PI_FX - x);
    (16 * p * SCALE) / (5 * PI_FX * PI_FX - 4 * p)
}

/// Fixed-point sine of any angle: the argument is wrapped into one turn,
/// the first half-turn uses the half-wave form, the second its negation.
pub open spec fn spec_sin_fx(x: int) -> int {
    let t = x % (TWO_PI_FX as int);
    if t <= PI_FX {
        spec_halfwave(t)
    } else {
        -spec_halfwave(t - PI_FX)
    }
}

/// Fixed-point cosine: the sine advanced by a quarter turn.
pub open spec fn spec_cos_fx(x: int) -> int {
    spec_sin_fx(x + HALF_PI_FX)
}

/// On `[0, PI_FX]` the product `x * (PI_FX - x)` stays within a quarter
/// of the square of the half turn.
proof fn lemma_halfwave_product_bounds(x: int)
    requires
        0 <= x <= PI_FX,
    ensures
        0 <= x * (PI_FX - x),
        4 * (x * (PI_FX - x)) <= PI_FX * PI_FX,
{
    assert(0 <= x * (PI_FX - x) && 4 * (x * (PI_FX - x)) <= PI_FX * PI_FX)
        by (nonlinear_arith)
        requires
            0 <= x <= PI_FX,
    ;
}

/// The half-wave form, on its domain.
fn halfwave(x: i64) -> (r: i64)
    requires
        0 <= x <= PI_FX,
    ensures
        r == spec_halfwave(x as int),
        0 <= r <= SCALE,
{
    proof {
        lemma_halfwave_product_bounds(x as int);
    }
    let xp: i128 = (x as i128) * ((PI_FX - x) as i128);
    let num: i128 = 16 * xp * (SCALE as i128);
    let den: i128 = 5 * (PI_FX as i128) * (PI_FX as i128) - 4 * xp;
    proof {
        lemma_halfwave_quotient_bounds(xp as int, num as int, den as int);
    }
    let q: i128 = num.checked_div_euclid(den).unwrap();
    q as i64
}

/// The quotient of the half-wave form is a scalar in `[0, SCALE]`.
proof fn lemma_halfwave_quotient_bounds(xp: int, num: int, den: int)
    requires
        0 <= 4 * xp <= PI_FX * PI_FX,
        num == 16 * xp * SCALE,
        den == 5 * PI_FX * PI_FX - 4 * xp,
    ensures
        den > 0,
        0 <= num / den <= SCALE,
{
    assert(den >= 4 * PI_FX * PI_FX);
    assert(num <= SCALE * den) by (nonlinear_arith)
        requires
            0 <= 4 * xp <= PI_FX * PI_FX,
            num == 16 * xp * SCALE,
            den == 5 * PI_FX * PI_FX - 4 * xp,
    ;
    assert(0 <= num / den <= SCALE) by (nonlinear_arith)
        requires
            den > 0,
            0 <= num,
            num <= SCALE * den,
    ;
}

/// The specification-level sine always lies in `[-SCALE, SCALE]`.
pub proof fn lemma_sin_fx_bounds(x: int)
    ensures
        -SCALE <= spec_sin_fx(x) <= SCALE,
{
    let t = x % (TWO_PI_FX as int);
    assert(0 <= t < TWO_PI_FX);
    if t <= PI_FX {
        lemma_halfwave_product_bounds(t);
        let p = t * (PI_FX - t);
        lemma_halfwave_quotient_bounds(p, 16 * p * SCALE, 5 * PI_FX * PI_FX - 4 * p);
    } else {
        lemma_halfwave_product_bounds(t - PI_FX);
        let p = (t - PI_FX) * (PI_FX - (t - PI_FX));
        lemma_halfwave_quotient_bounds(p, 16 * p * SCALE, 5 * PI_FX * PI_FX - 4 * p);
    }
}

/// The specification-level cosine always lies in `[-SCALE, SCALE]`.
pub proof fn lemma_cos_fx_bounds(x: int)
    ensures
        -SCALE <= spec_cos_fx(x) <= SCALE,
{
    lemma_sin_fx_bounds(x + HALF_PI_FX);
}

/// Sine of an angle already wrapped into one turn.
fn sin_wrapped(t: i64) -> (r: i64)
    requires
        0 <= t < TWO_PI_FX,
    ensures
        r == spec_sin_fx(t as int),
        -SCALE <= r <= SCALE,
{
    proof {
        assert(t as int % (TWO_PI_FX as int) == t as int);
    }
    if t <= PI_FX {
        halfwave(t)
    } else {
        let h = halfwave(t - PI_FX);
        -h
    }
}

/// Wrap any fixed-point angle into `[0, TWO_PI_FX)`.
pub fn wrap_angle(x: i64) -> (r: i64)
    ensures
        r == x as int % (TWO_PI_FX as int),
        0 <= r < TWO_PI_FX,
{
    x.checked_rem_euclid(TWO_PI_FX).unwrap()
}

/// Fixed-point sine of any angle.
pub fn sin_fx(x: i64) -> (r: i64)
    ensures
        r == spec_sin_fx(x as int),
        -SCALE <= r <= SCALE,
{
    let t = wrap_angle(x);
    sin_wrapped(t)
}

/// Fixed-point cosine of any angle.
pub fn cos_fx(x: i64) -> (r: i64)
    ensures
        r == spec_cos_fx(x as int),
        -SCALE <= r <= SCALE,
{
    let s: i128 = x as i128 + HALF_PI_FX as i128;
    let t128: i128 = s.checked_rem_euclid(TWO_PI_FX as i128).unwrap();
    let t: i64 = t128 as i64;
    sin_wrapped(t)
}

} // verus!
