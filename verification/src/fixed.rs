//! Fixed-point scalars and vectors.
//!
//! A coordinate is an `i64` holding `SCALE` steps per world unit. World
//! coordinates live in the box `[-MAX_COORD, MAX_COORD]` on each axis;
//! every operation that moves a point clamps back into that box, so the
//! arithmetic below never overflows.

use vstd::prelude::*;

verus! {

use vstd::arithmetic::div_mod::{lemma_div_is_ordered, lemma_div_multiples_vanish};

/// Fixed-point steps per world unit.
pub const SCALE: i64 = 1_000_000;

/// Largest representable coordinate on each axis (four million world units).
pub const MAX_COORD: i64 = 4_000_000_000_000;

/// Clamp of `v` into `[lo, hi]`, as specification.
pub open spec fn spec_clamp(v: int, lo: int, hi: int) -> int {
    if v < lo {
        lo
    } else if v > hi {
        hi
    } else {
        v
    }
}

/// Clamp of `v` into the coordinate box, as specification.
pub open spec fn spec_clamp_coord(v: int) -> int {
    spec_clamp(v, -MAX_COORD as int, MAX_COORD as int)
}

/// Fixed-point product, as specification: `a * b` rescaled by `SCALE`
/// with the quotient taken as Euclidean (floor, since `SCALE > 0`) division.
pub open spec fn spec_fx_mul(a: int, b: int) -> int {
    (a * b) / (SCALE as int)
}

/// Clamp an `i64` into `[lo, hi]`.
pub fn clamp64(v: i64, lo: i64, hi: i64) -> (r: i64)
    requires
        lo <= hi,
    ensures
        r == spec_clamp(v as int, lo as int, hi as int),
{
    if v < lo {
        lo
    } else if v > hi {
        hi
    } else {
        v
    }
}

/// Clamp a wide intermediate back into the coordinate box.
pub fn clamp_coord128(v: i128) -> (r: i64)
    ensures
        r == spec_clamp_coord(v as int),
{
    if v < -MAX_COORD as i128 {
        -MAX_COORD
    } else if v > MAX_COORD as i128 {
        MAX_COORD
    } else {
        v as i64
    }
}

/// Euclidean division of a wide intermediate by `SCALE`.
pub fn div_scale128(v: i128) -> (r: i128)
    ensures
        r == v as int / (SCALE as int),
{
    let q = v.checked_div_euclid(SCALE as i128);
    q.unwrap()
}

/// The product of two values bounded by `ma` and `mb` is bounded by `ma * mb`.
pub proof fn lemma_product_bound(a: int, b: int, ma: int, mb: int)
    requires
        0 <= ma,
        0 <= mb,
        -ma <= a <= ma,
        -mb <= b <= mb,
    ensures
        -(ma * mb) <= a * b <= ma * mb,
{
    assert(-(ma * mb) <= a * b <= ma * mb) by (nonlinear_arith)
        requires
            0 <= ma,
            0 <= mb,
            -ma <= a <= ma,
            -mb <= b <= mb,
    ;
}

/// Rescaling a value bounded by `m * SCALE` gives a value bounded by `m`.
pub proof fn lemma_div_scale_bound(x: int, m: int)
    requires
        0 <= m,
        -(m * SCALE) <= x <= m * SCALE,
    ensures
        -m <= x / (SCALE as int) <= m,
{
    let s = SCALE as int;
    lemma_div_is_ordered(x, m * s, s);
    lemma_div_is_ordered(-(m * s), x, s);
    lemma_div_multiples_vanish(m, s);
    lemma_div_multiples_vanish(-m, s);
    assert(m * s == s * m) by (nonlinear_arith);
    assert(-(m * s) == s * -m) by (nonlinear_arith);
}

/// Fixed-point product of a scalar bounded by `m` with a unit-range factor;
/// the result keeps the bound `m`.
pub fn mul_scaled(a: i64, b: i64, m: i64) -> (r: i64)
    requires
        0 <= m,
        -m <= a <= m,
        -SCALE <= b <= SCALE,
    ensures
        r == spec_fx_mul(a as int, b as int),
        -m <= r <= m,
{
    proof {
        lemma_product_bound(a as int, b as int, m as int, SCALE as int);
        lemma_div_scale_bound(a as int * b as int, m as int);
    }
    let wide: i128 = (a as i128) * (b as i128);
    let q = div_scale128(wide);
    q as i64
}

/// A point or direction in fixed-point coordinates.
#[derive(Clone, Copy, Debug, PartialEq, Eq, Structural)]
pub struct Vec3Fx {
    pub x: i64,
    pub y: i64,
    pub z: i64,
}

impl Vec3Fx {
    /// True when every component lies in the coordinate box.
    pub open spec fn in_box(self) -> bool {
        &&& -MAX_COORD <= self.x <= MAX_COORD
        &&& -MAX_COORD <= self.y <= MAX_COORD
        &&& -MAX_COORD <= self.z <= MAX_COORD
    }
}

} // verus!
