//! Approximate bounding spheres for camera framing.
//!
//! The sphere is the centroid of the positions together with the largest
//! distance from the centroid to any position. It is an approximation,
//! not a minimal enclosing sphere, and is used only to frame a mesh.

use vstd::prelude::*;

use crate::fixed::{lemma_product_bound, Vec3Fx, MAX_COORD};

verus! {

use vstd::arithmetic::div_mod::{
    lemma_div_is_ordered, lemma_div_multiples_vanish, lemma_fundamental_div_mod,
};

/// An approximate bounding sphere: centroid plus maximal distance.
#[derive(Clone, Copy, Debug)]
pub struct BoundingSphere {
    pub center: Vec3Fx,
    pub radius: i64,
}

/// `r` is the integer square root of `n`.
pub open spec fn is_sqrt_of(n: int, r: int) -> bool {
    &&& 0 <= r
    &&& r * r <= n
    &&& n < (r + 1) * (r + 1)
}

/// Sum of one axis over the first `k` positions of a flat coordinate list.
pub open spec fn axis_sum(s: Seq<i64>, axis: int, k: int) -> int
    decreases k,
{
    if k <= 0 {
        0
    } else {
        axis_sum(s, axis, k - 1) + s[3 * (k - 1) + axis]
    }
}

/// Squared distance from the centroid to position `j` of the list.
pub open spec fn dist2_at(s: Seq<i64>, cx: int, cy: int, cz: int, j: int) -> int {
    let dx = s[3 * j] - cx;
    let dy = s[3 * j + 1] - cy;
    let dz = s[3 * j + 2] - cz;
    dx * dx + dy * dy + dz * dz
}

/// Largest squared distance from the centroid over the first `k` positions.
pub open spec fn max_dist2(s: Seq<i64>, cx: int, cy: int, cz: int, k: int) -> int
    decreases k,
{
    if k <= 0 {
        0
    } else {
        let rest = max_dist2(s, cx, cy, cz, k - 1);
        let d = dist2_at(s, cx, cy, cz, k - 1);
        if d > rest {
            d
        } else {
            rest
        }
    }
}

/// Integer square root by binary search.
fn isqrt128(n: u128) -> (r: u128)
    ensures
        is_sqrt_of(n as int, r as int),
        r <= 0xFFFF_FFFF_FFFF_FFFF,
{
    let mut lo: u128 = 0;
    let mut hi: u128 = 0x1_0000_0000_0000_0000;
    while lo + 1 < hi
        invariant
            lo < hi <= 0x1_0000_0000_0000_0000,
            (lo as int) * (lo as int) <= n as int,
            (n as int) < (hi as int) * (hi as int),
        decreases hi - lo,
    {
        let mid: u128 = lo + (hi - lo) / 2;
        proof {
            lemma_product_bound(
                mid as int,
                mid as int,
                0xFFFF_FFFF_FFFF_FFFF,
                0xFFFF_FFFF_FFFF_FFFF,
            );
        }
        let m2: u128 = mid * mid;
        if m2 <= n {
            lo = mid;
        } else {
            hi = mid;
        }
    }
    lo
}

/// Components of a position difference are bounded by twice the coordinate
/// box, so the squared distance stays below twelve times its square.
proof fn lemma_dist2_bound(dx: int, dy: int, dz: int)
    requires
        -2 * MAX_COORD <= dx <= 2 * MAX_COORD,
        -2 * MAX_COORD <= dy <= 2 * MAX_COORD,
        -2 * MAX_COORD <= dz <= 2 * MAX_COORD,
    ensures
        0 <= dx * dx <= 4 * MAX_COORD * MAX_COORD,
        0 <= dy * dy <= 4 * MAX_COORD * MAX_COORD,
        0 <= dz * dz <= 4 * MAX_COORD * MAX_COORD,
        0 <= dx * dx + dy * dy + dz * dz <= 12 * MAX_COORD * MAX_COORD,
{
    assert(0 <= dx * dx <= 4 * MAX_COORD * MAX_COORD
        && 0 <= dy * dy <= 4 * MAX_COORD * MAX_COORD
        && 0 <= dz * dz <= 4 * MAX_COORD * MAX_COORD)
        by (nonlinear_arith)
        requires
            -2 * MAX_COORD <= dx <= 2 * MAX_COORD,
            -2 * MAX_COORD <= dy <= 2 * MAX_COORD,
            -2 * MAX_COORD <= dz <= 2 * MAX_COORD,
    ;
}

/// An integer square root of a value below twelve box squares is below
/// four boxes.
proof fn lemma_radius_bound(n: int, r: int)
    requires
        is_sqrt_of(n, r),
        n <= 12 * MAX_COORD * MAX_COORD,
    ensures
        r <= 4 * MAX_COORD,
{
    assert(r <= 4 * MAX_COORD) by (nonlinear_arith)
        requires
            0 <= r,
            r * r <= n,
            n <= 12 * MAX_COORD * MAX_COORD,
    ;
}

impl BoundingSphere {
    /// A well-formed sphere: center inside the coordinate box and a
    /// non-negative radius.
    pub open spec fn wf(self) -> bool {
        &&& self.center.in_box()
        &&& 0 <= self.radius <= 4 * MAX_COORD
    }

    /// Build the bounding sphere of a flat position list (three coordinates
    /// per position): the center is the arithmetic mean of the positions and
    /// the radius the largest distance from the center to any position. An
    /// empty list yields the origin with radius zero.
    pub fn from_min_max(points: &Vec<i64>) -> (s: BoundingSphere)
        requires
            points@.len() % 3 == 0,
            forall|i: int|
                0 <= i < points@.len() ==> -MAX_COORD <= #[trigger] points@[i] <= MAX_COORD,
        ensures
            s.wf(),
            points@.len() == 0 ==> s.center == (Vec3Fx { x: 0, y: 0, z: 0 }) && s.radius == 0,
            points@.len() > 0 ==> {
                let n = points@.len() as int / 3;
                &&& s.center.x == axis_sum(points@, 0, n) / n
                &&& s.center.y == axis_sum(points@, 1, n) / n
                &&& s.center.z == axis_sum(points@, 2, n) / n
                &&& is_sqrt_of(
                    max_dist2(
                        points@,
                        s.center.x as int,
                        s.center.y as int,
                        s.center.z as int,
                        n,
                    ),
                    s.radius as int,
                )
            },
    {
        proof {
            lemma_fundamental_div_mod(points@.len() as int, 3);
        }
        let n: usize = points.len() / 3;
        if n == 0 {
            return BoundingSphere { center: Vec3Fx { x: 0, y: 0, z: 0 }, radius: 0 };
        }

        let mut acc_x: i128 = 0;
        let mut acc_y: i128 = 0;
        let mut acc_z: i128 = 0;
        let mut j: usize = 0;
        while j < n
            invariant
                0 <= j <= n,
                n == points@.len() / 3,
                points@.len() == 3 * n,
                points.len() == points@.len(),
                forall|i: int|
                    0 <= i < points@.len() ==> -MAX_COORD <= #[trigger] points@[i] <= MAX_COORD,
                acc_x == axis_sum(points@, 0, j as int),
                acc_y == axis_sum(points@, 1, j as int),
                acc_z == axis_sum(points@, 2, j as int),
                -(j as int) * MAX_COORD <= acc_x <= (j as int) * MAX_COORD,
                -(j as int) * MAX_COORD <= acc_y <= (j as int) * MAX_COORD,
                -(j as int) * MAX_COORD <= acc_z <= (j as int) * MAX_COORD,
            decreases n - j,
        {
            acc_x = acc_x + points[3 * j] as i128;
            acc_y = acc_y + points[3 * j + 1] as i128;
            acc_z = acc_z + points[3 * j + 2] as i128;
            j = j + 1;
        }

        let cx = mean_of(acc_x, n);
        let cy = mean_of(acc_y, n);
        let cz = mean_of(acc_z, n);

        let mut best: u128 = 0;
        let mut k: usize = 0;
        while k < n
            invariant
                0 <= k <= n,
                n == points@.len() / 3,
                points@.len() == 3 * n,
                points.len() == points@.len(),
                forall|i: int|
                    0 <= i < points@.len() ==> -MAX_COORD <= #[trigger] points@[i] <= MAX_COORD,
                -MAX_COORD <= cx <= MAX_COORD,
                -MAX_COORD <= cy <= MAX_COORD,
                -MAX_COORD <= cz <= MAX_COORD,
                best == max_dist2(points@, cx as int, cy as int, cz as int, k as int),
                best <= 12 * MAX_COORD * MAX_COORD,
            decreases n - k,
        {
            let dx: i128 = points[3 * k] as i128 - cx as i128;
            let dy: i128 = points[3 * k + 1] as i128 - cy as i128;
            let dz: i128 = points[3 * k + 2] as i128 - cz as i128;
            proof {
                lemma_dist2_bound(dx as int, dy as int, dz as int);
            }
            let d2: u128 = (dx * dx + dy * dy + dz * dz) as u128;
            if d2 > best {
                best = d2;
            }
            k = k + 1;
        }

        let root = isqrt128(best);
        proof {
            lemma_radius_bound(best as int, root as int);
        }
        BoundingSphere { center: Vec3Fx { x: cx, y: cy, z: cz }, radius: root as i64 }
    }
}

/// Mean of an accumulated axis sum over `n` positions, with the bound that
/// keeps it inside the coordinate box.
fn mean_of(acc: i128, n: usize) -> (c: i64)
    requires
        n > 0,
        -(n as int) * MAX_COORD <= acc <= (n as int) * MAX_COORD,
    ensures
        c == acc as int / n as int,
        -MAX_COORD <= c <= MAX_COORD,
{
    proof {
        lemma_div_is_ordered(acc as int, (n as int) * MAX_COORD, n as int);
        lemma_div_is_ordered(-((n as int) * MAX_COORD), acc as int, n as int);
        lemma_div_multiples_vanish(MAX_COORD as int, n as int);
        lemma_div_multiples_vanish(-MAX_COORD as int, n as int);
        assert((n as int) * MAX_COORD == (n as int) * (MAX_COORD as int)) by (nonlinear_arith);
        assert(-((n as int) * MAX_COORD) == (n as int) * (-MAX_COORD as int))
            by (nonlinear_arith);
    }
    let q: i128 = acc.checked_div_euclid(n as i128).unwrap();
    q as i64
}

} // verus!
