//! Orbital camera controller.
//!
//! The camera orbits a focus point. Its state is the azimuth and polar
//! angles, the orbit radius, the focus point and the projection constants;
//! the world position is derived from those and recomputed by [`Camera::orbital`]
//! after every change. The azimuth always stays in `[0, TWO_PI_FX)`, the
//! polar angle is clamped symmetrically below a quarter turn so the view
//! direction never aligns with world-up, and the radius is clamped to a
//! strictly positive range so the view transform cannot degenerate.

use vstd::prelude::*;

use crate::bounding::BoundingSphere;
use crate::fixed::{
    clamp64, clamp_coord128, div_scale128, lemma_div_scale_bound, lemma_product_bound, mul_scaled,
    spec_clamp, spec_clamp_coord, spec_fx_mul, Vec3Fx, MAX_COORD, SCALE,
};
use crate::trig::{cos_fx, sin_fx, spec_cos_fx, spec_sin_fx, HALF_PI_FX, TWO_PI_FX};

verus! {

/// Clamp for the polar angle: a quarter turn less a thousandth of a radian.
pub const POLAR_CAP_FX: i64 = HALF_PI_FX - 1_000;

/// Smallest orbit radius (a thousandth of a world unit).
pub const MIN_RADIUS_FX: i64 = 1_000;

/// Largest orbit radius (one hundred million world units).
pub const MAX_RADIUS_FX: i64 = 100_000_000_000_000;

/// Scale applied to pan deltas (a fifth of a world unit per step).
pub const PAN_SPEED_FX: i64 = 200_000;

/// Scale applied to scroll deltas when zooming.
pub const ZOOM_SPEED_FX: i64 = 2_000;

/// Bound on the pre-scaled move amounts handed to the focus helpers.
pub const AMOUNT_MAX_128: i128 = 1_000_000_000_000_000_000_000_000_000;

/// One focus component shifted along one direction component: the focus
/// value plus the scaled product, clamped back into the coordinate box.
fn focus_shift(f: i64, dir: i64, amount: i128) -> (r: i64)
    requires
        -MAX_COORD <= f <= MAX_COORD,
        -SCALE <= dir <= SCALE,
        -AMOUNT_MAX_128 <= amount <= AMOUNT_MAX_128,
    ensures
        r == spec_clamp_coord(f + spec_fx_mul(dir as int, amount as int)),
{
    proof {
        lemma_product_bound(dir as int, amount as int, SCALE as int, AMOUNT_MAX_128 as int);
        lemma_div_scale_bound(dir as int * amount as int, AMOUNT_MAX_128 as int);
    }
    let wide: i128 = (dir as i128) * amount;
    let q: i128 = div_scale128(wide);
    clamp_coord128(f as i128 + q)
}

/// One focus component shifted along two direction components at once.
fn focus_shift2(f: i64, dir_a: i64, amount_a: i128, dir_b: i64, amount_b: i128) -> (r: i64)
    requires
        -MAX_COORD <= f <= MAX_COORD,
        -SCALE <= dir_a <= SCALE,
        -SCALE <= dir_b <= SCALE,
        -AMOUNT_MAX_128 <= amount_a <= AMOUNT_MAX_128,
        -AMOUNT_MAX_128 <= amount_b <= AMOUNT_MAX_128,
    ensures
        r == spec_clamp_coord(
            f + spec_fx_mul(dir_a as int, amount_a as int)
                + spec_fx_mul(dir_b as int, amount_b as int),
        ),
{
    proof {
        lemma_product_bound(dir_a as int, amount_a as int, SCALE as int, AMOUNT_MAX_128 as int);
        lemma_div_scale_bound(dir_a as int * amount_a as int, AMOUNT_MAX_128 as int);
        lemma_product_bound(dir_b as int, amount_b as int, SCALE as int, AMOUNT_MAX_128 as int);
        lemma_div_scale_bound(dir_b as int * amount_b as int, AMOUNT_MAX_128 as int);
    }
    let qa: i128 = div_scale128((dir_a as i128) * amount_a);
    let qb: i128 = div_scale128((dir_b as i128) * amount_b);
    clamp_coord128(f as i128 + qa + qb)
}

/// Orbital camera state. `pos` is derived from the other fields and is
/// refreshed by [`Camera::orbital`]; it is never independent truth.
pub struct Camera {
    pub pos: Vec3Fx,
    pub look_at_center: Vec3Fx,
    pub fov: i64,
    pub near: i64,
    pub far: i64,
    pub azimuth: i64,
    pub polar: i64,
    pub radius: i64,
}

impl Camera {
    /// Well-formed camera state: wrapped azimuth, clamped polar angle,
    /// strictly positive bounded radius, focus inside the coordinate box.
    pub open spec fn wf(self) -> bool {
        &&& 0 <= self.azimuth < TWO_PI_FX
        &&& -POLAR_CAP_FX <= self.polar <= POLAR_CAP_FX
        &&& MIN_RADIUS_FX <= self.radius <= MAX_RADIUS_FX
        &&& self.look_at_center.in_box()
    }

    /// The documented default state.
    pub open spec fn spec_default() -> Camera {
        Camera {
            pos: Vec3Fx { x: 0, y: 1_500_000, z: 3_000_000 },
            look_at_center: Vec3Fx { x: 0, y: 0, z: 0 },
            fov: 60_000_000,
            near: 10_000,
            far: 2_500_000_000,
            azimuth: 0,
            polar: 785_398,
            radius: 2_000_000,
        }
    }

    /// The derived world position, per component: the focus point offset by
    /// the spherical direction scaled by the radius.
    pub open spec fn spec_orbit_x(self) -> int {
        self.look_at_center.x + spec_fx_mul(
            spec_fx_mul(self.radius as int, spec_cos_fx(self.polar as int)),
            spec_cos_fx(self.azimuth as int),
        )
    }

    pub open spec fn spec_orbit_y(self) -> int {
        self.look_at_center.y + spec_fx_mul(self.radius as int, spec_sin_fx(self.polar as int))
    }

    pub open spec fn spec_orbit_z(self) -> int {
        self.look_at_center.z + spec_fx_mul(
            spec_fx_mul(self.radius as int, spec_cos_fx(self.polar as int)),
            spec_sin_fx(self.azimuth as int),
        )
    }

    /// The camera's local right direction, a unit vector in the ground
    /// plane: `(sin azimuth, 0, -cos azimuth)`.
    pub open spec fn spec_right_x(self) -> int {
        spec_sin_fx(self.azimuth as int)
    }

    pub open spec fn spec_right_z(self) -> int {
        -spec_cos_fx(self.azimuth as int)
    }

    /// The camera's local up direction:
    /// `(-sin polar * cos azimuth, cos polar, -sin polar * sin azimuth)`.
    pub open spec fn spec_up_x(self) -> int {
        spec_fx_mul(-spec_sin_fx(self.polar as int), spec_cos_fx(self.azimuth as int))
    }

    pub open spec fn spec_up_y(self) -> int {
        spec_cos_fx(self.polar as int)
    }

    pub open spec fn spec_up_z(self) -> int {
        spec_fx_mul(-spec_sin_fx(self.polar as int), spec_sin_fx(self.azimuth as int))
    }

    /// The view direction from the camera towards the focus point:
    /// `(-cos polar * cos azimuth, -sin polar, -cos polar * sin azimuth)`.
    pub open spec fn spec_view_x(self) -> int {
        -spec_fx_mul(spec_cos_fx(self.polar as int), spec_cos_fx(self.azimuth as int))
    }

    pub open spec fn spec_view_y(self) -> int {
        -spec_sin_fx(self.polar as int)
    }

    pub open spec fn spec_view_z(self) -> int {
        -spec_fx_mul(spec_cos_fx(self.polar as int), spec_sin_fx(self.azimuth as int))
    }

    /// Runtime check of well-formedness, for callers that set fields by
    /// hand and must re-establish the operations' precondition.
    pub fn is_well_formed(&self) -> (r: bool)
        ensures
            r == self.wf(),
    {
        0 <= self.azimuth && self.azimuth < TWO_PI_FX && -POLAR_CAP_FX <= self.polar && self.polar
            <= POLAR_CAP_FX && MIN_RADIUS_FX <= self.radius && self.radius <= MAX_RADIUS_FX
            && -MAX_COORD <= self.look_at_center.x && self.look_at_center.x <= MAX_COORD
            && -MAX_COORD <= self.look_at_center.y && self.look_at_center.y <= MAX_COORD
            && -MAX_COORD <= self.look_at_center.z && self.look_at_center.z <= MAX_COORD
    }

    /// Recompute the derived world position from the current state.
    pub fn orbital(&mut self)
        requires
            old(self).wf(),
        ensures
            final(self).pos.x == old(self).spec_orbit_x(),
            final(self).pos.y == old(self).spec_orbit_y(),
            final(self).pos.z == old(self).spec_orbit_z(),
            final(self).look_at_center == old(self).look_at_center,
            final(self).fov == old(self).fov,
            final(self).near == old(self).near,
            final(self).far == old(self).far,
            final(self).azimuth == old(self).azimuth,
            final(self).polar == old(self).polar,
            final(self).radius == old(self).radius,
            final(self).wf(),
    {
        let cp = cos_fx(self.polar);
        let sp = sin_fx(self.polar);
        let ca = cos_fx(self.azimuth);
        let sa = sin_fx(self.azimuth);
        let ground = mul_scaled(self.radius, cp, MAX_RADIUS_FX);
        let off_x = mul_scaled(ground, ca, MAX_RADIUS_FX);
        let off_y = mul_scaled(self.radius, sp, MAX_RADIUS_FX);
        let off_z = mul_scaled(ground, sa, MAX_RADIUS_FX);
        self.pos = Vec3Fx {
            x: self.look_at_center.x + off_x,
            y: self.look_at_center.y + off_y,
            z: self.look_at_center.z + off_z,
        };
    }

    /// Advance the azimuth by a delta of either sign and any magnitude,
    /// wrapping the result into `[0, TWO_PI_FX)`.
    pub fn rotate_azimuth(&mut self, radians: i64)
        ensures
            final(self).azimuth == (old(self).azimuth + radians) % (TWO_PI_FX as int),
            0 <= final(self).azimuth < TWO_PI_FX,
            final(self).pos == old(self).pos,
            final(self).look_at_center == old(self).look_at_center,
            final(self).fov == old(self).fov,
            final(self).near == old(self).near,
            final(self).far == old(self).far,
            final(self).polar == old(self).polar,
            final(self).radius == old(self).radius,
    {
        let wide: i128 = self.azimuth as i128 + radians as i128;
        let wrapped: i128 = wide.checked_rem_euclid(TWO_PI_FX as i128).unwrap();
        self.azimuth = wrapped as i64;
    }

    /// Advance the polar angle by a delta, clamping symmetrically into
    /// `[-POLAR_CAP_FX, POLAR_CAP_FX]`.
    pub fn rotate_polar(&mut self, radians: i64)
        ensures
            final(self).polar == spec_clamp(
                old(self).polar + radians,
                -POLAR_CAP_FX as int,
                POLAR_CAP_FX as int,
            ),
            -POLAR_CAP_FX <= final(self).polar <= POLAR_CAP_FX,
            final(self).pos == old(self).pos,
            final(self).look_at_center == old(self).look_at_center,
            final(self).fov == old(self).fov,
            final(self).near == old(self).near,
            final(self).far == old(self).far,
            final(self).azimuth == old(self).azimuth,
            final(self).radius == old(self).radius,
    {
        let wide: i128 = self.polar as i128 + radians as i128;
        if wide > POLAR_CAP_FX as i128 {
            self.polar = POLAR_CAP_FX;
        } else if wide < -POLAR_CAP_FX as i128 {
            self.polar = -POLAR_CAP_FX;
        } else {
            self.polar = wide as i64;
        }
    }

    /// Zoom by a scroll delta: the radius shrinks by the scaled delta and
    /// is clamped into its strictly positive range.
    pub fn zoom(&mut self, scroll_delta: i64)
        ensures
            final(self).radius == spec_clamp(
                old(self).radius - spec_fx_mul(scroll_delta as int, ZOOM_SPEED_FX as int),
                MIN_RADIUS_FX as int,
                MAX_RADIUS_FX as int,
            ),
            MIN_RADIUS_FX <= final(self).radius <= MAX_RADIUS_FX,
            final(self).pos == old(self).pos,
            final(self).look_at_center == old(self).look_at_center,
            final(self).fov == old(self).fov,
            final(self).near == old(self).near,
            final(self).far == old(self).far,
            final(self).azimuth == old(self).azimuth,
            final(self).polar == old(self).polar,
    {
        let step: i128 = div_scale128((scroll_delta as i128) * (ZOOM_SPEED_FX as i128));
        let wide: i128 = self.radius as i128 - step;
        if wide < MIN_RADIUS_FX as i128 {
            self.radius = MIN_RADIUS_FX;
        } else if wide > MAX_RADIUS_FX as i128 {
            self.radius = MAX_RADIUS_FX;
        } else {
            self.radius = wide as i64;
        }
    }

    /// Frame a bounding sphere: the focus point becomes the sphere's center
    /// and the radius the sphere's radius, both clamped into the camera's
    /// ranges; the angles are unchanged and the position is recomputed.
    pub fn retarget(&mut self, sphere: &BoundingSphere)
        requires
            old(self).wf(),
        ensures
            final(self).look_at_center.x == spec_clamp_coord(sphere.center.x as int),
            final(self).look_at_center.y == spec_clamp_coord(sphere.center.y as int),
            final(self).look_at_center.z == spec_clamp_coord(sphere.center.z as int),
            final(self).radius == spec_clamp(
                sphere.radius as int,
                MIN_RADIUS_FX as int,
                MAX_RADIUS_FX as int,
            ),
            final(self).azimuth == old(self).azimuth,
            final(self).polar == old(self).polar,
            final(self).fov == old(self).fov,
            final(self).near == old(self).near,
            final(self).far == old(self).far,
            final(self).pos.x == final(self).spec_orbit_x(),
            final(self).pos.y == final(self).spec_orbit_y(),
            final(self).pos.z == final(self).spec_orbit_z(),
            final(self).wf(),
    {
        self.look_at_center = Vec3Fx {
            x: clamp_coord128(sphere.center.x as i128),
            y: clamp_coord128(sphere.center.y as i128),
            z: clamp_coord128(sphere.center.z as i128),
        };
        self.radius = clamp64(sphere.radius, MIN_RADIUS_FX, MAX_RADIUS_FX);
        self.orbital();
    }

    /// Move the focus point along the camera's local right and up axes by
    /// `(dx, dy)` scaled by the pan speed; angles and radius are unchanged.
    pub fn pan(&mut self, dx: i64, dy: i64)
        requires
            old(self).wf(),
        ensures
            final(self).look_at_center.x == spec_clamp_coord(
                old(self).look_at_center.x
                    + spec_fx_mul(
                    old(self).spec_right_x(),
                    spec_fx_mul(dx as int, PAN_SPEED_FX as int),
                ) + spec_fx_mul(
                    old(self).spec_up_x(),
                    spec_fx_mul(dy as int, PAN_SPEED_FX as int),
                ),
            ),
            final(self).look_at_center.y == spec_clamp_coord(
                old(self).look_at_center.y + spec_fx_mul(
                    old(self).spec_up_y(),
                    spec_fx_mul(dy as int, PAN_SPEED_FX as int),
                ),
            ),
            final(self).look_at_center.z == spec_clamp_coord(
                old(self).look_at_center.z
                    + spec_fx_mul(
                    old(self).spec_right_z(),
                    spec_fx_mul(dx as int, PAN_SPEED_FX as int),
                ) + spec_fx_mul(
                    old(self).spec_up_z(),
                    spec_fx_mul(dy as int, PAN_SPEED_FX as int),
                ),
            ),
            final(self).pos == old(self).pos,
            final(self).fov == old(self).fov,
            final(self).near == old(self).near,
            final(self).far == old(self).far,
            final(self).azimuth == old(self).azimuth,
            final(self).polar == old(self).polar,
            final(self).radius == old(self).radius,
            final(self).wf(),
    {
        let sdx: i128 = div_scale128((dx as i128) * (PAN_SPEED_FX as i128));
        let sdy: i128 = div_scale128((dy as i128) * (PAN_SPEED_FX as i128));
        proof {
            lemma_div_scale_bound(dx as int * PAN_SPEED_FX as int, AMOUNT_MAX_128 as int);
            lemma_div_scale_bound(dy as int * PAN_SPEED_FX as int, AMOUNT_MAX_128 as int);
        }
        let sa = sin_fx(self.azimuth);
        let ca = cos_fx(self.azimuth);
        let sp = sin_fx(self.polar);
        let cp = cos_fx(self.polar);
        let up_x = mul_scaled(-sp, ca, SCALE);
        let up_z = mul_scaled(-sp, sa, SCALE);
        self.look_at_center = Vec3Fx {
            x: focus_shift2(self.look_at_center.x, sa, sdx, up_x, sdy),
            y: focus_shift(self.look_at_center.y, cp, sdy),
            z: focus_shift2(self.look_at_center.z, -ca, sdx, up_z, sdy),
        };
    }

    /// Move the focus point along the local right direction by a distance
    /// scaled by the radius (shared body of the two strafe directions).
    fn strafe_by(&mut self, dist: i128)
        requires
            old(self).wf(),
            -0x8000_0000_0000_0000 <= dist <= 0x8000_0000_0000_0000,
        ensures
            final(self).look_at_center.x == spec_clamp_coord(
                old(self).look_at_center.x + spec_fx_mul(
                    old(self).spec_right_x(),
                    spec_fx_mul(dist as int, old(self).radius as int),
                ),
            ),
            final(self).look_at_center.y == old(self).look_at_center.y,
            final(self).look_at_center.z == spec_clamp_coord(
                old(self).look_at_center.z + spec_fx_mul(
                    old(self).spec_right_z(),
                    spec_fx_mul(dist as int, old(self).radius as int),
                ),
            ),
            final(self).pos == old(self).pos,
            final(self).fov == old(self).fov,
            final(self).near == old(self).near,
            final(self).far == old(self).far,
            final(self).azimuth == old(self).azimuth,
            final(self).polar == old(self).polar,
            final(self).radius == old(self).radius,
            final(self).wf(),
    {
        proof {
            lemma_product_bound(
                dist as int,
                self.radius as int,
                0x8000_0000_0000_0000,
                MAX_RADIUS_FX as int,
            );
            lemma_div_scale_bound(dist as int * self.radius as int, AMOUNT_MAX_128 as int);
        }
        let sd: i128 = div_scale128(dist * (self.radius as i128));
        let sa = sin_fx(self.azimuth);
        let ca = cos_fx(self.azimuth);
        self.look_at_center = Vec3Fx {
            x: focus_shift(self.look_at_center.x, sa, sd),
            y: self.look_at_center.y,
            z: focus_shift(self.look_at_center.z, -ca, sd),
        };
    }

    /// Strafe towards the camera's local left: the focus point moves
    /// against the right axis by `dist` scaled by the radius.
    pub fn strafe_left(&mut self, dist: i64)
        requires
            old(self).wf(),
        ensures
            final(self).look_at_center.x == spec_clamp_coord(
                old(self).look_at_center.x + spec_fx_mul(
                    old(self).spec_right_x(),
                    spec_fx_mul(-(dist as int), old(self).radius as int),
                ),
            ),
            final(self).look_at_center.y == old(self).look_at_center.y,
            final(self).look_at_center.z == spec_clamp_coord(
                old(self).look_at_center.z + spec_fx_mul(
                    old(self).spec_right_z(),
                    spec_fx_mul(-(dist as int), old(self).radius as int),
                ),
            ),
            final(self).pos == old(self).pos,
            final(self).fov == old(self).fov,
            final(self).near == old(self).near,
            final(self).far == old(self).far,
            final(self).azimuth == old(self).azimuth,
            final(self).polar == old(self).polar,
            final(self).radius == old(self).radius,
            final(self).wf(),
    {
        self.strafe_by(-(dist as i128));
    }

    /// Strafe towards the camera's local right: the mirror of
    /// [`Camera::strafe_left`].
    pub fn strafe_right(&mut self, dist: i64)
        requires
            old(self).wf(),
        ensures
            final(self).look_at_center.x == spec_clamp_coord(
                old(self).look_at_center.x + spec_fx_mul(
                    old(self).spec_right_x(),
                    spec_fx_mul(dist as int, old(self).radius as int),
                ),
            ),
            final(self).look_at_center.y == old(self).look_at_center.y,
            final(self).look_at_center.z == spec_clamp_coord(
                old(self).look_at_center.z + spec_fx_mul(
                    old(self).spec_right_z(),
                    spec_fx_mul(dist as int, old(self).radius as int),
                ),
            ),
            final(self).pos == old(self).pos,
            final(self).fov == old(self).fov,
            final(self).near == old(self).near,
            final(self).far == old(self).far,
            final(self).azimuth == old(self).azimuth,
            final(self).polar == old(self).polar,
            final(self).radius == old(self).radius,
            final(self).wf(),
    {
        self.strafe_by(dist as i128);
    }

    /// Move the focus point along the view direction by a distance scaled
    /// by the radius (shared body of forward and backward movement).
    fn move_by(&mut self, dist: i128)
        requires
            old(self).wf(),
            -0x8000_0000_0000_0000 <= dist <= 0x8000_0000_0000_0000,
        ensures
            final(self).look_at_center.x == spec_clamp_coord(
                old(self).look_at_center.x + spec_fx_mul(
                    old(self).spec_view_x(),
                    spec_fx_mul(dist as int, old(self).radius as int),
                ),
            ),
            final(self).look_at_center.y == spec_clamp_coord(
                old(self).look_at_center.y + spec_fx_mul(
                    old(self).spec_view_y(),
                    spec_fx_mul(dist as int, old(self).radius as int),
                ),
            ),
            final(self).look_at_center.z == spec_clamp_coord(
                old(self).look_at_center.z + spec_fx_mul(
                    old(self).spec_view_z(),
                    spec_fx_mul(dist as int, old(self).radius as int),
                ),
            ),
            final(self).pos == old(self).pos,
            final(self).fov == old(self).fov,
            final(self).near == old(self).near,
            final(self).far == old(self).far,
            final(self).azimuth == old(self).azimuth,
            final(self).polar == old(self).polar,
            final(self).radius == old(self).radius,
            final(self).wf(),
    {
        proof {
            lemma_product_bound(
                dist as int,
                self.radius as int,
                0x8000_0000_0000_0000,
                MAX_RADIUS_FX as int,
            );
            lemma_div_scale_bound(dist as int * self.radius as int, AMOUNT_MAX_128 as int);
        }
        let sd: i128 = div_scale128(dist * (self.radius as i128));
        let sa = sin_fx(self.azimuth);
        let ca = cos_fx(self.azimuth);
        let sp = sin_fx(self.polar);
        let cp = cos_fx(self.polar);
        let view_x = -mul_scaled(cp, ca, SCALE);
        let view_z = -mul_scaled(cp, sa, SCALE);
        self.look_at_center = Vec3Fx {
            x: focus_shift(self.look_at_center.x, view_x, sd),
            y: focus_shift(self.look_at_center.y, -sp, sd),
            z: focus_shift(self.look_at_center.z, view_z, sd),
        };
    }

    /// Move the focus point forward along the view direction by `dist`
    /// scaled by the radius.
    pub fn move_forward(&mut self, dist: i64)
        requires
            old(self).wf(),
        ensures
            final(self).look_at_center.x == spec_clamp_coord(
                old(self).look_at_center.x + spec_fx_mul(
                    old(self).spec_view_x(),
                    spec_fx_mul(dist as int, old(self).radius as int),
                ),
            ),
            final(self).look_at_center.y == spec_clamp_coord(
                old(self).look_at_center.y + spec_fx_mul(
                    old(self).spec_view_y(),
                    spec_fx_mul(dist as int, old(self).radius as int),
                ),
            ),
            final(self).look_at_center.z == spec_clamp_coord(
                old(self).look_at_center.z + spec_fx_mul(
                    old(self).spec_view_z(),
                    spec_fx_mul(dist as int, old(self).radius as int),
                ),
            ),
            final(self).pos == old(self).pos,
            final(self).fov == old(self).fov,
            final(self).near == old(self).near,
            final(self).far == old(self).far,
            final(self).azimuth == old(self).azimuth,
            final(self).polar == old(self).polar,
            final(self).radius == old(self).radius,
            final(self).wf(),
    {
        self.move_by(dist as i128);
    }

    /// Move the focus point backward: the mirror of [`Camera::move_forward`].
    pub fn move_backward(&mut self, dist: i64)
        requires
            old(self).wf(),
        ensures
            final(self).look_at_center.x == spec_clamp_coord(
                old(self).look_at_center.x + spec_fx_mul(
                    old(self).spec_view_x(),
                    spec_fx_mul(-(dist as int), old(self).radius as int),
                ),
            ),
            final(self).look_at_center.y == spec_clamp_coord(
                old(self).look_at_center.y + spec_fx_mul(
                    old(self).spec_view_y(),
                    spec_fx_mul(-(dist as int), old(self).radius as int),
                ),
            ),
            final(self).look_at_center.z == spec_clamp_coord(
                old(self).look_at_center.z + spec_fx_mul(
                    old(self).spec_view_z(),
                    spec_fx_mul(-(dist as int), old(self).radius as int),
                ),
            ),
            final(self).pos == old(self).pos,
            final(self).fov == old(self).fov,
            final(self).near == old(self).near,
            final(self).far == old(self).far,
            final(self).azimuth == old(self).azimuth,
            final(self).polar == old(self).polar,
            final(self).radius == old(self).radius,
            final(self).wf(),
    {
        self.move_by(-(dist as i128));
    }

    /// Restore the documented defaults and recompute the position.
    pub fn reset(&mut self)
        ensures
            final(self).look_at_center == Camera::spec_default().look_at_center,
            final(self).fov == Camera::spec_default().fov,
            final(self).near == Camera::spec_default().near,
            final(self).far == Camera::spec_default().far,
            final(self).azimuth == Camera::spec_default().azimuth,
            final(self).polar == Camera::spec_default().polar,
            final(self).radius == Camera::spec_default().radius,
            final(self).pos.x == Camera::spec_default().spec_orbit_x(),
            final(self).pos.y == Camera::spec_default().spec_orbit_y(),
            final(self).pos.z == Camera::spec_default().spec_orbit_z(),
            final(self).wf(),
    {
        *self = Camera::default();
        self.orbital();
    }
}

/// Law: the derived orbital position never strays farther than the radius
/// from the focus point along any axis.
pub proof fn lemma_orbit_offset_bounded(c: Camera)
    requires
        c.wf(),
    ensures
        c.look_at_center.x - c.radius <= c.spec_orbit_x() <= c.look_at_center.x + c.radius,
        c.look_at_center.y - c.radius <= c.spec_orbit_y() <= c.look_at_center.y + c.radius,
        c.look_at_center.z - c.radius <= c.spec_orbit_z() <= c.look_at_center.z + c.radius,
{
    let r = c.radius as int;
    let cp = spec_cos_fx(c.polar as int);
    let sp = spec_sin_fx(c.polar as int);
    let ca = spec_cos_fx(c.azimuth as int);
    let sa = spec_sin_fx(c.azimuth as int);
    crate::trig::lemma_cos_fx_bounds(c.polar as int);
    crate::trig::lemma_sin_fx_bounds(c.polar as int);
    crate::trig::lemma_cos_fx_bounds(c.azimuth as int);
    crate::trig::lemma_sin_fx_bounds(c.azimuth as int);
    lemma_product_bound(r, cp, r, SCALE as int);
    lemma_div_scale_bound(r * cp, r);
    let ground = spec_fx_mul(r, cp);
    lemma_product_bound(ground, ca, r, SCALE as int);
    lemma_div_scale_bound(ground * ca, r);
    lemma_product_bound(ground, sa, r, SCALE as int);
    lemma_div_scale_bound(ground * sa, r);
    lemma_product_bound(r, sp, r, SCALE as int);
    lemma_div_scale_bound(r * sp, r);
}

impl Default for Camera {
    /// The documented default state; the derived position still holds the
    /// documented placeholder until [`Camera::orbital`] runs.
    fn default() -> (c: Camera)
        ensures
            c == Camera::spec_default(),
            c.wf(),
    {
        Camera {
            pos: Vec3Fx { x: 0, y: 1_500_000, z: 3_000_000 },
            look_at_center: Vec3Fx { x: 0, y: 0, z: 0 },
            fov: 60_000_000,
            near: 10_000,
            far: 2_500_000_000,
            azimuth: 0,
            polar: 785_398,
            radius: 2_000_000,
        }
    }
}

} // verus!
