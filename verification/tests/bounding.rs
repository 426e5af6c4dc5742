use cobalt::bounding::BoundingSphere;
use cobalt::fixed::Vec3Fx;
use cobalt::trig::{cos_fx, sin_fx, HALF_PI_FX, PI_FX, TWO_PI_FX};

#[test]
fn empty_input_yields_origin() {
    let points: Vec<i64> = Vec::new();
    let s = BoundingSphere::from_min_max(&points);
    assert_eq!(s.center, Vec3Fx { x: 0, y: 0, z: 0 });
    assert_eq!(s.radius, 0);
}

#[test]
fn single_point_yields_zero_radius() {
    let points: Vec<i64> = vec![1_000_000, 2_000_000, 3_000_000];
    let s = BoundingSphere::from_min_max(&points);
    assert_eq!(s.center, Vec3Fx { x: 1_000_000, y: 2_000_000, z: 3_000_000 });
    assert_eq!(s.radius, 0);
}

#[test]
fn two_points_yield_midpoint_and_half_distance() {
    let points: Vec<i64> = vec![0, 0, 0, 2_000_000, 0, 0];
    let s = BoundingSphere::from_min_max(&points);
    assert_eq!(s.center, Vec3Fx { x: 1_000_000, y: 0, z: 0 });
    assert_eq!(s.radius, 1_000_000);
}

#[test]
fn radius_is_largest_distance_from_centroid() {
    // Four positions whose centroid is the origin; the farthest is (3, 0, 4),
    // five units away.
    let points: Vec<i64> = vec![
        3_000_000, 0, 4_000_000,
        -3_000_000, 0, -4_000_000,
        1_000_000, 0, 0,
        -1_000_000, 0, 0,
    ];
    let s = BoundingSphere::from_min_max(&points);
    assert_eq!(s.center, Vec3Fx { x: 0, y: 0, z: 0 });
    assert_eq!(s.radius, 5_000_000);
}

#[test]
fn centroid_uses_position_count() {
    // Three positions; a mean over the coordinate count would differ.
    let points: Vec<i64> = vec![3_000_000, 0, 0, 0, 3_000_000, 0, 0, 0, 3_000_000];
    let s = BoundingSphere::from_min_max(&points);
    assert_eq!(s.center, Vec3Fx { x: 1_000_000, y: 1_000_000, z: 1_000_000 });
}

#[test]
fn circular_functions_match_reference_values() {
    assert_eq!(sin_fx(0), 0);
    assert_eq!(sin_fx(PI_FX), 0);
    assert_eq!(sin_fx(HALF_PI_FX), 999_999);
    assert_eq!(cos_fx(0), 999_999);
    assert_eq!(sin_fx(523_599), 500_000);
    assert_eq!(sin_fx(TWO_PI_FX), 0);
    for x in [-9_000_000i64, -1, 0, 1, 500_000, 2_000_000, 4_000_000, 40_000_000] {
        let approx = sin_fx(x) as f64 / 1e6;
        let exact = (x as f64 / 1e6).sin();
        assert!((approx - exact).abs() < 0.0035, "sine at {} is off: {} vs {}", x, approx, exact);
        let approx_c = cos_fx(x) as f64 / 1e6;
        let exact_c = (x as f64 / 1e6).cos();
        assert!((approx_c - exact_c).abs() < 0.0035, "cosine at {} is off", x);
    }
}
