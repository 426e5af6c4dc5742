use cobalt::camera::{Camera, MAX_RADIUS_FX, MIN_RADIUS_FX, POLAR_CAP_FX};
use cobalt::bounding::BoundingSphere;
use cobalt::fixed::Vec3Fx;
use cobalt::trig::TWO_PI_FX;

#[test]
fn azimuth_wraps_into_one_turn() {
    let mut cam = Camera::default();
    assert_eq!(cam.azimuth, 0);
    cam.rotate_azimuth(7_000_000);
    assert_eq!(cam.azimuth, 716_815);
    cam.rotate_azimuth(-20_000_000);
    assert_eq!(cam.azimuth, 5_849_555);
    cam.rotate_azimuth(TWO_PI_FX);
    assert_eq!(cam.azimuth, 5_849_555);
    cam.rotate_azimuth(3 * TWO_PI_FX);
    assert_eq!(cam.azimuth, 5_849_555);
    let deltas: [i64; 7] = [1, -1, i64::MAX, i64::MIN, 123_456_789, -987_654_321, TWO_PI_FX - 1];
    for d in deltas {
        cam.rotate_azimuth(d);
        assert!(0 <= cam.azimuth && cam.azimuth < TWO_PI_FX);
    }
}

#[test]
fn polar_clamps_symmetrically() {
    let mut cam = Camera::default();
    cam.rotate_polar(10_000_000);
    assert_eq!(cam.polar, POLAR_CAP_FX);
    cam.rotate_polar(-10_000_000);
    assert_eq!(cam.polar, -POLAR_CAP_FX);
    cam.rotate_polar(1_000);
    assert_eq!(cam.polar, -POLAR_CAP_FX + 1_000);
    let deltas: [i64; 6] = [i64::MAX, i64::MIN, 3_000_000, -6_000_000, 1, -1];
    for d in deltas {
        cam.rotate_polar(d);
        assert!(-POLAR_CAP_FX <= cam.polar && cam.polar <= POLAR_CAP_FX);
    }
}

#[test]
fn default_orbital_position() {
    let mut cam = Camera::default();
    cam.orbital();
    assert_eq!(cam.pos.x, 1_411_762);
    assert_eq!(cam.pos.y, 1_411_764);
    assert_eq!(cam.pos.z, 0);
    assert_eq!(cam.look_at_center, Vec3Fx { x: 0, y: 0, z: 0 });
}

#[test]
fn retarget_frames_sphere_and_recomputes() {
    let mut cam = Camera::default();
    let sphere = BoundingSphere {
        center: Vec3Fx { x: 1_000_000, y: 2_000_000, z: 3_000_000 },
        radius: 5_000_000,
    };
    cam.retarget(&sphere);
    assert_eq!(cam.look_at_center, sphere.center);
    assert_eq!(cam.radius, 5_000_000);
    assert_eq!(cam.azimuth, 0);
    assert_eq!(cam.polar, 785_398);
    // The derived position stays on the sphere within the tolerance of the
    // fixed-point circular functions.
    for (da, dp) in [(300_000i64, 0i64), (2_500_000, -400_000), (5_000_000, 700_000)] {
        cam.rotate_azimuth(da);
        cam.rotate_polar(dp);
        cam.orbital();
        let dx = (cam.pos.x - sphere.center.x) as f64 / 1e6;
        let dy = (cam.pos.y - sphere.center.y) as f64 / 1e6;
        let dz = (cam.pos.z - sphere.center.z) as f64 / 1e6;
        let dist = (dx * dx + dy * dy + dz * dz).sqrt();
        assert!((dist - 5.0).abs() < 0.05, "distance {} deviates from the radius", dist);
    }
}

#[test]
fn retarget_clamps_degenerate_radius() {
    let mut cam = Camera::default();
    let sphere = BoundingSphere { center: Vec3Fx { x: 0, y: 0, z: 0 }, radius: 0 };
    cam.retarget(&sphere);
    assert_eq!(cam.radius, MIN_RADIUS_FX);
}

#[test]
fn zoom_scales_and_clamps() {
    let mut cam = Camera::default();
    assert_eq!(cam.radius, 2_000_000);
    cam.zoom(500_000_000);
    assert_eq!(cam.radius, 1_000_000);
    cam.zoom(i64::MAX);
    assert_eq!(cam.radius, MIN_RADIUS_FX);
    cam.zoom(i64::MIN);
    assert_eq!(cam.radius, MAX_RADIUS_FX);
}

#[test]
fn strafe_moves_focus_across_right_axis() {
    let mut cam = Camera::default();
    cam.polar = 0;
    // At azimuth zero the right axis is (sin 0, 0, -cos 0) = (0, 0, -1);
    // strafing left moves the focus the opposite way, towards +z.
    cam.strafe_left(500_000);
    assert_eq!(cam.look_at_center.x, 0);
    assert_eq!(cam.look_at_center.y, 0);
    assert_eq!(cam.look_at_center.z, 999_999);
    cam.strafe_right(500_000);
    assert_eq!(cam.look_at_center.z, 0);
}

#[test]
fn move_forward_follows_view_direction() {
    let mut cam = Camera::default();
    cam.polar = 0;
    // At azimuth zero and polar zero the view direction is (-cos 0, 0, 0).
    cam.move_forward(500_000);
    assert_eq!(cam.look_at_center.x, -999_998);
    assert_eq!(cam.look_at_center.y, 0);
    assert_eq!(cam.look_at_center.z, 0);
    cam.move_backward(500_000);
    assert_eq!(cam.look_at_center.x, 0);
}

#[test]
fn pan_moves_focus_in_camera_plane() {
    let mut cam = Camera::default();
    cam.polar = 0;
    // Right is (0, 0, -1), up is (0, cos 0, 0); pan speed is a fifth.
    cam.pan(1_000_000, 2_000_000);
    assert_eq!(cam.look_at_center.x, 0);
    assert_eq!(cam.look_at_center.y, 399_999);
    assert_eq!(cam.look_at_center.z, -200_000);
}

#[test]
fn reset_restores_defaults() {
    let mut cam = Camera::default();
    cam.rotate_azimuth(1_234_567);
    cam.rotate_polar(-300_000);
    cam.zoom(100_000_000);
    cam.pan(5_000_000, -5_000_000);
    cam.reset();
    assert_eq!(cam.azimuth, 0);
    assert_eq!(cam.polar, 785_398);
    assert_eq!(cam.radius, 2_000_000);
    assert_eq!(cam.look_at_center, Vec3Fx { x: 0, y: 0, z: 0 });
    assert_eq!(cam.fov, 60_000_000);
    assert_eq!(cam.near, 10_000);
    assert_eq!(cam.far, 2_500_000_000);
    assert_eq!(cam.pos.x, 1_411_762);
}
