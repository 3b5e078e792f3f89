use cube_viewer::camera::Camera;
use cube_viewer::linalg::{Mat4Bits, QuatBits};
use glam::{Mat4, Quat, Vec3, Vec4};

fn quat_of(q: &QuatBits) -> Quat {
    Quat::from_xyzw(
        f32::from_bits(q.x),
        f32::from_bits(q.y),
        f32::from_bits(q.z),
        f32::from_bits(q.w),
    )
}

fn quat_bits(q: Quat) -> (u32, u32, u32, u32) {
    (
        q.x.to_bits(),
        q.y.to_bits(),
        q.z.to_bits(),
        q.w.to_bits(),
    )
}

fn mat_of(m: &Mat4Bits) -> Mat4 {
    let mut cols = [0.0f32; 16];
    for (dst, src) in cols.iter_mut().zip(m.entries.iter()) {
        *dst = f32::from_bits(*src);
    }
    Mat4::from_cols_array(&cols)
}

#[test]
fn default_camera_matches_reference() {
    let c = Camera::default();
    assert_eq!(f32::from_bits(c.position.x), 0.0);
    assert_eq!(f32::from_bits(c.position.y), 0.0);
    assert_eq!(f32::from_bits(c.position.z), 5.0);
    assert_eq!(quat_of(&c.rotation), Quat::IDENTITY);
    assert_eq!(c.fov, 45.0f32.to_radians().to_bits());
    assert_eq!(f32::from_bits(c.aspect), 1.0);
    assert_eq!(f32::from_bits(c.near), 0.1);
    assert_eq!(f32::from_bits(c.far), 100.0);
}

#[test]
fn pointer_delta_composes_yaw_pitch_rotation() {
    let mut c = Camera::default();
    c.apply_pointer_delta(3.0f32.to_bits(), (-2.0f32).to_bits(), 0.01f32.to_bits());
    c.apply_pointer_delta(1.5f32.to_bits(), 0.25f32.to_bits(), 0.01f32.to_bits());

    let mut expected = Quat::IDENTITY;
    for (dx, dy) in [(3.0f32, -2.0f32), (1.5, 0.25)] {
        let yaw = Quat::from_axis_angle(Vec3::Y, dx * 0.01f32);
        let pitch = Quat::from_axis_angle(Vec3::X, dy * 0.01f32);
        expected = (yaw * pitch) * expected;
    }
    assert_eq!(
        (c.rotation.x, c.rotation.y, c.rotation.z, c.rotation.w),
        quat_bits(expected)
    );
}

#[test]
fn rotation_stays_unit_norm_over_delta_sequences() {
    let mut c = Camera::default();
    let deltas = [
        (12.0f32, -7.0f32),
        (100.0, 40.0),
        (-55.5, 13.25),
        (0.0, 90.0),
        (360.0, -360.0),
        (1e3, 1e3),
        (-0.125, 0.0625),
        (42.0, -42.0),
    ];
    for (dx, dy) in deltas {
        c.apply_pointer_delta(dx.to_bits(), dy.to_bits(), 0.01f32.to_bits());
        let len = quat_of(&c.rotation).length();
        assert!((len - 1.0).abs() < 1e-4, "norm drifted to {}", len);
    }
}

#[test]
fn resize_updates_aspect_ratio() {
    let mut c = Camera::default();
    c.apply_resize(800, 600);
    assert_eq!(f32::from_bits(c.aspect), 800.0f32 / 600.0f32);
    let before = c;
    c.apply_resize(800, 600);
    assert_eq!(c, before);
}

#[test]
fn zero_area_resize_leaves_camera_untouched() {
    let mut c = Camera::default();
    c.apply_resize(1024, 768);
    let before = c;
    c.apply_resize(800, 0);
    assert_eq!(c, before);
    c.apply_resize(0, 600);
    assert_eq!(c, before);
    c.apply_resize(0, 0);
    assert_eq!(c, before);
}

#[test]
fn view_matrix_matches_reference_formula() {
    let c = Camera::default();
    let expected = Mat4::from_translation(-Vec3::new(0.0, 0.0, 5.0)) * Mat4::from_quat(Quat::IDENTITY);
    assert_eq!(
        mat_of(&c.view_matrix()).to_cols_array(),
        expected.to_cols_array()
    );
}

#[test]
fn projection_matrix_matches_reference_formula() {
    let c = Camera::default();
    let expected = Mat4::perspective_rh(45.0f32.to_radians(), 1.0, 0.1, 100.0);
    assert_eq!(
        mat_of(&c.projection_matrix()).to_cols_array(),
        expected.to_cols_array()
    );
}

#[test]
fn resting_view_proj_maps_cube_into_clip_range() {
    let c = Camera::default();
    let view_proj = mat_of(&c.view_proj_matrix());
    for v in cube_viewer::geometry::create_cube_vertices() {
        let world = Vec4::new(
            v.position[0] as f32,
            v.position[1] as f32,
            v.position[2] as f32,
            1.0,
        );
        let clip = view_proj * world;
        assert!(clip.w > 0.0, "vertex behind the camera");
        let ndc_x = clip.x / clip.w;
        let ndc_y = clip.y / clip.w;
        assert!((-1.0..=1.0).contains(&ndc_x), "x out of clip range: {}", ndc_x);
        assert!((-1.0..=1.0).contains(&ndc_y), "y out of clip range: {}", ndc_y);
    }
}

#[test]
fn yaw_delta_rotates_front_centroid_on_screen() {
    let mut c = Camera::default();
    let before = mat_of(&c.view_proj_matrix());

    c.apply_pointer_delta(100.0f32.to_bits(), 0.0f32.to_bits(), 0.01f32.to_bits());

    // dx * sensitivity rounds to exactly 1.0, so the new rotation is exactly
    // one radian of yaw about world up, with pitch untouched.
    let expected = Quat::from_axis_angle(Vec3::Y, 1.0);
    assert_eq!(
        (c.rotation.x, c.rotation.y, c.rotation.z, c.rotation.w),
        quat_bits(expected)
    );
    assert_eq!(c.rotation.x, 0.0f32.to_bits());
    assert_eq!(c.rotation.z, 0.0f32.to_bits());

    let after = mat_of(&c.view_proj_matrix());
    let centroid = Vec4::new(0.0, 0.0, 1.0, 1.0); // front face centre
    let b = before * centroid;
    let a = after * centroid;
    let bx = b.x / b.w;
    let ax = a.x / a.w;
    assert!(
        (ax - bx).abs() > 1e-3,
        "screen x did not move: {} vs {}",
        bx,
        ax
    );
}
