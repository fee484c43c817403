use rastr::fx::FX_ONE;
use rastr::math::{Float3, Float4};
use rastr::transform::Transform;

fn f3(x: f64, y: f64, z: f64) -> Float3 {
    Float3::new((x * 65536.0) as i64, (y * 65536.0) as i64, (z * 65536.0) as i64)
}

#[test]
fn round_trip_exact_for_translation() {
    // with zero rotation and unit scale the round trip is exact, as the
    // library proves
    let t = Transform::new(0, 0, 0, f3(5.0, -3.0, 12.0), Float3::ones());
    let p = Float4::from_point(f3(1.25, -2.5, 7.0));
    assert_eq!(t.to_local_point(t.to_world_point(p)), p);
}

#[test]
fn round_trip_exact_for_mirrored_unit_scale() {
    // negating scale axes keeps the arithmetic exact, as the library proves
    let t = Transform::new(
        0,
        0,
        0,
        f3(5.0, -3.0, 12.0),
        Float3::new(-FX_ONE, FX_ONE, -FX_ONE),
    );
    let p = Float4::from_point(f3(1.25, -2.5, 7.0));
    assert_eq!(t.to_local_point(t.to_world_point(p)), p);
}

#[test]
fn round_trip_close_under_rotation_and_scale() {
    // with a rotation and a non-unit scale the reciprocal and the products
    // round; the round trip returns to within a small tolerance
    let t = Transform::new(
        FX_ONE / 2,
        -FX_ONE / 4,
        FX_ONE / 8,
        f3(1.0, 2.0, 3.0),
        f3(2.0, 3.0, 0.5),
    );
    let p = Float4::from_point(f3(4.0, -1.0, 2.0));
    let q = t.to_local_point(t.to_world_point(p));
    let tol = 2048;
    assert!((q.x - p.x).abs() < tol, "x: {} vs {}", q.x, p.x);
    assert!((q.y - p.y).abs() < tol, "y: {} vs {}", q.y, p.y);
    assert!((q.z - p.z).abs() < tol, "z: {} vs {}", q.z, p.z);
    assert!((q.w - p.w).abs() < tol, "w: {} vs {}", q.w, p.w);
}

#[test]
fn world_matrix_moves_origin_to_position() {
    let t = Transform::new(FX_ONE / 3, FX_ONE / 5, 0, f3(7.0, 8.0, 9.0), Float3::ones());
    let origin = Float4::from_point(Float3::zeros());
    let q = t.to_world_point(origin);
    assert_eq!(q.xyz(), f3(7.0, 8.0, 9.0));
    assert_eq!(q.w, FX_ONE);
}

#[test]
fn from_vectors_looks_along_axis() {
    // looking from +z toward the origin gives zero yaw, pitch, and roll
    let t = Transform::from_vectors(
        Float3::zeros(),
        Float3::unit_y(),
        f3(0.0, 0.0, 5.0),
        Float3::ones(),
    );
    assert_eq!(t.yaw, 0);
    assert_eq!(t.pitch, 0);
    assert_eq!(t.roll, 0);
    assert_eq!(t.position, f3(0.0, 0.0, 5.0));
}

#[test]
fn basis_vectors_of_identity_rotation() {
    let t = Transform::new(0, 0, 0, Float3::zeros(), Float3::ones());
    let (right, up, fwd) = t.get_basis_vectors();
    assert_eq!(right, Float3::unit_x());
    assert_eq!(up, Float3::unit_y());
    assert_eq!(fwd, Float3::unit_z());
}
