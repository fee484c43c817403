use rastr::fx::FX_ONE;
use rastr::math::{
    barycentric_coords, double_signed_area, point_in_triangle, signed_triangle_area, Float2,
    Float3, Float4, Float4x4,
};

fn f2(x: f64, y: f64) -> Float2 {
    Float2::new((x * 65536.0) as i64, (y * 65536.0) as i64)
}

fn f3(x: f64, y: f64, z: f64) -> Float3 {
    Float3::new((x * 65536.0) as i64, (y * 65536.0) as i64, (z * 65536.0) as i64)
}

#[test]
fn dot_and_cross() {
    let a = f3(1.0, 2.0, 3.0);
    let b = f3(4.0, -5.0, 6.0);
    assert_eq!(a.dot(b), (4.0 - 10.0 + 18.0) as i64 * FX_ONE);
    let c = Float3::unit_x().cross(Float3::unit_y());
    assert_eq!(c, Float3::unit_z());
}

#[test]
fn norm_and_normalized() {
    let v = f3(3.0, 4.0, 0.0);
    assert_eq!(v.norm(), 5 * FX_ONE);
    let n = v.normalized();
    assert_eq!(n, Float3::new(39321, 52428, 0));
    assert_eq!(Float3::zeros().normalized(), Float3::zeros());
}

#[test]
fn vector4_point_and_direction() {
    let p = Float4::from_point(f3(1.0, 2.0, 3.0));
    assert_eq!(p.w, FX_ONE);
    let d = Float4::from_vector(f3(1.0, 2.0, 3.0));
    assert_eq!(d.w, 0);
    assert_eq!(p.xyz(), f3(1.0, 2.0, 3.0));
}

#[test]
fn matrix_identity_and_translation() {
    let p = Float4::from_point(f3(1.0, 2.0, 3.0));
    assert_eq!(Float4x4::eye().mul_vec(&p), p);
    let t = Float4x4::translation(f3(10.0, 0.0, -1.0));
    let q = t.mul_vec(&p);
    assert_eq!(q.xyz(), f3(11.0, 2.0, 2.0));
    assert_eq!(q.w, FX_ONE);
    // a direction is unmoved by translation
    let d = Float4::from_vector(f3(1.0, 2.0, 3.0));
    assert_eq!(t.mul_vec(&d).xyz(), f3(1.0, 2.0, 3.0));
}

#[test]
fn matrix_scaling_and_product() {
    let s = Float4x4::scaling(f3(2.0, 3.0, 4.0));
    let p = Float4::from_point(f3(1.0, 1.0, 1.0));
    assert_eq!(s.mul_vec(&p).xyz(), f3(2.0, 3.0, 4.0));
    // composing translation after scaling scales first
    let t = Float4x4::translation(f3(1.0, 0.0, 0.0));
    let m = t.mul(&s);
    assert_eq!(m.mul_vec(&p).xyz(), f3(3.0, 3.0, 4.0));
}

#[test]
fn matrix_transpose_involution() {
    let m = Float4x4::new(
        Float4::new(1, 2, 3, 4),
        Float4::new(5, 6, 7, 8),
        Float4::new(9, 10, 11, 12),
        Float4::new(13, 14, 15, 16),
    );
    assert_eq!(m.transpose().transpose(), m);
    assert_eq!(m.transpose().r1, Float4::new(1, 5, 9, 13));
}

#[test]
fn rotation_quarter_turn() {
    // a quarter turn about y carries +x close to -z
    let r = Float4x4::rotation_y(102944);
    let v = r.mul_vec(&Float4::from_vector(Float3::unit_x()));
    assert!(v.x.abs() < 64);
    assert!((v.z - -FX_ONE).abs() < 64);
}

#[test]
fn signed_area_orientation() {
    let a = f2(0.0, 10.0);
    let b = f2(10.0, 10.0);
    let c = f2(10.0, 0.0);
    // clockwise in screen space, where y grows downward: positive
    assert!(double_signed_area(a, b, c) > 0);
    assert!(double_signed_area(a, c, b) < 0);
    assert_eq!(double_signed_area(a, b, c), -double_signed_area(a, c, b));
    // the fixed-point area of this right triangle is fifty
    assert_eq!(signed_triangle_area(a, b, c), 50 * FX_ONE);
}

#[test]
fn backface_cull_picks_exactly_one_winding() {
    let a = f2(3.0, 1.0);
    let b = f2(9.0, 4.0);
    let c = f2(2.0, 8.0);
    let fwd = double_signed_area(a, b, c) > 0;
    let rev = double_signed_area(a, c, b) > 0;
    assert!(fwd != rev);
}

#[test]
fn point_in_triangle_coverage() {
    let a = f2(0.0, 0.0);
    let b = f2(8.0, 0.0);
    let c = f2(0.0, 8.0);
    // orientation: a -> b -> c is clockwise in y-down screen space?
    // (8,0) then (0,8): double area = (0-0)*(0-0) - (8-0)*(8-0) < 0,
    // so take the other winding for coverage
    let inside = point_in_triangle(a, c, b, f2(1.0, 1.0));
    assert!(inside.is_some());
    let w = inside.unwrap();
    assert!(w.x >= 0 && w.x <= FX_ONE);
    assert!(w.y >= 0 && w.y <= FX_ONE);
    assert!(w.z >= 0 && w.z <= FX_ONE);
    // the weights of the three vertex areas sum to one up to truncation
    let sum = w.x + w.y + w.z;
    assert!((sum - FX_ONE).abs() <= 3);
    assert!(point_in_triangle(a, c, b, f2(7.0, 7.0)).is_none());
}

#[test]
fn point_in_triangle_vertex_weight() {
    let a = f2(0.0, 0.0);
    let b = f2(0.0, 8.0);
    let c = f2(8.0, 0.0);
    // at vertex a the weight of a is one
    let w = point_in_triangle(a, b, c, a);
    // a lies on two edges; areas abp and cap are zero, bcp is the total
    assert_eq!(w.unwrap(), Float3::new(FX_ONE, 0, 0));
}

#[test]
fn barycentric_coords_of_midpoint() {
    let a = f2(0.0, 0.0);
    let b = f2(4.0, 0.0);
    let c = f2(0.0, 4.0);
    let w = barycentric_coords(a, b, c, f2(2.0, 2.0)).unwrap();
    // the midpoint of edge bc has no share of a
    assert!(w.x.abs() <= 3);
    assert!((w.y - FX_ONE / 2).abs() <= 3);
    assert!((w.z - FX_ONE / 2).abs() <= 3);
    // degenerate triangle: no coordinates
    assert!(barycentric_coords(a, a, a, f2(1.0, 1.0)).is_none());
}

#[test]
fn rotate_scale_translate_at_zero_angles_is_scale_then_translate() {
    let m = Float4x4::rotate_scale_translate(0, 0, 0, f3(1.0, -2.0, 3.0), f3(2.0, 3.0, 4.0));
    let p = Float4::from_point(f3(1.0, 1.0, 1.0));
    assert_eq!(m.mul_vec(&p).xyz(), f3(3.0, 1.0, 7.0));
    assert_eq!(m.mul_vec(&p).w, FX_ONE);
}

#[test]
fn transform_from_basis_scales_columns() {
    let m = Float4x4::transform(
        Float3::unit_x(),
        Float3::unit_y(),
        Float3::unit_z(),
        f3(1.0, 2.0, 3.0),
        f3(2.0, 2.0, 2.0),
    );
    let p = Float4::from_point(f3(1.0, 1.0, 1.0));
    assert_eq!(m.mul_vec(&p).xyz(), f3(3.0, 4.0, 5.0));
}
