use rastr::clip::{
    subdivide_partial_oob_triangles, EmptyAttributes, LinearInterpolation, Triangle,
    VertexAttributes,
};
use rastr::fx::FX_ONE;
use rastr::math::{Float2, Float3, Float4};

fn inside_vertex(x: i64, y: i64) -> Float4 {
    // w < 0 and z + w < 0: safely inside the near half-space
    Float4::new(x, y, -2 * FX_ONE, -4 * FX_ONE)
}

fn outside_vertex(x: i64, y: i64) -> Float4 {
    // w >= 0: outside
    Float4::new(x, y, 2 * FX_ONE, 4 * FX_ONE)
}

fn empty_tri(v0: Float4, v1: Float4, v2: Float4) -> Triangle<EmptyAttributes> {
    Triangle::new([v0, v1, v2], [EmptyAttributes(()), EmptyAttributes(()), EmptyAttributes(())])
}

#[test]
fn clip_keeps_inside_triangle_unchanged() {
    let t = empty_tri(
        inside_vertex(FX_ONE, 0),
        inside_vertex(0, FX_ONE),
        inside_vertex(-FX_ONE, 0),
    );
    let r = subdivide_partial_oob_triangles(t);
    assert_eq!(r.len(), 1);
    assert_eq!(r[0].vertices, t.vertices);
}

#[test]
fn clip_discards_outside_triangle() {
    let t = empty_tri(
        outside_vertex(FX_ONE, 0),
        outside_vertex(0, FX_ONE),
        outside_vertex(-FX_ONE, 0),
    );
    let r = subdivide_partial_oob_triangles(t);
    assert_eq!(r.len(), 0);
}

#[test]
fn clip_one_outside_gives_two_triangles_on_the_plane() {
    let vc = outside_vertex(0, 0);
    let va = inside_vertex(FX_ONE, 0);
    let vb = inside_vertex(0, FX_ONE);
    let t = empty_tri(vc, va, vb);
    let r = subdivide_partial_oob_triangles(t);
    assert_eq!(r.len(), 2);
    // the kept vertices of the quadrilateral carry over
    assert_eq!(r[0].vertices[2], vb);
    assert_eq!(r[1].vertices[1], va);
    assert_eq!(r[1].vertices[2], vb);
    // the two new vertices lie on the near plane, z + w = 0, to within the
    // interpolation's truncation
    for v in [r[0].vertices[0], r[0].vertices[1], r[1].vertices[0]] {
        assert!((v.z + v.w).abs() <= 8, "off plane by {}", v.z + v.w);
    }
}

#[test]
fn clip_two_outside_gives_one_triangle() {
    let vk = inside_vertex(0, 0);
    let va = outside_vertex(FX_ONE, 0);
    let vb = outside_vertex(0, FX_ONE);
    let t = empty_tri(vk, va, vb);
    let r = subdivide_partial_oob_triangles(t);
    assert_eq!(r.len(), 1);
    assert_eq!(r[0].vertices[1], vk);
    for v in [r[0].vertices[0], r[0].vertices[2]] {
        assert!((v.z + v.w).abs() <= 8, "off plane by {}", v.z + v.w);
    }
}

#[test]
fn clip_interpolates_attributes_with_vertices() {
    let vc = outside_vertex(0, 0);
    let va = inside_vertex(FX_ONE, 0);
    let vb = inside_vertex(0, FX_ONE);
    let mk = |u: i64| VertexAttributes::new(
        Float3::new(u, 0, 0),
        Float4::zeros(),
        Float2::new(u, u),
        Float3::unit_y(),
    );
    let t = Triangle::new([vc, va, vb], [mk(0), mk(FX_ONE), mk(2 * FX_ONE)]);
    let r = subdivide_partial_oob_triangles(t);
    assert_eq!(r.len(), 2);
    // the clip fraction from vc toward va is (w+z)/((w+z)-(w'+z')):
    // (4+2)/((4+2)-(-4-2)) = 1/2, so the new attribute bundle along that
    // edge is the midpoint
    let attrs_a = r[1].vertex_attributes[0];
    assert_eq!(attrs_a.uv, Float2::new(FX_ONE / 2, FX_ONE / 2));
    assert_eq!(attrs_a.vertex, Float3::new(FX_ONE / 2, 0, 0));
    // kept vertices keep their bundles
    assert_eq!(r[1].vertex_attributes[1].uv, Float2::new(FX_ONE, FX_ONE));
}

#[test]
fn perspective_interpolation_is_depth_weighted() {
    // vertices at depths w = 1, 2, 4 with texture coordinates at the corners
    let v0 = Float4::new(0, 0, 0, FX_ONE);
    let v1 = Float4::new(0, 0, 0, 2 * FX_ONE);
    let v2 = Float4::new(0, 0, 0, 4 * FX_ONE);
    let mk = |u: i64, v: i64| VertexAttributes::new(
        Float3::zeros(),
        Float4::zeros(),
        Float2::new(u, v),
        Float3::zeros(),
    );
    let t = Triangle::new([v0, v1, v2], [mk(0, 0), mk(FX_ONE, 0), mk(0, FX_ONE)]);
    // equal screen-space barycentric weights of one third
    let weights = Float3::new(21845, 21845, 21845);
    let inverse_ws = Float3::new(
        rastr::fx::fx_div(FX_ONE, v0.w),
        rastr::fx::fx_div(FX_ONE, v1.w),
        rastr::fx::fx_div(FX_ONE, v2.w),
    );
    assert_eq!(inverse_ws, Float3::new(65536, 32768, 16384));
    let w = rastr::fx::fx_div(FX_ONE, inverse_ws.dot(weights));
    let attrs = t.perspective_interpolation(inverse_ws, w, weights);
    // the reciprocal-depth weighting: u = (1/2)/(1 + 1/2 + 1/4) = 2/7 and
    // v = (1/4)/(7/4) = 1/7, not the screen-linear one third
    assert_eq!(attrs.uv.x, 18724);
    assert_eq!(attrs.uv.y, 9362);
    assert!(attrs.uv.x != 21845);
    assert!((attrs.uv.x as f64 / 65536.0 - 2.0 / 7.0).abs() < 0.001);
    assert!((attrs.uv.y as f64 / 65536.0 - 1.0 / 7.0).abs() < 0.001);
}

#[test]
fn empty_attributes_are_inert() {
    let e = EmptyAttributes(());
    let f = e.lerp(&EmptyAttributes(()), FX_ONE / 2);
    let g = f.add(&e).scale(3 * FX_ONE);
    let _ = g;
}
