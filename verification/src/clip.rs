//! Near-plane clipping of clip-space triangles, with interpolation of an
//! arbitrary bundle of per-vertex attributes.
//!
//! A clip-space vertex is kept as it stands only when `w < 0` and
//! `z + w < 0` (the camera looks down its negative z axis, so visible points
//! have negative `w`); otherwise it lies outside the near half-space. A
//! triangle with no outside vertex passes unchanged; with all three outside
//! it is discarded; with one outside it is subdivided into two triangles;
//! with two outside into one.

use vstd::prelude::*;
use crate::fx::{spec_add, spec_sub, spec_div, spec_mul, fx_add, fx_sub, fx_div, fx_mul};
use crate::math::{
    Float2, Float3, Float4, spec_f2_add, spec_f2_scale, spec_f2_lerp, spec_f3_add, spec_f3_scale,
    spec_f3_lerp, spec_f4_add, spec_f4_scale, spec_f4_lerp,
};

verus! {

/// A bundle of per-vertex values that the clipper and the rasterizer can
/// combine affinely: interpolate along an edge, add, and scale. Each
/// executable operation is pinned to a spec-level mirror, so clipping and
/// perspective-correct interpolation have exact contracts for every bundle.
pub trait LinearInterpolation: Sized + Copy {
    /// The value of `lerp` at spec level.
    spec fn lerp_spec(self, other: Self, t: i64) -> Self;

    /// The value of `add` at spec level.
    spec fn add_spec(self, other: Self) -> Self;

    /// The value of `scale` at spec level.
    spec fn scale_spec(self, s: i64) -> Self;

    /// Linear interpolation `self + t * (other - self)`, fieldwise.
    fn lerp(&self, other: &Self, t: i64) -> (r: Self)
        ensures
            r == self.lerp_spec(*other, t),
    ;

    /// Fieldwise sum.
    fn add(&self, other: &Self) -> (r: Self)
        ensures
            r == self.add_spec(*other),
    ;

    /// Fieldwise multiplication by a scalar.
    fn scale(&self, s: i64) -> (r: Self)
        ensures
            r == self.scale_spec(s),
    ;
}

/// The empty attribute bundle, used by the shadow pass, where only depth is
/// rasterized.
#[derive(Clone, Copy, Debug)]
pub struct EmptyAttributes(pub ());

impl LinearInterpolation for EmptyAttributes {
    open spec fn lerp_spec(self, other: Self, t: i64) -> Self {
        EmptyAttributes(())
    }

    open spec fn add_spec(self, other: Self) -> Self {
        EmptyAttributes(())
    }

    open spec fn scale_spec(self, s: i64) -> Self {
        EmptyAttributes(())
    }

    fn lerp(&self, other: &Self, t: i64) -> (r: Self) {
        EmptyAttributes(())
    }

    fn add(&self, other: &Self) -> (r: Self) {
        EmptyAttributes(())
    }

    fn scale(&self, s: i64) -> (r: Self) {
        EmptyAttributes(())
    }
}

/// The attribute bundle of the color pass: world position, homogeneous
/// light-space position (kept undivided for perspective-correct shadow
/// lookups), texture coordinates, and world normal.
#[derive(Clone, Copy, Debug)]
pub struct VertexAttributes {
    /// Position in world space.
    pub vertex: Float3,
    /// Homogeneous position in the light's clip space.
    pub light_vertex: Float4,
    /// Texture coordinates.
    pub uv: Float2,
    /// Normal in world space.
    pub normal: Float3,
}

impl VertexAttributes {
    /// Build a bundle from its fields.
    pub fn new(vertex: Float3, light_vertex: Float4, uv: Float2, normal: Float3) -> (r:
        VertexAttributes)
        ensures
            r == (VertexAttributes { vertex, light_vertex, uv, normal }),
    {
        VertexAttributes { vertex, light_vertex, uv, normal }
    }
}

impl LinearInterpolation for VertexAttributes {
    open spec fn lerp_spec(self, other: Self, t: i64) -> Self {
        VertexAttributes {
            vertex: spec_f3_lerp(self.vertex, other.vertex, t as int),
            light_vertex: spec_f4_lerp(self.light_vertex, other.light_vertex, t as int),
            uv: spec_f2_lerp(self.uv, other.uv, t as int),
            normal: spec_f3_lerp(self.normal, other.normal, t as int),
        }
    }

    open spec fn add_spec(self, other: Self) -> Self {
        VertexAttributes {
            vertex: spec_f3_add(self.vertex, other.vertex),
            light_vertex: spec_f4_add(self.light_vertex, other.light_vertex),
            uv: spec_f2_add(self.uv, other.uv),
            normal: spec_f3_add(self.normal, other.normal),
        }
    }

    open spec fn scale_spec(self, s: i64) -> Self {
        VertexAttributes {
            vertex: spec_f3_scale(self.vertex, s as int),
            light_vertex: spec_f4_scale(self.light_vertex, s as int),
            uv: spec_f2_scale(self.uv, s as int),
            normal: spec_f3_scale(self.normal, s as int),
        }
    }

    fn lerp(&self, other: &Self, t: i64) -> (r: Self) {
        VertexAttributes {
            vertex: self.vertex.lerp(other.vertex, t),
            light_vertex: self.light_vertex.lerp(&other.light_vertex, t),
            uv: self.uv.lerp(other.uv, t),
            normal: self.normal.lerp(other.normal, t),
        }
    }

    fn add(&self, other: &Self) -> (r: Self) {
        VertexAttributes {
            vertex: self.vertex.add(other.vertex),
            light_vertex: self.light_vertex.add(other.light_vertex),
            uv: self.uv.add(other.uv),
            normal: self.normal.add(other.normal),
        }
    }

    fn scale(&self, s: i64) -> (r: Self) {
        VertexAttributes {
            vertex: self.vertex.scale(s),
            light_vertex: self.light_vertex.scale(s),
            uv: self.uv.scale(s),
            normal: self.normal.scale(s),
        }
    }
}

/// A clip-space triangle: three homogeneous vertices and their attribute
/// bundles.
#[derive(Clone, Copy, Debug)]
pub struct Triangle<T: LinearInterpolation> {
    /// The three vertices in clip space.
    pub vertices: [Float4; 3],
    /// The attribute bundle at each vertex.
    pub vertex_attributes: [T; 3],
}

impl<T: LinearInterpolation> Triangle<T> {
    /// Build a triangle from its vertices and attributes.
    pub fn new(vertices: [Float4; 3], vertex_attributes: [T; 3]) -> (r: Triangle<T>)
        ensures
            r.vertices == vertices,
            r.vertex_attributes == vertex_attributes,
    {
        Triangle { vertices, vertex_attributes }
    }

    /// Perspective-correct interpolation at a covered pixel: each vertex's
    /// attributes are weighted by its barycentric weight times its reciprocal
    /// depth, summed, and rescaled by the interpolated depth `w`.
    pub fn perspective_interpolation(&self, inverse_ws: Float3, w: i64, weights: Float3) -> (r: T)
        ensures
            r == spec_perspective_interpolation(*self, inverse_ws, w, weights),
    {
        let a0: T = self.vertex_attributes[0].scale(fx_mul(inverse_ws.x, weights.x));
        let a1: T = self.vertex_attributes[1].scale(fx_mul(inverse_ws.y, weights.y));
        let a2: T = self.vertex_attributes[2].scale(fx_mul(inverse_ws.z, weights.z));
        a0.add(&a1).add(&a2).scale(w)
    }
}

/// The perspective-correct interpolation of a triangle's attributes, at spec
/// level.
pub open spec fn spec_perspective_interpolation<T: LinearInterpolation>(
    t: Triangle<T>,
    inverse_ws: Float3,
    w: i64,
    weights: Float3,
) -> T {
    let a0 = t.vertex_attributes[0].scale_spec(
        spec_mul(inverse_ws.x as int, weights.x as int) as i64,
    );
    let a1 = t.vertex_attributes[1].scale_spec(
        spec_mul(inverse_ws.y as int, weights.y as int) as i64,
    );
    let a2 = t.vertex_attributes[2].scale_spec(
        spec_mul(inverse_ws.z as int, weights.z as int) as i64,
    );
    a0.add_spec(a1).add_spec(a2).scale_spec(w)
}

/// Whether a clip-space vertex lies outside the near half-space and must be
/// clipped: it is kept as it stands only when `w < 0` and `z + w < 0`.
pub open spec fn spec_near_outside(v: Float4) -> bool {
    v.w >= 0 || spec_add(v.z as int, v.w as int) >= 0
}

/// The number of vertices of a triangle that lie outside the near
/// half-space.
pub open spec fn spec_clip_count<T: LinearInterpolation>(t: Triangle<T>) -> int {
    (if spec_near_outside(t.vertices[0]) { 1int } else { 0int })
        + (if spec_near_outside(t.vertices[1]) { 1int } else { 0int })
        + (if spec_near_outside(t.vertices[2]) { 1int } else { 0int })
}

/// The fraction along the edge from `vc` to `vo` at which the interpolated
/// depth meets the near plane: `(w + z) / ((w + z) - (w' + z'))`.
pub open spec fn spec_near_frac(vc: Float4, vo: Float4) -> i64 {
    spec_div(
        spec_add(vc.w as int, vc.z as int),
        spec_sub(spec_add(vc.w as int, vc.z as int), spec_add(vo.w as int, vo.z as int)),
    ) as i64
}

/// Whether a triangle equals the given vertices and attributes, elementwise.
pub open spec fn spec_tri_is<T: LinearInterpolation>(
    t: Triangle<T>,
    v0: Float4,
    v1: Float4,
    v2: Float4,
    a0: T,
    a1: T,
    a2: T,
) -> bool {
    t.vertices[0] == v0 && t.vertices[1] == v1 && t.vertices[2] == v2 && t.vertex_attributes[0]
        == a0 && t.vertex_attributes[1] == a1 && t.vertex_attributes[2] == a2
}

/// The index of the first outside vertex of a triangle with at least one.
pub open spec fn spec_first_outside<T: LinearInterpolation>(t: Triangle<T>) -> int {
    if spec_near_outside(t.vertices[0]) {
        0int
    } else if spec_near_outside(t.vertices[1]) {
        1int
    } else {
        2int
    }
}

/// The index of the first kept vertex of a triangle with at least one.
pub open spec fn spec_first_kept<T: LinearInterpolation>(t: Triangle<T>) -> int {
    if !spec_near_outside(t.vertices[0]) {
        0int
    } else if !spec_near_outside(t.vertices[1]) {
        1int
    } else {
        2int
    }
}

/// The vertex after `i`, cyclically.
pub open spec fn spec_idx_next(i: int) -> int {
    if i == 2 {
        0int
    } else {
        i + 1
    }
}

/// The vertex before `i`, cyclically.
pub open spec fn spec_idx_prev(i: int) -> int {
    if i == 0 {
        2int
    } else {
        i - 1
    }
}

/// What clipping one triangle yields: with no outside vertex, the triangle
/// itself; with all three outside, nothing; with exactly one outside, that
/// vertex is cut away and the kept quadrilateral comes back as two triangles
/// whose new vertices lie at the near-plane fractions along the two cut
/// edges; with two outside, the kept vertex anchors the one remaining
/// triangle.
pub open spec fn spec_clip_output<T: LinearInterpolation>(
    triangle: Triangle<T>,
    r: Seq<Triangle<T>>,
) -> bool {
    &&& (spec_clip_count(triangle) == 0 ==> r.len() == 1 && r[0] == triangle)
    &&& (spec_clip_count(triangle) == 3 ==> r.len() == 0)
    &&& (spec_clip_count(triangle) == 1 ==> {
        let i = spec_first_outside(triangle);
        let n = spec_idx_next(i);
        let p = spec_idx_prev(i);
        let vc = triangle.vertices[i];
        let va = triangle.vertices[n];
        let vb = triangle.vertices[p];
        let fa = spec_near_frac(vc, va);
        let fb = spec_near_frac(vc, vb);
        let ca = spec_f4_lerp(vc, va, fa as int);
        let cb = spec_f4_lerp(vc, vb, fb as int);
        let ac = triangle.vertex_attributes[i];
        let aa = triangle.vertex_attributes[n];
        let ab = triangle.vertex_attributes[p];
        r.len() == 2 && spec_tri_is(
            r[0],
            cb,
            ca,
            vb,
            ac.lerp_spec(ab, fb),
            ac.lerp_spec(aa, fa),
            ab,
        ) && spec_tri_is(r[1], ca, va, vb, ac.lerp_spec(aa, fa), aa, ab)
    })
    &&& (spec_clip_count(triangle) == 2 ==> {
        let i = spec_first_kept(triangle);
        let n = spec_idx_next(i);
        let p = spec_idx_prev(i);
        let vk = triangle.vertices[i];
        let va = triangle.vertices[n];
        let vb = triangle.vertices[p];
        let fa = spec_near_frac(vk, va);
        let fb = spec_near_frac(vk, vb);
        let ca = spec_f4_lerp(vk, va, fa as int);
        let cb = spec_f4_lerp(vk, vb, fb as int);
        let ak = triangle.vertex_attributes[i];
        let aa = triangle.vertex_attributes[n];
        let ab = triangle.vertex_attributes[p];
        r.len() == 1 && spec_tri_is(
            r[0],
            cb,
            vk,
            ca,
            ak.lerp_spec(ab, fb),
            ak,
            ak.lerp_spec(aa, fa),
        )
    })
}

/// Clip a triangle against the near plane; [`spec_clip_output`] states the
/// result of every case exactly.
#[verifier::rlimit(100)]
#[verifier::spinoff_prover]
pub fn subdivide_partial_oob_triangles<T: LinearInterpolation>(triangle: Triangle<T>) -> (r: Vec<
    Triangle<T>,
>)
    ensures
        spec_clip_output(triangle, r@),
{
    let v0: Float4 = triangle.vertices[0];
    let v1: Float4 = triangle.vertices[1];
    let v2: Float4 = triangle.vertices[2];
    let out_0: bool = v0.w >= 0 || fx_add(v0.z, v0.w) >= 0;
    let out_1: bool = v1.w >= 0 || fx_add(v1.z, v1.w) >= 0;
    let out_2: bool = v2.w >= 0 || fx_add(v2.z, v2.w) >= 0;
    let count: u8 = (if out_0 { 1u8 } else { 0u8 }) + (if out_1 { 1u8 } else { 0u8 }) + (if out_2 {
        1u8
    } else {
        0u8
    });

    if count == 0 {
        let mut r: Vec<Triangle<T>> = Vec::new();
        r.push(triangle);
        r
    } else if count == 1 {
        let (ic, ia, ib): (usize, usize, usize) = if out_0 {
            (0, 1, 2)
        } else if out_1 {
            (1, 2, 0)
        } else {
            (2, 0, 1)
        };
        let vc: Float4 = triangle.vertices[ic];
        let va: Float4 = triangle.vertices[ia];
        let vb: Float4 = triangle.vertices[ib];
        let fa: i64 = near_frac(vc, va);
        let fb: i64 = near_frac(vc, vb);
        let ca: Float4 = vc.lerp(&va, fa);
        let cb: Float4 = vc.lerp(&vb, fb);
        let ac: T = triangle.vertex_attributes[ic];
        let aa: T = triangle.vertex_attributes[ia];
        let ab: T = triangle.vertex_attributes[ib];
        let attrs_a: T = ac.lerp(&aa, fa);
        let attrs_b: T = ac.lerp(&ab, fb);
        let mut r: Vec<Triangle<T>> = Vec::new();
        r.push(Triangle { vertices: [cb, ca, vb], vertex_attributes: [attrs_b, attrs_a, ab] });
        r.push(Triangle { vertices: [ca, va, vb], vertex_attributes: [attrs_a, aa, ab] });
        r
    } else if count == 2 {
        let (ik, ia, ib): (usize, usize, usize) = if !out_0 {
            (0, 1, 2)
        } else if !out_1 {
            (1, 2, 0)
        } else {
            (2, 0, 1)
        };
        let vk: Float4 = triangle.vertices[ik];
        let va: Float4 = triangle.vertices[ia];
        let vb: Float4 = triangle.vertices[ib];
        let fa: i64 = near_frac(vk, va);
        let fb: i64 = near_frac(vk, vb);
        let ca: Float4 = vk.lerp(&va, fa);
        let cb: Float4 = vk.lerp(&vb, fb);
        let ak: T = triangle.vertex_attributes[ik];
        let aa: T = triangle.vertex_attributes[ia];
        let ab: T = triangle.vertex_attributes[ib];
        let attrs_a: T = ak.lerp(&aa, fa);
        let attrs_b: T = ak.lerp(&ab, fb);
        let mut r: Vec<Triangle<T>> = Vec::new();
        r.push(Triangle { vertices: [cb, vk, ca], vertex_attributes: [attrs_b, ak, attrs_a] });
        r
    } else {
        Vec::new()
    }
}

/// The near-plane fraction along the edge from `vc` toward `vo`.
fn near_frac(vc: Float4, vo: Float4) -> (r: i64)
    ensures
        r == spec_near_frac(vc, vo),
{
    let nc: i64 = fx_add(vc.w, vc.z);
    let no: i64 = fx_add(vo.w, vo.z);
    fx_div(nc, fx_sub(nc, no))
}

} // verus!
