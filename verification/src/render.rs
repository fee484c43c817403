//! The rasterizer: screen-space projection, back-face culling, bounding-box
//! pixel iteration with barycentric coverage, the depth test, and the
//! two-pass render that fills the shadow map and then the color buffer.

use vstd::prelude::*;
use crate::fx::{
    FX_ONE, FX_MAX, spec_add, spec_sub, spec_mul, spec_div, div_trunc, fx_add, fx_sub, fx_mul,
    fx_div, fx_clamp, fx_min, fx_max,
};
use crate::math::{
    Float2, Float3, Float4, Float4x4, COORD_LIMIT, spec_f4_lerp, spec_mat_mul, spec_mat_vec, spec_double_area, spec_covered, spec_weights, spec_dot3,
    in_coord_range, double_signed_area, point_in_triangle,
};
use crate::clip::{
    Triangle, EmptyAttributes, VertexAttributes, LinearInterpolation,
    spec_perspective_interpolation, subdivide_partial_oob_triangles,
};
use crate::light::SpotLight;
use crate::model::Model;
use crate::scene::Scene;
use crate::shader::{
    ModelShader, PixelShader, PcfJitter, ShadowPassShader, RenderPassShader, draw_jitter,
};
use crate::texture::Texture;

verus! {

/// Largest render-target side length, in pixels: every pixel center then
/// lies within the range the exact area arithmetic accepts.
pub const RENDER_LIMIT: usize = 16384;

/// The far sentinel of the depth buffer: every accepted fragment is
/// strictly nearer.
pub const DEPTH_FAR: i64 = 9223372036854775807;

/// Clamp a screen coordinate into the range the exact area arithmetic
/// accepts.
pub open spec fn spec_screen_clamp(v: int) -> int {
    if v < -(COORD_LIMIT as int) {
        -(COORD_LIMIT as int)
    } else if v > COORD_LIMIT as int {
        COORD_LIMIT as int
    } else {
        v
    }
}

/// The screen-space position of a homogeneous clip-space vertex on a target
/// of the given fixed-point width and height: the perspective divide mapped
/// from `[-1, 1]` onto the pixel grid, with `y` growing downward, saturated
/// into the exact-arithmetic range.
pub open spec fn spec_to_screen(v: Float4, width: int, height: int) -> Float2 {
    let sx = spec_mul(spec_mul(spec_add(spec_div(v.x as int, v.w as int), FX_ONE as int), 32768), width);
    let sy = spec_mul(
        spec_sub(FX_ONE as int, spec_mul(spec_add(spec_div(v.y as int, v.w as int), FX_ONE as int), 32768)),
        height,
    );
    Float2 { x: spec_screen_clamp(sx) as i64, y: spec_screen_clamp(sy) as i64 }
}

/// Project a clip-space vertex to screen space.
pub fn homogeneous_to_screen(vertex: Float4, width: i64, height: i64) -> (r: Float2)
    ensures
        r == spec_to_screen(vertex, width as int, height as int),
        in_coord_range(r),
{
    let sx: i64 = fx_mul(fx_mul(fx_add(fx_div(vertex.x, vertex.w), FX_ONE), 32768), width);
    let sy: i64 = fx_mul(
        fx_sub(FX_ONE, fx_mul(fx_add(fx_div(vertex.y, vertex.w), FX_ONE), 32768)),
        height,
    );
    Float2 { x: fx_clamp(sx, -COORD_LIMIT, COORD_LIMIT), y: fx_clamp(sy, -COORD_LIMIT, COORD_LIMIT) }
}

/// The first pixel column or row of a bounding box: the floor of the
/// fixed-point coordinate, clamped into the target.
pub open spec fn spec_px_floor_clamp(v: int, hi: int) -> int {
    let f = v / 65536;
    if f < 0 {
        0int
    } else if f > hi {
        hi
    } else {
        f
    }
}

/// One past the last pixel column or row of a bounding box: the ceiling of
/// the fixed-point coordinate, clamped into the target.
pub open spec fn spec_px_ceil_clamp(v: int, hi: int) -> int {
    let f = (v + 65535) / 65536;
    if f < 0 {
        0int
    } else if f > hi {
        hi
    } else {
        f
    }
}

/// The floor of a fixed-point coordinate, clamped into `[0, hi]`.
fn px_floor_clamp(v: i64, hi: usize) -> (r: usize)
    requires
        hi <= 0x8000,
    ensures
        r as int == spec_px_floor_clamp(v as int, hi as int),
        r <= hi,
{
    if v < 0 {
        0
    } else {
        let f: u64 = (v as u64) / 65536;
        if f > hi as u64 {
            hi
        } else {
            f as usize
        }
    }
}

/// The ceiling of a fixed-point coordinate, clamped into `[0, hi]`.
fn px_ceil_clamp(v: i64, hi: usize) -> (r: usize)
    requires
        hi <= 0x8000,
    ensures
        r as int == spec_px_ceil_clamp(v as int, hi as int),
        r <= hi,
{
    if v <= 0 {
        0
    } else {
        let f: u64 = ((v as u64) + 65535) / 65536;
        if f > hi as u64 {
            hi
        } else {
            f as usize
        }
    }
}

/// The pixel center `(x, y)` as a fixed-point screen point.
pub open spec fn spec_pixel_point(x: int, y: int) -> Float2 {
    Float2 { x: (x * 65536) as i64, y: (y * 65536) as i64 }
}

/// The normalized device depths of a triangle's three vertices:
/// `(1 + z/w) / 2` for each.
pub open spec fn spec_tri_depths(v0: Float4, v1: Float4, v2: Float4) -> Float3 {
    Float3 {
        x: spec_mul(spec_add(FX_ONE as int, spec_div(v0.z as int, v0.w as int)), 32768) as i64,
        y: spec_mul(spec_add(FX_ONE as int, spec_div(v1.z as int, v1.w as int)), 32768) as i64,
        z: spec_mul(spec_add(FX_ONE as int, spec_div(v2.z as int, v2.w as int)), 32768) as i64,
    }
}

/// The normalized device depths of a triangle's three vertices.
fn tri_depths(v0: Float4, v1: Float4, v2: Float4) -> (r: Float3)
    ensures
        r == spec_tri_depths(v0, v1, v2),
{
    Float3 {
        x: fx_mul(fx_add(FX_ONE, fx_div(v0.z, v0.w)), 32768),
        y: fx_mul(fx_add(FX_ONE, fx_div(v1.z, v1.w)), 32768),
        z: fx_mul(fx_add(FX_ONE, fx_div(v2.z, v2.w)), 32768),
    }
}

/// The interpolated depth of a covered pixel: the vertex depths weighted by
/// the barycentric weights.
pub open spec fn spec_pixel_depth(
    a: Float2,
    b: Float2,
    c: Float2,
    depths: Float3,
    p: Float2,
) -> int {
    spec_dot3(depths, spec_weights(a, b, c, p))
}

/// Whether a depth-buffer write happens at one pixel: the pixel lies in the
/// bounding box, the triangle covers it, and its interpolated depth passes
/// the strict depth test against the stored value and does not lie beyond
/// the far plane.
pub open spec fn spec_px_writes(
    old_val: i64,
    a: Float2,
    b: Float2,
    c: Float2,
    depths: Float3,
    sx: int,
    ex: int,
    sy: int,
    ey: int,
    px: int,
    py: int,
) -> bool {
    let p = spec_pixel_point(px, py);
    sx <= px < ex && sy <= py < ey && spec_covered(a, b, c, p) && spec_pixel_depth(
        a,
        b,
        c,
        depths,
        p,
    ) < old_val && spec_pixel_depth(a, b, c, depths, p) <= FX_ONE as int
}

/// The depth stored at one pixel after rasterizing a triangle over it.
pub open spec fn spec_px_depth_after(
    old_val: i64,
    a: Float2,
    b: Float2,
    c: Float2,
    depths: Float3,
    sx: int,
    ex: int,
    sy: int,
    ey: int,
    px: int,
    py: int,
) -> i64 {
    if spec_px_writes(old_val, a, b, c, depths, sx, ex, sy, ey, px, py) {
        spec_pixel_depth(a, b, c, depths, spec_pixel_point(px, py)) as i64
    } else {
        old_val
    }
}

/// Whether one pixel of a buffer row-major of width `w` has been visited by
/// the raster loop standing at row `y`, column `x`.
pub open spec fn spec_px_done(
    w: int,
    sx: int,
    ex: int,
    sy: int,
    ey: int,
    y: int,
    x: int,
    i: int,
) -> bool {
    let py = i / w;
    let px = i % w;
    sx <= px < ex && sy <= py < ey && (py < y || (py == y && px < x))
}

/// The depth buffer after rasterizing one clip-space triangle over it, as a
/// whole sequence: unchanged when the screen winding is not clockwise
/// (non-positive signed area), otherwise each pixel updated by the bounded,
/// covered, strictly-nearer depth test.
pub open spec fn spec_raster_depth_seq(
    img: Seq<i64>,
    w: int,
    h: int,
    v0: Float4,
    v1: Float4,
    v2: Float4,
) -> Seq<i64> {
    let a = spec_to_screen(v0, w * 65536, h * 65536);
    let b = spec_to_screen(v1, w * 65536, h * 65536);
    let c = spec_to_screen(v2, w * 65536, h * 65536);
    if spec_double_area(a, b, c) <= 0 {
        img
    } else {
        let depths = spec_tri_depths(v0, v1, v2);
        let sx = spec_px_floor_clamp(min3(a.x as int, b.x as int, c.x as int), w);
        let ex = spec_px_ceil_clamp(max3(a.x as int, b.x as int, c.x as int), w);
        let sy = spec_px_floor_clamp(min3(a.y as int, b.y as int, c.y as int), h);
        let ey = spec_px_ceil_clamp(max3(a.y as int, b.y as int, c.y as int), h);
        Seq::new(
            img.len(),
            |i: int|
                spec_px_depth_after(img[i], a, b, c, depths, sx, ex, sy, ey, i % w, i / w),
        )
    }
}


/// The depth buffer after clipping one clip-space triangle against the near
/// plane and rasterizing every resulting piece, in order: unchanged when all
/// three vertices lie outside; one raster when none does or when two do; two
/// rasters when exactly one does, covering the kept quadrilateral.
pub open spec fn spec_clip_raster_depth(
    img: Seq<i64>,
    w: int,
    h: int,
    v0: Float4,
    v1: Float4,
    v2: Float4,
) -> Seq<i64> {
    let o0 = crate::clip::spec_near_outside(v0);
    let o1 = crate::clip::spec_near_outside(v1);
    let o2 = crate::clip::spec_near_outside(v2);
    let count = (if o0 { 1int } else { 0int }) + (if o1 { 1int } else { 0int }) + (if o2 {
        1int
    } else {
        0int
    });
    if count == 0 {
        spec_raster_depth_seq(img, w, h, v0, v1, v2)
    } else if count == 3 {
        img
    } else if count == 1 {
        let (vc, va, vb) = if o0 {
            (v0, v1, v2)
        } else if o1 {
            (v1, v2, v0)
        } else {
            (v2, v0, v1)
        };
        let fa = crate::clip::spec_near_frac(vc, va);
        let fb = crate::clip::spec_near_frac(vc, vb);
        let ca = spec_f4_lerp(vc, va, fa as int);
        let cb = spec_f4_lerp(vc, vb, fb as int);
        spec_raster_depth_seq(spec_raster_depth_seq(img, w, h, cb, ca, vb), w, h, ca, va, vb)
    } else {
        let (vk, va, vb) = if !o0 {
            (v0, v1, v2)
        } else if !o1 {
            (v1, v2, v0)
        } else {
            (v2, v0, v1)
        };
        let fa = crate::clip::spec_near_frac(vk, va);
        let fb = crate::clip::spec_near_frac(vk, vb);
        let ca = spec_f4_lerp(vk, va, fa as int);
        let cb = spec_f4_lerp(vk, vb, fb as int);
        spec_raster_depth_seq(img, w, h, cb, vk, ca)
    }
}

/// Rasterizing the pieces that clipping yields, in order, produces exactly
/// the clip-then-raster depth buffer of the original triangle.
proof fn lemma_clip_raster_composition<T: LinearInterpolation>(
    img0: Seq<i64>,
    img1: Seq<i64>,
    img2: Seq<i64>,
    w: int,
    h: int,
    tri: Triangle<T>,
    pieces: Seq<Triangle<T>>,
)
    requires
        crate::clip::spec_clip_output(tri, pieces),
        img1 == if pieces.len() >= 1 {
            spec_raster_depth_seq(
                img0,
                w,
                h,
                pieces[0].vertices[0],
                pieces[0].vertices[1],
                pieces[0].vertices[2],
            )
        } else {
            img0
        },
        img2 == if pieces.len() >= 2 {
            spec_raster_depth_seq(
                img1,
                w,
                h,
                pieces[1].vertices[0],
                pieces[1].vertices[1],
                pieces[1].vertices[2],
            )
        } else {
            img1
        },
    ensures
        img2 == spec_clip_raster_depth(img0, w, h, tri.vertices[0], tri.vertices[1], tri.vertices[2]),
{
    let v0 = tri.vertices[0];
    let v1 = tri.vertices[1];
    let v2 = tri.vertices[2];
    let o0 = crate::clip::spec_near_outside(v0);
    let o1 = crate::clip::spec_near_outside(v1);
    let o2 = crate::clip::spec_near_outside(v2);
    let count = crate::clip::spec_clip_count(tri);
    if count == 0 {
        assert(pieces.len() == 1 && pieces[0] == tri);
    } else if count == 3 {
        assert(pieces.len() == 0);
    } else if count == 1 {
        let i = crate::clip::spec_first_outside(tri);
        if o0 {
            assert(i == 0);
        } else if o1 {
            assert(i == 1);
        } else {
            assert(i == 2);
        }
    } else {
        assert(count == 2);
        let i = crate::clip::spec_first_kept(tri);
        if !o0 {
            assert(i == 0);
        } else if !o1 {
            assert(i == 1);
        } else {
            assert(i == 2);
        }
    }
}


/// The view-projection matrix of a camera: its projection composed with its
/// inverse world matrix.
#[verifier::opaque]
pub open spec fn spec_view_proj(c: crate::camera::Camera) -> Float4x4 {
    spec_mat_mul(c.projection, crate::transform::spec_inverse_world_matrix(c.transform))
}

/// A camera's view-projection matrix computed by the executable pipeline —
/// the projection multiplied by the inverse world matrix — is the camera's
/// view-projection matrix.
proof fn lemma_view_proj(c: crate::camera::Camera, inv: Float4x4, vp: Float4x4)
    requires
        inv == crate::transform::spec_inverse_world_matrix(c.transform),
        vp == spec_mat_mul(c.projection, inv),
    ensures
        vp == spec_view_proj(c),
{
    reveal(crate::render::spec_view_proj);
}

/// Compute a camera's view-projection matrix: its projection composed with
/// its inverse world matrix.
pub fn view_proj_matrix(camera: &crate::camera::Camera) -> (r: Float4x4)
    ensures
        r == spec_view_proj(*camera),
{
    let inv: Float4x4 = camera.transform.inverse_world_matrix();
    let vp: Float4x4 = camera.projection.mul(&inv);
    proof {
        lemma_view_proj(*camera, inv, vp);
    }
    vp
}

/// The light-clip-space position of one model vertex in the shadow pass:
/// the composed model-to-light-clip matrix applied to the vertex as a
/// homogeneous point.
#[verifier::opaque]
pub open spec fn spec_shadow_clip_vertex(model: Model, light_vp: Float4x4, vi: int) -> Float4 {
    spec_mat_vec(
        spec_mat_mul(light_vp, crate::transform::spec_world_matrix(model.transform)),
        crate::shader::spec_from_point(model.vertices@[vi]),
    )
}

/// One shadow-pass step: the depth texture after triangle `t` of the model,
/// rejected outright when its three culling masks share a set bit, else
/// clipped against the near plane and rasterized.
pub open spec fn spec_shadow_step(
    img: Seq<i64>,
    w: int,
    h: int,
    model: Model,
    light_vp: Float4x4,
    t: int,
) -> Seq<i64> {
    let c0 = spec_shadow_clip_vertex(model, light_vp, model.vertex_indices@[3 * t] as int);
    let c1 = spec_shadow_clip_vertex(model, light_vp, model.vertex_indices@[3 * t + 1] as int);
    let c2 = spec_shadow_clip_vertex(model, light_vp, model.vertex_indices@[3 * t + 2] as int);
    if (crate::shader::spec_culling_bitmask(c0) as u8) & (crate::shader::spec_culling_bitmask(
        c1,
    ) as u8) & (crate::shader::spec_culling_bitmask(c2) as u8) == 0 {
        spec_clip_raster_depth(img, w, h, c0, c1, c2)
    } else {
        img
    }
}

/// The depth texture after the first `t` triangles of a model's shadow pass.
pub open spec fn spec_shadow_model_upto(
    img: Seq<i64>,
    w: int,
    h: int,
    model: Model,
    light_vp: Float4x4,
    t: nat,
) -> Seq<i64>
    decreases t,
{
    if t == 0 {
        img
    } else {
        spec_shadow_step(
            spec_shadow_model_upto(img, w, h, model, light_vp, (t - 1) as nat),
            w,
            h,
            model,
            light_vp,
            t - 1,
        )
    }
}

/// The depth texture after one whole model's shadow pass.
pub open spec fn spec_shadow_model(
    img: Seq<i64>,
    w: int,
    h: int,
    model: Model,
    light_vp: Float4x4,
) -> Seq<i64> {
    spec_shadow_model_upto(img, w, h, model, light_vp, (model.vertex_indices@.len() / 3) as nat)
}

/// The shadow map after the first `m` models of the shadow pass.
pub open spec fn spec_shadow_scene_upto(
    img: Seq<i64>,
    w: int,
    h: int,
    models: Seq<Model>,
    light_vp: Float4x4,
    m: nat,
) -> Seq<i64>
    decreases m,
{
    if m == 0 {
        img
    } else {
        spec_shadow_model(
            spec_shadow_scene_upto(img, w, h, models, light_vp, (m - 1) as nat),
            w,
            h,
            models[m - 1],
            light_vp,
        )
    }
}

/// The shadow map after the whole shadow pass.
pub open spec fn spec_shadow_scene(
    img: Seq<i64>,
    w: int,
    h: int,
    models: Seq<Model>,
    light_vp: Float4x4,
) -> Seq<i64> {
    spec_shadow_scene_upto(img, w, h, models, light_vp, models.len())
}

/// The camera-clip-space position of one model vertex in the color pass:
/// the vertex carried to world space first, then projected, as the vertex
/// shader computes it.
#[verifier::opaque]
pub open spec fn spec_color_clip_vertex(model: Model, cam_vp: Float4x4, vi: int) -> Float4 {
    spec_mat_vec(
        cam_vp,
        crate::shader::spec_world_vertex(
            crate::transform::spec_world_matrix(model.transform),
            model.vertices@[vi],
        ),
    )
}

/// One color-pass step of the depth buffer: triangle `t` of the model,
/// culled by the shared-mask test, else clipped and rasterized.
pub open spec fn spec_color_step(
    img: Seq<i64>,
    w: int,
    h: int,
    model: Model,
    cam_vp: Float4x4,
    t: int,
) -> Seq<i64> {
    let c0 = spec_color_clip_vertex(model, cam_vp, model.vertex_indices@[3 * t] as int);
    let c1 = spec_color_clip_vertex(model, cam_vp, model.vertex_indices@[3 * t + 1] as int);
    let c2 = spec_color_clip_vertex(model, cam_vp, model.vertex_indices@[3 * t + 2] as int);
    if (crate::shader::spec_culling_bitmask(c0) as u8) & (crate::shader::spec_culling_bitmask(
        c1,
    ) as u8) & (crate::shader::spec_culling_bitmask(c2) as u8) == 0 {
        spec_clip_raster_depth(img, w, h, c0, c1, c2)
    } else {
        img
    }
}

/// The depth buffer after the first `t` triangles of a model's color pass.
pub open spec fn spec_color_depth_upto(
    img: Seq<i64>,
    w: int,
    h: int,
    model: Model,
    cam_vp: Float4x4,
    t: nat,
) -> Seq<i64>
    decreases t,
{
    if t == 0 {
        img
    } else {
        spec_color_step(
            spec_color_depth_upto(img, w, h, model, cam_vp, (t - 1) as nat),
            w,
            h,
            model,
            cam_vp,
            t - 1,
        )
    }
}

/// The depth buffer after one whole model's color pass.
pub open spec fn spec_color_model_depth(
    img: Seq<i64>,
    w: int,
    h: int,
    model: Model,
    cam_vp: Float4x4,
) -> Seq<i64> {
    spec_color_depth_upto(img, w, h, model, cam_vp, (model.vertex_indices@.len() / 3) as nat)
}

/// The depth buffer after the first `m` models of the color pass.
pub open spec fn spec_color_scene_depth_upto(
    img: Seq<i64>,
    w: int,
    h: int,
    models: Seq<Model>,
    cam_vp: Float4x4,
    m: nat,
) -> Seq<i64>
    decreases m,
{
    if m == 0 {
        img
    } else {
        spec_color_model_depth(
            spec_color_scene_depth_upto(img, w, h, models, cam_vp, (m - 1) as nat),
            w,
            h,
            models[m - 1],
            cam_vp,
        )
    }
}

/// The depth buffer after the whole color pass.
pub open spec fn spec_color_scene_depth(
    img: Seq<i64>,
    w: int,
    h: int,
    models: Seq<Model>,
    cam_vp: Float4x4,
) -> Seq<i64> {
    spec_color_scene_depth_upto(img, w, h, models, cam_vp, models.len())
}


/// Rasterizing a triangle never raises any stored depth and keeps the
/// buffer's length.
proof fn lemma_raster_depth_seq_le(img: Seq<i64>, w: int, h: int, v0: Float4, v1: Float4, v2: Float4)
    ensures
        spec_raster_depth_seq(img, w, h, v0, v1, v2).len() == img.len(),
        forall|i: int|
            0 <= i < img.len() ==> #[trigger] spec_raster_depth_seq(img, w, h, v0, v1, v2)[i]
                <= img[i],
{
    let r = spec_raster_depth_seq(img, w, h, v0, v1, v2);
    let a = spec_to_screen(v0, w * 65536, h * 65536);
    let b = spec_to_screen(v1, w * 65536, h * 65536);
    let c = spec_to_screen(v2, w * 65536, h * 65536);
    if spec_double_area(a, b, c) > 0 {
        assert forall|i: int| 0 <= i < img.len() implies #[trigger] r[i] <= img[i] by {
            let depths = spec_tri_depths(v0, v1, v2);
            lemma_px_depth_after_le(
                img[i],
                a,
                b,
                c,
                depths,
                spec_px_floor_clamp(min3(a.x as int, b.x as int, c.x as int), w),
                spec_px_ceil_clamp(max3(a.x as int, b.x as int, c.x as int), w),
                spec_px_floor_clamp(min3(a.y as int, b.y as int, c.y as int), h),
                spec_px_ceil_clamp(max3(a.y as int, b.y as int, c.y as int), h),
                i % w,
                i / w,
            );
        }
    }
}

/// Clipping and rasterizing a triangle never raises any stored depth and
/// keeps the buffer's length.
proof fn lemma_clip_raster_depth_le(
    img: Seq<i64>,
    w: int,
    h: int,
    v0: Float4,
    v1: Float4,
    v2: Float4,
)
    ensures
        spec_clip_raster_depth(img, w, h, v0, v1, v2).len() == img.len(),
        forall|i: int|
            0 <= i < img.len() ==> #[trigger] spec_clip_raster_depth(img, w, h, v0, v1, v2)[i]
                <= img[i],
{
    let o0 = crate::clip::spec_near_outside(v0);
    let o1 = crate::clip::spec_near_outside(v1);
    let o2 = crate::clip::spec_near_outside(v2);
    let count = (if o0 { 1int } else { 0int }) + (if o1 { 1int } else { 0int }) + (if o2 {
        1int
    } else {
        0int
    });
    if count == 0 {
        lemma_raster_depth_seq_le(img, w, h, v0, v1, v2);
    } else if count == 1 {
        let (vc, va, vb) = if o0 {
            (v0, v1, v2)
        } else if o1 {
            (v1, v2, v0)
        } else {
            (v2, v0, v1)
        };
        let fa = crate::clip::spec_near_frac(vc, va);
        let fb = crate::clip::spec_near_frac(vc, vb);
        let ca = spec_f4_lerp(vc, va, fa as int);
        let cb = spec_f4_lerp(vc, vb, fb as int);
        lemma_raster_depth_seq_le(img, w, h, cb, ca, vb);
        lemma_raster_depth_seq_le(spec_raster_depth_seq(img, w, h, cb, ca, vb), w, h, ca, va, vb);
    } else if count == 2 {
        let (vk, va, vb) = if !o0 {
            (v0, v1, v2)
        } else if !o1 {
            (v1, v2, v0)
        } else {
            (v2, v0, v1)
        };
        let fa = crate::clip::spec_near_frac(vk, va);
        let fb = crate::clip::spec_near_frac(vk, vb);
        let ca = spec_f4_lerp(vk, va, fa as int);
        let cb = spec_f4_lerp(vk, vb, fb as int);
        lemma_raster_depth_seq_le(img, w, h, cb, vk, ca);
    }
}

/// A model's shadow pass never raises any stored depth and keeps the
/// texture's length.
#[verifier::rlimit(100)]
#[verifier::spinoff_prover]
proof fn lemma_shadow_model_upto_le(
    img: Seq<i64>,
    w: int,
    h: int,
    model: Model,
    light_vp: Float4x4,
    t: nat,
)
    ensures
        spec_shadow_model_upto(img, w, h, model, light_vp, t).len() == img.len(),
        forall|i: int|
            0 <= i < img.len() ==> #[trigger] spec_shadow_model_upto(
                img,
                w,
                h,
                model,
                light_vp,
                t,
            )[i] <= img[i],
    decreases t,
{
    if t > 0 {
        lemma_shadow_model_upto_le(img, w, h, model, light_vp, (t - 1) as nat);
        let prev = spec_shadow_model_upto(img, w, h, model, light_vp, (t - 1) as nat);
        let c0 = spec_shadow_clip_vertex(
            model,
            light_vp,
            model.vertex_indices@[3 * (t - 1)] as int,
        );
        let c1 = spec_shadow_clip_vertex(
            model,
            light_vp,
            model.vertex_indices@[3 * (t - 1) + 1] as int,
        );
        let c2 = spec_shadow_clip_vertex(
            model,
            light_vp,
            model.vertex_indices@[3 * (t - 1) + 2] as int,
        );
        lemma_clip_raster_depth_le(prev, w, h, c0, c1, c2);
    }
}

/// A model's color pass never raises any stored depth and keeps the
/// buffer's length.
#[verifier::rlimit(100)]
#[verifier::spinoff_prover]
proof fn lemma_color_depth_upto_le(
    img: Seq<i64>,
    w: int,
    h: int,
    model: Model,
    cam_vp: Float4x4,
    t: nat,
)
    ensures
        spec_color_depth_upto(img, w, h, model, cam_vp, t).len() == img.len(),
        forall|i: int|
            0 <= i < img.len() ==> #[trigger] spec_color_depth_upto(
                img,
                w,
                h,
                model,
                cam_vp,
                t,
            )[i] <= img[i],
    decreases t,
{
    if t > 0 {
        lemma_color_depth_upto_le(img, w, h, model, cam_vp, (t - 1) as nat);
        let prev = spec_color_depth_upto(img, w, h, model, cam_vp, (t - 1) as nat);
        let c0 = spec_color_clip_vertex(model, cam_vp, model.vertex_indices@[3 * (t - 1)] as int);
        let c1 = spec_color_clip_vertex(
            model,
            cam_vp,
            model.vertex_indices@[3 * (t - 1) + 1] as int,
        );
        let c2 = spec_color_clip_vertex(
            model,
            cam_vp,
            model.vertex_indices@[3 * (t - 1) + 2] as int,
        );
        lemma_clip_raster_depth_le(prev, w, h, c0, c1, c2);
    }
}


/// Chains the color-pass clauses across one more rasterized triangle: depths
/// stay monotone against the pass's start, a pixel whose depth is unchanged
/// keeps its starting color, and a pixel whose depth changed holds some
/// shaded color of the pass's shader.
proof fn lemma_color_chain(
    old_d: Seq<i64>,
    old_c: Seq<Float3>,
    pd: Seq<i64>,
    pc: Seq<Float3>,
    nd: Seq<i64>,
    nc: Seq<Float3>,
    shader: ModelShader,
    spotlight: SpotLight,
)
    requires
        pd.len() == old_d.len(),
        nd.len() == old_d.len(),
        pc.len() == old_c.len(),
        nc.len() == old_c.len(),
        old_c.len() == old_d.len(),
        forall|i: int| 0 <= i < old_d.len() ==> #[trigger] pd[i] <= old_d[i],
        forall|i: int|
            #![trigger pd[i]]
            0 <= i < old_d.len() && pd[i] == old_d[i] ==> pc[i] == old_c[i],
        forall|i: int|
            #![trigger pd[i]]
            0 <= i < old_d.len() && pd[i] != old_d[i] ==> exists|at: VertexAttributes, j: PcfJitter|
                crate::shader::jitter_ok(j) && pc[i] == shader.color_spec(at, spotlight, j),
        forall|i: int| 0 <= i < old_d.len() ==> #[trigger] nd[i] <= pd[i],
        forall|i: int|
            #![trigger nd[i]]
            0 <= i < old_d.len() && nd[i] == pd[i] ==> nc[i] == pc[i],
        forall|i: int|
            #![trigger nd[i]]
            0 <= i < old_d.len() && nd[i] != pd[i] ==> exists|at: VertexAttributes, j: PcfJitter|
                crate::shader::jitter_ok(j) && nc[i] == shader.color_spec(at, spotlight, j),
    ensures
        forall|i: int| 0 <= i < old_d.len() ==> #[trigger] nd[i] <= old_d[i],
        forall|i: int|
            #![trigger nd[i]]
            0 <= i < old_d.len() && nd[i] == old_d[i] ==> nc[i] == old_c[i],
        forall|i: int|
            #![trigger nd[i]]
            0 <= i < old_d.len() && nd[i] != old_d[i] ==> exists|at: VertexAttributes, j: PcfJitter|
                crate::shader::jitter_ok(j) && nc[i] == shader.color_spec(at, spotlight, j),
{
    assert forall|i: int|
        #![trigger nd[i]]
        0 <= i < old_d.len() && nd[i] != old_d[i] implies exists|at: VertexAttributes, j: PcfJitter|
        crate::shader::jitter_ok(j) && nc[i] == shader.color_spec(at, spotlight, j) by {
        if nd[i] == pd[i] {
            assert(pd[i] != old_d[i]);
            let (at0, j0) = choose|at: VertexAttributes, j: PcfJitter|
                crate::shader::jitter_ok(j) && pc[i] == shader.color_spec(at, spotlight, j);
            assert(crate::shader::jitter_ok(j0) && nc[i] == shader.color_spec(at0, spotlight, j0));
        }
    }
}

/// A pixel index splits uniquely into its row and column.
proof fn lemma_row_col(y: int, x: int, w: int)
    requires
        w > 0,
        0 <= x < w,
        0 <= y,
    ensures
        (y * w + x) / w == y,
        (y * w + x) % w == x,
{
    vstd::arithmetic::div_mod::lemma_fundamental_div_mod_converse(y * w + x, w, y, x);
}

/// Every index equals its row times the width plus its column.
proof fn lemma_index_split(i: int, w: int)
    requires
        w > 0,
        0 <= i,
    ensures
        i == (i / w) * w + (i % w),
        0 <= i % w < w,
        0 <= i / w,
{
    vstd::arithmetic::div_mod::lemma_fundamental_div_mod(i, w);
    assert(w * (i / w) == (i / w) * w) by (nonlinear_arith);
    vstd::arithmetic::div_mod::lemma_div_pos_is_pos(i, w);
}

/// Rasterize one clip-space triangle into a depth texture: project it to
/// the texture's pixel grid, reject it unless its screen winding is
/// clockwise (positive signed area), and write the interpolated depth of
/// every covered pixel of its bounding box that passes the strict depth
/// test.
pub fn raster_shadow_triangle(map: &mut Texture<i64>, tri: &Triangle<EmptyAttributes>)
    requires
        old(map).wf(),
    ensures
        final(map).wf(),
        final(map).width == old(map).width,
        final(map).height == old(map).height,
        final(map).image@.len() == old(map).image@.len(),
        final(map).image@ == spec_raster_depth_seq(
            old(map).image@,
            old(map).width as int,
            old(map).height as int,
            tri.vertices[0],
            tri.vertices[1],
            tri.vertices[2],
        ),
        ({
            let a = spec_to_screen(
                tri.vertices[0],
                old(map).width as int * 65536,
                old(map).height as int * 65536,
            );
            let b = spec_to_screen(
                tri.vertices[1],
                old(map).width as int * 65536,
                old(map).height as int * 65536,
            );
            let c = spec_to_screen(
                tri.vertices[2],
                old(map).width as int * 65536,
                old(map).height as int * 65536,
            );
            if spec_double_area(a, b, c) <= 0 {
                final(map).image@ == old(map).image@
            } else {
                let depths = spec_tri_depths(tri.vertices[0], tri.vertices[1], tri.vertices[2]);
                let sx = spec_px_floor_clamp(min3(a.x as int, b.x as int, c.x as int), old(map).width as int);
                let ex = spec_px_ceil_clamp(max3(a.x as int, b.x as int, c.x as int), old(map).width as int);
                let sy = spec_px_floor_clamp(min3(a.y as int, b.y as int, c.y as int), old(map).height as int);
                let ey = spec_px_ceil_clamp(max3(a.y as int, b.y as int, c.y as int), old(map).height as int);
                forall|i: int|
                    0 <= i < final(map).image@.len() ==> final(map).image@[i]
                        == spec_px_depth_after(
                        old(map).image@[i],
                        a,
                        b,
                        c,
                        depths,
                        sx,
                        ex,
                        sy,
                        ey,
                        i % (old(map).width as int),
                        i / (old(map).width as int),
                    )
            }
        }),
{
    let wfx: i64 = (map.width as i64) * FX_ONE;
    let hfx: i64 = (map.height as i64) * FX_ONE;
    let a: Float2 = homogeneous_to_screen(tri.vertices[0], wfx, hfx);
    let b: Float2 = homogeneous_to_screen(tri.vertices[1], wfx, hfx);
    let c: Float2 = homogeneous_to_screen(tri.vertices[2], wfx, hfx);

    let area2: i128 = double_signed_area(a, b, c);
    if area2 <= 0 {
        return ;
    }

    let depths: Float3 = tri_depths(tri.vertices[0], tri.vertices[1], tri.vertices[2]);

    let min_x: i64 = fx_min(fx_min(a.x, b.x), c.x);
    let min_y: i64 = fx_min(fx_min(a.y, b.y), c.y);
    let max_x: i64 = fx_max(fx_max(a.x, b.x), c.x);
    let max_y: i64 = fx_max(fx_max(a.y, b.y), c.y);

    let w: usize = map.width;
    let h: usize = map.height;
    let sx: usize = px_floor_clamp(min_x, w);
    let ex: usize = px_ceil_clamp(max_x, w);
    let sy: usize = px_floor_clamp(min_y, h);
    let ey: usize = px_ceil_clamp(max_y, h);

    let ghost ga = a;
    let ghost gb = b;
    let ghost gc = c;
    let ghost gd = depths;
    let ghost gw = w as int;

    let mut y: usize = sy;
    while y < ey
        invariant
            map.wf(),
            map.width == old(map).width,
            map.height == old(map).height,
            map.image@.len() == old(map).image@.len(),
            w == old(map).width,
            h == old(map).height,
            sy <= y,
            y <= ey || y == sy,
            sx <= w,
            ex <= w,
            ey <= h,
            ga == a,
            gb == b,
            gc == c,
            gd == depths,
            gw == w as int,
            in_coord_range(ga),
            in_coord_range(gb),
            in_coord_range(gc),
            forall|i: int|
                0 <= i < map.image@.len() ==> map.image@[i] == (
                if spec_px_done(gw, sx as int, ex as int, sy as int, ey as int, y as int, sx as int, i) {
                    spec_px_depth_after(
                        old(map).image@[i],
                        ga,
                        gb,
                        gc,
                        gd,
                        sx as int,
                        ex as int,
                        sy as int,
                        ey as int,
                        i % gw,
                        i / gw,
                    )
                } else {
                    old(map).image@[i]
                }),
        decreases ey - y,
    {
        let mut x: usize = sx;
        while x < ex
            invariant
                map.wf(),
                map.width == old(map).width,
                map.height == old(map).height,
                map.image@.len() == old(map).image@.len(),
                w == old(map).width,
                h == old(map).height,
                sy <= y < ey,
                sx <= x,
                x <= ex || x == sx,
                sx <= w,
                ex <= w,
                ey <= h,
                ga == a,
                gb == b,
                gc == c,
                gd == depths,
                gw == w as int,
                in_coord_range(ga),
                in_coord_range(gb),
                in_coord_range(gc),
                forall|i: int|
                    0 <= i < map.image@.len() ==> map.image@[i] == (
                    if spec_px_done(gw, sx as int, ex as int, sy as int, ey as int, y as int, x as int, i) {
                        spec_px_depth_after(
                            old(map).image@[i],
                            ga,
                            gb,
                            gc,
                            gd,
                            sx as int,
                            ex as int,
                            sy as int,
                            ey as int,
                            i % gw,
                            i / gw,
                        )
                    } else {
                        old(map).image@[i]
                    }),
            decreases ex - x,
        {
            let p: Float2 = Float2 { x: (x as i64) * FX_ONE, y: (y as i64) * FX_ONE };
            proof {
                lemma_row_col(y as int, x as int, gw);
                assert(y * w + x < h * w && y * w + x <= 0x40008000) by (nonlinear_arith)
                    requires
                        0 <= x < w as int,
                        0 <= y < h as int,
                        w as int <= 0x8000,
                        h as int <= 0x8000,
                ;
                assert(h * w == w * h) by (nonlinear_arith);
            }
            let idx: usize = y * w + x;
            let stored: i64 = map.image[idx];
            let coverage: Option<Float3> = point_in_triangle(a, b, c, p);
            match coverage {
                Some(weights) => {
                    let depth: i64 = depths.dot(weights);
                    if depth < stored && depth <= FX_ONE {
                        map.image.set(idx, depth);
                    }
                },
                None => {},
            }
            proof {
                assert forall|i: int| 0 <= i < map.image@.len() implies map.image@[i] == (
                if spec_px_done(gw, sx as int, ex as int, sy as int, ey as int, y as int, x as int + 1, i) {
                    spec_px_depth_after(
                        old(map).image@[i],
                        ga,
                        gb,
                        gc,
                        gd,
                        sx as int,
                        ex as int,
                        sy as int,
                        ey as int,
                        i % gw,
                        i / gw,
                    )
                } else {
                    old(map).image@[i]
                }) by {
                    lemma_index_split(i, gw);
                }
            }
            x = x + 1;
        }
        proof {
            assert forall|i: int| 0 <= i < map.image@.len() implies spec_px_done(
                gw,
                sx as int,
                ex as int,
                sy as int,
                ey as int,
                y as int + 1,
                sx as int,
                i,
            ) == spec_px_done(gw, sx as int, ex as int, sy as int, ey as int, y as int, ex as int, i) by {
                lemma_index_split(i, gw);
            }
        }
        y = y + 1;
    }
    proof {
        assert forall|i: int| 0 <= i < map.image@.len() implies map.image@[i]
            == spec_px_depth_after(
            old(map).image@[i],
            ga,
            gb,
            gc,
            gd,
            sx as int,
            ex as int,
            sy as int,
            ey as int,
            i % gw,
            i / gw,
        ) by {
            lemma_index_split(i, gw);
        }
        assert(map.image@ =~= spec_raster_depth_seq(
            old(map).image@,
            old(map).width as int,
            old(map).height as int,
            tri.vertices[0],
            tri.vertices[1],
            tri.vertices[2],
        ));
    }
}

/// The reciprocal view depths of a triangle's three vertices: one over each
/// homogeneous `w`.
pub open spec fn spec_inverse_ws(v0: Float4, v1: Float4, v2: Float4) -> Float3 {
    Float3 {
        x: spec_div(FX_ONE as int, v0.w as int) as i64,
        y: spec_div(FX_ONE as int, v1.w as int) as i64,
        z: spec_div(FX_ONE as int, v2.w as int) as i64,
    }
}

/// The perspective-correct attribute bundle of a triangle at one pixel: the
/// barycentric weights feed the reciprocal-depth interpolation.
pub open spec fn spec_px_attrs(
    tri: Triangle<VertexAttributes>,
    a: Float2,
    b: Float2,
    c: Float2,
    px: int,
    py: int,
) -> VertexAttributes {
    let p = spec_pixel_point(px, py);
    let inv_ws = spec_inverse_ws(tri.vertices[0], tri.vertices[1], tri.vertices[2]);
    let weights = spec_weights(a, b, c, p);
    let w = spec_div(FX_ONE as int, spec_dot3(inv_ws, weights));
    spec_perspective_interpolation(tri, inv_ws, w as i64, weights)
}

/// A render target: a color buffer and a depth buffer of one size, written
/// by the rasterizer and read by the presentation step.
pub struct RenderTarget {
    /// Width of the target in pixels.
    pub width: usize,
    /// Height of the target in pixels.
    pub height: usize,
    /// The target's size as a fixed-point vector, width then height.
    pub size: Float2,
    /// The colors, row by row from the top.
    pub color_buffer: Vec<Float3>,
    /// The depths, row by row from the top.
    pub depth_buffer: Vec<i64>,
}

impl RenderTarget {
    /// Whether the buffers match the dimensions and the dimensions lie
    /// within the rasterizer's limits.
    pub open spec fn wf(self) -> bool {
        &&& self.color_buffer@.len() == self.width * self.height
        &&& self.depth_buffer@.len() == self.width * self.height
        &&& 1 <= self.width <= RENDER_LIMIT
        &&& 1 <= self.height <= RENDER_LIMIT
        &&& self.size == (Float2 {
            x: (self.width * 65536) as i64,
            y: (self.height * 65536) as i64,
        })
    }

    /// Create a render target with black color and far depth everywhere.
    pub fn new(width: usize, height: usize) -> (r: RenderTarget)
        requires
            1 <= width <= RENDER_LIMIT,
            1 <= height <= RENDER_LIMIT,
        ensures
            r.wf(),
            r.width == width,
            r.height == height,
            forall|i: int|
                0 <= i < r.color_buffer@.len() ==> r.color_buffer@[i] == (Float3 {
                    x: 0i64,
                    y: 0i64,
                    z: 0i64,
                }),
            forall|i: int| 0 <= i < r.depth_buffer@.len() ==> r.depth_buffer@[i] == DEPTH_FAR,
    {
        proof {
            assert(width * height <= 0x10000000 && width * height >= 1) by (nonlinear_arith)
                requires
                    1 <= width <= 0x4000,
                    1 <= height <= 0x4000,
            ;
        }
        let n: usize = width * height;
        let mut color_buffer: Vec<Float3> = Vec::new();
        let mut k: usize = 0;
        while k < n
            invariant
                k <= n,
                color_buffer@.len() == k,
                forall|i: int|
                    0 <= i < k ==> color_buffer@[i] == (Float3 { x: 0i64, y: 0i64, z: 0i64 }),
            decreases n - k,
        {
            color_buffer.push(Float3 { x: 0, y: 0, z: 0 });
            k = k + 1;
        }
        let mut depth_buffer: Vec<i64> = Vec::new();
        let mut k2: usize = 0;
        while k2 < n
            invariant
                k2 <= n,
                depth_buffer@.len() == k2,
                forall|i: int| 0 <= i < k2 ==> depth_buffer@[i] == DEPTH_FAR,
            decreases n - k2,
        {
            depth_buffer.push(DEPTH_FAR);
            k2 = k2 + 1;
        }
        RenderTarget {
            width,
            height,
            size: Float2 { x: (width as i64) * FX_ONE, y: (height as i64) * FX_ONE },
            color_buffer,
            depth_buffer,
        }
    }

    /// Clear the target: every pixel takes the background color and the far
    /// depth.
    pub fn clear(&mut self, color: Float3)
        requires
            old(self).wf(),
        ensures
            final(self).wf(),
            final(self).width == old(self).width,
            final(self).height == old(self).height,
            forall|i: int|
                0 <= i < final(self).color_buffer@.len() ==> final(self).color_buffer@[i] == color,
            forall|i: int|
                0 <= i < final(self).depth_buffer@.len() ==> final(self).depth_buffer@[i]
                    == DEPTH_FAR,
    {
        let n: usize = self.color_buffer.len();
        let mut k: usize = 0;
        while k < n
            invariant
                k <= n,
                self.color_buffer@.len() == n,
                self.width == old(self).width,
                self.height == old(self).height,
                self.size == old(self).size,
                self.depth_buffer@.len() == old(self).depth_buffer@.len(),
                self.depth_buffer@ == old(self).depth_buffer@,
                old(self).wf(),
                n == old(self).color_buffer@.len(),
                forall|i: int| 0 <= i < k ==> self.color_buffer@[i] == color,
            decreases n - k,
        {
            self.color_buffer.set(k, color);
            k = k + 1;
        }
        let n2: usize = self.depth_buffer.len();
        let mut k2: usize = 0;
        while k2 < n2
            invariant
                k2 <= n2,
                self.depth_buffer@.len() == n2,
                self.width == old(self).width,
                self.height == old(self).height,
                self.size == old(self).size,
                self.color_buffer@.len() == old(self).color_buffer@.len(),
                old(self).wf(),
                n2 == old(self).depth_buffer@.len(),
                forall|i: int| 0 <= i < self.color_buffer@.len() ==> self.color_buffer@[i] == color,
                forall|i: int| 0 <= i < k2 ==> self.depth_buffer@[i] == DEPTH_FAR,
            decreases n2 - k2,
        {
            self.depth_buffer.set(k2, DEPTH_FAR);
            k2 = k2 + 1;
        }
    }

    /// Rasterize one clip-space triangle of the color pass: project, cull
    /// back faces, and for every covered pixel of the bounding box that
    /// passes the strict depth test, interpolate the attributes perspective-
    /// correctly, shade the fragment, and write its color and depth.
    ///
    /// The depth buffer afterwards is an exact function of the triangle; the
    /// color written at a shaded pixel is the shader's color for the pixel's
    /// interpolated attributes and some jitter of the shadow kernel.
    #[verifier::rlimit(100)]
    pub fn raster_color_triangle(
        &mut self,
        tri: &Triangle<VertexAttributes>,
        shader: &ModelShader,
        spotlight: &SpotLight,
    )
        requires
            old(self).wf(),
            shader.shader_wf(),
            spotlight.shadow_map.wf(),
        ensures
            final(self).wf(),
            final(self).width == old(self).width,
            final(self).height == old(self).height,
            final(self).size == old(self).size,
            final(self).color_buffer@.len() == old(self).color_buffer@.len(),
            final(self).depth_buffer@.len() == old(self).depth_buffer@.len(),
            final(self).depth_buffer@ == spec_raster_depth_seq(
                old(self).depth_buffer@,
                old(self).width as int,
                old(self).height as int,
                tri.vertices[0],
                tri.vertices[1],
                tri.vertices[2],
            ),
            forall|i: int|
                #![trigger old(self).depth_buffer@[i]]
                0 <= i < final(self).depth_buffer@.len() && final(self).depth_buffer@[i] == old(self).depth_buffer@[i] ==> final(self).color_buffer@[i] == old(self).color_buffer@[i],
            forall|i: int|
                #![trigger old(self).depth_buffer@[i]]
                0 <= i < final(self).depth_buffer@.len() && final(self).depth_buffer@[i] != old(self).depth_buffer@[i] ==> exists|at: VertexAttributes, j: PcfJitter|
                    crate::shader::jitter_ok(j) && final(self).color_buffer@[i]
                        == shader.color_spec(at, *spotlight, j),
            ({
                let a = spec_to_screen(
                    tri.vertices[0],
                    old(self).width as int * 65536,
                    old(self).height as int * 65536,
                );
                let b = spec_to_screen(
                    tri.vertices[1],
                    old(self).width as int * 65536,
                    old(self).height as int * 65536,
                );
                let c = spec_to_screen(
                    tri.vertices[2],
                    old(self).width as int * 65536,
                    old(self).height as int * 65536,
                );
                if spec_double_area(a, b, c) <= 0 {
                    final(self).depth_buffer@ == old(self).depth_buffer@ && final(self).color_buffer@ == old(self).color_buffer@
                } else {
                    let depths = spec_tri_depths(
                        tri.vertices[0],
                        tri.vertices[1],
                        tri.vertices[2],
                    );
                    let sx = spec_px_floor_clamp(
                        min3(a.x as int, b.x as int, c.x as int),
                        old(self).width as int,
                    );
                    let ex = spec_px_ceil_clamp(
                        max3(a.x as int, b.x as int, c.x as int),
                        old(self).width as int,
                    );
                    let sy = spec_px_floor_clamp(
                        min3(a.y as int, b.y as int, c.y as int),
                        old(self).height as int,
                    );
                    let ey = spec_px_ceil_clamp(
                        max3(a.y as int, b.y as int, c.y as int),
                        old(self).height as int,
                    );
                    forall|i: int|
                        #![trigger old(self).depth_buffer@[i]]
                        0 <= i < final(self).depth_buffer@.len() ==> {
                            let px = i % (old(self).width as int);
                            let py = i / (old(self).width as int);
                            let writes = spec_px_writes(
                                old(self).depth_buffer@[i],
                                a,
                                b,
                                c,
                                depths,
                                sx,
                                ex,
                                sy,
                                ey,
                                px,
                                py,
                            );
                            &&& final(self).depth_buffer@[i] == spec_px_depth_after(
                                old(self).depth_buffer@[i],
                                a,
                                b,
                                c,
                                depths,
                                sx,
                                ex,
                                sy,
                                ey,
                                px,
                                py,
                            )
                            &&& (writes ==> exists|j: PcfJitter|
                                crate::shader::jitter_ok(j) && final(self).color_buffer@[i]
                                    == shader.color_spec(
                                    spec_px_attrs(*tri, a, b, c, px, py),
                                    *spotlight,
                                    j,
                                ))
                            &&& (!writes ==> final(self).color_buffer@[i] == old(self).color_buffer@[i])
                        }
                }
            }),
    {
        let wfx: i64 = (self.width as i64) * FX_ONE;
        let hfx: i64 = (self.height as i64) * FX_ONE;
        let a: Float2 = homogeneous_to_screen(tri.vertices[0], wfx, hfx);
        let b: Float2 = homogeneous_to_screen(tri.vertices[1], wfx, hfx);
        let c: Float2 = homogeneous_to_screen(tri.vertices[2], wfx, hfx);

        let area2: i128 = double_signed_area(a, b, c);
        if area2 <= 0 {
            return ;
        }

        let depths: Float3 = tri_depths(tri.vertices[0], tri.vertices[1], tri.vertices[2]);
        let inverse_ws: Float3 = Float3 {
            x: fx_div(FX_ONE, tri.vertices[0].w),
            y: fx_div(FX_ONE, tri.vertices[1].w),
            z: fx_div(FX_ONE, tri.vertices[2].w),
        };

        let min_x: i64 = fx_min(fx_min(a.x, b.x), c.x);
        let min_y: i64 = fx_min(fx_min(a.y, b.y), c.y);
        let max_x: i64 = fx_max(fx_max(a.x, b.x), c.x);
        let max_y: i64 = fx_max(fx_max(a.y, b.y), c.y);

        let w: usize = self.width;
        let h: usize = self.height;
        let sx: usize = px_floor_clamp(min_x, w);
        let ex: usize = px_ceil_clamp(max_x, w);
        let sy: usize = px_floor_clamp(min_y, h);
        let ey: usize = px_ceil_clamp(max_y, h);

        let ghost ga = a;
        let ghost gb = b;
        let ghost gc = c;
        let ghost gd = depths;
        let ghost gw = w as int;
        let ghost giw = inverse_ws;
        let ghost mut jmap: Map<int, PcfJitter> = Map::empty();

        let mut y: usize = sy;
        while y < ey
            invariant
                self.wf(),
                self.width == old(self).width,
                self.height == old(self).height,
                self.size == old(self).size,
                self.color_buffer@.len() == old(self).color_buffer@.len(),
                self.depth_buffer@.len() == old(self).depth_buffer@.len(),
                w == old(self).width,
                h == old(self).height,
                sy <= y,
                y <= ey || y == sy,
                sx <= w,
                ex <= w,
                ey <= h,
                ga == a,
                gb == b,
                gc == c,
                gd == depths,
                gw == w as int,
                giw == inverse_ws,
                giw == spec_inverse_ws(tri.vertices[0], tri.vertices[1], tri.vertices[2]),
                shader.shader_wf(),
                spotlight.shadow_map.wf(),
                in_coord_range(ga),
                in_coord_range(gb),
                in_coord_range(gc),
                raster_rows_invariant(
                    *self,
                    *old(self),
                    *tri,
                    *shader,
                    *spotlight,
                    ga,
                    gb,
                    gc,
                    gd,
                    sx as int,
                    ex as int,
                    sy as int,
                    ey as int,
                    y as int,
                    sx as int,
                    jmap,
                ),
            decreases ey - y,
        {
            let mut x: usize = sx;
            while x < ex
                invariant
                    self.wf(),
                    self.width == old(self).width,
                    self.height == old(self).height,
                    self.size == old(self).size,
                    self.color_buffer@.len() == old(self).color_buffer@.len(),
                    self.depth_buffer@.len() == old(self).depth_buffer@.len(),
                    w == old(self).width,
                    h == old(self).height,
                    sy <= y < ey,
                    sx <= x,
                    x <= ex || x == sx,
                    sx <= w,
                    ex <= w,
                    ey <= h,
                    ga == a,
                    gb == b,
                    gc == c,
                    gd == depths,
                    gw == w as int,
                    giw == inverse_ws,
                    giw == spec_inverse_ws(tri.vertices[0], tri.vertices[1], tri.vertices[2]),
                    shader.shader_wf(),
                    spotlight.shadow_map.wf(),
                    in_coord_range(ga),
                    in_coord_range(gb),
                    in_coord_range(gc),
                    raster_rows_invariant(
                        *self,
                        *old(self),
                        *tri,
                        *shader,
                        *spotlight,
                        ga,
                        gb,
                        gc,
                        gd,
                        sx as int,
                        ex as int,
                        sy as int,
                        ey as int,
                        y as int,
                        x as int,
                        jmap,
                    ),
                decreases ex - x,
            {
                let p: Float2 = Float2 { x: (x as i64) * FX_ONE, y: (y as i64) * FX_ONE };
                proof {
                    lemma_row_col(y as int, x as int, gw);
                    assert(y * w + x < h * w && y * w + x <= 0x40008000) by (nonlinear_arith)
                        requires
                            0 <= x < w as int,
                            0 <= y < h as int,
                            w as int <= 0x8000,
                            h as int <= 0x8000,
                    ;
                    assert(h * w == w * h) by (nonlinear_arith);
                }
                let idx: usize = y * w + x;
                proof {
                    assert(p == spec_pixel_point(x as int, y as int));
                    assert(!spec_px_done(gw, sx as int, ex as int, sy as int, ey as int, y as int, x as int, idx as int));
                    assert(self.depth_buffer@[idx as int] == old(self).depth_buffer@[idx as int]);
                }
                let ghost g_old_depth = old(self).depth_buffer@[idx as int];
                let stored: i64 = self.depth_buffer[idx];
                let coverage: Option<Float3> = point_in_triangle(a, b, c, p);
                match coverage {
                    Some(weights) => {
                        let depth: i64 = depths.dot(weights);
                        proof {
                            assert(weights == spec_weights(ga, gb, gc, spec_pixel_point(x as int, y as int)));
                            assert(depth as int == spec_pixel_depth(
                                ga,
                                gb,
                                gc,
                                gd,
                                spec_pixel_point(x as int, y as int),
                            ));
                        }
                        if depth < stored && depth <= FX_ONE {
                            let w_interp: i64 = fx_div(FX_ONE, inverse_ws.dot(weights));
                            let attrs: VertexAttributes = tri.perspective_interpolation(
                                inverse_ws,
                                w_interp,
                                weights,
                            );
                            let jitter: PcfJitter = draw_jitter();
                            let col: Float3 = shader.color(attrs, spotlight, &jitter);
                            proof {
                                assert(attrs == spec_px_attrs(*tri, ga, gb, gc, x as int, y as int));
                            }
                            self.color_buffer.set(idx, col);
                            self.depth_buffer.set(idx, depth);
                            proof {
                                jmap = jmap.insert(idx as int, jitter);
                            }
                        }
                    },
                    None => {
                        proof {
                            assert(!spec_covered(ga, gb, gc, spec_pixel_point(x as int, y as int)));
                        }
                    },
                }
                proof {
                    assert forall|i: int|
                        #[trigger] raster_px_invariant(
                            *self,
                            *old(self),
                            *tri,
                            *shader,
                            *spotlight,
                            ga,
                            gb,
                            gc,
                            gd,
                            sx as int,
                            ex as int,
                            sy as int,
                            ey as int,
                            y as int,
                            x as int + 1,
                            jmap,
                            i,
                        ) by {
                        if 0 <= i < self.depth_buffer@.len() {
                            lemma_index_split(i, gw);
                            if i == idx as int {
                                assert(i % gw == x as int);
                                assert(i / gw == y as int);
                            }
                            let done = spec_px_done(
                                gw,
                                sx as int,
                                ex as int,
                                sy as int,
                                ey as int,
                                y as int,
                                x as int + 1,
                                i,
                            );
                            let writes = spec_px_writes(
                                old(self).depth_buffer@[i],
                                ga,
                                gb,
                                gc,
                                gd,
                                sx as int,
                                ex as int,
                                sy as int,
                                ey as int,
                                i % gw,
                                i / gw,
                            );
                            assert(self.depth_buffer@[i] == (if done {
                                spec_px_depth_after(
                                    old(self).depth_buffer@[i],
                                    ga,
                                    gb,
                                    gc,
                                    gd,
                                    sx as int,
                                    ex as int,
                                    sy as int,
                                    ey as int,
                                    i % gw,
                                    i / gw,
                                )
                            } else {
                                old(self).depth_buffer@[i]
                            }));
                            assert(done && writes ==> jmap.dom().contains(i)
                                && crate::shader::jitter_ok(jmap[i]) && self.color_buffer@[i]
                                == shader.color_spec(
                                spec_px_attrs(*tri, ga, gb, gc, i % gw, i / gw),
                                *spotlight,
                                jmap[i],
                            ));
                            assert(!(done && writes) ==> self.color_buffer@[i] == old(self).color_buffer@[i]);
                        }
                    }
                }
                x = x + 1;
            }
            proof {
                assert forall|i: int| 0 <= i < self.depth_buffer@.len() implies spec_px_done(
                    gw,
                    sx as int,
                    ex as int,
                    sy as int,
                    ey as int,
                    y as int + 1,
                    sx as int,
                    i,
                ) == spec_px_done(
                    gw,
                    sx as int,
                    ex as int,
                    sy as int,
                    ey as int,
                    y as int,
                    ex as int,
                    i,
                ) by {
                    lemma_index_split(i, gw);
                }
            }
            y = y + 1;
        }
        proof {
            assert forall|i: int| #![trigger old(self).depth_buffer@[i]] 0 <= i
                < self.depth_buffer@.len() implies {
                let px = i % gw;
                let py = i / gw;
                let writes = spec_px_writes(
                    old(self).depth_buffer@[i],
                    ga,
                    gb,
                    gc,
                    gd,
                    sx as int,
                    ex as int,
                    sy as int,
                    ey as int,
                    px,
                    py,
                );
                &&& self.depth_buffer@[i] == spec_px_depth_after(
                    old(self).depth_buffer@[i],
                    ga,
                    gb,
                    gc,
                    gd,
                    sx as int,
                    ex as int,
                    sy as int,
                    ey as int,
                    px,
                    py,
                )
                &&& (writes ==> exists|j: PcfJitter|
                    crate::shader::jitter_ok(j) && self.color_buffer@[i] == shader.color_spec(
                        spec_px_attrs(*tri, ga, gb, gc, px, py),
                        *spotlight,
                        j,
                    ))
                &&& (!writes ==> self.color_buffer@[i] == old(self).color_buffer@[i])
            } by {
                lemma_index_split(i, gw);
                assert(raster_px_invariant(
                    *self,
                    *old(self),
                    *tri,
                    *shader,
                    *spotlight,
                    ga,
                    gb,
                    gc,
                    gd,
                    sx as int,
                    ex as int,
                    sy as int,
                    ey as int,
                    y as int,
                    sx as int,
                    jmap,
                    i,
                ));
                if spec_px_writes(
                    old(self).depth_buffer@[i],
                    ga,
                    gb,
                    gc,
                    gd,
                    sx as int,
                    ex as int,
                    sy as int,
                    ey as int,
                    i % gw,
                    i / gw,
                ) {
                    assert(crate::shader::jitter_ok(jmap[i]) && self.color_buffer@[i]
                        == shader.color_spec(
                        spec_px_attrs(*tri, ga, gb, gc, i % gw, i / gw),
                        *spotlight,
                        jmap[i],
                    ));
                }
            }
            assert(self.depth_buffer@ =~= spec_raster_depth_seq(
                old(self).depth_buffer@,
                old(self).width as int,
                old(self).height as int,
                tri.vertices[0],
                tri.vertices[1],
                tri.vertices[2],
            ));
            assert forall|i: int|
                #![trigger old(self).depth_buffer@[i]]
                0 <= i < self.depth_buffer@.len() && self.depth_buffer@[i] == old(self).depth_buffer@[i] implies self.color_buffer@[i] == old(self).color_buffer@[i] by {
                lemma_index_split(i, gw);
            }
            assert forall|i: int|
                #![trigger old(self).depth_buffer@[i]]
                0 <= i < self.depth_buffer@.len() && self.depth_buffer@[i] != old(self).depth_buffer@[i] implies exists|at: VertexAttributes, j: PcfJitter|
                crate::shader::jitter_ok(j) && self.color_buffer@[i] == shader.color_spec(
                    at,
                    *spotlight,
                    j,
                ) by {
                lemma_index_split(i, gw);
                let at0 = spec_px_attrs(*tri, ga, gb, gc, i % gw, i / gw);
                assert(crate::shader::jitter_ok(jmap[i]) && self.color_buffer@[i]
                    == shader.color_spec(at0, *spotlight, jmap[i]));
            }
        }
    }
}

/// The rasterizer's per-pixel loop invariant: visited pixels of the
/// bounding box carry the depth and the shaded color of the pixel, with
/// the drawn jitter recorded in the ghost map; untouched pixels keep their
/// old values.
spec fn raster_px_invariant(
    cur: RenderTarget,
    orig: RenderTarget,
    tri: Triangle<VertexAttributes>,
    shader: ModelShader,
    spotlight: SpotLight,
    a: Float2,
    b: Float2,
    c: Float2,
    depths: Float3,
    sx: int,
    ex: int,
    sy: int,
    ey: int,
    y: int,
    x: int,
    jmap: Map<int, PcfJitter>,
    i: int,
) -> bool {
    0 <= i < cur.depth_buffer@.len() ==> {
        let w = orig.width as int;
        let done = spec_px_done(w, sx, ex, sy, ey, y, x, i);
        let writes = spec_px_writes(
            orig.depth_buffer@[i],
            a,
            b,
            c,
            depths,
            sx,
            ex,
            sy,
            ey,
            i % w,
            i / w,
        );
        &&& cur.depth_buffer@[i] == (if done {
            spec_px_depth_after(
                orig.depth_buffer@[i],
                a,
                b,
                c,
                depths,
                sx,
                ex,
                sy,
                ey,
                i % w,
                i / w,
            )
        } else {
            orig.depth_buffer@[i]
        })
        &&& (done && writes ==> jmap.dom().contains(i) && crate::shader::jitter_ok(jmap[i])
            && cur.color_buffer@[i] == shader.color_spec(
            spec_px_attrs(tri, a, b, c, i % w, i / w),
            spotlight,
            jmap[i],
        ))
        &&& (!(done && writes) ==> cur.color_buffer@[i] == orig.color_buffer@[i])
    }
}

/// The rasterizer's per-row form of the invariant, quantified over every
/// pixel.
spec fn raster_rows_invariant(
    cur: RenderTarget,
    orig: RenderTarget,
    tri: Triangle<VertexAttributes>,
    shader: ModelShader,
    spotlight: SpotLight,
    a: Float2,
    b: Float2,
    c: Float2,
    depths: Float3,
    sx: int,
    ex: int,
    sy: int,
    ey: int,
    y: int,
    x: int,
    jmap: Map<int, PcfJitter>,
) -> bool {
    forall|i: int|
        #![trigger orig.depth_buffer@[i]]
        raster_px_invariant(
            cur,
            orig,
            tri,
            shader,
            spotlight,
            a,
            b,
            c,
            depths,
            sx,
            ex,
            sy,
            ey,
            y,
            x,
            jmap,
            i,
        )
}

/// The byte of one color channel: the fixed-point channel scaled by 255,
/// clamped into `[0, 255]`, and truncated to a whole number.
pub open spec fn spec_color_byte(v: int) -> u8 {
    let s = spec_mul(v, 16711680);
    let c = if s < 0 {
        0int
    } else if s > 16711680 {
        16711680int
    } else {
        s
    };
    (c / 65536) as u8
}

/// The byte of one color channel.
pub fn color_byte(v: i64) -> (r: u8)
    ensures
        r == spec_color_byte(v as int),
{
    let s: i64 = fx_mul(v, 16711680);
    let c: i64 = fx_clamp(s, 0, 16711680);
    ((c as u64) / 65536) as u8
}

/// Pack a color buffer into bytes: four bytes per pixel, red, green, blue
/// scaled by 255 and clamped, and a full alpha.
pub fn color_buffer_to_byte_array(
    color_buffer: &Vec<Float3>,
    width: usize,
    height: usize,
    output: &mut Vec<u8>,
)
    requires
        color_buffer@.len() >= width * height,
        old(output)@.len() >= 4 * width * height,
    ensures
        final(output)@.len() == old(output)@.len(),
        forall|i: int|
            0 <= i < width * height ==> {
                &&& final(output)@[4 * i] == spec_color_byte(color_buffer@[i].x as int)
                &&& final(output)@[4 * i + 1] == spec_color_byte(color_buffer@[i].y as int)
                &&& final(output)@[4 * i + 2] == spec_color_byte(color_buffer@[i].z as int)
                &&& final(output)@[4 * i + 3] == 255u8
            },
        forall|i: int|
            4 * width * height <= i < final(output)@.len() ==> final(output)@[i] == old(
                output,
            )@[i],
{
    let cb_len: usize = color_buffer.len();
    let out_len: usize = output.len();
    proof {
        assert(4 * ((width as int) * (height as int)) == 4 * (width as int) * (height as int))
            by (nonlinear_arith);
    }
    let n: usize = width * height;
    let mut k: usize = 0;
    while k < n
        invariant
            k <= n,
            n == width * height,
            n <= color_buffer@.len(),
            4 * n <= output@.len(),
            out_len == output@.len(),
            output@.len() == old(output)@.len(),
            forall|i: int|
                0 <= i < k ==> {
                    &&& output@[4 * i] == spec_color_byte(color_buffer@[i].x as int)
                    &&& output@[4 * i + 1] == spec_color_byte(color_buffer@[i].y as int)
                    &&& output@[4 * i + 2] == spec_color_byte(color_buffer@[i].z as int)
                    &&& output@[4 * i + 3] == 255u8
                },
            forall|i: int| 4 * n <= i < output@.len() ==> output@[i] == old(output)@[i],
        decreases n - k,
    {
        let c: Float3 = color_buffer[k];
        output.set(4 * k, color_byte(c.x));
        output.set(4 * k + 1, color_byte(c.y));
        output.set(4 * k + 2, color_byte(c.z));
        output.set(4 * k + 3, 255);
        k = k + 1;
    }
}

/// The byte of one depth value: full white for the far sentinel; otherwise
/// the depth itself, or its linearized form rescaled by the far plane,
/// scaled into a byte.
pub open spec fn spec_depth_byte(d: i64, near: int, far: int, linearized: bool) -> u8 {
    if d == DEPTH_FAR {
        255u8
    } else if linearized {
        spec_color_byte(
            spec_div(crate::shader::spec_linearize_depth(d as int, near, far), far),
        )
    } else {
        spec_color_byte(d as int)
    }
}

/// Pack a depth buffer into one byte per pixel for inspection, optionally
/// reversing the projection so that the bytes grade linearly with view
/// depth.
pub fn depth_buffer_to_byte_array(
    depth_buffer: &Vec<i64>,
    width: usize,
    height: usize,
    near: i64,
    far: i64,
    linearized: bool,
    output: &mut Vec<u8>,
)
    requires
        depth_buffer@.len() >= width * height,
        old(output)@.len() >= width * height,
    ensures
        final(output)@.len() == old(output)@.len(),
        forall|i: int|
            0 <= i < width * height ==> final(output)@[i] == spec_depth_byte(
                depth_buffer@[i],
                near as int,
                far as int,
                linearized,
            ),
        forall|i: int|
            width * height <= i < final(output)@.len() ==> final(output)@[i] == old(output)@[i],
{
    let db_len: usize = depth_buffer.len();
    let out_len: usize = output.len();
    let n: usize = width * height;
    let mut k: usize = 0;
    while k < n
        invariant
            k <= n,
            n == width * height,
            n <= depth_buffer@.len(),
            n <= output@.len(),
            out_len == output@.len(),
            output@.len() == old(output)@.len(),
            forall|i: int|
                0 <= i < k ==> output@[i] == spec_depth_byte(
                    depth_buffer@[i],
                    near as int,
                    far as int,
                    linearized,
                ),
            forall|i: int| n <= i < output@.len() ==> output@[i] == old(output)@[i],
        decreases n - k,
    {
        let d: i64 = depth_buffer[k];
        let byte: u8 = if d == DEPTH_FAR {
            255
        } else if linearized {
            color_byte(fx_div(crate::shader::linearize_depth(d, near, far), far))
        } else {
            color_byte(d)
        };
        output.set(k, byte);
        k = k + 1;
    }
}

/// Rasterize one model into the shadow map: shade its vertices into the
/// light's clip space, assemble its triangles, drop the ones whose vertices
/// share a culled plane, clip the rest against the near plane, and rasterize
/// every piece.
/// The shadow pass: every model rasterized into the depth texture from the
/// light's perspective, in order. The texture afterwards is exactly the fold
/// of the models over its starting contents, and no stored depth rises.
pub fn shadow_pass(map: &mut Texture<i64>, models: &Vec<Model>, light_vp: Float4x4)
    requires
        old(map).wf(),
        forall|mi: int| 0 <= mi < models@.len() ==> (#[trigger] models@[mi]).wf(),
    ensures
        final(map).wf(),
        final(map).width == old(map).width,
        final(map).height == old(map).height,
        final(map).image@.len() == old(map).image@.len(),
        final(map).image@ == spec_shadow_scene(
            old(map).image@,
            old(map).width as int,
            old(map).height as int,
            models@,
            light_vp,
        ),
        forall|i: int|
            0 <= i < final(map).image@.len() ==> final(map).image@[i] <= old(map).image@[i],
{
    let ghost gw = old(map).width as int;
    let ghost gh = old(map).height as int;
    let n_models: usize = models.len();
    let mut m: usize = 0;
    while m < n_models
        invariant
            m <= n_models,
            n_models == models@.len(),
            forall|mi: int| 0 <= mi < models@.len() ==> (#[trigger] models@[mi]).wf(),
            map.wf(),
            map.width == old(map).width,
            map.height == old(map).height,
            map.image@.len() == old(map).image@.len(),
            gw == old(map).width as int,
            gh == old(map).height as int,
            map.image@ == spec_shadow_scene_upto(
                old(map).image@,
                gw,
                gh,
                models@,
                light_vp,
                m as nat,
            ),
            forall|i: int|
                0 <= i < map.image@.len() ==> map.image@[i] <= old(map).image@[i],
        decreases n_models - m,
    {
        let ghost prev = map.image@;
        shadow_pass_model(map, &models[m], light_vp);
        proof {
            assert(spec_shadow_scene_upto(
                old(map).image@,
                gw,
                gh,
                models@,
                light_vp,
                (m + 1) as nat,
            ) == spec_shadow_model(
                spec_shadow_scene_upto(old(map).image@, gw, gh, models@, light_vp, m as nat),
                gw,
                gh,
                models@[m as int],
                light_vp,
            ));
        }
        m = m + 1;
    }
}

pub fn shadow_pass_model(map: &mut Texture<i64>, model: &Model, light_vp: Float4x4)
    requires
        old(map).wf(),
        model.wf(),
    ensures
        final(map).wf(),
        final(map).width == old(map).width,
        final(map).height == old(map).height,
        final(map).image@.len() == old(map).image@.len(),
        final(map).image@ == spec_shadow_model(
            old(map).image@,
            old(map).width as int,
            old(map).height as int,
            *model,
            light_vp,
        ),
        forall|i: int|
            0 <= i < final(map).image@.len() ==> final(map).image@[i] <= old(map).image@[i],
{
    let model_shader: ShadowPassShader = ShadowPassShader::new(
        model.transform.world_matrix(),
        light_vp,
    );
    let out: crate::shader::ShadowPassShaderOutput = model_shader.apply(&model.vertices);
    let len: usize = model.vertex_indices.len();
    let tri_n: usize = len / 3;
    proof {
        vstd::arithmetic::div_mod::lemma_fundamental_div_mod(len as int, 3);
    }
    let ghost gw = old(map).width as int;
    let ghost gh = old(map).height as int;
    let mut t: usize = 0;
    while t < tri_n
        invariant
            t <= tri_n,
            map.wf(),
            map.width == old(map).width,
            map.height == old(map).height,
            map.image@.len() == old(map).image@.len(),
            model.wf(),
            len == model.vertex_indices@.len(),
            tri_n == len as int / 3,
            3 * tri_n <= len,
            gw == old(map).width as int,
            gh == old(map).height as int,
            out.vertices@.len() == model.vertices@.len(),
            out.culling_bitmasks@.len() == model.vertices@.len(),
            forall|i: int|
                0 <= i < model.vertices@.len() ==> out.vertices@[i] == spec_mat_vec(
                    spec_mat_mul(
                        light_vp,
                        crate::transform::spec_world_matrix(model.transform),
                    ),
                    crate::shader::spec_from_point(model.vertices@[i]),
                ),
            forall|i: int|
                0 <= i < model.vertices@.len() ==> out.culling_bitmasks@[i] as int
                    == crate::shader::spec_culling_bitmask(out.vertices@[i]),
            map.image@ == spec_shadow_model_upto(
                old(map).image@,
                gw,
                gh,
                *model,
                light_vp,
                t as nat,
            ),
        decreases tri_n - t,
    {
        let i0: usize = model.vertex_indices[3 * t];
        let i1: usize = model.vertex_indices[3 * t + 1];
        let i2: usize = model.vertex_indices[3 * t + 2];
        let mask: u8 = out.culling_bitmasks[i0] & out.culling_bitmasks[i1]
            & out.culling_bitmasks[i2];
        let ghost img_t = map.image@;
        let ghost c0 = spec_shadow_clip_vertex(*model, light_vp, i0 as int);
        let ghost c1 = spec_shadow_clip_vertex(*model, light_vp, i1 as int);
        let ghost c2 = spec_shadow_clip_vertex(*model, light_vp, i2 as int);
        if mask == 0 {
            let tri: Triangle<EmptyAttributes> = Triangle::new(
                [out.vertices[i0], out.vertices[i1], out.vertices[i2]],
                [EmptyAttributes(()), EmptyAttributes(()), EmptyAttributes(())],
            );
            proof {
                reveal(crate::render::spec_shadow_clip_vertex);
                assert(tri.vertices[0] == c0 && tri.vertices[1] == c1 && tri.vertices[2] == c2);
            }
            let pieces: Vec<Triangle<EmptyAttributes>> = subdivide_partial_oob_triangles(tri);
            let n_pieces: usize = pieces.len();
            let ghost img0 = map.image@;
            if n_pieces >= 1 {
                raster_shadow_triangle(map, &pieces[0]);
            }
            let ghost img1 = map.image@;
            if n_pieces >= 2 {
                raster_shadow_triangle(map, &pieces[1]);
            }
            proof {
                reveal(crate::render::spec_shadow_clip_vertex);
                lemma_clip_raster_composition(img0, img1, map.image@, gw, gh, tri, pieces@);
                assert(map.image@ == spec_clip_raster_depth(img_t, gw, gh, c0, c1, c2));
                assert(map.image@ == spec_shadow_step(img_t, gw, gh, *model, light_vp, t as int));
            }
        } else {
            proof {
                reveal(crate::render::spec_shadow_clip_vertex);
                assert(map.image@ == spec_shadow_step(img_t, gw, gh, *model, light_vp, t as int));
            }
        }
        proof {
            assert(spec_shadow_model_upto(
                old(map).image@,
                gw,
                gh,
                *model,
                light_vp,
                (t + 1) as nat,
            ) == spec_shadow_step(
                spec_shadow_model_upto(old(map).image@, gw, gh, *model, light_vp, t as nat),
                gw,
                gh,
                *model,
                light_vp,
                t as int,
            ));
        }
        t = t + 1;
    }
    proof {
        lemma_shadow_model_upto_le(old(map).image@, gw, gh, *model, light_vp, tri_n as nat);
    }
}

impl RenderTarget {
    /// Clip one clip-space triangle against the near plane and rasterize
    /// every piece, in order. The depth buffer afterwards is exactly the
    /// clip-then-raster fold of the triangle; a pixel whose depth is
    /// unchanged keeps its color, and a pixel whose depth changed holds a
    /// color the shader produced for some in-range jitter.
    pub fn raster_clipped_triangle(
        &mut self,
        tri: &Triangle<VertexAttributes>,
        shader: &ModelShader,
        spotlight: &SpotLight,
    )
        requires
            old(self).wf(),
            shader.shader_wf(),
            spotlight.shadow_map.wf(),
        ensures
            final(self).wf(),
            final(self).width == old(self).width,
            final(self).height == old(self).height,
            final(self).size == old(self).size,
            final(self).color_buffer@.len() == old(self).color_buffer@.len(),
            final(self).depth_buffer@.len() == old(self).depth_buffer@.len(),
            final(self).depth_buffer@ == spec_clip_raster_depth(
                old(self).depth_buffer@,
                old(self).width as int,
                old(self).height as int,
                tri.vertices[0],
                tri.vertices[1],
                tri.vertices[2],
            ),
            forall|i: int|
                0 <= i < final(self).depth_buffer@.len() ==> #[trigger] final(self).depth_buffer@[i]
                    <= old(self).depth_buffer@[i],
            forall|i: int|
                #![trigger final(self).depth_buffer@[i]]
                0 <= i < final(self).depth_buffer@.len() && final(self).depth_buffer@[i]
                    == old(self).depth_buffer@[i] ==> final(self).color_buffer@[i]
                    == old(self).color_buffer@[i],
            forall|i: int|
                #![trigger final(self).depth_buffer@[i]]
                0 <= i < final(self).depth_buffer@.len() && final(self).depth_buffer@[i]
                    != old(self).depth_buffer@[i] ==> exists|at: VertexAttributes, j: PcfJitter|
                    crate::shader::jitter_ok(j) && final(self).color_buffer@[i]
                        == shader.color_spec(at, *spotlight, j),
    {
        let ghost gw = old(self).width as int;
        let ghost gh = old(self).height as int;
        let pieces: Vec<Triangle<VertexAttributes>> = subdivide_partial_oob_triangles(*tri);
        let n_pieces: usize = pieces.len();
        let ghost img0 = self.depth_buffer@;
        if n_pieces >= 1 {
            let ghost pd = self.depth_buffer@;
            let ghost pc = self.color_buffer@;
            self.raster_color_triangle(&pieces[0], shader, spotlight);
            proof {
                lemma_raster_depth_seq_le(
                    pd,
                    gw,
                    gh,
                    pieces@[0].vertices[0],
                    pieces@[0].vertices[1],
                    pieces@[0].vertices[2],
                );
                lemma_color_chain(
                    old(self).depth_buffer@,
                    old(self).color_buffer@,
                    pd,
                    pc,
                    self.depth_buffer@,
                    self.color_buffer@,
                    *shader,
                    *spotlight,
                );
            }
        }
        let ghost img1 = self.depth_buffer@;
        if n_pieces >= 2 {
            let ghost pd = self.depth_buffer@;
            let ghost pc = self.color_buffer@;
            self.raster_color_triangle(&pieces[1], shader, spotlight);
            proof {
                lemma_raster_depth_seq_le(
                    pd,
                    gw,
                    gh,
                    pieces@[1].vertices[0],
                    pieces@[1].vertices[1],
                    pieces@[1].vertices[2],
                );
                lemma_color_chain(
                    old(self).depth_buffer@,
                    old(self).color_buffer@,
                    pd,
                    pc,
                    self.depth_buffer@,
                    self.color_buffer@,
                    *shader,
                    *spotlight,
                );
            }
        }
        proof {
            lemma_clip_raster_composition(
                img0,
                img1,
                self.depth_buffer@,
                gw,
                gh,
                *tri,
                pieces@,
            );
        }
    }

    /// Rasterize one model into the color and depth buffers: shade its
    /// vertices into the camera's and the light's clip spaces, assemble its
    /// triangles with their attribute bundles, cull, clip, and rasterize
    /// every piece with the model's pixel shader.
    ///
    /// The depth buffer afterwards is exactly the model's triangles folded
    /// over it in order; a pixel whose depth is unchanged keeps its color,
    /// and a pixel whose depth changed holds a color the model's shader
    /// produced for some in-range jitter.
    #[verifier::rlimit(100)]
    #[verifier::spinoff_prover]
    pub fn color_pass_model(
        &mut self,
        model: &Model,
        camera_vp: Float4x4,
        light_vp: Float4x4,
        spotlight: &SpotLight,
    )
        requires
            old(self).wf(),
            model.wf(),
            spotlight.shadow_map.wf(),
        ensures
            final(self).wf(),
            final(self).width == old(self).width,
            final(self).height == old(self).height,
            final(self).size == old(self).size,
            final(self).color_buffer@.len() == old(self).color_buffer@.len(),
            final(self).depth_buffer@.len() == old(self).depth_buffer@.len(),
            final(self).depth_buffer@ == spec_color_model_depth(
                old(self).depth_buffer@,
                old(self).width as int,
                old(self).height as int,
                *model,
                camera_vp,
            ),
            forall|i: int|
                0 <= i < final(self).depth_buffer@.len() ==> #[trigger] final(self).depth_buffer@[i] <= old(self).depth_buffer@[i],
            forall|i: int|
                #![trigger final(self).depth_buffer@[i]]
                0 <= i < final(self).depth_buffer@.len() && final(self).depth_buffer@[i] == old(self).depth_buffer@[i] ==> final(self).color_buffer@[i] == old(self).color_buffer@[i],
            forall|i: int|
                #![trigger final(self).depth_buffer@[i]]
                0 <= i < final(self).depth_buffer@.len() && final(self).depth_buffer@[i] != old(self).depth_buffer@[i] ==> exists|at: VertexAttributes, j: PcfJitter|
                    crate::shader::jitter_ok(j) && final(self).color_buffer@[i]
                        == model.shader.color_spec(at, *spotlight, j),
    {
        let model_shader: RenderPassShader = RenderPassShader::new(
            model.transform.world_matrix(),
            camera_vp,
            light_vp,
            model.transform.get_inverse_rotation(),
        );
        let out: crate::shader::RenderPassShaderOutput = model_shader.apply(
            &model.vertices,
            &model.normals,
        );
        let len: usize = model.vertex_indices.len();
        let tri_n: usize = len / 3;
        proof {
            vstd::arithmetic::div_mod::lemma_fundamental_div_mod(len as int, 3);
        }
        let ghost gw = old(self).width as int;
        let ghost gh = old(self).height as int;
        proof {
            reveal(crate::render::spec_color_clip_vertex);
            assert forall|vi: int| 0 <= vi < model.vertices@.len() implies out.vertices@[vi]
                == spec_color_clip_vertex(*model, camera_vp, vi) by {}
        }
        let mut t: usize = 0;
        while t < tri_n
            invariant
                t <= tri_n,
                self.wf(),
                self.width == old(self).width,
                self.height == old(self).height,
                self.size == old(self).size,
                self.color_buffer@.len() == old(self).color_buffer@.len(),
                self.depth_buffer@.len() == old(self).depth_buffer@.len(),
                model.wf(),
                spotlight.shadow_map.wf(),
                len == model.vertex_indices@.len(),
                tri_n == len as int / 3,
                3 * tri_n <= len,
                gw == old(self).width as int,
                gh == old(self).height as int,
                out.vertices@.len() == model.vertices@.len(),
                out.culling_bitmasks@.len() == model.vertices@.len(),
                out.light_vertices@.len() == model.vertices@.len(),
                out.vertices_attr@.len() == model.vertices@.len(),
                out.normals@.len() == model.normals@.len(),
                forall|i: int|
                    0 <= i < model.vertices@.len() ==> out.vertices@[i] == spec_color_clip_vertex(
                        *model,
                        camera_vp,
                        i,
                    ),
                forall|i: int|
                    0 <= i < model.vertices@.len() ==> out.culling_bitmasks@[i] as int
                        == crate::shader::spec_culling_bitmask(out.vertices@[i]),
                self.depth_buffer@ == spec_color_depth_upto(
                    old(self).depth_buffer@,
                    gw,
                    gh,
                    *model,
                    camera_vp,
                    t as nat,
                ),
                forall|i: int|
                    0 <= i < self.depth_buffer@.len() ==> #[trigger] self.depth_buffer@[i] <= old(self).depth_buffer@[i],
                forall|i: int|
                    #![trigger self.depth_buffer@[i]]
                    0 <= i < self.depth_buffer@.len() && self.depth_buffer@[i] == old(self).depth_buffer@[i] ==> self.color_buffer@[i] == old(self).color_buffer@[i],
                forall|i: int|
                    #![trigger self.depth_buffer@[i]]
                    0 <= i < self.depth_buffer@.len() && self.depth_buffer@[i] != old(self).depth_buffer@[i] ==> exists|at: VertexAttributes, j: PcfJitter|
                        crate::shader::jitter_ok(j) && self.color_buffer@[i]
                            == model.shader.color_spec(at, *spotlight, j),
            decreases tri_n - t,
        {
            let i0: usize = model.vertex_indices[3 * t];
            let i1: usize = model.vertex_indices[3 * t + 1];
            let i2: usize = model.vertex_indices[3 * t + 2];
            let mask: u8 = out.culling_bitmasks[i0] & out.culling_bitmasks[i1]
                & out.culling_bitmasks[i2];
            let ghost img_t = self.depth_buffer@;
            let ghost c0 = spec_color_clip_vertex(*model, camera_vp, i0 as int);
            let ghost c1 = spec_color_clip_vertex(*model, camera_vp, i1 as int);
            let ghost c2 = spec_color_clip_vertex(*model, camera_vp, i2 as int);
            if mask == 0 {
                let uv0: usize = model.texture_coord_indices[3 * t];
                let uv1: usize = model.texture_coord_indices[3 * t + 1];
                let uv2: usize = model.texture_coord_indices[3 * t + 2];
                let n0: usize = model.normal_indices[3 * t];
                let n1: usize = model.normal_indices[3 * t + 1];
                let n2: usize = model.normal_indices[3 * t + 2];
                let tri: Triangle<VertexAttributes> = Triangle::new(
                    [out.vertices[i0], out.vertices[i1], out.vertices[i2]],
                    [
                        VertexAttributes::new(
                            out.vertices_attr[i0],
                            out.light_vertices[i0],
                            model.texture_coords[uv0],
                            out.normals[n0],
                        ),
                        VertexAttributes::new(
                            out.vertices_attr[i1],
                            out.light_vertices[i1],
                            model.texture_coords[uv1],
                            out.normals[n1],
                        ),
                        VertexAttributes::new(
                            out.vertices_attr[i2],
                            out.light_vertices[i2],
                            model.texture_coords[uv2],
                            out.normals[n2],
                        ),
                    ],
                );
                proof {
                    assert(tri.vertices[0] == c0 && tri.vertices[1] == c1 && tri.vertices[2]
                        == c2);
                }
                let ghost pd = self.depth_buffer@;
                let ghost pc = self.color_buffer@;
                self.raster_clipped_triangle(&tri, &model.shader, spotlight);
                proof {
                    lemma_color_chain(
                        old(self).depth_buffer@,
                        old(self).color_buffer@,
                        pd,
                        pc,
                        self.depth_buffer@,
                        self.color_buffer@,
                        model.shader,
                        *spotlight,
                    );
                    assert(self.depth_buffer@ == spec_clip_raster_depth(img_t, gw, gh, c0, c1, c2));
                    assert(self.depth_buffer@ == spec_color_step(
                        img_t,
                        gw,
                        gh,
                        *model,
                        camera_vp,
                        t as int,
                    ));
                }
            } else {
                proof {
                    assert(self.depth_buffer@ == spec_color_step(
                        img_t,
                        gw,
                        gh,
                        *model,
                        camera_vp,
                        t as int,
                    ));
                }
            }
            proof {
                assert(spec_color_depth_upto(
                    old(self).depth_buffer@,
                    gw,
                    gh,
                    *model,
                    camera_vp,
                    (t + 1) as nat,
                ) == spec_color_step(
                    spec_color_depth_upto(
                        old(self).depth_buffer@,
                        gw,
                        gh,
                        *model,
                        camera_vp,
                        t as nat,
                    ),
                    gw,
                    gh,
                    *model,
                    camera_vp,
                    t as int,
                ));
            }
            t = t + 1;
        }
    }

    /// Render the scene in two passes. The shadow map is first cleared to
    /// its far sentinel and filled with the scene's depth as seen from the
    /// spotlight; the color pass then shades every model against the camera,
    /// sampling that shadow map. The target's own buffers are cleared by
    /// [`clear`](RenderTarget::clear), which the frame driver calls first.
    ///
    /// The shadow map afterwards is exactly the models folded, in order,
    /// over the cleared map, and the depth buffer is exactly the models
    /// folded over its starting contents. A pixel whose depth is unchanged
    /// keeps its color; a pixel whose depth changed holds a color that one
    /// of the scene's shaders produced, against the finished shadow map, for
    /// some in-range jitter.
    #[verifier::rlimit(100)]
    #[verifier::spinoff_prover]
    pub fn render(&mut self, scene: &mut Scene)
        requires
            old(self).wf(),
            old(scene).wf(),
        ensures
            final(self).wf(),
            final(self).width == old(self).width,
            final(self).height == old(self).height,
            final(scene).wf(),
            final(scene).models == old(scene).models,
            final(scene).camera == old(scene).camera,
            final(scene).spotlight.camera == old(scene).spotlight.camera,
            final(scene).spotlight.position == old(scene).spotlight.position,
            final(scene).spotlight.target == old(scene).spotlight.target,
            final(scene).spotlight.angle == old(scene).spotlight.angle,
            final(scene).spotlight.color == old(scene).spotlight.color,
            final(scene).spotlight.shadow_map.width == old(scene).spotlight.shadow_map.width,
            final(scene).spotlight.shadow_map.height == old(scene).spotlight.shadow_map.height,
            final(scene).spotlight.shadow_map.image@ == spec_shadow_scene(
                Seq::new(old(scene).spotlight.shadow_map.image@.len(), |i: int| FX_ONE),
                old(scene).spotlight.shadow_map.width as int,
                old(scene).spotlight.shadow_map.height as int,
                old(scene).models@,
                spec_view_proj(old(scene).spotlight.camera),
            ),
            final(self).depth_buffer@.len() == old(self).depth_buffer@.len(),
            final(self).color_buffer@.len() == old(self).color_buffer@.len(),
            final(self).depth_buffer@ == spec_color_scene_depth(
                old(self).depth_buffer@,
                old(self).width as int,
                old(self).height as int,
                old(scene).models@,
                spec_view_proj(old(scene).camera),
            ),
            forall|i: int|
                0 <= i < final(self).depth_buffer@.len() ==> #[trigger] final(self).depth_buffer@[i]
                    <= old(self).depth_buffer@[i],
            forall|i: int|
                #![trigger final(self).depth_buffer@[i]]
                0 <= i < final(self).depth_buffer@.len() && final(self).depth_buffer@[i]
                    == old(self).depth_buffer@[i] ==> final(self).color_buffer@[i]
                    == old(self).color_buffer@[i],
            forall|i: int|
                #![trigger final(self).depth_buffer@[i]]
                0 <= i < final(self).depth_buffer@.len() && final(self).depth_buffer@[i]
                    != old(self).depth_buffer@[i] ==> exists|mi: int, at: VertexAttributes, j: PcfJitter|
                    0 <= mi < old(scene).models@.len() && crate::shader::jitter_ok(j)
                        && final(self).color_buffer@[i] == old(scene).models@[mi].shader.color_spec(
                        at,
                        final(scene).spotlight,
                        j,
                    ),
            forall|i: int|
                0 <= i < final(scene).spotlight.shadow_map.image@.len()
                    ==> final(scene).spotlight.shadow_map.image@[i] <= FX_ONE,
            old(scene).models@.len() == 0 ==> final(self).color_buffer@
                == old(self).color_buffer@ && final(self).depth_buffer@
                == old(self).depth_buffer@,
            old(scene).models@.len() == 0 ==> forall|i: int|
                0 <= i < final(scene).spotlight.shadow_map.image@.len()
                    ==> final(scene).spotlight.shadow_map.image@[i] == FX_ONE,
    {
        let ghost g_init = Seq::new(
            old(scene).spotlight.shadow_map.image@.len(),
            |i: int| FX_ONE,
        );
        scene.spotlight.shadow_map.fill(FX_ONE);
        proof {
            assert(scene.spotlight.shadow_map.image@ =~= g_init);
        }
        let light_vp: Float4x4 = view_proj_matrix(&scene.spotlight.camera);
        shadow_pass(&mut scene.spotlight.shadow_map, &scene.models, light_vp);

        let camera_vp: Float4x4 = view_proj_matrix(&scene.camera);
        self.color_pass(&scene.models, camera_vp, light_vp, &scene.spotlight);
        proof {
            if old(scene).models@.len() == 0 {
                assert(self.depth_buffer@ == old(self).depth_buffer@);
                assert forall|i: int| 0 <= i < self.color_buffer@.len() implies
                    self.color_buffer@[i] == old(self).color_buffer@[i] by {
                    assert(self.depth_buffer@[i] == old(self).depth_buffer@[i]);
                }
                assert(self.color_buffer@ =~= old(self).color_buffer@);
            }
        }
    }

    /// The color pass: every model shaded against the camera and rasterized
    /// into the buffers, in order. The depth buffer afterwards is exactly
    /// the fold of the models; a pixel whose depth is unchanged keeps its
    /// color, and a pixel whose depth changed holds a color that one of the
    /// models' shaders produced for some in-range jitter.
    pub fn color_pass(
        &mut self,
        models: &Vec<Model>,
        camera_vp: Float4x4,
        light_vp: Float4x4,
        spotlight: &SpotLight,
    )
        requires
            old(self).wf(),
            forall|mi: int| 0 <= mi < models@.len() ==> (#[trigger] models@[mi]).wf(),
            spotlight.shadow_map.wf(),
        ensures
            final(self).wf(),
            final(self).width == old(self).width,
            final(self).height == old(self).height,
            final(self).size == old(self).size,
            final(self).color_buffer@.len() == old(self).color_buffer@.len(),
            final(self).depth_buffer@.len() == old(self).depth_buffer@.len(),
            final(self).depth_buffer@ == spec_color_scene_depth(
                old(self).depth_buffer@,
                old(self).width as int,
                old(self).height as int,
                models@,
                camera_vp,
            ),
            forall|i: int|
                0 <= i < final(self).depth_buffer@.len() ==> #[trigger] final(self).depth_buffer@[i]
                    <= old(self).depth_buffer@[i],
            forall|i: int|
                #![trigger final(self).depth_buffer@[i]]
                0 <= i < final(self).depth_buffer@.len() && final(self).depth_buffer@[i]
                    == old(self).depth_buffer@[i] ==> final(self).color_buffer@[i]
                    == old(self).color_buffer@[i],
            forall|i: int|
                #![trigger final(self).depth_buffer@[i]]
                0 <= i < final(self).depth_buffer@.len() && final(self).depth_buffer@[i]
                    != old(self).depth_buffer@[i] ==> exists|mi: int, at: VertexAttributes, j: PcfJitter|
                    0 <= mi < models@.len() && crate::shader::jitter_ok(j)
                        && final(self).color_buffer@[i] == models@[mi].shader.color_spec(
                        at,
                        *spotlight,
                        j,
                    ),
    {
        let ghost gw = old(self).width as int;
        let ghost gh = old(self).height as int;
        let n_models: usize = models.len();
        let mut m2: usize = 0;
        while m2 < n_models
            invariant
                m2 <= n_models,
                n_models == models@.len(),
                forall|mi: int| 0 <= mi < models@.len() ==> (#[trigger] models@[mi]).wf(),
                spotlight.shadow_map.wf(),
                self.wf(),
                self.width == old(self).width,
                self.height == old(self).height,
                self.size == old(self).size,
                self.color_buffer@.len() == old(self).color_buffer@.len(),
                self.depth_buffer@.len() == old(self).depth_buffer@.len(),
                gw == old(self).width as int,
                gh == old(self).height as int,
                self.depth_buffer@ == spec_color_scene_depth_upto(
                    old(self).depth_buffer@,
                    gw,
                    gh,
                    models@,
                    camera_vp,
                    m2 as nat,
                ),
                forall|i: int|
                    0 <= i < self.depth_buffer@.len() ==> #[trigger] self.depth_buffer@[i] <= old(
                        self,
                    ).depth_buffer@[i],
                forall|i: int|
                    #![trigger self.depth_buffer@[i]]
                    0 <= i < self.depth_buffer@.len() && self.depth_buffer@[i] == old(
                        self,
                    ).depth_buffer@[i] ==> self.color_buffer@[i] == old(self).color_buffer@[i],
                forall|i: int|
                    #![trigger self.depth_buffer@[i]]
                    0 <= i < self.depth_buffer@.len() && self.depth_buffer@[i] != old(
                        self,
                    ).depth_buffer@[i] ==> exists|mi: int, at: VertexAttributes, j: PcfJitter|
                        0 <= mi < models@.len() && crate::shader::jitter_ok(j)
                            && self.color_buffer@[i] == models@[mi].shader.color_spec(
                            at,
                            *spotlight,
                            j,
                        ),
            decreases n_models - m2,
        {
            let ghost pd = self.depth_buffer@;
            let ghost pc = self.color_buffer@;
            self.color_pass_model(&models[m2], camera_vp, light_vp, spotlight);
            proof {
                assert forall|i: int|
                    #![trigger self.depth_buffer@[i]]
                    0 <= i < self.depth_buffer@.len() && self.depth_buffer@[i] != old(
                        self,
                    ).depth_buffer@[i] implies exists|mi: int, at: VertexAttributes, j: PcfJitter|
                    0 <= mi < models@.len() && crate::shader::jitter_ok(j)
                        && self.color_buffer@[i] == models@[mi].shader.color_spec(
                        at,
                        *spotlight,
                        j,
                    ) by {
                    if self.depth_buffer@[i] != pd[i] {
                        let (at0, j0) = choose|at: VertexAttributes, j: PcfJitter|
                            crate::shader::jitter_ok(j) && self.color_buffer@[i]
                                == models@[m2 as int].shader.color_spec(at, *spotlight, j);
                        assert(0 <= m2 as int && (m2 as int) < models@.len()
                            && crate::shader::jitter_ok(j0) && self.color_buffer@[i]
                            == models@[m2 as int].shader.color_spec(at0, *spotlight, j0));
                    } else {
                        assert(pd[i] != old(self).depth_buffer@[i]);
                        let (mi0, at0, j0) = choose|mi: int, at: VertexAttributes, j: PcfJitter|
                            0 <= mi < models@.len() && crate::shader::jitter_ok(j) && pc[i]
                                == models@[mi].shader.color_spec(at, *spotlight, j);
                        assert(0 <= mi0 < models@.len() && crate::shader::jitter_ok(j0)
                            && self.color_buffer@[i] == models@[mi0].shader.color_spec(
                            at0,
                            *spotlight,
                            j0,
                        ));
                    }
                }
                assert(spec_color_scene_depth_upto(
                    old(self).depth_buffer@,
                    gw,
                    gh,
                    models@,
                    camera_vp,
                    (m2 + 1) as nat,
                ) == spec_color_model_depth(
                    spec_color_scene_depth_upto(
                        old(self).depth_buffer@,
                        gw,
                        gh,
                        models@,
                        camera_vp,
                        m2 as nat,
                    ),
                    gw,
                    gh,
                    models@[m2 as int],
                    camera_vp,
                ));
            }
            m2 = m2 + 1;
        }
    }
}

/// The depth test never raises a stored depth: a rasterized pixel either
/// keeps its value or takes a strictly smaller one.
pub proof fn lemma_px_depth_after_le(
    old_val: i64,
    a: Float2,
    b: Float2,
    c: Float2,
    depths: Float3,
    sx: int,
    ex: int,
    sy: int,
    ey: int,
    px: int,
    py: int,
)
    ensures
        spec_px_depth_after(old_val, a, b, c, depths, sx, ex, sy, ey, px, py) <= old_val,
{
}

/// Rasterizing the same triangle a second time leaves the whole depth
/// buffer exactly as the first pass left it: no fragment's depth is ever
/// strictly below the depth it has just written, so (by the rasterizer's
/// contract) the colors stay too.
pub proof fn lemma_raster_depth_seq_idempotent(
    img: Seq<i64>,
    w: int,
    h: int,
    v0: Float4,
    v1: Float4,
    v2: Float4,
)
    ensures
        spec_raster_depth_seq(
            spec_raster_depth_seq(img, w, h, v0, v1, v2),
            w,
            h,
            v0,
            v1,
            v2,
        ) == spec_raster_depth_seq(img, w, h, v0, v1, v2),
{
    let once = spec_raster_depth_seq(img, w, h, v0, v1, v2);
    let twice = spec_raster_depth_seq(once, w, h, v0, v1, v2);
    let a = spec_to_screen(v0, w * 65536, h * 65536);
    let b = spec_to_screen(v1, w * 65536, h * 65536);
    let c = spec_to_screen(v2, w * 65536, h * 65536);
    if spec_double_area(a, b, c) > 0 {
        assert forall|i: int| 0 <= i < once.len() implies twice[i] == once[i] by {
            let depths = spec_tri_depths(v0, v1, v2);
            lemma_depth_test_idempotent(
                img[i],
                a,
                b,
                c,
                depths,
                spec_px_floor_clamp(min3(a.x as int, b.x as int, c.x as int), w),
                spec_px_ceil_clamp(max3(a.x as int, b.x as int, c.x as int), w),
                spec_px_floor_clamp(min3(a.y as int, b.y as int, c.y as int), h),
                spec_px_ceil_clamp(max3(a.y as int, b.y as int, c.y as int), h),
                i % w,
                i / w,
            );
        }
        assert(twice =~= once);
    }
}

/// The depth test is idempotent: rasterizing the same triangle a second
/// time writes nothing, because a fragment's depth is never strictly below
/// the depth it has just written, so both the depth at each pixel and (by
/// the rasterizer's contract) the color stay exactly as after the first
/// pass.
pub proof fn lemma_depth_test_idempotent(
    old_val: i64,
    a: Float2,
    b: Float2,
    c: Float2,
    depths: Float3,
    sx: int,
    ex: int,
    sy: int,
    ey: int,
    px: int,
    py: int,
)
    ensures
        !spec_px_writes(
            spec_px_depth_after(old_val, a, b, c, depths, sx, ex, sy, ey, px, py),
            a,
            b,
            c,
            depths,
            sx,
            ex,
            sy,
            ey,
            px,
            py,
        ),
        spec_px_depth_after(
            spec_px_depth_after(old_val, a, b, c, depths, sx, ex, sy, ey, px, py),
            a,
            b,
            c,
            depths,
            sx,
            ex,
            sy,
            ey,
            px,
            py,
        ) == spec_px_depth_after(old_val, a, b, c, depths, sx, ex, sy, ey, px, py),
{
}

/// The smallest of three values.
pub open spec fn min3(a: int, b: int, c: int) -> int {
    let m = if a <= b {
        a
    } else {
        b
    };
    if m <= c {
        m
    } else {
        c
    }
}

/// The largest of three values.
pub open spec fn max3(a: int, b: int, c: int) -> int {
    let m = if a >= b {
        a
    } else {
        b
    };
    if m >= c {
        m
    } else {
        c
    }
}

} // verus!
