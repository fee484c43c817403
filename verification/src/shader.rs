//! The vertex-shader stage of the two render passes and the pixel shaders
//! that color covered fragments, including percentage-closer filtering of
//! the shadow map.

use vstd::prelude::*;
use crate::fx::{
    FX_ONE, spec_add, spec_sub, spec_mul, spec_div, spec_cos, spec_gamma, div_trunc, fx_add,
    fx_sub, fx_mul, fx_div, fx_divn, fx_clamp, fx_cos, fx_gamma,
};
use crate::math::{
    Float2, Float3, Float4, Float4x4, spec_mat_mul, spec_mat_vec, spec_xyz, spec_f3_scale,
    spec_f3_add, spec_f3_mul, spec_dot3, spec_norm3,
};
use crate::fx::spec_max0;
use crate::clip::VertexAttributes;
use crate::light::SpotLight;
use crate::texture::Texture;
use crate::transform::{spec_normalized3, spec_f3_sub};

verus! {

/// A model-space point as a homogeneous point, at spec level.
pub open spec fn spec_from_point(p: Float3) -> Float4 {
    Float4 { x: p.x, y: p.y, z: p.z, w: FX_ONE }
}

/// A model-space direction as a homogeneous direction, at spec level.
pub open spec fn spec_from_vector(v: Float3) -> Float4 {
    Float4 { x: v.x, y: v.y, z: v.z, w: 0i64 }
}

/// The frustum culling bitmask of a clip-space vertex: one bit per
/// half-space test. Bit six holds `w >= 0`; bits five and four hold
/// `x + w >= 0` and `x - w <= 0`; bits three and two the same for `y`; bits
/// one and zero the same for `z`. A triangle whose three masks share a set
/// bit lies entirely outside one plane and can be rejected.
pub open spec fn spec_culling_bitmask(v: Float4) -> int {
    (if v.w >= 0 {
        64int
    } else {
        0int
    }) + (if spec_add(v.x as int, v.w as int) >= 0 {
        32int
    } else {
        0int
    }) + (if spec_sub(v.x as int, v.w as int) <= 0 {
        16int
    } else {
        0int
    }) + (if spec_add(v.y as int, v.w as int) >= 0 {
        8int
    } else {
        0int
    }) + (if spec_sub(v.y as int, v.w as int) <= 0 {
        4int
    } else {
        0int
    }) + (if spec_add(v.z as int, v.w as int) >= 0 {
        2int
    } else {
        0int
    }) + (if spec_sub(v.z as int, v.w as int) <= 0 {
        1int
    } else {
        0int
    })
}

/// Compute the culling bitmask of one clip-space vertex.
pub fn culling_bitmask(vertex: &Float4) -> (r: u8)
    ensures
        r as int == spec_culling_bitmask(*vertex),
{
    let b6: u8 = if vertex.w >= 0 {
        64
    } else {
        0
    };
    let b5: u8 = if fx_add(vertex.x, vertex.w) >= 0 {
        32
    } else {
        0
    };
    let b4: u8 = if fx_sub(vertex.x, vertex.w) <= 0 {
        16
    } else {
        0
    };
    let b3: u8 = if fx_add(vertex.y, vertex.w) >= 0 {
        8
    } else {
        0
    };
    let b2: u8 = if fx_sub(vertex.y, vertex.w) <= 0 {
        4
    } else {
        0
    };
    let b1: u8 = if fx_add(vertex.z, vertex.w) >= 0 {
        2
    } else {
        0
    };
    let b0: u8 = if fx_sub(vertex.z, vertex.w) <= 0 {
        1
    } else {
        0
    };
    b6 + b5 + b4 + b3 + b2 + b1 + b0
}

/// A vertex shader: carries model-space input into clip space.
pub trait VertexShader<I, O> {
    /// Apply the shader to its input.
    fn transform(&self, input: &I) -> O;
}

/// Vertex shader of the shadow pass: one matrix pair, from model space to
/// the light's clip space.
pub struct ShadowPassShader {
    /// Homogeneous matrix from model space to world space.
    pub model_world_matrix: Float4x4,
    /// Homogeneous matrix from world space to the light's projected view
    /// space.
    pub light_view_proj_matrix: Float4x4,
}

/// Input to the shadow pass vertex shader.
pub struct ShadowPassShaderInput<'a> {
    /// Vertices in model space.
    pub vertices: &'a Vec<Float3>,
}

impl<'a> ShadowPassShaderInput<'a> {
    /// Wrap the model-space vertices.
    pub fn new(vertices: &'a Vec<Float3>) -> (r: ShadowPassShaderInput<'a>)
        ensures
            r.vertices == vertices,
    {
        ShadowPassShaderInput { vertices }
    }
}

/// Output of the shadow pass vertex shader.
pub struct ShadowPassShaderOutput {
    /// Transformed homogeneous vertices in the light's clip space.
    pub vertices: Vec<Float4>,
    /// Culling bitmask of each vertex.
    pub culling_bitmasks: Vec<u8>,
}

impl ShadowPassShader {
    /// Build the shader from its two matrices.
    pub fn new(model_world_matrix: Float4x4, light_view_proj_matrix: Float4x4) -> (r:
        ShadowPassShader)
        ensures
            r.model_world_matrix == model_world_matrix,
            r.light_view_proj_matrix == light_view_proj_matrix,
    {
        ShadowPassShader { model_world_matrix, light_view_proj_matrix }
    }

    /// Carry every model-space vertex into the light's clip space and
    /// compute its culling bitmask.
    pub fn apply(&self, vertices: &Vec<Float3>) -> (out: ShadowPassShaderOutput)
        ensures
            out.vertices@.len() == vertices@.len(),
            out.culling_bitmasks@.len() == vertices@.len(),
            forall|i: int|
                0 <= i < vertices@.len() ==> out.vertices@[i] == spec_mat_vec(
                    spec_mat_mul(self.light_view_proj_matrix, self.model_world_matrix),
                    spec_from_point(vertices@[i]),
                ),
            forall|i: int|
                0 <= i < vertices@.len() ==> out.culling_bitmasks@[i] as int
                    == spec_culling_bitmask(out.vertices@[i]),
    {
        let transformation: Float4x4 = self.light_view_proj_matrix.mul(&self.model_world_matrix);
        let n: usize = vertices.len();
        let mut out_vertices: Vec<Float4> = Vec::new();
        let mut k: usize = 0;
        while k < n
            invariant
                k <= n,
                n == vertices@.len(),
                out_vertices@.len() == k,
                transformation == spec_mat_mul(
                    self.light_view_proj_matrix,
                    self.model_world_matrix,
                ),
                forall|i: int|
                    0 <= i < k ==> out_vertices@[i] == spec_mat_vec(
                        spec_mat_mul(self.light_view_proj_matrix, self.model_world_matrix),
                        spec_from_point(vertices@[i]),
                    ),
            decreases n - k,
        {
            let v: Float4 = transformation.mul_vec(&Float4::from_point(vertices[k]));
            out_vertices.push(v);
            k = k + 1;
        }
        let mut masks: Vec<u8> = Vec::new();
        let mut k2: usize = 0;
        while k2 < n
            invariant
                k2 <= n,
                n == out_vertices@.len(),
                masks@.len() == k2,
                forall|i: int|
                    0 <= i < k2 ==> masks@[i] as int == spec_culling_bitmask(out_vertices@[i]),
            decreases n - k2,
        {
            let m: u8 = culling_bitmask(&out_vertices[k2]);
            masks.push(m);
            k2 = k2 + 1;
        }
        ShadowPassShaderOutput { vertices: out_vertices, culling_bitmasks: masks }
    }
}

impl<'a> VertexShader<ShadowPassShaderInput<'a>, ShadowPassShaderOutput> for ShadowPassShader {
    fn transform(&self, input: &ShadowPassShaderInput<'a>) -> ShadowPassShaderOutput {
        self.apply(input.vertices)
    }
}

/// Vertex shader of the color pass: carries model-space vertices into the
/// camera's and the light's clip spaces at once, and rotates normals into
/// world space.
pub struct RenderPassShader {
    /// Homogeneous matrix from model space to world space.
    pub model_world_matrix: Float4x4,
    /// Homogeneous matrix from world space to the camera's projected view
    /// space.
    pub camera_view_proj_matrix: Float4x4,
    /// Homogeneous matrix from world space to the light's projected view
    /// space.
    pub light_view_proj_matrix: Float4x4,
    /// The rotation part alone of the model-to-world transform: normals are
    /// rotated by it, never scaled, before renormalizing.
    pub normal_matrix: Float4x4,
}

/// Input to the color pass vertex shader.
pub struct RenderPassShaderInput<'a, 'b> {
    /// Vertices in model space.
    pub vertices: &'a Vec<Float3>,
    /// Normals in model space.
    pub normals: &'b Vec<Float3>,
}

impl<'a, 'b> RenderPassShaderInput<'a, 'b> {
    /// Wrap the model-space vertices and normals.
    pub fn new(vertices: &'a Vec<Float3>, normals: &'b Vec<Float3>) -> (r: RenderPassShaderInput<
        'a,
        'b,
    >)
        ensures
            r.vertices == vertices,
            r.normals == normals,
    {
        RenderPassShaderInput { vertices, normals }
    }
}

/// Output of the color pass vertex shader.
pub struct RenderPassShaderOutput {
    /// Transformed homogeneous vertices in the camera's clip space.
    pub vertices: Vec<Float4>,
    /// Culling bitmask of each vertex.
    pub culling_bitmasks: Vec<u8>,
    /// Transformed homogeneous vertices in the light's clip space.
    pub light_vertices: Vec<Float4>,
    /// Transformed vertices in world space, after the perspective divide.
    pub vertices_attr: Vec<Float3>,
    /// Normals rotated into world space and re-normalized.
    pub normals: Vec<Float3>,
}

/// A world-space vertex of the color pass, before projection.
pub open spec fn spec_world_vertex(m: Float4x4, v: Float3) -> Float4 {
    spec_mat_vec(m, spec_from_point(v))
}

/// The perspective divide of a homogeneous vertex, componentwise.
pub open spec fn spec_persp_divide(v: Float4) -> Float3 {
    Float3 {
        x: spec_div(v.x as int, v.w as int) as i64,
        y: spec_div(v.y as int, v.w as int) as i64,
        z: spec_div(v.z as int, v.w as int) as i64,
    }
}

/// A model-space normal rotated into world space and re-normalized.
pub open spec fn spec_world_normal(m: Float4x4, n: Float3) -> Float3 {
    spec_normalized3(spec_xyz(spec_mat_vec(m, spec_from_vector(n))))
}

impl RenderPassShader {
    /// Build the shader from its three transform matrices and the rotation
    /// that carries normals to world space.
    pub fn new(
        model_world_matrix: Float4x4,
        camera_view_proj_matrix: Float4x4,
        light_view_proj_matrix: Float4x4,
        normal_matrix: Float4x4,
    ) -> (r: RenderPassShader)
        ensures
            r.model_world_matrix == model_world_matrix,
            r.camera_view_proj_matrix == camera_view_proj_matrix,
            r.light_view_proj_matrix == light_view_proj_matrix,
            r.normal_matrix == normal_matrix,
    {
        RenderPassShader {
            model_world_matrix,
            camera_view_proj_matrix,
            light_view_proj_matrix,
            normal_matrix,
        }
    }

    /// Carry every vertex into the camera's and the light's clip spaces,
    /// keep its world position, compute its culling bitmask, and rotate
    /// every normal into world space.
    pub fn apply(&self, vertices: &Vec<Float3>, normals: &Vec<Float3>) -> (out:
        RenderPassShaderOutput)
        ensures
            out.vertices@.len() == vertices@.len(),
            out.culling_bitmasks@.len() == vertices@.len(),
            out.light_vertices@.len() == vertices@.len(),
            out.vertices_attr@.len() == vertices@.len(),
            out.normals@.len() == normals@.len(),
            forall|i: int|
                0 <= i < vertices@.len() ==> out.vertices@[i] == spec_mat_vec(
                    self.camera_view_proj_matrix,
                    spec_world_vertex(self.model_world_matrix, vertices@[i]),
                ),
            forall|i: int|
                0 <= i < vertices@.len() ==> out.light_vertices@[i] == spec_mat_vec(
                    self.light_view_proj_matrix,
                    spec_world_vertex(self.model_world_matrix, vertices@[i]),
                ),
            forall|i: int|
                0 <= i < vertices@.len() ==> out.vertices_attr@[i] == spec_persp_divide(
                    spec_world_vertex(self.model_world_matrix, vertices@[i]),
                ),
            forall|i: int|
                0 <= i < vertices@.len() ==> out.culling_bitmasks@[i] as int
                    == spec_culling_bitmask(out.vertices@[i]),
            forall|j: int|
                0 <= j < normals@.len() ==> out.normals@[j] == spec_world_normal(
                    self.normal_matrix,
                    normals@[j],
                ),
    {
        let n: usize = vertices.len();
        let mut world_vertices: Vec<Float4> = Vec::new();
        let mut k: usize = 0;
        while k < n
            invariant
                k <= n,
                n == vertices@.len(),
                world_vertices@.len() == k,
                forall|i: int|
                    0 <= i < k ==> world_vertices@[i] == spec_world_vertex(
                        self.model_world_matrix,
                        vertices@[i],
                    ),
            decreases n - k,
        {
            let v: Float4 = self.model_world_matrix.mul_vec(&Float4::from_point(vertices[k]));
            world_vertices.push(v);
            k = k + 1;
        }

        let mut out_vertices: Vec<Float4> = Vec::new();
        let mut light_vertices: Vec<Float4> = Vec::new();
        let mut vertices_attr: Vec<Float3> = Vec::new();
        let mut masks: Vec<u8> = Vec::new();
        let mut k2: usize = 0;
        while k2 < n
            invariant
                k2 <= n,
                n == vertices@.len(),
                world_vertices@.len() == n,
                out_vertices@.len() == k2,
                light_vertices@.len() == k2,
                vertices_attr@.len() == k2,
                masks@.len() == k2,
                forall|i: int|
                    0 <= i < n ==> world_vertices@[i] == spec_world_vertex(
                        self.model_world_matrix,
                        vertices@[i],
                    ),
                forall|i: int|
                    0 <= i < k2 ==> out_vertices@[i] == spec_mat_vec(
                        self.camera_view_proj_matrix,
                        spec_world_vertex(self.model_world_matrix, vertices@[i]),
                    ),
                forall|i: int|
                    0 <= i < k2 ==> light_vertices@[i] == spec_mat_vec(
                        self.light_view_proj_matrix,
                        spec_world_vertex(self.model_world_matrix, vertices@[i]),
                    ),
                forall|i: int|
                    0 <= i < k2 ==> vertices_attr@[i] == spec_persp_divide(
                        spec_world_vertex(self.model_world_matrix, vertices@[i]),
                    ),
                forall|i: int|
                    0 <= i < k2 ==> masks@[i] as int == spec_culling_bitmask(out_vertices@[i]),
            decreases n - k2,
        {
            let wv: Float4 = world_vertices[k2];
            let cv: Float4 = self.camera_view_proj_matrix.mul_vec(&wv);
            let lv: Float4 = self.light_view_proj_matrix.mul_vec(&wv);
            let attr: Float3 = Float3 {
                x: fx_div(wv.x, wv.w),
                y: fx_div(wv.y, wv.w),
                z: fx_div(wv.z, wv.w),
            };
            let m: u8 = culling_bitmask(&cv);
            out_vertices.push(cv);
            light_vertices.push(lv);
            vertices_attr.push(attr);
            masks.push(m);
            k2 = k2 + 1;
        }

        let nn: usize = normals.len();
        let mut out_normals: Vec<Float3> = Vec::new();
        let mut k3: usize = 0;
        while k3 < nn
            invariant
                k3 <= nn,
                nn == normals@.len(),
                out_normals@.len() == k3,
                forall|j: int|
                    0 <= j < k3 ==> out_normals@[j] == spec_world_normal(
                        self.normal_matrix,
                        normals@[j],
                    ),
            decreases nn - k3,
        {
            let rotated: Float4 = self.normal_matrix.mul_vec(&Float4::from_vector(normals[k3]));
            let nrm: Float3 = rotated.xyz().normalized();
            proof {
                assert(nrm == spec_world_normal(self.normal_matrix, normals@[k3 as int]));
            }
            out_normals.push(nrm);
            k3 = k3 + 1;
        }

        RenderPassShaderOutput {
            vertices: out_vertices,
            culling_bitmasks: masks,
            light_vertices,
            vertices_attr,
            normals: out_normals,
        }
    }
}

impl<'a, 'b> VertexShader<RenderPassShaderInput<'a, 'b>, RenderPassShaderOutput>
    for RenderPassShader {
    fn transform(&self, input: &RenderPassShaderInput<'a, 'b>) -> RenderPassShaderOutput {
        self.apply(input.vertices, input.normals)
    }
}

/// The jitter drawn for one percentage-closer-filtering lookup: one offset
/// pair per kernel sample, each in the fixed-point unit interval.
#[derive(Clone, Copy, Debug)]
pub struct PcfJitter {
    /// Horizontal jitter of each of the nine kernel samples.
    pub dx: [i64; 9],
    /// Vertical jitter of each of the nine kernel samples.
    pub dy: [i64; 9],
}

/// Relies on rand::random: a uniformly drawn 16-bit value, rescaled into the
/// fixed-point unit interval. Nothing more can be promised of a random
/// result than its range.
#[verifier::external_body]
fn random_unit() -> (r: i64)
    ensures
        0 <= r < FX_ONE,
{
    rand::random::<u16>() as i64
}

/// Whether a drawn jitter lies in the fixed-point unit interval throughout.
pub open spec fn jitter_ok(j: PcfJitter) -> bool {
    (forall|i: int| 0 <= i < 9 ==> 0 <= #[trigger] j.dx[i] < FX_ONE) && (forall|i: int|
        0 <= i < 9 ==> 0 <= #[trigger] j.dy[i] < FX_ONE)
}

/// Draw the jitter for one percentage-closer-filtering lookup.
pub fn draw_jitter() -> (r: PcfJitter)
    ensures
        jitter_ok(r),
{
    let dx: [i64; 9] = [
        random_unit(),
        random_unit(),
        random_unit(),
        random_unit(),
        random_unit(),
        random_unit(),
        random_unit(),
        random_unit(),
        random_unit(),
    ];
    let dy: [i64; 9] = [
        random_unit(),
        random_unit(),
        random_unit(),
        random_unit(),
        random_unit(),
        random_unit(),
        random_unit(),
        random_unit(),
        random_unit(),
    ];
    PcfJitter { dx, dy }
}

/// Reverse the depth projection: the view-space depth whose normalized
/// device depth is `d`, by `2 far near / (far + near - (2 d - 1)(far - near))`.
pub open spec fn spec_linearize_depth(d: int, near: int, far: int) -> int {
    spec_div(
        spec_mul(spec_mul(131072, far), near),
        spec_sub(
            spec_add(far, near),
            spec_mul(spec_sub(spec_mul(131072, d), FX_ONE as int), spec_sub(far, near)),
        ),
    )
}

/// Reverse the depth projection of a normalized device depth.
pub fn linearize_depth(depth: i64, near: i64, far: i64) -> (r: i64)
    ensures
        r as int == spec_linearize_depth(depth as int, near as int, far as int),
{
    fx_div(
        fx_mul(fx_mul(131072, far), near),
        fx_sub(
            fx_add(far, near),
            fx_mul(fx_sub(fx_mul(131072, depth), FX_ONE), fx_sub(far, near)),
        ),
    )
}

/// The shadow-map texel hit by one jittered sample coordinate: the
/// fixed-point coordinate is clamped into the grid and truncated to a whole
/// texel.
pub open spec fn spec_pcf_index(v: int, size: int) -> int {
    let maxi = (size - 1) * (FX_ONE as int);
    let c = if v < 0 {
        0int
    } else if v > maxi {
        maxi
    } else {
        v
    };
    let t = c / (FX_ONE as int);
    if t > size - 1 {
        size - 1
    } else {
        t
    }
}

/// The shadow-map texel hit by one jittered sample coordinate.
fn pcf_index(v: i64, size: usize) -> (r: usize)
    requires
        1 <= size <= crate::texture::TEXTURE_LIMIT,
    ensures
        r as int == spec_pcf_index(v as int, size as int),
        r < size,
{
    let maxi: i64 = ((size - 1) as i64) * FX_ONE;
    let c: i64 = fx_clamp(v, 0, maxi);
    let t: i64 = ((c as u64) / 65536) as i64;
    let t2: i64 = if t > (size - 1) as i64 {
        (size - 1) as i64
    } else {
        t
    };
    t2 as usize
}

/// One sample of the percentage-closer filter: whether the fragment's
/// linearized depth, pushed back by the bias, is at least the linearized
/// depth stored at the jittered shadow-map texel.
pub open spec fn spec_pcf_sample(
    map: Texture<i64>,
    lf: Float3,
    linear_frag: int,
    near: int,
    far: int,
    bias: int,
    xs: int,
    ys: int,
    jx: i64,
    jy: i64,
) -> int {
    let x = spec_pcf_index(
        spec_add(
            spec_mul(lf.x as int, ((map.width - 1) as int) * (FX_ONE as int)),
            spec_mul(xs, jx as int),
        ),
        map.width as int,
    );
    let y = spec_pcf_index(
        spec_add(
            spec_mul(
                spec_sub(FX_ONE as int, lf.y as int),
                ((map.height - 1) as int) * (FX_ONE as int),
            ),
            spec_mul(ys, jy as int),
        ),
        map.height as int,
    );
    let s = map.image@[y * map.width + x];
    if spec_add(linear_frag, bias) >= spec_linearize_depth(s as int, near, far) {
        1int
    } else {
        0int
    }
}

/// One sample of the percentage-closer filter.
fn pcf_sample(
    map: &Texture<i64>,
    lf: Float3,
    linear_frag: i64,
    near: i64,
    far: i64,
    bias: i64,
    xs: i64,
    ys: i64,
    jx: i64,
    jy: i64,
) -> (r: u8)
    requires
        map.wf(),
    ensures
        r as int == spec_pcf_sample(
            *map,
            lf,
            linear_frag as int,
            near as int,
            far as int,
            bias as int,
            xs as int,
            ys as int,
            jx,
            jy,
        ),
        r <= 1,
{
    let wm1: i64 = ((map.width - 1) as i64) * FX_ONE;
    let hm1: i64 = ((map.height - 1) as i64) * FX_ONE;
    let x: usize = pcf_index(fx_add(fx_mul(lf.x, wm1), fx_mul(xs, jx)), map.width);
    let y: usize = pcf_index(
        fx_add(fx_mul(fx_sub(FX_ONE, lf.y), hm1), fx_mul(ys, jy)),
        map.height,
    );
    proof {
        assert(y * map.width + x < map.width * map.height && y * map.width + x < 0x40000000)
            by (nonlinear_arith)
            requires
                0 <= x < map.width as int,
                0 <= y < map.height as int,
                map.width <= 32768,
                map.height <= 32768,
        ;
    }
    let s: i64 = map.image[y * map.width + x];
    if fx_add(linear_frag, bias) >= linearize_depth(s, near, far) {
        1
    } else {
        0
    }
}

/// The first kernel offset of the percentage-closer filter: one and a half
/// texels.
pub const PCF_OFF_A: i64 = 98304;

/// The second kernel offset of the percentage-closer filter: minus half a
/// texel.
pub const PCF_OFF_B: i64 = -32768;

/// The third kernel offset of the percentage-closer filter: minus one and a
/// half texels.
pub const PCF_OFF_C: i64 = -98304;

/// The fraction of a three-by-three jittered kernel of shadow-map samples
/// at which the fragment is lit: its linearized depth plus the bias reaches
/// the stored depth.
pub open spec fn spec_pcf(
    map: Texture<i64>,
    lf: Float3,
    near: int,
    far: int,
    bias: int,
    j: PcfJitter,
) -> int {
    let f = spec_linearize_depth(lf.z as int, near, far);
    let a = PCF_OFF_A as int;
    let b = PCF_OFF_B as int;
    let c = PCF_OFF_C as int;
    let total = spec_pcf_sample(map, lf, f, near, far, bias, a, a, j.dx[0], j.dy[0])
        + spec_pcf_sample(map, lf, f, near, far, bias, a, b, j.dx[1], j.dy[1])
        + spec_pcf_sample(map, lf, f, near, far, bias, a, c, j.dx[2], j.dy[2])
        + spec_pcf_sample(map, lf, f, near, far, bias, b, a, j.dx[3], j.dy[3])
        + spec_pcf_sample(map, lf, f, near, far, bias, b, b, j.dx[4], j.dy[4])
        + spec_pcf_sample(map, lf, f, near, far, bias, b, c, j.dx[5], j.dy[5])
        + spec_pcf_sample(map, lf, f, near, far, bias, c, a, j.dx[6], j.dy[6])
        + spec_pcf_sample(map, lf, f, near, far, bias, c, b, j.dx[7], j.dy[7])
        + spec_pcf_sample(map, lf, f, near, far, bias, c, c, j.dx[8], j.dy[8]);
    div_trunc(total * (FX_ONE as int), 9)
}

/// Percentage-closer filtering: sample a three-by-three jittered kernel of
/// the shadow map around the fragment's light-space position and return the
/// lit fraction, in the fixed-point unit interval.
pub fn pcf_shadow_factor(
    map: &Texture<i64>,
    lf: Float3,
    near: i64,
    far: i64,
    bias: i64,
    jitter: &PcfJitter,
) -> (r: i64)
    requires
        map.wf(),
    ensures
        r as int == spec_pcf(*map, lf, near as int, far as int, bias as int, *jitter),
        0 <= r <= FX_ONE,
{
    let f: i64 = linearize_depth(lf.z, near, far);
    let s0: u8 = pcf_sample(map, lf, f, near, far, bias, PCF_OFF_A, PCF_OFF_A, jitter.dx[0], jitter.dy[0]);
    let s1: u8 = pcf_sample(map, lf, f, near, far, bias, PCF_OFF_A, PCF_OFF_B, jitter.dx[1], jitter.dy[1]);
    let s2: u8 = pcf_sample(map, lf, f, near, far, bias, PCF_OFF_A, PCF_OFF_C, jitter.dx[2], jitter.dy[2]);
    let s3: u8 = pcf_sample(map, lf, f, near, far, bias, PCF_OFF_B, PCF_OFF_A, jitter.dx[3], jitter.dy[3]);
    let s4: u8 = pcf_sample(map, lf, f, near, far, bias, PCF_OFF_B, PCF_OFF_B, jitter.dx[4], jitter.dy[4]);
    let s5: u8 = pcf_sample(map, lf, f, near, far, bias, PCF_OFF_B, PCF_OFF_C, jitter.dx[5], jitter.dy[5]);
    let s6: u8 = pcf_sample(map, lf, f, near, far, bias, PCF_OFF_C, PCF_OFF_A, jitter.dx[6], jitter.dy[6]);
    let s7: u8 = pcf_sample(map, lf, f, near, far, bias, PCF_OFF_C, PCF_OFF_B, jitter.dx[7], jitter.dy[7]);
    let s8: u8 = pcf_sample(map, lf, f, near, far, bias, PCF_OFF_C, PCF_OFF_C, jitter.dx[8], jitter.dy[8]);
    let count: i64 = (s0 + s1 + s2 + s3 + s4 + s5 + s6 + s7 + s8) as i64;
    let r: i64 = fx_divn(count * FX_ONE, 9);
    proof {
        assert(div_trunc(count as int * (FX_ONE as int), 9) <= FX_ONE as int && div_trunc(
            count as int * (FX_ONE as int),
            9,
        ) >= 0) by (nonlinear_arith)
            requires 0 <= count as int <= 9,
        ;
    }
    r
}

/// The light-space fragment position of an interpolated homogeneous
/// light-space vertex: the perspective divide rescaled from `[-1, 1]` into
/// `[0, 1]`, componentwise.
pub open spec fn spec_light_fragment(lv: Float4) -> Float3 {
    Float3 {
        x: spec_add(spec_mul(spec_div(lv.x as int, lv.w as int), 32768), 32768) as i64,
        y: spec_add(spec_mul(spec_div(lv.y as int, lv.w as int), 32768), 32768) as i64,
        z: spec_add(spec_mul(spec_div(lv.z as int, lv.w as int), 32768), 32768) as i64,
    }
}

/// The light-space fragment position of a homogeneous light-space vertex.
pub fn light_fragment(lv: Float4) -> (r: Float3)
    ensures
        r == spec_light_fragment(lv),
{
    Float3 {
        x: fx_add(fx_mul(fx_div(lv.x, lv.w), 32768), 32768),
        y: fx_add(fx_mul(fx_div(lv.y, lv.w), 32768), 32768),
        z: fx_add(fx_mul(fx_div(lv.z, lv.w), 32768), 32768),
    }
}

/// Whether a light-space fragment lies inside the unit cube covered by the
/// shadow map.
pub open spec fn spec_in_unit_cube(f: Float3) -> bool {
    0 <= f.x <= FX_ONE && 0 <= f.y <= FX_ONE && 0 <= f.z <= FX_ONE
}

/// A pixel shader: colors one covered fragment from its interpolated
/// attributes, with the scene's spotlight and one drawn jitter at hand.
pub trait PixelShader: Sized {
    /// What the shader needs of itself to run: for a texture shader, that
    /// its texture is well formed.
    spec fn shader_wf(self) -> bool;

    /// The color of a fragment, at spec level.
    spec fn color_spec(self, attrs: VertexAttributes, spotlight: SpotLight, jitter: PcfJitter) -> Float3;

    /// Color one fragment.
    fn color(&self, attrs: VertexAttributes, spotlight: &SpotLight, jitter: &PcfJitter) -> (r: Float3)
        requires
            self.shader_wf(),
            spotlight.shadow_map.wf(),
        ensures
            r == self.color_spec(attrs, *spotlight, *jitter),
    ;
}

/// A pixel shader that samples a color texture at the interpolated texture
/// coordinates.
pub struct TextureShader {
    /// The color texture sampled by the shader.
    pub texture: Texture<Float3>,
}

impl TextureShader {
    /// Build a texture shader.
    pub fn new(texture: Texture<Float3>) -> (r: TextureShader)
        ensures
            r.texture == texture,
    {
        TextureShader { texture }
    }
}

impl PixelShader for TextureShader {
    open spec fn shader_wf(self) -> bool {
        self.texture.wf()
    }

    open spec fn color_spec(self, attrs: VertexAttributes, spotlight: SpotLight, jitter: PcfJitter) -> Float3 {
        crate::texture::spec_sample(self.texture, attrs.uv)
    }

    fn color(&self, attrs: VertexAttributes, spotlight: &SpotLight, jitter: &PcfJitter) -> (r: Float3) {
        self.texture.sample(attrs.uv)
    }
}

/// A diffuse pixel shader: an ambient term plus a Lambertian term from a
/// fixed light direction, with no shadow.
pub struct DiffuseShader {
    /// Color of the surface.
    pub color: Float3,
    /// Direction to the surrounding light.
    pub direction_to_light: Float3,
    /// Intensity of the ambient light.
    pub ambient_factor: i64,
}

/// The color of a diffuse fragment: the surface color scaled by the ambient
/// intensity plus the Lambertian term of the re-normalized normal against
/// the light direction.
pub open spec fn spec_diffuse_color(s: DiffuseShader, attrs: VertexAttributes) -> Float3 {
    let normal = spec_normalized3(attrs.normal);
    let li = spec_max0(spec_dot3(normal, s.direction_to_light));
    spec_f3_scale(s.color, spec_add(s.ambient_factor as int, li))
}

impl DiffuseShader {
    /// Build a diffuse shader; the light direction is normalized once here.
    pub fn new(color: Float3, direction_to_light: Float3, ambient_factor: i64) -> (r:
        DiffuseShader)
        ensures
            r.color == color,
            r.direction_to_light == spec_normalized3(direction_to_light),
            r.ambient_factor == ambient_factor,
    {
        DiffuseShader { color, direction_to_light: direction_to_light.normalized(), ambient_factor }
    }
}

impl PixelShader for DiffuseShader {
    open spec fn shader_wf(self) -> bool {
        true
    }

    open spec fn color_spec(self, attrs: VertexAttributes, spotlight: SpotLight, jitter: PcfJitter) -> Float3 {
        spec_diffuse_color(self, attrs)
    }

    fn color(&self, attrs: VertexAttributes, spotlight: &SpotLight, jitter: &PcfJitter) -> (r: Float3) {
        let normal: Float3 = attrs.normal.normalized();
        let d: i64 = normal.dot(self.direction_to_light);
        let li: i64 = if d > 0 {
            d
        } else {
            0
        };
        self.color.scale(fx_add(self.ambient_factor, li))
    }
}

/// A diffuse pixel shader lit additionally by the scene's one spotlight,
/// with percentage-closer-filtered shadows.
pub struct DiffuseShaderWithSpotlight {
    /// Color of the surface.
    pub color: Float3,
    /// Direction to the surrounding light.
    pub direction_to_light: Float3,
    /// Intensity of the ambient light.
    pub ambient_factor: i64,
    /// Depth bias of the shadow test, a quality knob against self-shadowing.
    pub bias: i64,
}

impl DiffuseShaderWithSpotlight {
    /// Build the shader; the shadow bias is a configurable parameter rather
    /// than a built-in constant.
    pub fn new(color: Float3, direction_to_light: Float3, ambient_factor: i64, bias: i64) -> (r:
        DiffuseShaderWithSpotlight)
        ensures
            r.color == color,
            r.direction_to_light == direction_to_light,
            r.ambient_factor == ambient_factor,
            r.bias == bias,
    {
        DiffuseShaderWithSpotlight { color, direction_to_light, ambient_factor, bias }
    }
}

/// The color of a spotlit diffuse fragment: ambient and Lambertian terms as
/// in the plain diffuse shader, plus the spotlight's contribution, gated by
/// its cone, attenuated by one over the distance, and scaled by the lit
/// fraction of the shadow-map kernel; the sum is gamma-corrected.
pub open spec fn spec_spotlight_color(
    s: DiffuseShaderWithSpotlight,
    attrs: VertexAttributes,
    light: SpotLight,
    jitter: PcfJitter,
) -> Float3 {
    let normal = spec_normalized3(attrs.normal);
    let li = spec_max0(spec_dot3(normal, s.direction_to_light));
    let to_light = spec_f3_sub(light.position, attrs.vertex);
    let dir_to_light = spec_normalized3(to_light);
    let dir_to_target = spec_normalized3(spec_f3_sub(light.position, light.target));
    let lf = spec_light_fragment(attrs.light_vertex);
    let pct = if spec_in_unit_cube(lf) {
        spec_pcf(
            light.shadow_map,
            lf,
            light.camera.near as int,
            light.camera.far as int,
            s.bias as int,
            jitter,
        )
    } else {
        0int
    };
    let spot = if spec_dot3(dir_to_light, dir_to_target) > spec_cos(light.angle as int) {
        spec_div(spec_max0(spec_dot3(normal, dir_to_light)), spec_norm3(to_light))
    } else {
        0int
    };
    let lit = spec_f3_add(
        spec_f3_add(
            spec_f3_scale(s.color, s.ambient_factor as int),
            spec_f3_scale(s.color, li),
        ),
        spec_f3_scale(spec_f3_mul(s.color, light.color), spec_mul(spot, pct)),
    );
    Float3 {
        x: spec_gamma(lit.x as int) as i64,
        y: spec_gamma(lit.y as int) as i64,
        z: spec_gamma(lit.z as int) as i64,
    }
}

impl PixelShader for DiffuseShaderWithSpotlight {
    open spec fn shader_wf(self) -> bool {
        true
    }

    open spec fn color_spec(self, attrs: VertexAttributes, spotlight: SpotLight, jitter: PcfJitter) -> Float3 {
        spec_spotlight_color(self, attrs, spotlight, jitter)
    }

    fn color(&self, attrs: VertexAttributes, spotlight: &SpotLight, jitter: &PcfJitter) -> (r: Float3) {
        let normal: Float3 = attrs.normal.normalized();
        let d: i64 = normal.dot(self.direction_to_light);
        let li: i64 = if d > 0 {
            d
        } else {
            0
        };
        let to_light: Float3 = spotlight.position.sub(attrs.vertex);
        let dir_to_light: Float3 = to_light.normalized();
        let dir_to_target: Float3 = spotlight.position.sub(spotlight.target).normalized();
        let lf: Float3 = light_fragment(attrs.light_vertex);

        let inside: bool = 0 <= lf.x && lf.x <= FX_ONE && 0 <= lf.y && lf.y <= FX_ONE && 0 <= lf.z
            && lf.z <= FX_ONE;
        let pct: i64 = if inside {
            pcf_shadow_factor(
                &spotlight.shadow_map,
                lf,
                spotlight.camera.near,
                spotlight.camera.far,
                self.bias,
                jitter,
            )
        } else {
            0
        };

        let cone: i64 = dir_to_light.dot(dir_to_target);
        let spot: i64 = if cone > fx_cos(spotlight.angle) {
            let dl: i64 = normal.dot(dir_to_light);
            let dl0: i64 = if dl > 0 {
                dl
            } else {
                0
            };
            fx_div(dl0, to_light.norm())
        } else {
            0
        };

        let lit: Float3 = self.color.scale(self.ambient_factor).add(self.color.scale(li)).add(
            self.color.mul(spotlight.color).scale(fx_mul(spot, pct)),
        );
        Float3 { x: fx_gamma(lit.x), y: fx_gamma(lit.y), z: fx_gamma(lit.z) }
    }
}

/// The pixel shader owned by a model: one of the closed set of shading
/// variants, dispatched by tag.
pub enum ModelShader {
    /// Nearest-neighbor texture lookup.
    Texture(TextureShader),
    /// Ambient plus Lambertian shading without shadows.
    Diffuse(DiffuseShader),
    /// Diffuse shading plus the scene's spotlight with mapped shadows.
    DiffuseSpotlight(DiffuseShaderWithSpotlight),
}

impl PixelShader for ModelShader {
    open spec fn shader_wf(self) -> bool {
        match self {
            ModelShader::Texture(s) => s.shader_wf(),
            ModelShader::Diffuse(s) => s.shader_wf(),
            ModelShader::DiffuseSpotlight(s) => s.shader_wf(),
        }
    }

    open spec fn color_spec(self, attrs: VertexAttributes, spotlight: SpotLight, jitter: PcfJitter) -> Float3 {
        match self {
            ModelShader::Texture(s) => s.color_spec(attrs, spotlight, jitter),
            ModelShader::Diffuse(s) => s.color_spec(attrs, spotlight, jitter),
            ModelShader::DiffuseSpotlight(s) => s.color_spec(attrs, spotlight, jitter),
        }
    }

    fn color(&self, attrs: VertexAttributes, spotlight: &SpotLight, jitter: &PcfJitter) -> (r: Float3) {
        match self {
            ModelShader::Texture(s) => s.color(attrs, spotlight, jitter),
            ModelShader::Diffuse(s) => s.color(attrs, spotlight, jitter),
            ModelShader::DiffuseSpotlight(s) => s.color(attrs, spotlight, jitter),
        }
    }
}

} // verus!
