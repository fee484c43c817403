use rastr::clip::VertexAttributes;
use rastr::fx::FX_ONE;
use rastr::light::SpotLight;
use rastr::math::{Float2, Float3, Float4};
use rastr::model::Model;
use rastr::render::RenderTarget;
use rastr::scene::Scene;
use rastr::shader::{
    linearize_depth, DiffuseShader, DiffuseShaderWithSpotlight, ModelShader, PcfJitter,
    PixelShader, ShadowPassShader, VertexShader, ShadowPassShaderInput,
};
use rastr::transform::Transform;

fn f3(x: f64, y: f64, z: f64) -> Float3 {
    Float3::new((x * 65536.0) as i64, (y * 65536.0) as i64, (z * 65536.0) as i64)
}

fn fx(x: f64) -> i64 {
    (x * 65536.0) as i64
}

fn zero_jitter() -> PcfJitter {
    PcfJitter { dx: [0; 9], dy: [0; 9] }
}

#[test]
fn linearize_depth_reverses_projection() {
    // the far plane's device depth of one linearizes back to the far plane
    assert_eq!(linearize_depth(FX_ONE, -FX_ONE, -100 * FX_ONE), -100 * FX_ONE);
    // the near plane's device depth of zero linearizes back to the near plane
    assert_eq!(linearize_depth(0, -FX_ONE, -100 * FX_ONE), -FX_ONE);
}

#[test]
fn culling_bitmask_of_inside_point() {
    // with identity matrices, the origin as a homogeneous point fails every
    // frustum half-space test at once: all seven bits are set
    let shader = ShadowPassShader::new(
        rastr::math::Float4x4::eye(),
        rastr::math::Float4x4::eye(),
    );
    let vertices = vec![Float3::zeros()];
    let out = shader.transform(&ShadowPassShaderInput::new(&vertices));
    assert_eq!(out.vertices.len(), 1);
    assert_eq!(out.vertices[0], Float4::from_point(Float3::zeros()));
    assert_eq!(out.culling_bitmasks[0], 127);
}

fn cube(shader: ModelShader, center: Float3, half: f64) -> Model {
    let h = half;
    let vertices = vec![
        f3(-h, -h, -h),
        f3(h, -h, -h),
        f3(h, h, -h),
        f3(-h, h, -h),
        f3(-h, -h, h),
        f3(h, -h, h),
        f3(h, h, h),
        f3(-h, h, h),
    ];
    let vertex_indices: Vec<usize> = vec![
        4, 5, 6, 4, 6, 7,
        1, 0, 3, 1, 3, 2,
        0, 4, 7, 0, 7, 3,
        5, 1, 2, 5, 2, 6,
        7, 6, 2, 7, 2, 3,
        0, 1, 5, 0, 5, 4,
    ];
    let n = vertex_indices.len();
    Model::new(
        vertices,
        vertex_indices,
        vec![Float2::zeros()],
        vec![0usize; n],
        vec![Float3::unit_y()],
        vec![0usize; n],
        Transform::new(0, 0, 0, center, Float3::ones()),
        shader,
    )
    .unwrap()
}

/// A large ground plane spanning both windings, so it rasterizes into the
/// shadow map from either side.
fn ground_plane(shader: ModelShader, extent: f64) -> Model {
    let e = extent;
    let vertices = vec![f3(-e, 0.0, -e), f3(e, 0.0, -e), f3(e, 0.0, e), f3(-e, 0.0, e)];
    let vertex_indices: Vec<usize> = vec![0, 1, 2, 0, 2, 3, 0, 2, 1, 0, 3, 2];
    let n = vertex_indices.len();
    Model::new(
        vertices,
        vertex_indices,
        vec![Float2::zeros()],
        vec![0usize; n],
        vec![Float3::unit_y()],
        vec![0usize; n],
        Transform::new(0, 0, 0, Float3::zeros(), Float3::ones()),
        shader,
    )
    .unwrap()
}

#[test]
fn shadow_scenario_occluded_point_is_darker() {
    // a spotlight above and to the side of a cube hovering over a plane
    let spotlight = SpotLight::new(
        Float3::ones(),
        f3(0.5, 8.0, 0.0),
        Float3::zeros(),
        fx(0.5236),
        128,
        128,
    );
    let mut scene = Scene::new(FX_ONE, spotlight);
    let surface_shader = || {
        ModelShader::DiffuseSpotlight(DiffuseShaderWithSpotlight::new(
            Float3::ones(),
            Float3::zeros(),
            fx(0.2),
            fx(0.2),
        ))
    };
    let white = ModelShader::Diffuse(DiffuseShader::new(Float3::ones(), Float3::zeros(), FX_ONE));
    scene.models.push(cube(white, f3(0.0, 1.0, 0.0), 0.5));
    scene.models.push(ground_plane(surface_shader(), 10.0));
    let surface = surface_shader();

    // one frame fills the shadow map during the first pass
    let mut target = RenderTarget::new(16, 12);
    target.clear(Float3::zeros());
    target.render(&mut scene);

    // evaluate the surface shader at two plane points: one under the cube,
    // one beside its shadow, with the directional term disabled by the zero
    // light direction
    let light_vp = scene
        .spotlight
        .camera
        .projection
        .mul(&scene.spotlight.camera.transform.inverse_world_matrix());
    let color_at = |p: Float3| {
        let lv = light_vp.mul_vec(&Float4::from_point(p));
        let attrs = VertexAttributes::new(p, lv, Float2::zeros(), Float3::unit_y());
        surface.color(attrs, &scene.spotlight, &zero_jitter())
    };
    let occluded = color_at(f3(0.0, 0.0, 0.0));
    let lit = color_at(f3(2.5, 0.0, 0.0));
    assert!(
        occluded.x < lit.x,
        "occluded {} should be darker than lit {}",
        occluded.x,
        lit.x
    );
    assert!(occluded.y < lit.y);
    assert!(occluded.z < lit.z);
}
