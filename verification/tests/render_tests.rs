use rastr::camera::Camera;
use rastr::clip::{Triangle, VertexAttributes};
use rastr::fx::FX_ONE;
use rastr::light::SpotLight;
use rastr::math::{Float2, Float3, Float4};
use rastr::model::Model;
use rastr::render::{
    color_buffer_to_byte_array, depth_buffer_to_byte_array, homogeneous_to_screen, RenderTarget,
    DEPTH_FAR,
};
use rastr::scene::Scene;
use rastr::shader::{DiffuseShader, ModelShader};
use rastr::transform::Transform;

fn f3(x: f64, y: f64, z: f64) -> Float3 {
    Float3::new((x * 65536.0) as i64, (y * 65536.0) as i64, (z * 65536.0) as i64)
}

fn fx(x: f64) -> i64 {
    (x * 65536.0) as i64
}

fn dummy_spotlight() -> SpotLight {
    SpotLight::new(Float3::ones(), f3(0.0, 8.0, 0.0), Float3::zeros(), fx(0.5), 16, 16)
}

/// A white shader with full ambient light: every covered pixel turns white.
fn white_shader() -> ModelShader {
    ModelShader::Diffuse(DiffuseShader::new(Float3::ones(), Float3::zeros(), FX_ONE))
}

/// A camera-space triangle facing the camera, covering the middle of the
/// screen. Clip-space vertices are chosen directly: w < 0 lies in front.
fn front_triangle() -> Triangle<VertexAttributes> {
    let w = -2 * FX_ONE;
    // ndc = coordinate / w; y-down screen flips the sign of y
    let v0 = Float4::new(fx(1.0), fx(1.0), fx(0.5), w);
    let v1 = Float4::new(fx(-1.0), fx(1.0), fx(0.5), w);
    let v2 = Float4::new(0, fx(-1.0), fx(0.5), w);
    let a = VertexAttributes::new(Float3::zeros(), Float4::zeros(), Float2::zeros(), Float3::unit_z());
    Triangle::new([v0, v1, v2], [a, a, a])
}

#[test]
fn clear_resets_buffers() {
    let mut target = RenderTarget::new(8, 8);
    target.clear(f3(0.25, 0.5, 0.75));
    assert_eq!(target.color_buffer[17], f3(0.25, 0.5, 0.75));
    assert!(target.depth_buffer.iter().all(|d| *d == DEPTH_FAR));
}

#[test]
fn raster_covers_center_not_corners() {
    let mut target = RenderTarget::new(16, 16);
    target.clear(Float3::zeros());
    let light = dummy_spotlight();
    target.raster_color_triangle(&front_triangle(), &white_shader(), &light);
    let center = target.color_buffer[8 * 16 + 8];
    assert_eq!(center, Float3::ones());
    assert_eq!(target.color_buffer[0], Float3::zeros());
    assert_eq!(target.color_buffer[15], Float3::zeros());
    assert_eq!(target.color_buffer[15 * 16], Float3::zeros());
    assert_eq!(target.color_buffer[16 * 16 - 1], Float3::zeros());
    assert!(target.depth_buffer[8 * 16 + 8] < DEPTH_FAR);
}

#[test]
fn raster_rejects_reversed_winding() {
    let mut target = RenderTarget::new(16, 16);
    target.clear(Float3::zeros());
    let light = dummy_spotlight();
    let t = front_triangle();
    let reversed = Triangle::new(
        [t.vertices[0], t.vertices[2], t.vertices[1]],
        t.vertex_attributes,
    );
    target.raster_color_triangle(&reversed, &white_shader(), &light);
    assert!(target.color_buffer.iter().all(|c| *c == Float3::zeros()));
    assert!(target.depth_buffer.iter().all(|d| *d == DEPTH_FAR));
}

#[test]
fn raster_twice_is_idempotent() {
    let light = dummy_spotlight();
    let t = front_triangle();
    let shader = white_shader();

    let mut once = RenderTarget::new(16, 16);
    once.clear(Float3::zeros());
    once.raster_color_triangle(&t, &shader, &light);

    let mut twice = RenderTarget::new(16, 16);
    twice.clear(Float3::zeros());
    twice.raster_color_triangle(&t, &shader, &light);
    twice.raster_color_triangle(&t, &shader, &light);

    assert_eq!(once.color_buffer, twice.color_buffer);
    assert_eq!(once.depth_buffer, twice.depth_buffer);
}

#[test]
fn nearer_triangle_wins_depth_test() {
    let light = dummy_spotlight();
    let mut target = RenderTarget::new(16, 16);
    target.clear(Float3::zeros());
    // the same screen triangle at two depths; smaller magnitude w is nearer
    let far_t = front_triangle();
    let near_w = -FX_ONE;
    let near_t = Triangle::new(
        [
            Float4::new(fx(0.5), fx(0.5), fx(0.9), near_w),
            Float4::new(fx(-0.5), fx(0.5), fx(0.9), near_w),
            Float4::new(0, fx(-0.5), fx(0.9), near_w),
        ],
        far_t.vertex_attributes,
    );
    let red = ModelShader::Diffuse(DiffuseShader::new(
        Float3::new(FX_ONE, 0, 0),
        Float3::zeros(),
        FX_ONE,
    ));
    target.raster_color_triangle(&near_t, &red, &light);
    let depth_after_near = target.depth_buffer[8 * 16 + 8];
    target.raster_color_triangle(&far_t, &white_shader(), &light);
    // the far triangle loses the center pixel
    assert_eq!(target.color_buffer[8 * 16 + 8], Float3::new(FX_ONE, 0, 0));
    assert_eq!(target.depth_buffer[8 * 16 + 8], depth_after_near);
}

#[test]
fn screen_mapping_center_and_corners() {
    let w = -2 * FX_ONE;
    // ndc (0,0) maps to the middle of the target
    let p = homogeneous_to_screen(Float4::new(0, 0, 0, w), 16 * FX_ONE, 16 * FX_ONE);
    assert_eq!(p, Float2::new(8 * FX_ONE, 8 * FX_ONE));
    // ndc (-1, 1) maps to the top-left corner: y is flipped
    let q = homogeneous_to_screen(
        Float4::new(2 * FX_ONE, -2 * FX_ONE, 0, w),
        16 * FX_ONE,
        16 * FX_ONE,
    );
    assert_eq!(q, Float2::new(0, 0));
}

#[test]
fn byte_arrays_scale_and_clamp() {
    let colors = vec![
        f3(0.5, 0.0, 2.0),
        Float3::new(-5, FX_ONE, 0),
    ];
    let mut out = vec![0u8; 8];
    color_buffer_to_byte_array(&colors, 2, 1, &mut out);
    assert_eq!(out, vec![127, 0, 255, 255, 0, 255, 0, 255]);

    let depths = vec![DEPTH_FAR, 0, FX_ONE / 2];
    let mut dout = vec![0u8; 3];
    depth_buffer_to_byte_array(&depths, 3, 1, -FX_ONE, -100 * FX_ONE, false, &mut dout);
    assert_eq!(dout, vec![255, 0, 127]);
}

/// The unit cube of the end-to-end scenario: eight vertices, twelve
/// triangles wound counter-clockwise seen from outside.
fn cube_model(shader: ModelShader, transform: Transform, half: f64) -> Model {
    let h = half;
    let vertices = vec![
        f3(-h, -h, -h),
        f3(h, -h, -h),
        f3(h, h, -h),
        f3(-h, h, -h),
        f3(-h, -h, h),
        f3(h, -h, h),
        f3(h, h, h),
        f3(-h, h, h),
    ];
    let vertex_indices: Vec<usize> = vec![
        // front, +z
        4, 5, 6, 4, 6, 7,
        // back, -z
        1, 0, 3, 1, 3, 2,
        // left, -x
        0, 4, 7, 0, 7, 3,
        // right, +x
        5, 1, 2, 5, 2, 6,
        // top, +y
        7, 6, 2, 7, 2, 3,
        // bottom, -y
        0, 1, 5, 0, 5, 4,
    ];
    let n = vertex_indices.len();
    let texture_coords = vec![Float2::zeros()];
    let texture_coord_indices = vec![0usize; n];
    let normals = vec![Float3::unit_y()];
    let normal_indices = vec![0usize; n];
    Model::new(
        vertices,
        vertex_indices,
        texture_coords,
        texture_coord_indices,
        normals,
        normal_indices,
        transform,
        shader,
    )
    .unwrap()
}

#[test]
fn cube_scenario_center_covered_corners_background() {
    let spotlight = dummy_spotlight();
    let aspect = fx(4.0 / 3.0);
    let mut scene = Scene::new(aspect, spotlight);
    // a camera at (0, 0, 5) looking at the origin with a sixty-degree
    // vertical field of view
    scene.camera = Camera::new(
        f3(0.0, 0.0, 5.0),
        Float3::zeros(),
        Float3::unit_y(),
        68630,
        aspect,
        -FX_ONE,
        -50 * FX_ONE,
    );
    let transform = Transform::new(0, 0, 0, Float3::zeros(), Float3::ones());
    scene.models.push(cube_model(white_shader(), transform, 0.5));

    let mut target = RenderTarget::new(64, 48);
    target.clear(Float3::zeros());
    target.render(&mut scene);

    let center = target.color_buffer[24 * 64 + 32];
    assert_eq!(center, Float3::ones(), "the cube's silhouette covers the center");
    for corner in [0, 63, 47 * 64, 48 * 64 - 1] {
        assert_eq!(target.color_buffer[corner], Float3::zeros(), "corner {} stays background", corner);
        assert_eq!(target.depth_buffer[corner], DEPTH_FAR);
    }
}

#[test]
fn model_new_rejects_inconsistent_indices() {
    let vertices = vec![Float3::zeros(); 3];
    let bad = Model::new(
        vertices,
        vec![0, 1, 7],
        vec![Float2::zeros()],
        vec![0, 0, 0],
        vec![Float3::unit_y()],
        vec![0, 0, 0],
        Transform::new(0, 0, 0, Float3::zeros(), Float3::ones()),
        white_shader(),
    );
    assert!(bad.is_none());
}

#[test]
fn camera_from_dimensions_sets_frustum() {
    let cam = Camera::from_dimensions(
        f3(0.0, 0.0, 5.0),
        Float3::zeros(),
        Float3::unit_y(),
        4 * FX_ONE,
        2 * FX_ONE,
        -FX_ONE,
        -50 * FX_ONE,
    );
    assert_eq!(cam.right, 2 * FX_ONE);
    assert_eq!(cam.left, -2 * FX_ONE);
    assert_eq!(cam.top, FX_ONE);
    assert_eq!(cam.bottom, -FX_ONE);
    assert_eq!(cam.near, -FX_ONE);
    assert_eq!(cam.far, -50 * FX_ONE);
}

#[test]
fn drawn_jitter_stays_in_unit_interval() {
    for _ in 0..16 {
        let j = rastr::shader::draw_jitter();
        assert!(j.dx.iter().all(|v| 0 <= *v && *v < FX_ONE));
        assert!(j.dy.iter().all(|v| 0 <= *v && *v < FX_ONE));
    }
}

#[test]
fn render_with_no_models_only_clears_shadow_map() {
    let spotlight = dummy_spotlight();
    let mut scene = Scene::new(FX_ONE, spotlight);
    let mut target = RenderTarget::new(8, 8);
    target.clear(f3(0.1, 0.2, 0.3));
    let color_before = target.color_buffer.clone();
    let depth_before = target.depth_buffer.clone();
    target.render(&mut scene);
    assert_eq!(target.color_buffer, color_before);
    assert_eq!(target.depth_buffer, depth_before);
    assert!(scene.spotlight.shadow_map.image.iter().all(|d| *d == FX_ONE));
}

#[test]
fn render_twice_leaves_buffers_unchanged() {
    // the strict depth test makes a repeated render of the same scene a
    // no-op: every fragment of the second pass ties its own depth and loses
    let spotlight = dummy_spotlight();
    let mut scene = Scene::new(fx(4.0 / 3.0), spotlight);
    let transform = Transform::new(0, 0, 0, Float3::zeros(), Float3::ones());
    scene.models.push(cube_model(white_shader(), transform, 0.5));
    scene.camera = Camera::new(
        f3(0.0, 0.0, 5.0),
        Float3::zeros(),
        Float3::unit_y(),
        68630,
        fx(4.0 / 3.0),
        -FX_ONE,
        -50 * FX_ONE,
    );
    let mut target = RenderTarget::new(32, 24);
    target.clear(Float3::zeros());
    target.render(&mut scene);
    let color_once = target.color_buffer.clone();
    let depth_once = target.depth_buffer.clone();
    target.render(&mut scene);
    assert_eq!(target.color_buffer, color_once);
    assert_eq!(target.depth_buffer, depth_once);
}

#[test]
fn camera_new_frustum_from_fov() {
    // sixty-degree vertical field of view: top = -near * tan(fov / 2)
    let cam = Camera::new(
        f3(0.0, 0.0, 5.0),
        Float3::zeros(),
        Float3::unit_y(),
        68630,
        fx(4.0 / 3.0),
        -FX_ONE,
        -50 * FX_ONE,
    );
    assert_eq!(cam.top, 37837);
    assert_eq!(cam.bottom, -37837);
    assert_eq!(cam.right, 50449);
    assert_eq!(cam.left, -50449);
    // the projection's last row passes the view depth through as w
    assert_eq!(cam.projection.r4, Float4::new(0, 0, FX_ONE, 0));
}

#[test]
fn byte_arrays_leave_larger_buffers_tail_untouched() {
    let colors = vec![f3(1.0, 1.0, 1.0), f3(0.0, 0.0, 0.0)];
    let mut out = vec![7u8; 12];
    color_buffer_to_byte_array(&colors, 1, 1, &mut out);
    assert_eq!(&out[..4], &[255, 255, 255, 255]);
    assert!(out[4..].iter().all(|b| *b == 7));

    let depths = vec![0i64, FX_ONE / 2];
    let mut dout = vec![9u8; 4];
    depth_buffer_to_byte_array(&depths, 1, 1, -FX_ONE, -100 * FX_ONE, false, &mut dout);
    assert_eq!(dout[0], 0);
    assert!(dout[1..].iter().all(|b| *b == 9));
}
