use rastr::fx::FX_ONE;
use rastr::light::SpotLight;
use rastr::math::Float3;
use rastr::scene::{Scene, SceneInput, PITCH_LIMIT};

fn f3(x: f64, y: f64, z: f64) -> Float3 {
    Float3::new((x * 65536.0) as i64, (y * 65536.0) as i64, (z * 65536.0) as i64)
}

fn quiet_input(delta_time: i64) -> SceneInput {
    SceneInput {
        delta_time,
        mouse_dx: 0,
        mouse_dy: 0,
        key_forward: false,
        key_backward: false,
        key_left: false,
        key_right: false,
    }
}

fn fresh_scene() -> Scene {
    let spotlight = SpotLight::new(
        Float3::ones(),
        f3(-8.0, 8.0, 0.0),
        Float3::zeros(),
        (0.5236 * 65536.0) as i64,
        32,
        32,
    );
    Scene::new(FX_ONE * 4 / 3, spotlight)
}

#[test]
fn new_scene_starts_empty_with_cleared_counters() {
    let scene = fresh_scene();
    assert_eq!(scene.models.len(), 0);
    assert_eq!(scene.total_frame_time, 0);
    assert_eq!(scene.average_frame_time, 0);
    assert_eq!(scene.frame_counter, 0);
    assert_eq!(scene.last_frame_counter, 0);
    assert!(scene.spotlight.shadow_map.image.iter().all(|d| *d == FX_ONE));
}

#[test]
fn update_accumulates_frame_time() {
    let mut scene = fresh_scene();
    let dt = FX_ONE / 4;
    scene.update(640, quiet_input(dt));
    scene.update(640, quiet_input(dt));
    assert_eq!(scene.total_frame_time, FX_ONE / 2);
    assert_eq!(scene.frame_counter, 2);
    assert_eq!(scene.last_frame_counter, 0);
}

#[test]
fn update_rolls_over_after_one_second() {
    let mut scene = fresh_scene();
    let dt = FX_ONE / 2;
    scene.update(640, quiet_input(dt));
    scene.update(640, quiet_input(dt));
    // one second reached but not exceeded: still accumulating
    assert_eq!(scene.frame_counter, 2);
    scene.update(640, quiet_input(dt));
    // now past one second: the counters roll over
    assert_eq!(scene.total_frame_time, 0);
    assert_eq!(scene.frame_counter, 0);
    assert_eq!(scene.last_frame_counter, 3);
    assert_eq!(scene.average_frame_time, FX_ONE / 2);
}

#[test]
fn update_clamps_pitch() {
    let mut scene = fresh_scene();
    let mut input = quiet_input(1);
    input.mouse_dy = i64::MAX / 4;
    scene.update(640, input);
    assert_eq!(scene.camera.transform.pitch, PITCH_LIMIT);
    input.mouse_dy = -i64::MAX / 4;
    scene.update(640, input);
    scene.update(640, input);
    assert_eq!(scene.camera.transform.pitch, -PITCH_LIMIT);
}

#[test]
fn update_moves_camera_forward() {
    let mut scene = fresh_scene();
    let before = scene.camera.transform.position;
    let mut input = quiet_input(FX_ONE / 10);
    input.key_forward = true;
    scene.update(640, input);
    let after = scene.camera.transform.position;
    assert!(before != after);
    // the height stays pinned
    assert_eq!(after.y, 131072);
}
