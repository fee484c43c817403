//! The rendered scene: the main camera, the models, the one shadow-casting
//! spotlight, and the frame-timing counters that the driving loop updates.

use vstd::prelude::*;
use crate::camera::{Camera, spec_camera_new};
use crate::fx::{FX_ONE, spec_add, spec_mul, fx_add, fx_mul, fx_clamp, fx_div};
use crate::light::SpotLight;
use crate::math::Float3;
use crate::model::Model;

verus! {

/// The pitch bound of the camera: just under a quarter turn, so the view
/// never flips over the pole.
pub const PITCH_LIMIT: i64 = 101790;

/// The camera's movement speed, world units per second.
pub const CAM_SPEED: i64 = 327680;

/// The mouse sensitivity of the camera rotation.
pub const MOUSE_SENSITIVITY: i64 = 131072;

/// Description of the rendered scene.
pub struct Scene {
    /// Main camera.
    pub camera: Camera,
    /// Triangle models.
    pub models: Vec<Model>,
    /// The one shadow-casting spotlight.
    pub spotlight: SpotLight,
    /// Time spent in frames since the last rollover.
    pub total_frame_time: i64,
    /// Average time needed to compute a frame within the last second.
    pub average_frame_time: i64,
    /// Frames since the last rollover.
    pub frame_counter: i64,
    /// Number of frames computed within the last second.
    pub last_frame_counter: i64,
}

/// The input of one scene update: the frame time and what the user did, as
/// plain values.
#[derive(Clone, Copy, Debug)]
pub struct SceneInput {
    /// Seconds since the previous frame.
    pub delta_time: i64,
    /// Horizontal mouse movement, in pixels.
    pub mouse_dx: i64,
    /// Vertical mouse movement, in pixels.
    pub mouse_dy: i64,
    /// Whether the forward key is held.
    pub key_forward: bool,
    /// Whether the backward key is held.
    pub key_backward: bool,
    /// Whether the leftward key is held.
    pub key_left: bool,
    /// Whether the rightward key is held.
    pub key_right: bool,
}

impl Scene {
    /// Whether every model is well formed and the spotlight's shadow map is.
    pub open spec fn wf(self) -> bool {
        &&& forall|i: int| 0 <= i < self.models@.len() ==> (#[trigger] self.models@[i]).wf()
        &&& self.spotlight.shadow_map.wf()
    }

    /// Build a scene with the default camera, the given spotlight, and no
    /// models yet; the scene driver adds models afterward.
    pub fn new(aspect_ratio: i64, spotlight: SpotLight) -> (r: Scene)
        requires
            spotlight.shadow_map.wf(),
        ensures
            r.wf(),
            r.models@.len() == 0,
            r.spotlight == spotlight,
            r.camera == spec_camera_new(
                Float3 { x: 0i64, y: 131072i64, z: 1310720i64 },
                Float3 { x: 0i64, y: 0i64, z: 0i64 },
                Float3 { x: 0i64, y: FX_ONE, z: 0i64 },
                68630i64,
                aspect_ratio,
                -65536i64,
                -3276800i64,
            ),
            r.total_frame_time == 0,
            r.average_frame_time == 0,
            r.frame_counter == 0,
            r.last_frame_counter == 0,
    {
        Scene {
            camera: Camera::new(
                Float3 { x: 0, y: 131072, z: 1310720 },
                Float3 { x: 0, y: 0, z: 0 },
                Float3 { x: 0, y: FX_ONE, z: 0 },
                68630,
                aspect_ratio,
                -65536,
                -3276800,
            ),
            models: Vec::new(),
            spotlight,
            total_frame_time: 0,
            average_frame_time: 0,
            frame_counter: 0,
            last_frame_counter: 0,
        }
    }

    /// Advance the frame-timing counters and move the camera from the
    /// frame's input: the pitch follows the vertical mouse movement within
    /// the pitch bound, the yaw follows the horizontal movement, and the
    /// held keys glide the camera along its basis vectors at the fixed
    /// speed, with the height pinned.
    ///
    /// The timing counters accumulate until a second has passed, then the
    /// average frame time — the accumulated time over the frame count —
    /// and the frame count roll over and reset. The counter bound keeps the
    /// fixed-point average's divisor representable.
    #[verifier::rlimit(100)]
    pub fn update(&mut self, target_width: usize, input: SceneInput)
        requires
            1 <= target_width,
            0 <= old(self).frame_counter < 140737488355327,
        ensures
            final(self).models == old(self).models,
            final(self).spotlight == old(self).spotlight,
            old(self).total_frame_time + input.delta_time <= FX_ONE ==> {
                &&& final(self).total_frame_time as int == spec_add(
                    old(self).total_frame_time as int,
                    input.delta_time as int,
                )
                &&& final(self).frame_counter == old(self).frame_counter + 1
                &&& final(self).average_frame_time == old(self).average_frame_time
                &&& final(self).last_frame_counter == old(self).last_frame_counter
            },
            old(self).total_frame_time + input.delta_time > FX_ONE ==> {
                &&& final(self).total_frame_time == 0
                &&& final(self).frame_counter == 0
                &&& final(self).last_frame_counter == old(self).frame_counter + 1
                &&& final(self).average_frame_time as int == crate::fx::spec_div(
                    spec_add(old(self).total_frame_time as int, input.delta_time as int),
                    (old(self).frame_counter + 1) * (FX_ONE as int),
                )
            },
            final(self).camera.transform.pitch == spec_clamp_i(
                spec_add(
                    old(self).camera.transform.pitch as int,
                    spec_mouse_delta(input.mouse_dy as int, target_width as int),
                ),
                -(PITCH_LIMIT as int),
                PITCH_LIMIT as int,
            ),
            final(self).camera.transform.yaw as int == spec_add(
                old(self).camera.transform.yaw as int,
                spec_mouse_delta(input.mouse_dx as int, target_width as int),
            ),
            final(self).wf() <==> old(self).wf(),
    {
        let delta_time: i64 = input.delta_time;
        self.total_frame_time = fx_add(self.total_frame_time, delta_time);
        if self.total_frame_time > FX_ONE {
            self.average_frame_time = fx_div(
                self.total_frame_time,
                (self.frame_counter + 1) * FX_ONE,
            );
            self.total_frame_time = 0;
            self.last_frame_counter = self.frame_counter + 1;
            self.frame_counter = 0;
        } else {
            self.frame_counter = self.frame_counter + 1;
        }

        let wpx: i64 = if target_width > 32768 {
            32768i64 * FX_ONE
        } else {
            (target_width as i64) * FX_ONE
        };
        let ddx: i64 = fx_mul(fx_div(input.mouse_dx, wpx), MOUSE_SENSITIVITY);
        let ddy: i64 = fx_mul(fx_div(input.mouse_dy, wpx), MOUSE_SENSITIVITY);
        self.camera.transform.pitch = fx_clamp(
            fx_add(self.camera.transform.pitch, ddy),
            -PITCH_LIMIT,
            PITCH_LIMIT,
        );
        self.camera.transform.yaw = fx_add(self.camera.transform.yaw, ddx);

        let (cam_right, _cam_up, cam_fwd): (Float3, Float3, Float3) =
            self.camera.transform.get_basis_vectors();
        let mut move_delta: Float3 = Float3::zeros();
        if input.key_forward {
            move_delta = move_delta.sub(cam_fwd);
        }
        if input.key_backward {
            move_delta = move_delta.add(cam_fwd);
        }
        if input.key_left {
            move_delta = move_delta.sub(cam_right);
        }
        if input.key_right {
            move_delta = move_delta.add(cam_right);
        }
        let step: Float3 = move_delta.normalized().scale(fx_mul(CAM_SPEED, delta_time));
        self.camera.transform.position = self.camera.transform.position.add(step);
        self.camera.transform.position.y = 131072;
        proof {
            assert(self.models@ == old(self).models@);
            assert(self.spotlight == old(self).spotlight);
            assert(old(self).wf() ==> self.wf());
            assert(self.wf() ==> old(self).wf());
        }
    }
}

/// The camera angle change for a mouse movement: the movement over the
/// target width, scaled by the sensitivity.
pub open spec fn spec_mouse_delta(d: int, target_width: int) -> int {
    let w = if target_width > 32768 {
        32768int * (FX_ONE as int)
    } else {
        target_width * (FX_ONE as int)
    };
    spec_mul(crate::fx::spec_div(d, w), MOUSE_SENSITIVITY as int)
}

/// Clamp an unbounded integer into a range, at spec level.
pub open spec fn spec_clamp_i(v: int, lo: int, hi: int) -> int {
    if v < lo {
        lo
    } else if v > hi {
        hi
    } else {
        v
    }
}

} // verus!
