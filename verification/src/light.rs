//! A cone-like spotlight with its shadow map: a depth-only texture rendered
//! from the light's own perspective camera and sampled during the color
//! pass.

use vstd::prelude::*;
use crate::fx::{FX_ONE, fx_div};
use crate::camera::{Camera, spec_camera_new};
use crate::math::Float3;
use crate::texture::{Texture, TEXTURE_LIMIT};

verus! {

/// The near distance of every shadow-map camera, along its negative z axis.
pub const SHADOW_NEAR: i64 = -65536;

/// The far distance of every shadow-map camera, along its negative z axis.
pub const SHADOW_FAR: i64 = -6553600;

/// A cone-like spotlight. Its internal camera is used purely for the
/// shadow-map projection; the shadow map stores normalized depths with one
/// as the far sentinel.
pub struct SpotLight {
    /// Color of the emitted light.
    pub color: Float3,
    /// Position of the spotlight in world space.
    pub position: Float3,
    /// Point targeted by the spotlight in world space.
    pub target: Float3,
    /// Half-angle of the spotlight's cone.
    pub angle: i64,
    /// Camera used for producing the shadow map.
    pub camera: Camera,
    /// Shadow map as a depth texture.
    pub shadow_map: Texture<i64>,
}

impl SpotLight {
    /// Build a spotlight at `position` aimed at `target` with the given cone
    /// half-angle, and an empty shadow map of the given size cleared to the
    /// far sentinel.
    pub fn new(
        color: Float3,
        position: Float3,
        target: Float3,
        angle: i64,
        shadow_map_width: usize,
        shadow_map_height: usize,
    ) -> (r: SpotLight)
        requires
            1 <= shadow_map_width <= TEXTURE_LIMIT,
            1 <= shadow_map_height <= TEXTURE_LIMIT,
        ensures
            r.color == color,
            r.position == position,
            r.target == target,
            r.angle == angle,
            r.camera == spec_camera_new(
                position,
                target,
                Float3 { x: 0i64, y: FX_ONE, z: 0i64 },
                crate::fx::spec_add(angle as int, angle as int) as i64,
                crate::fx::spec_div(
                    shadow_map_width as int * (FX_ONE as int),
                    shadow_map_height as int * (FX_ONE as int),
                ) as i64,
                SHADOW_NEAR,
                SHADOW_FAR,
            ),
            r.shadow_map.wf(),
            r.shadow_map.width == shadow_map_width,
            r.shadow_map.height == shadow_map_height,
            forall|i: int| 0 <= i < r.shadow_map.image@.len() ==> r.shadow_map.image@[i] == FX_ONE,
    {
        let wfx: i64 = (shadow_map_width as i64) * FX_ONE;
        let hfx: i64 = (shadow_map_height as i64) * FX_ONE;
        let two_angle: i64 = crate::fx::fx_add(angle, angle);
        SpotLight {
            color,
            position,
            target,
            angle,
            camera: Camera::new(
                position,
                target,
                Float3::unit_y(),
                two_angle,
                fx_div(wfx, hfx),
                SHADOW_NEAR,
                SHADOW_FAR,
            ),
            shadow_map: Texture::new_filled(shadow_map_width, shadow_map_height, FX_ONE),
        }
    }
}

} // verus!
