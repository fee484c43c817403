//! A virtual camera: a placement in the world plus an off-center perspective
//! frustum whose projection matrix is computed once at construction.

use vstd::prelude::*;
use crate::fx::{
    FX_ONE, spec_div, spec_mul, spec_neg, spec_sin, spec_cos, div_trunc, fx_mul, fx_neg, fx_div,
    fx_divn, fx_tan,
};
use crate::math::{Float3, Float4x4, spec_mat_perspective, spec_f3_ones};
use crate::transform::{Transform, spec_from_vectors};

verus! {

/// A virtual camera looking down its negative z axis. The near and far
/// distances are both negative and `far < near`; the frustum half-extents
/// describe the near plane.
#[derive(Clone, Copy, PartialEq, Eq, Structural, Debug)]
pub struct Camera {
    /// Aspect ratio of the image, width over height.
    pub aspect_ratio: i64,
    /// Distance to the near view plane along the negative z axis.
    pub near: i64,
    /// Distance to the far view plane along the negative z axis; `far < near`.
    pub far: i64,
    /// Distance to the top view plane.
    pub top: i64,
    /// Distance to the bottom view plane.
    pub bottom: i64,
    /// Distance to the right view plane.
    pub right: i64,
    /// Distance to the left view plane.
    pub left: i64,
    /// Placement of the camera in the world.
    pub transform: Transform,
    /// Projection matrix, fixed for the camera's lifetime.
    pub projection: Float4x4,
}

/// Half-height of the near plane for a vertical field of view: the tangent
/// of half the angle, scaled by the (negated) near distance.
pub open spec fn spec_fov_top(fov: int, near: int) -> int {
    spec_mul(
        spec_neg(near),
        spec_div(spec_sin(div_trunc(fov, 2)), spec_cos(div_trunc(fov, 2))),
    )
}

/// The camera built from a vertical field of view and an aspect ratio, at
/// spec level.
pub open spec fn spec_camera_new(
    position: Float3,
    target: Float3,
    up: Float3,
    fov: i64,
    aspect_ratio: i64,
    near: i64,
    far: i64,
) -> Camera {
    let top = spec_fov_top(fov as int, near as int);
    let right = spec_mul(top, aspect_ratio as int);
    Camera {
        aspect_ratio,
        near,
        far,
        top: top as i64,
        bottom: spec_neg(top) as i64,
        right: right as i64,
        left: spec_neg(right) as i64,
        transform: spec_from_vectors(target, up, position, spec_f3_ones()),
        projection: spec_mat_perspective(
            near as int,
            far as int,
            spec_neg(right),
            right,
            top,
            spec_neg(top),
        ),
    }
}

/// The camera built from the near plane's width and the aspect ratio, at
/// spec level.
pub open spec fn spec_camera_from_dimensions(
    position: Float3,
    target: Float3,
    up: Float3,
    width: i64,
    aspect_ratio: i64,
    near: i64,
    far: i64,
) -> Camera {
    let top = div_trunc(spec_div(width as int, aspect_ratio as int), 2);
    let right = div_trunc(width as int, 2);
    Camera {
        aspect_ratio,
        near,
        far,
        top: top as i64,
        bottom: spec_neg(top) as i64,
        right: right as i64,
        left: spec_neg(right) as i64,
        transform: spec_from_vectors(target, up, position, spec_f3_ones()),
        projection: spec_mat_perspective(
            near as int,
            far as int,
            spec_neg(right),
            right,
            top,
            spec_neg(top),
        ),
    }
}

impl Camera {
    /// Build a camera at `position` looking at `target` with `up` fixing its
    /// roll, from a vertical field of view and an aspect ratio.
    pub fn new(
        position: Float3,
        target: Float3,
        up: Float3,
        fov: i64,
        aspect_ratio: i64,
        near: i64,
        far: i64,
    ) -> (r: Camera)
        ensures
            r == spec_camera_new(position, target, up, fov, aspect_ratio, near, far),
    {
        let top: i64 = fx_mul(fx_neg(near), fx_tan(fx_divn(fov, 2)));
        let bottom: i64 = fx_neg(top);
        let right: i64 = fx_mul(top, aspect_ratio);
        let left: i64 = fx_neg(right);

        let projection: Float4x4 = Float4x4::perspective_projection(
            near,
            far,
            left,
            right,
            top,
            bottom,
        );

        Camera {
            aspect_ratio,
            near,
            far,
            top,
            bottom,
            right,
            left,
            transform: Transform::from_vectors(target, up, position, Float3::ones()),
            projection,
        }
    }

    /// Build a camera whose frustum is given by the near plane's width and
    /// the aspect ratio instead of an angle.
    pub fn from_dimensions(
        position: Float3,
        target: Float3,
        up: Float3,
        width: i64,
        aspect_ratio: i64,
        near: i64,
        far: i64,
    ) -> (r: Camera)
        ensures
            r == spec_camera_from_dimensions(position, target, up, width, aspect_ratio, near, far),
    {
        let height: i64 = fx_div(width, aspect_ratio);
        let top: i64 = fx_divn(height, 2);
        let bottom: i64 = fx_neg(top);
        let right: i64 = fx_divn(width, 2);
        let left: i64 = fx_neg(right);

        let projection: Float4x4 = Float4x4::perspective_projection(
            near,
            far,
            left,
            right,
            top,
            bottom,
        );

        Camera {
            aspect_ratio,
            near,
            far,
            top,
            bottom,
            right,
            left,
            transform: Transform::from_vectors(target, up, position, Float3::ones()),
            projection,
        }
    }
}

} // verus!
