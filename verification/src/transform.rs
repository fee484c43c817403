//! Spatial transform of an object: Euler angles, world position, and
//! non-uniform scale, with the derived world and inverse-world homogeneous
//! matrices.

use vstd::prelude::*;
use crate::fx::{
    FX_ONE, spec_sin, spec_cos, spec_div, spec_neg, spec_sub, spec_mul, spec_atan2, spec_asin,
    fx_sin, fx_cos, fx_div, fx_neg, fx_atan2, fx_asin,
};
use crate::math::{
    Float3, Float4, Float4x4, spec_mat_mul, spec_mat_vec, spec_mat_rotation_x,
    spec_mat_rotation_y, spec_mat_rotation_z, spec_mat_translation, spec_mat_scaling, spec_col1,
    spec_col2, spec_col3, spec_col4, spec_norm3, spec_xyz,
};

verus! {

/// Placement of an object in world space: a rotation given by Euler angles
/// (applied in the fixed order roll about z, then pitch about x, then yaw
/// about y), a position, and a non-uniform scale.
#[derive(Clone, Copy, PartialEq, Eq, Structural, Debug)]
pub struct Transform {
    /// Rotation about the upward axis.
    pub yaw: i64,
    /// Rotation about the rightward axis.
    pub pitch: i64,
    /// Rotation about the forward axis.
    pub roll: i64,
    /// Position of the object in world space.
    pub position: Float3,
    /// Scale of the object, per axis.
    pub scale: Float3,
}

/// The rotation matrix of a transform: `Rz(roll) * Rx(pitch) * Ry(yaw)`,
/// which carries world space into model space.
pub open spec fn spec_rotation(t: Transform) -> Float4x4 {
    spec_mat_mul(
        spec_mat_mul(
            spec_mat_rotation_z(spec_sin(t.roll as int) as i64, spec_cos(t.roll as int) as i64),
            spec_mat_rotation_x(spec_sin(t.pitch as int) as i64, spec_cos(t.pitch as int) as i64),
        ),
        spec_mat_rotation_y(spec_sin(t.yaw as int) as i64, spec_cos(t.yaw as int) as i64),
    )
}

/// The transpose of a matrix.
pub open spec fn spec_transpose(m: Float4x4) -> Float4x4 {
    Float4x4 {
        r1: spec_col1(m),
        r2: spec_col2(m),
        r3: spec_col3(m),
        r4: spec_col4(m),
    }
}

/// The componentwise reciprocal of a scale vector.
pub open spec fn spec_recip_scale(s: Float3) -> Float3 {
    Float3 {
        x: spec_div(FX_ONE as int, s.x as int) as i64,
        y: spec_div(FX_ONE as int, s.y as int) as i64,
        z: spec_div(FX_ONE as int, s.z as int) as i64,
    }
}

/// The world matrix of a transform: translate after scaling after the
/// inverse (transposed) rotation.
pub open spec fn spec_world_matrix(t: Transform) -> Float4x4 {
    spec_mat_mul(
        spec_mat_mul(spec_mat_translation(t.position), spec_mat_scaling(t.scale)),
        spec_transpose(spec_rotation(t)),
    )
}

/// The inverse world matrix of a transform: rotate after unscaling after
/// translating back.
pub open spec fn spec_inverse_world_matrix(t: Transform) -> Float4x4 {
    spec_mat_mul(
        spec_mat_mul(spec_rotation(t), spec_mat_scaling(spec_recip_scale(t.scale))),
        spec_mat_translation(
            Float3 {
                x: spec_neg(t.position.x as int) as i64,
                y: spec_neg(t.position.y as int) as i64,
                z: spec_neg(t.position.z as int) as i64,
            },
        ),
    )
}

/// The transform that looks from `position` toward `target` with `up`
/// fixing the roll: the Euler angles recovered from the orthonormal viewing
/// basis.
pub open spec fn spec_from_vectors(
    target: Float3,
    up: Float3,
    position: Float3,
    scale: Float3,
) -> Transform {
    let fwd = spec_normalized3(spec_f3_sub(position, target));
    let right = spec_normalized3(spec_cross3(up, fwd));
    let up2 = spec_cross3(fwd, right);
    Transform {
        yaw: spec_atan2(spec_neg(fwd.x as int), fwd.z as int) as i64,
        pitch: spec_asin(fwd.y as int) as i64,
        roll: spec_atan2(spec_neg(right.y as int), up2.y as int) as i64,
        position,
        scale,
    }
}

impl Transform {
    /// Build a transform from its attributes.
    pub fn new(yaw: i64, pitch: i64, roll: i64, position: Float3, scale: Float3) -> (r: Transform)
        ensures
            r == (Transform { yaw, pitch, roll, position, scale }),
    {
        Transform { yaw, pitch, roll, position, scale }
    }

    /// Build a transform that looks from `position` toward `target`, with
    /// `up` fixing the camera roll. The Euler angles are recovered from the
    /// orthonormal basis built out of the viewing direction.
    pub fn from_vectors(target: Float3, up: Float3, position: Float3, scale: Float3) -> (r:
        Transform)
        ensures
            r == spec_from_vectors(target, up, position, scale),
    {
        let fwd: Float3 = position.sub(target).normalized();
        let right: Float3 = up.cross(fwd).normalized();
        let up2: Float3 = fwd.cross(right);

        let yaw: i64 = fx_atan2(fx_neg(fwd.x), fwd.z);
        let pitch: i64 = fx_asin(fwd.y);
        let roll: i64 = fx_atan2(fx_neg(right.y), up2.y);

        Transform { yaw, pitch, roll, position, scale }
    }

    /// Transform a homogeneous point from model space to world space.
    pub fn to_world_point(&self, p: Float4) -> (r: Float4)
        ensures
            r == spec_mat_vec(spec_world_matrix(*self), p),
    {
        self.world_matrix().mul_vec(&p)
    }

    /// The homogeneous matrix from model space to world space.
    pub fn world_matrix(&self) -> (r: Float4x4)
        ensures
            r == spec_world_matrix(*self),
    {
        Float4x4::translation(self.position).mul(&Float4x4::scaling(self.scale)).mul(
            &self.get_inverse_rotation(),
        )
    }

    /// Transform a homogeneous point from world space to model space.
    pub fn to_local_point(&self, p: Float4) -> (r: Float4)
        ensures
            r == spec_mat_vec(spec_inverse_world_matrix(*self), p),
    {
        self.inverse_world_matrix().mul_vec(&p)
    }

    /// The homogeneous matrix from world space to model space: the exact
    /// algebraic inverse of the world matrix when no rounding intervenes.
    pub fn inverse_world_matrix(&self) -> (r: Float4x4)
        ensures
            r == spec_inverse_world_matrix(*self),
    {
        let recip: Float3 = Float3 {
            x: fx_div(FX_ONE, self.scale.x),
            y: fx_div(FX_ONE, self.scale.y),
            z: fx_div(FX_ONE, self.scale.z),
        };
        self.get_rotation().mul(&Float4x4::scaling(recip)).mul(
            &Float4x4::translation(self.position.neg()),
        )
    }

    /// The rotation part of the transform from world space to model space.
    pub fn get_rotation(&self) -> (r: Float4x4)
        ensures
            r == spec_rotation(*self),
    {
        Float4x4::rotation_z_sc(fx_sin(self.roll), fx_cos(self.roll)).mul(
            &Float4x4::rotation_x_sc(fx_sin(self.pitch), fx_cos(self.pitch)),
        ).mul(&Float4x4::rotation_y_sc(fx_sin(self.yaw), fx_cos(self.yaw)))
    }

    /// The rotation part of the transform from model space to world space:
    /// the transpose of the world-to-model rotation, whose rows are
    /// orthonormal.
    pub fn get_inverse_rotation(&self) -> (r: Float4x4)
        ensures
            r == spec_transpose(spec_rotation(*self)),
    {
        self.get_rotation().transpose()
    }

    /// The basis vectors of the rotation: its rows are the rightward,
    /// upward, and forward directions expressed in world space.
    pub fn get_basis_vectors(&self) -> (r: (Float3, Float3, Float3))
        ensures
            r.0 == spec_xyz(spec_rotation(*self).r1),
            r.1 == spec_xyz(spec_rotation(*self).r2),
            r.2 == spec_xyz(spec_rotation(*self).r3),
    {
        let rot: Float4x4 = self.get_rotation();
        (rot.r1.xyz(), rot.r2.xyz(), rot.r3.xyz())
    }
}

/// Round-trip law of the transform, on the inputs where the fixed-point
/// arithmetic is exact: with zero rotation and unit scale, carrying a
/// homogeneous point into world space and back returns it unchanged. With a
/// general rotation or scale the reciprocal and the products round, and the
/// round trip holds only to within that rounding, which the tests exercise.
pub proof fn lemma_world_round_trip(t: Transform, p: Float4)
    requires
        t.yaw == 0,
        t.pitch == 0,
        t.roll == 0,
        t.scale.x == FX_ONE || t.scale.x == -FX_ONE,
        t.scale.y == FX_ONE || t.scale.y == -FX_ONE,
        t.scale.z == FX_ONE || t.scale.z == -FX_ONE,
        p.w == FX_ONE,
        -0x1000000000000000 <= p.x <= 0x1000000000000000,
        -0x1000000000000000 <= p.y <= 0x1000000000000000,
        -0x1000000000000000 <= p.z <= 0x1000000000000000,
        -0x1000000000000000 <= t.position.x <= 0x1000000000000000,
        -0x1000000000000000 <= t.position.y <= 0x1000000000000000,
        -0x1000000000000000 <= t.position.z <= 0x1000000000000000,
    ensures
        spec_mat_vec(spec_inverse_world_matrix(t), spec_mat_vec(spec_world_matrix(t), p)) == p,
{
    crate::fx::lemma_mul_one(FX_ONE as int);
    crate::fx::lemma_mul_one(p.x as int);
    crate::fx::lemma_mul_one(p.y as int);
    crate::fx::lemma_mul_one(p.z as int);
    crate::fx::lemma_mul_one(t.position.x as int);
    crate::fx::lemma_mul_one(t.position.y as int);
    crate::fx::lemma_mul_one(t.position.z as int);
    crate::fx::lemma_mul_zero(p.x as int);
    crate::fx::lemma_mul_zero(p.y as int);
    crate::fx::lemma_mul_zero(p.z as int);
    crate::fx::lemma_mul_zero(t.position.x as int);
    crate::fx::lemma_mul_zero(t.position.y as int);
    crate::fx::lemma_mul_zero(t.position.z as int);
    crate::fx::lemma_mul_one(t.scale.x as int);
    crate::fx::lemma_mul_one(t.scale.y as int);
    crate::fx::lemma_mul_one(t.scale.z as int);
    crate::fx::lemma_mul_one(-(t.position.x as int));
    crate::fx::lemma_mul_one(-(t.position.y as int));
    crate::fx::lemma_mul_one(-(t.position.z as int));
    crate::fx::lemma_mul_zero(t.scale.x as int);
    crate::fx::lemma_mul_zero(t.scale.y as int);
    crate::fx::lemma_mul_zero(t.scale.z as int);
    crate::fx::lemma_mul_zero(0);
    assert(0int % (crate::fx::FX_TWO_PI as int) == 0);
    assert(crate::fx::spec_sin_poly(0) == 0);
    assert(spec_sin(0) == 0);
    assert(crate::fx::spec_cos_poly(0) == FX_ONE as int);
    assert(spec_cos(0) == FX_ONE as int);
    let rot = spec_rotation(t);
    assert(rot == crate::math::spec_mat_eye());
    let w = spec_world_matrix(t);
    assert(w.r1 == (Float4 { x: t.scale.x, y: 0i64, z: 0i64, w: t.position.x }));
    assert(w.r2 == (Float4 { x: 0i64, y: t.scale.y, z: 0i64, w: t.position.y }));
    assert(w.r3 == (Float4 { x: 0i64, y: 0i64, z: t.scale.z, w: t.position.z }));
    assert(w.r4 == (Float4 { x: 0i64, y: 0i64, z: 0i64, w: FX_ONE }));
    assert(spec_recip_scale(t.scale) == t.scale);
    let iw = spec_inverse_world_matrix(t);
    assert(iw.r1 == (Float4 { x: t.scale.x, y: 0i64, z: 0i64, w: spec_mul(t.scale.x as int, spec_neg(t.position.x as int)) as i64 }));
    assert(iw.r2 == (Float4 { x: 0i64, y: t.scale.y, z: 0i64, w: spec_mul(t.scale.y as int, spec_neg(t.position.y as int)) as i64 }));
    assert(iw.r3 == (Float4 { x: 0i64, y: 0i64, z: t.scale.z, w: spec_mul(t.scale.z as int, spec_neg(t.position.z as int)) as i64 }));
    assert(iw.r4 == (Float4 { x: 0i64, y: 0i64, z: 0i64, w: FX_ONE }));
    let q = spec_mat_vec(w, p);
    crate::fx::lemma_mul_one(q.x as int);
    crate::fx::lemma_mul_one(q.y as int);
    crate::fx::lemma_mul_one(q.z as int);
    assert(q.w == FX_ONE);
    assert(spec_mat_vec(iw, q) == p);
}

/// Componentwise difference of three-component vectors, at spec level.
pub open spec fn spec_f3_sub(a: Float3, b: Float3) -> Float3 {
    Float3 {
        x: spec_sub(a.x as int, b.x as int) as i64,
        y: spec_sub(a.y as int, b.y as int) as i64,
        z: spec_sub(a.z as int, b.z as int) as i64,
    }
}

/// Cross product of three-component vectors, at spec level.
pub open spec fn spec_cross3(a: Float3, b: Float3) -> Float3 {
    Float3 {
        x: spec_sub(spec_mul(a.y as int, b.z as int), spec_mul(a.z as int, b.y as int)) as i64,
        y: spec_sub(spec_mul(a.z as int, b.x as int), spec_mul(a.x as int, b.z as int)) as i64,
        z: spec_sub(spec_mul(a.x as int, b.y as int), spec_mul(a.y as int, b.x as int)) as i64,
    }
}

/// Normalization of a three-component vector, at spec level: the zero vector
/// when the norm rounds to zero.
pub open spec fn spec_normalized3(a: Float3) -> Float3 {
    let n = spec_norm3(a);
    if n == 0 {
        Float3 { x: 0i64, y: 0i64, z: 0i64 }
    } else {
        Float3 {
            x: spec_div(a.x as int, n) as i64,
            y: spec_div(a.y as int, n) as i64,
            z: spec_div(a.z as int, n) as i64,
        }
    }
}

} // verus!
