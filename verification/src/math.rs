//! Vectors of two, three and four fixed-point components, a row-major 4x4
//! homogeneous matrix, and the signed-area and barycentric helpers of the
//! rasterizer.
//!
//! Every executable operation is specified exactly by a spec-level mirror
//! over the saturating fixed-point scalar operations of [`crate::fx`].

use vstd::prelude::*;
use crate::fx::{
    FX_ONE, spec_add, spec_sub, spec_neg, spec_mul, spec_div, spec_lerp, spec_sqrt, div_trunc,
    sat64, spec_sin, spec_cos, fx_add, fx_sub, fx_neg, fx_mul, fx_div, fx_lerp, fx_sqrt, fx_sin,
    fx_cos, sat_from_i128,
};

verus! {

/// Bound on the coordinates accepted by the exact signed-area and coverage
/// tests: `2^31`, that is 32768 pixels in fixed point. Screen-space
/// projection saturates into this range, so the double-width area arithmetic
/// below never overflows.
pub const COORD_LIMIT: i64 = 0x80000000;

/// A two-component fixed-point vector.
#[derive(Clone, Copy, PartialEq, Eq, Structural, Debug)]
pub struct Float2 {
    /// First component.
    pub x: i64,
    /// Second component.
    pub y: i64,
}

/// Dot product of two-component vectors over the saturating scalar ops.
pub open spec fn spec_dot2(a: Float2, b: Float2) -> int {
    spec_add(spec_mul(a.x as int, b.x as int), spec_mul(a.y as int, b.y as int))
}

impl Float2 {
    /// Build a vector from its components.
    pub fn new(x: i64, y: i64) -> (r: Float2)
        ensures
            r == (Float2 { x, y }),
    {
        Float2 { x, y }
    }

    /// The zero vector.
    pub fn zeros() -> (r: Float2)
        ensures
            r == (Float2 { x: 0i64, y: 0i64 }),
    {
        Float2 { x: 0, y: 0 }
    }

    /// The vector of ones.
    pub fn ones() -> (r: Float2)
        ensures
            r == (Float2 { x: FX_ONE, y: FX_ONE }),
    {
        Float2 { x: FX_ONE, y: FX_ONE }
    }

    /// The first basis vector.
    pub fn unit_x() -> (r: Float2)
        ensures
            r == (Float2 { x: FX_ONE, y: 0i64 }),
    {
        Float2 { x: FX_ONE, y: 0 }
    }

    /// The second basis vector.
    pub fn unit_y() -> (r: Float2)
        ensures
            r == (Float2 { x: 0i64, y: FX_ONE }),
    {
        Float2 { x: 0, y: FX_ONE }
    }

    /// Dot product.
    pub fn dot(&self, other: Float2) -> (r: i64)
        ensures
            r as int == spec_dot2(*self, other),
    {
        fx_add(fx_mul(self.x, other.x), fx_mul(self.y, other.y))
    }

    /// Perpendicular vector `(y, -x)`, a clockwise quarter turn.
    pub fn perp(self) -> (r: Float2)
        ensures
            r.x == self.y,
            r.y as int == spec_neg(self.x as int),
    {
        Float2 { x: self.y, y: fx_neg(self.x) }
    }

    /// Componentwise sum.
    pub fn add(&self, other: Float2) -> (r: Float2)
        ensures
            r.x as int == spec_add(self.x as int, other.x as int),
            r.y as int == spec_add(self.y as int, other.y as int),
    {
        Float2 { x: fx_add(self.x, other.x), y: fx_add(self.y, other.y) }
    }

    /// Componentwise difference.
    pub fn sub(&self, other: Float2) -> (r: Float2)
        ensures
            r.x as int == spec_sub(self.x as int, other.x as int),
            r.y as int == spec_sub(self.y as int, other.y as int),
    {
        Float2 { x: fx_sub(self.x, other.x), y: fx_sub(self.y, other.y) }
    }

    /// Multiplication by a scalar.
    pub fn scale(&self, s: i64) -> (r: Float2)
        ensures
            r.x as int == spec_mul(self.x as int, s as int),
            r.y as int == spec_mul(self.y as int, s as int),
    {
        Float2 { x: fx_mul(self.x, s), y: fx_mul(self.y, s) }
    }

    /// Linear interpolation `self + t * (other - self)`, componentwise.
    pub fn lerp(&self, other: Float2, t: i64) -> (r: Float2)
        ensures
            r.x as int == spec_lerp(self.x as int, other.x as int, t as int),
            r.y as int == spec_lerp(self.y as int, other.y as int, t as int),
    {
        Float2 { x: fx_lerp(self.x, other.x, t), y: fx_lerp(self.y, other.y, t) }
    }
}

/// A three-component fixed-point vector.
#[derive(Clone, Copy, PartialEq, Eq, Structural, Debug)]
pub struct Float3 {
    /// First component.
    pub x: i64,
    /// Second component.
    pub y: i64,
    /// Third component.
    pub z: i64,
}

/// Dot product of three-component vectors over the saturating scalar ops,
/// summed left to right.
pub open spec fn spec_dot3(a: Float3, b: Float3) -> int {
    spec_add(
        spec_add(spec_mul(a.x as int, b.x as int), spec_mul(a.y as int, b.y as int)),
        spec_mul(a.z as int, b.z as int),
    )
}

/// Euclidean norm of a three-component vector over the saturating ops.
pub open spec fn spec_norm3(a: Float3) -> int {
    spec_sqrt(spec_dot3(a, a))
}

impl Float3 {
    /// Build a vector from its components.
    pub fn new(x: i64, y: i64, z: i64) -> (r: Float3)
        ensures
            r == (Float3 { x, y, z }),
    {
        Float3 { x, y, z }
    }

    /// The zero vector.
    pub fn zeros() -> (r: Float3)
        ensures
            r == (Float3 { x: 0i64, y: 0i64, z: 0i64 }),
    {
        Float3 { x: 0, y: 0, z: 0 }
    }

    /// The vector of ones.
    pub fn ones() -> (r: Float3)
        ensures
            r == (Float3 { x: FX_ONE, y: FX_ONE, z: FX_ONE }),
    {
        Float3 { x: FX_ONE, y: FX_ONE, z: FX_ONE }
    }

    /// The first basis vector.
    pub fn unit_x() -> (r: Float3)
        ensures
            r == (Float3 { x: FX_ONE, y: 0i64, z: 0i64 }),
    {
        Float3 { x: FX_ONE, y: 0, z: 0 }
    }

    /// The second basis vector.
    pub fn unit_y() -> (r: Float3)
        ensures
            r == (Float3 { x: 0i64, y: FX_ONE, z: 0i64 }),
    {
        Float3 { x: 0, y: FX_ONE, z: 0 }
    }

    /// The third basis vector.
    pub fn unit_z() -> (r: Float3)
        ensures
            r == (Float3 { x: 0i64, y: 0i64, z: FX_ONE }),
    {
        Float3 { x: 0, y: 0, z: FX_ONE }
    }

    /// Dot product.
    pub fn dot(&self, other: Float3) -> (r: i64)
        ensures
            r as int == spec_dot3(*self, other),
    {
        fx_add(
            fx_add(fx_mul(self.x, other.x), fx_mul(self.y, other.y)),
            fx_mul(self.z, other.z),
        )
    }

    /// Cross product.
    pub fn cross(&self, other: Float3) -> (r: Float3)
        ensures
            r.x as int == spec_sub(
                spec_mul(self.y as int, other.z as int),
                spec_mul(self.z as int, other.y as int),
            ),
            r.y as int == spec_sub(
                spec_mul(self.z as int, other.x as int),
                spec_mul(self.x as int, other.z as int),
            ),
            r.z as int == spec_sub(
                spec_mul(self.x as int, other.y as int),
                spec_mul(self.y as int, other.x as int),
            ),
    {
        Float3 {
            x: fx_sub(fx_mul(self.y, other.z), fx_mul(self.z, other.y)),
            y: fx_sub(fx_mul(self.z, other.x), fx_mul(self.x, other.z)),
            z: fx_sub(fx_mul(self.x, other.y), fx_mul(self.y, other.x)),
        }
    }

    /// Euclidean norm.
    pub fn norm(&self) -> (r: i64)
        ensures
            r as int == spec_norm3(*self),
            r >= 0,
    {
        fx_sqrt(self.dot(*self))
    }

    /// The vector scaled to unit norm; the zero vector when the norm rounds
    /// to zero, so that no division by zero can arise.
    pub fn normalized(&self) -> (r: Float3)
        ensures
            spec_norm3(*self) == 0 ==> r == (Float3 { x: 0i64, y: 0i64, z: 0i64 }),
            spec_norm3(*self) != 0 ==> r.x as int == spec_div(self.x as int, spec_norm3(*self))
                && r.y as int == spec_div(self.y as int, spec_norm3(*self))
                && r.z as int == spec_div(self.z as int, spec_norm3(*self)),
    {
        let n: i64 = self.norm();
        if n == 0 {
            Float3 { x: 0, y: 0, z: 0 }
        } else {
            Float3 { x: fx_div(self.x, n), y: fx_div(self.y, n), z: fx_div(self.z, n) }
        }
    }

    /// Componentwise sum.
    pub fn add(&self, other: Float3) -> (r: Float3)
        ensures
            r.x as int == spec_add(self.x as int, other.x as int),
            r.y as int == spec_add(self.y as int, other.y as int),
            r.z as int == spec_add(self.z as int, other.z as int),
    {
        Float3 {
            x: fx_add(self.x, other.x),
            y: fx_add(self.y, other.y),
            z: fx_add(self.z, other.z),
        }
    }

    /// Componentwise difference.
    pub fn sub(&self, other: Float3) -> (r: Float3)
        ensures
            r.x as int == spec_sub(self.x as int, other.x as int),
            r.y as int == spec_sub(self.y as int, other.y as int),
            r.z as int == spec_sub(self.z as int, other.z as int),
    {
        Float3 {
            x: fx_sub(self.x, other.x),
            y: fx_sub(self.y, other.y),
            z: fx_sub(self.z, other.z),
        }
    }

    /// Componentwise product.
    pub fn mul(&self, other: Float3) -> (r: Float3)
        ensures
            r.x as int == spec_mul(self.x as int, other.x as int),
            r.y as int == spec_mul(self.y as int, other.y as int),
            r.z as int == spec_mul(self.z as int, other.z as int),
    {
        Float3 {
            x: fx_mul(self.x, other.x),
            y: fx_mul(self.y, other.y),
            z: fx_mul(self.z, other.z),
        }
    }

    /// Multiplication by a scalar.
    pub fn scale(&self, s: i64) -> (r: Float3)
        ensures
            r.x as int == spec_mul(self.x as int, s as int),
            r.y as int == spec_mul(self.y as int, s as int),
            r.z as int == spec_mul(self.z as int, s as int),
    {
        Float3 { x: fx_mul(self.x, s), y: fx_mul(self.y, s), z: fx_mul(self.z, s) }
    }

    /// Componentwise negation.
    pub fn neg(&self) -> (r: Float3)
        ensures
            r.x as int == spec_neg(self.x as int),
            r.y as int == spec_neg(self.y as int),
            r.z as int == spec_neg(self.z as int),
    {
        Float3 { x: fx_neg(self.x), y: fx_neg(self.y), z: fx_neg(self.z) }
    }

    /// Division by a scalar, componentwise.
    pub fn div_scalar(&self, s: i64) -> (r: Float3)
        ensures
            r.x as int == spec_div(self.x as int, s as int),
            r.y as int == spec_div(self.y as int, s as int),
            r.z as int == spec_div(self.z as int, s as int),
    {
        Float3 { x: fx_div(self.x, s), y: fx_div(self.y, s), z: fx_div(self.z, s) }
    }

    /// Linear interpolation `self + t * (other - self)`, componentwise.
    pub fn lerp(&self, other: Float3, t: i64) -> (r: Float3)
        ensures
            r.x as int == spec_lerp(self.x as int, other.x as int, t as int),
            r.y as int == spec_lerp(self.y as int, other.y as int, t as int),
            r.z as int == spec_lerp(self.z as int, other.z as int, t as int),
    {
        Float3 {
            x: fx_lerp(self.x, other.x, t),
            y: fx_lerp(self.y, other.y, t),
            z: fx_lerp(self.z, other.z, t),
        }
    }
}

impl Default for Float3 {
    /// The zero vector.
    fn default() -> (r: Float3)
        ensures
            r == (Float3 { x: 0i64, y: 0i64, z: 0i64 }),
    {
        Float3 { x: 0, y: 0, z: 0 }
    }
}

/// A four-component fixed-point vector in homogeneous coordinates.
#[derive(Clone, Copy, PartialEq, Eq, Structural, Debug)]
pub struct Float4 {
    /// First component.
    pub x: i64,
    /// Second component.
    pub y: i64,
    /// Third component.
    pub z: i64,
    /// Homogeneous component: one for points, zero for directions.
    pub w: i64,
}

/// Componentwise sum of three-component vectors, at spec level.
pub open spec fn spec_f3_add(a: Float3, b: Float3) -> Float3 {
    Float3 {
        x: spec_add(a.x as int, b.x as int) as i64,
        y: spec_add(a.y as int, b.y as int) as i64,
        z: spec_add(a.z as int, b.z as int) as i64,
    }
}

/// A three-component vector scaled by a scalar, at spec level.
pub open spec fn spec_f3_scale(a: Float3, s: int) -> Float3 {
    Float3 {
        x: spec_mul(a.x as int, s) as i64,
        y: spec_mul(a.y as int, s) as i64,
        z: spec_mul(a.z as int, s) as i64,
    }
}

/// Componentwise linear interpolation of three-component vectors, at spec
/// level.
pub open spec fn spec_f3_lerp(a: Float3, b: Float3, t: int) -> Float3 {
    Float3 {
        x: spec_lerp(a.x as int, b.x as int, t) as i64,
        y: spec_lerp(a.y as int, b.y as int, t) as i64,
        z: spec_lerp(a.z as int, b.z as int, t) as i64,
    }
}

/// Componentwise sum of two-component vectors, at spec level.
pub open spec fn spec_f2_add(a: Float2, b: Float2) -> Float2 {
    Float2 {
        x: spec_add(a.x as int, b.x as int) as i64,
        y: spec_add(a.y as int, b.y as int) as i64,
    }
}

/// A two-component vector scaled by a scalar, at spec level.
pub open spec fn spec_f2_scale(a: Float2, s: int) -> Float2 {
    Float2 {
        x: spec_mul(a.x as int, s) as i64,
        y: spec_mul(a.y as int, s) as i64,
    }
}

/// Componentwise linear interpolation of two-component vectors, at spec
/// level.
pub open spec fn spec_f2_lerp(a: Float2, b: Float2, t: int) -> Float2 {
    Float2 {
        x: spec_lerp(a.x as int, b.x as int, t) as i64,
        y: spec_lerp(a.y as int, b.y as int, t) as i64,
    }
}

/// Componentwise sum of four-component vectors, at spec level.
pub open spec fn spec_f4_add(a: Float4, b: Float4) -> Float4 {
    Float4 {
        x: spec_add(a.x as int, b.x as int) as i64,
        y: spec_add(a.y as int, b.y as int) as i64,
        z: spec_add(a.z as int, b.z as int) as i64,
        w: spec_add(a.w as int, b.w as int) as i64,
    }
}

/// A four-component vector scaled by a scalar, at spec level.
pub open spec fn spec_f4_scale(a: Float4, s: int) -> Float4 {
    Float4 {
        x: spec_mul(a.x as int, s) as i64,
        y: spec_mul(a.y as int, s) as i64,
        z: spec_mul(a.z as int, s) as i64,
        w: spec_mul(a.w as int, s) as i64,
    }
}

/// Componentwise linear interpolation of four-component vectors, at spec
/// level.
pub open spec fn spec_f4_lerp(a: Float4, b: Float4, t: int) -> Float4 {
    Float4 {
        x: spec_lerp(a.x as int, b.x as int, t) as i64,
        y: spec_lerp(a.y as int, b.y as int, t) as i64,
        z: spec_lerp(a.z as int, b.z as int, t) as i64,
        w: spec_lerp(a.w as int, b.w as int, t) as i64,
    }
}

/// Componentwise product of three-component vectors, at spec level.
pub open spec fn spec_f3_mul(a: Float3, b: Float3) -> Float3 {
    Float3 {
        x: spec_mul(a.x as int, b.x as int) as i64,
        y: spec_mul(a.y as int, b.y as int) as i64,
        z: spec_mul(a.z as int, b.z as int) as i64,
    }
}

/// The vector of ones, at spec level.
pub open spec fn spec_f3_ones() -> Float3 {
    Float3 { x: FX_ONE, y: FX_ONE, z: FX_ONE }
}

/// The spatial components of a homogeneous vector, at spec level.
pub open spec fn spec_xyz(v: Float4) -> Float3 {
    Float3 { x: v.x, y: v.y, z: v.z }
}

/// Dot product of four-component vectors over the saturating scalar ops,
/// summed left to right.
pub open spec fn spec_dot4(a: Float4, b: Float4) -> int {
    spec_add(
        spec_add(
            spec_add(spec_mul(a.x as int, b.x as int), spec_mul(a.y as int, b.y as int)),
            spec_mul(a.z as int, b.z as int),
        ),
        spec_mul(a.w as int, b.w as int),
    )
}

/// Euclidean norm of a four-component vector over the saturating ops.
pub open spec fn spec_norm4(a: Float4) -> int {
    spec_sqrt(spec_dot4(a, a))
}

impl Float4 {
    /// Build a vector from its components.
    pub fn new(x: i64, y: i64, z: i64, w: i64) -> (r: Float4)
        ensures
            r == (Float4 { x, y, z, w }),
    {
        Float4 { x, y, z, w }
    }

    /// A direction: `w` is zero, so translations do not move it.
    pub fn from_vector(v: Float3) -> (r: Float4)
        ensures
            r == (Float4 { x: v.x, y: v.y, z: v.z, w: 0i64 }),
    {
        Float4 { x: v.x, y: v.y, z: v.z, w: 0 }
    }

    /// A point: `w` is one, so translations apply.
    pub fn from_point(p: Float3) -> (r: Float4)
        ensures
            r == (Float4 { x: p.x, y: p.y, z: p.z, w: FX_ONE }),
    {
        Float4 { x: p.x, y: p.y, z: p.z, w: FX_ONE }
    }

    /// The zero vector.
    pub fn zeros() -> (r: Float4)
        ensures
            r == (Float4 { x: 0i64, y: 0i64, z: 0i64, w: 0i64 }),
    {
        Float4 { x: 0, y: 0, z: 0, w: 0 }
    }

    /// The vector of ones.
    pub fn ones() -> (r: Float4)
        ensures
            r == (Float4 { x: FX_ONE, y: FX_ONE, z: FX_ONE, w: FX_ONE }),
    {
        Float4 { x: FX_ONE, y: FX_ONE, z: FX_ONE, w: FX_ONE }
    }

    /// The first basis vector.
    pub fn unit_x() -> (r: Float4)
        ensures
            r == (Float4 { x: FX_ONE, y: 0i64, z: 0i64, w: 0i64 }),
    {
        Float4 { x: FX_ONE, y: 0, z: 0, w: 0 }
    }

    /// The second basis vector.
    pub fn unit_y() -> (r: Float4)
        ensures
            r == (Float4 { x: 0i64, y: FX_ONE, z: 0i64, w: 0i64 }),
    {
        Float4 { x: 0, y: FX_ONE, z: 0, w: 0 }
    }

    /// The third basis vector.
    pub fn unit_z() -> (r: Float4)
        ensures
            r == (Float4 { x: 0i64, y: 0i64, z: FX_ONE, w: 0i64 }),
    {
        Float4 { x: 0, y: 0, z: FX_ONE, w: 0 }
    }

    /// The fourth basis vector.
    pub fn unit_w() -> (r: Float4)
        ensures
            r == (Float4 { x: 0i64, y: 0i64, z: 0i64, w: FX_ONE }),
    {
        Float4 { x: 0, y: 0, z: 0, w: FX_ONE }
    }

    /// The spatial components, dropping `w`.
    pub fn xyz(&self) -> (r: Float3)
        ensures
            r == spec_xyz(*self),
    {
        Float3 { x: self.x, y: self.y, z: self.z }
    }

    /// Dot product.
    pub fn dot(&self, other: &Float4) -> (r: i64)
        ensures
            r as int == spec_dot4(*self, *other),
    {
        fx_add(
            fx_add(
                fx_add(fx_mul(self.x, other.x), fx_mul(self.y, other.y)),
                fx_mul(self.z, other.z),
            ),
            fx_mul(self.w, other.w),
        )
    }

    /// Euclidean norm.
    pub fn norm(&self) -> (r: i64)
        ensures
            r as int == spec_norm4(*self),
            r >= 0,
    {
        fx_sqrt(self.dot(self))
    }

    /// The vector scaled to unit norm; the zero vector when the norm rounds
    /// to zero.
    pub fn normalized(&self) -> (r: Float4)
        ensures
            spec_norm4(*self) == 0 ==> r == (Float4 { x: 0i64, y: 0i64, z: 0i64, w: 0i64 }),
            spec_norm4(*self) != 0 ==> r.x as int == spec_div(self.x as int, spec_norm4(*self))
                && r.y as int == spec_div(self.y as int, spec_norm4(*self))
                && r.z as int == spec_div(self.z as int, spec_norm4(*self))
                && r.w as int == spec_div(self.w as int, spec_norm4(*self)),
    {
        let n: i64 = self.norm();
        if n == 0 {
            Float4 { x: 0, y: 0, z: 0, w: 0 }
        } else {
            Float4 {
                x: fx_div(self.x, n),
                y: fx_div(self.y, n),
                z: fx_div(self.z, n),
                w: fx_div(self.w, n),
            }
        }
    }

    /// Componentwise sum.
    pub fn add(&self, other: Float4) -> (r: Float4)
        ensures
            r.x as int == spec_add(self.x as int, other.x as int),
            r.y as int == spec_add(self.y as int, other.y as int),
            r.z as int == spec_add(self.z as int, other.z as int),
            r.w as int == spec_add(self.w as int, other.w as int),
    {
        Float4 {
            x: fx_add(self.x, other.x),
            y: fx_add(self.y, other.y),
            z: fx_add(self.z, other.z),
            w: fx_add(self.w, other.w),
        }
    }

    /// Componentwise difference.
    pub fn sub(&self, other: Float4) -> (r: Float4)
        ensures
            r.x as int == spec_sub(self.x as int, other.x as int),
            r.y as int == spec_sub(self.y as int, other.y as int),
            r.z as int == spec_sub(self.z as int, other.z as int),
            r.w as int == spec_sub(self.w as int, other.w as int),
    {
        Float4 {
            x: fx_sub(self.x, other.x),
            y: fx_sub(self.y, other.y),
            z: fx_sub(self.z, other.z),
            w: fx_sub(self.w, other.w),
        }
    }

    /// Multiplication by a scalar.
    pub fn scale(&self, s: i64) -> (r: Float4)
        ensures
            r.x as int == spec_mul(self.x as int, s as int),
            r.y as int == spec_mul(self.y as int, s as int),
            r.z as int == spec_mul(self.z as int, s as int),
            r.w as int == spec_mul(self.w as int, s as int),
    {
        Float4 {
            x: fx_mul(self.x, s),
            y: fx_mul(self.y, s),
            z: fx_mul(self.z, s),
            w: fx_mul(self.w, s),
        }
    }

    /// Linear interpolation `self + t * (other - self)`, componentwise.
    pub fn lerp(&self, other: &Float4, t: i64) -> (r: Float4)
        ensures
            r.x as int == spec_lerp(self.x as int, other.x as int, t as int),
            r.y as int == spec_lerp(self.y as int, other.y as int, t as int),
            r.z as int == spec_lerp(self.z as int, other.z as int, t as int),
            r.w as int == spec_lerp(self.w as int, other.w as int, t as int),
    {
        Float4 {
            x: fx_lerp(self.x, other.x, t),
            y: fx_lerp(self.y, other.y, t),
            z: fx_lerp(self.z, other.z, t),
            w: fx_lerp(self.w, other.w, t),
        }
    }
}

/// A row-major 4x4 homogeneous matrix; it multiplies column vectors on the
/// right, `M * v`.
#[derive(Clone, Copy, PartialEq, Eq, Structural, Debug)]
pub struct Float4x4 {
    /// First row.
    pub r1: Float4,
    /// Second row.
    pub r2: Float4,
    /// Third row.
    pub r3: Float4,
    /// Fourth row.
    pub r4: Float4,
}

/// First column of a matrix, as a vector.
pub open spec fn spec_col1(m: Float4x4) -> Float4 {
    Float4 { x: m.r1.x, y: m.r2.x, z: m.r3.x, w: m.r4.x }
}

/// Second column of a matrix, as a vector.
pub open spec fn spec_col2(m: Float4x4) -> Float4 {
    Float4 { x: m.r1.y, y: m.r2.y, z: m.r3.y, w: m.r4.y }
}

/// Third column of a matrix, as a vector.
pub open spec fn spec_col3(m: Float4x4) -> Float4 {
    Float4 { x: m.r1.z, y: m.r2.z, z: m.r3.z, w: m.r4.z }
}

/// Fourth column of a matrix, as a vector.
pub open spec fn spec_col4(m: Float4x4) -> Float4 {
    Float4 { x: m.r1.w, y: m.r2.w, z: m.r3.w, w: m.r4.w }
}

/// One row of a matrix product: the dot products of `row` with the columns
/// of `rhs`.
pub open spec fn spec_mat_row(row: Float4, rhs: Float4x4) -> Float4 {
    Float4 {
        x: spec_dot4(row, spec_col1(rhs)) as i64,
        y: spec_dot4(row, spec_col2(rhs)) as i64,
        z: spec_dot4(row, spec_col3(rhs)) as i64,
        w: spec_dot4(row, spec_col4(rhs)) as i64,
    }
}

/// Matrix product over the saturating fixed-point operations.
pub open spec fn spec_mat_mul(a: Float4x4, b: Float4x4) -> Float4x4 {
    Float4x4 {
        r1: spec_mat_row(a.r1, b),
        r2: spec_mat_row(a.r2, b),
        r3: spec_mat_row(a.r3, b),
        r4: spec_mat_row(a.r4, b),
    }
}

/// Matrix-vector product over the saturating fixed-point operations.
pub open spec fn spec_mat_vec(m: Float4x4, v: Float4) -> Float4 {
    Float4 {
        x: spec_dot4(m.r1, v) as i64,
        y: spec_dot4(m.r2, v) as i64,
        z: spec_dot4(m.r3, v) as i64,
        w: spec_dot4(m.r4, v) as i64,
    }
}

impl Float4x4 {
    /// Build a matrix from its rows.
    pub fn new(r1: Float4, r2: Float4, r3: Float4, r4: Float4) -> (r: Float4x4)
        ensures
            r == (Float4x4 { r1, r2, r3, r4 }),
    {
        Float4x4 { r1, r2, r3, r4 }
    }

    /// Build a matrix from its columns.
    pub fn from_columns(c1: Float4, c2: Float4, c3: Float4, c4: Float4) -> (r: Float4x4)
        ensures
            spec_col1(r) == c1,
            spec_col2(r) == c2,
            spec_col3(r) == c3,
            spec_col4(r) == c4,
    {
        Float4x4 {
            r1: Float4 { x: c1.x, y: c2.x, z: c3.x, w: c4.x },
            r2: Float4 { x: c1.y, y: c2.y, z: c3.y, w: c4.y },
            r3: Float4 { x: c1.z, y: c2.z, z: c3.z, w: c4.z },
            r4: Float4 { x: c1.w, y: c2.w, z: c3.w, w: c4.w },
        }
    }

    /// The zero matrix.
    pub fn zeros() -> (r: Float4x4)
        ensures
            r == spec_mat_zeros(),
    {
        Float4x4 {
            r1: Float4::zeros(),
            r2: Float4::zeros(),
            r3: Float4::zeros(),
            r4: Float4::zeros(),
        }
    }

    /// The identity matrix.
    pub fn eye() -> (r: Float4x4)
        ensures
            r == spec_mat_eye(),
    {
        Float4x4 {
            r1: Float4::unit_x(),
            r2: Float4::unit_y(),
            r3: Float4::unit_z(),
            r4: Float4::unit_w(),
        }
    }

    /// A translation by `translation`: the identity with the offset in the
    /// fourth column.
    pub fn translation(translation: Float3) -> (r: Float4x4)
        ensures
            r == spec_mat_translation(translation),
    {
        Float4x4 {
            r1: Float4 { x: FX_ONE, y: 0, z: 0, w: translation.x },
            r2: Float4 { x: 0, y: FX_ONE, z: 0, w: translation.y },
            r3: Float4 { x: 0, y: 0, z: FX_ONE, w: translation.z },
            r4: Float4 { x: 0, y: 0, z: 0, w: FX_ONE },
        }
    }

    /// A non-uniform scaling by `scale` on the diagonal.
    pub fn scaling(scale: Float3) -> (r: Float4x4)
        ensures
            r == spec_mat_scaling(scale),
    {
        Float4x4 {
            r1: Float4 { x: scale.x, y: 0, z: 0, w: 0 },
            r2: Float4 { x: 0, y: scale.y, z: 0, w: 0 },
            r3: Float4 { x: 0, y: 0, z: scale.z, w: 0 },
            r4: Float4 { x: 0, y: 0, z: 0, w: FX_ONE },
        }
    }

    /// A rotation about the x axis by sine `s` and cosine `c`.
    pub fn rotation_x_sc(s: i64, c: i64) -> (r: Float4x4)
        ensures
            r == spec_mat_rotation_x(s, c),
    {
        Float4x4 {
            r1: Float4 { x: FX_ONE, y: 0, z: 0, w: 0 },
            r2: Float4 { x: 0, y: c, z: fx_neg(s), w: 0 },
            r3: Float4 { x: 0, y: s, z: c, w: 0 },
            r4: Float4 { x: 0, y: 0, z: 0, w: FX_ONE },
        }
    }

    /// A rotation about the y axis by sine `s` and cosine `c`.
    pub fn rotation_y_sc(s: i64, c: i64) -> (r: Float4x4)
        ensures
            r == spec_mat_rotation_y(s, c),
    {
        Float4x4 {
            r1: Float4 { x: c, y: 0, z: s, w: 0 },
            r2: Float4 { x: 0, y: FX_ONE, z: 0, w: 0 },
            r3: Float4 { x: fx_neg(s), y: 0, z: c, w: 0 },
            r4: Float4 { x: 0, y: 0, z: 0, w: FX_ONE },
        }
    }

    /// A rotation about the z axis by sine `s` and cosine `c`.
    pub fn rotation_z_sc(s: i64, c: i64) -> (r: Float4x4)
        ensures
            r == spec_mat_rotation_z(s, c),
    {
        Float4x4 {
            r1: Float4 { x: c, y: fx_neg(s), z: 0, w: 0 },
            r2: Float4 { x: s, y: c, z: 0, w: 0 },
            r3: Float4 { x: 0, y: 0, z: FX_ONE, w: 0 },
            r4: Float4 { x: 0, y: 0, z: 0, w: FX_ONE },
        }
    }

    /// A rotation about the x axis by `angle`.
    pub fn rotation_x(angle: i64) -> (r: Float4x4)
        ensures
            r == spec_mat_rotation_x(
                spec_sin(angle as int) as i64,
                spec_cos(angle as int) as i64,
            ),
    {
        Float4x4::rotation_x_sc(fx_sin(angle), fx_cos(angle))
    }

    /// A rotation about the y axis by `angle`.
    pub fn rotation_y(angle: i64) -> (r: Float4x4)
        ensures
            r == spec_mat_rotation_y(
                spec_sin(angle as int) as i64,
                spec_cos(angle as int) as i64,
            ),
    {
        Float4x4::rotation_y_sc(fx_sin(angle), fx_cos(angle))
    }

    /// A rotation about the z axis by `angle`.
    pub fn rotation_z(angle: i64) -> (r: Float4x4)
        ensures
            r == spec_mat_rotation_z(
                spec_sin(angle as int) as i64,
                spec_cos(angle as int) as i64,
            ),
    {
        Float4x4::rotation_z_sc(fx_sin(angle), fx_cos(angle))
    }

    /// The model-to-world matrix built directly from a basis: the rows mix
    /// the scaled basis vectors with the translation in the fourth column.
    pub fn transform(
        right: Float3,
        up: Float3,
        forward: Float3,
        translation: Float3,
        scale: Float3,
    ) -> (r: Float4x4)
        ensures
            r == spec_mat_transform(right, up, forward, translation, scale),
    {
        Float4x4 {
            r1: Float4 {
                x: fx_mul(scale.x, right.x),
                y: fx_mul(scale.y, right.y),
                z: fx_mul(scale.z, right.z),
                w: translation.x,
            },
            r2: Float4 {
                x: fx_mul(scale.x, up.x),
                y: fx_mul(scale.y, up.y),
                z: fx_mul(scale.z, up.z),
                w: translation.y,
            },
            r3: Float4 {
                x: fx_mul(scale.x, forward.x),
                y: fx_mul(scale.y, forward.y),
                z: fx_mul(scale.z, forward.z),
                w: translation.z,
            },
            r4: Float4 { x: 0, y: 0, z: 0, w: FX_ONE },
        }
    }

    /// The model-to-world matrix of a rotation given by Euler angles, a
    /// scale, and a translation, with the trigonometric products written
    /// out.
    pub fn rotate_scale_translate(
        yaw: i64,
        pitch: i64,
        roll: i64,
        translation: Float3,
        scale: Float3,
    ) -> (r: Float4x4)
        ensures
            r == spec_mat_rotate_scale_translate(
                spec_sin(yaw as int) as i64,
                spec_cos(yaw as int) as i64,
                spec_sin(pitch as int) as i64,
                spec_cos(pitch as int) as i64,
                spec_sin(roll as int) as i64,
                spec_cos(roll as int) as i64,
                translation,
                scale,
            ),
    {
        let sy: i64 = fx_sin(yaw);
        let cy: i64 = fx_cos(yaw);
        let sp: i64 = fx_sin(pitch);
        let cp: i64 = fx_cos(pitch);
        let sr: i64 = fx_sin(roll);
        let cr: i64 = fx_cos(roll);
        Float4x4 {
            r1: Float4 {
                x: fx_sub(fx_mul(fx_mul(scale.x, cr), cy), fx_mul(fx_mul(sr, sp), sy)),
                y: fx_neg(fx_mul(sr, cp)),
                z: fx_add(fx_mul(cr, sy), fx_mul(fx_mul(sr, sp), cy)),
                w: translation.x,
            },
            r2: Float4 {
                x: fx_add(fx_mul(sr, cy), fx_mul(fx_mul(cr, sp), sy)),
                y: fx_mul(fx_mul(scale.y, cr), cp),
                z: fx_sub(fx_mul(sr, sy), fx_mul(fx_mul(cr, sp), cy)),
                w: translation.y,
            },
            r3: Float4 {
                x: fx_neg(fx_mul(cp, sy)),
                y: sp,
                z: fx_mul(fx_mul(scale.z, cp), cy),
                w: translation.z,
            },
            r4: Float4 { x: 0, y: 0, z: 0, w: FX_ONE },
        }
    }

    /// The standard off-center perspective projection onto the frustum with
    /// the given near and far planes and half-extents.
    pub fn perspective_projection(
        near: i64,
        far: i64,
        left: i64,
        right: i64,
        top: i64,
        bottom: i64,
    ) -> (r: Float4x4)
        ensures
            r == spec_mat_perspective(
                near as int,
                far as int,
                left as int,
                right as int,
                top as int,
                bottom as int,
            ),
    {
        let two_near: i64 = fx_mul(131072, near);
        Float4x4 {
            r1: Float4 {
                x: fx_div(two_near, fx_sub(right, left)),
                y: 0,
                z: fx_neg(fx_div(fx_add(right, left), fx_sub(right, left))),
                w: 0,
            },
            r2: Float4 {
                x: 0,
                y: fx_div(two_near, fx_sub(top, bottom)),
                z: fx_neg(fx_div(fx_add(top, bottom), fx_sub(top, bottom))),
                w: 0,
            },
            r3: Float4 {
                x: 0,
                y: 0,
                z: fx_div(fx_add(far, near), fx_sub(far, near)),
                w: fx_neg(fx_div(fx_mul(fx_mul(131072, far), near), fx_sub(far, near))),
            },
            r4: Float4 { x: 0, y: 0, z: FX_ONE, w: 0 },
        }
    }

    /// The transpose; it inverts a pure rotation, whose rows are orthonormal.
    pub fn transpose(&self) -> (r: Float4x4)
        ensures
            r.r1 == spec_col1(*self),
            r.r2 == spec_col2(*self),
            r.r3 == spec_col3(*self),
            r.r4 == spec_col4(*self),
    {
        Float4x4 {
            r1: Float4 { x: self.r1.x, y: self.r2.x, z: self.r3.x, w: self.r4.x },
            r2: Float4 { x: self.r1.y, y: self.r2.y, z: self.r3.y, w: self.r4.y },
            r3: Float4 { x: self.r1.z, y: self.r2.z, z: self.r3.z, w: self.r4.z },
            r4: Float4 { x: self.r1.w, y: self.r2.w, z: self.r3.w, w: self.r4.w },
        }
    }

    /// Matrix product `self * rhs`.
    pub fn mul(&self, rhs: &Float4x4) -> (r: Float4x4)
        ensures
            r == spec_mat_mul(*self, *rhs),
    {
        let c1: Float4 = Float4 { x: rhs.r1.x, y: rhs.r2.x, z: rhs.r3.x, w: rhs.r4.x };
        let c2: Float4 = Float4 { x: rhs.r1.y, y: rhs.r2.y, z: rhs.r3.y, w: rhs.r4.y };
        let c3: Float4 = Float4 { x: rhs.r1.z, y: rhs.r2.z, z: rhs.r3.z, w: rhs.r4.z };
        let c4: Float4 = Float4 { x: rhs.r1.w, y: rhs.r2.w, z: rhs.r3.w, w: rhs.r4.w };
        Float4x4 {
            r1: Float4 {
                x: self.r1.dot(&c1),
                y: self.r1.dot(&c2),
                z: self.r1.dot(&c3),
                w: self.r1.dot(&c4),
            },
            r2: Float4 {
                x: self.r2.dot(&c1),
                y: self.r2.dot(&c2),
                z: self.r2.dot(&c3),
                w: self.r2.dot(&c4),
            },
            r3: Float4 {
                x: self.r3.dot(&c1),
                y: self.r3.dot(&c2),
                z: self.r3.dot(&c3),
                w: self.r3.dot(&c4),
            },
            r4: Float4 {
                x: self.r4.dot(&c1),
                y: self.r4.dot(&c2),
                z: self.r4.dot(&c3),
                w: self.r4.dot(&c4),
            },
        }
    }

    /// Matrix-vector product `self * v`.
    pub fn mul_vec(&self, v: &Float4) -> (r: Float4)
        ensures
            r == spec_mat_vec(*self, *v),
    {
        Float4 {
            x: self.r1.dot(v),
            y: self.r2.dot(v),
            z: self.r3.dot(v),
            w: self.r4.dot(v),
        }
    }
}

/// The zero matrix.
pub open spec fn spec_mat_zeros() -> Float4x4 {
    Float4x4 {
        r1: Float4 { x: 0i64, y: 0i64, z: 0i64, w: 0i64 },
        r2: Float4 { x: 0i64, y: 0i64, z: 0i64, w: 0i64 },
        r3: Float4 { x: 0i64, y: 0i64, z: 0i64, w: 0i64 },
        r4: Float4 { x: 0i64, y: 0i64, z: 0i64, w: 0i64 },
    }
}

/// The identity matrix.
pub open spec fn spec_mat_eye() -> Float4x4 {
    Float4x4 {
        r1: Float4 { x: FX_ONE, y: 0i64, z: 0i64, w: 0i64 },
        r2: Float4 { x: 0i64, y: FX_ONE, z: 0i64, w: 0i64 },
        r3: Float4 { x: 0i64, y: 0i64, z: FX_ONE, w: 0i64 },
        r4: Float4 { x: 0i64, y: 0i64, z: 0i64, w: FX_ONE },
    }
}

/// The translation matrix by `t`.
pub open spec fn spec_mat_translation(t: Float3) -> Float4x4 {
    Float4x4 {
        r1: Float4 { x: FX_ONE, y: 0i64, z: 0i64, w: t.x },
        r2: Float4 { x: 0i64, y: FX_ONE, z: 0i64, w: t.y },
        r3: Float4 { x: 0i64, y: 0i64, z: FX_ONE, w: t.z },
        r4: Float4 { x: 0i64, y: 0i64, z: 0i64, w: FX_ONE },
    }
}

/// The scaling matrix by `s`.
pub open spec fn spec_mat_scaling(s: Float3) -> Float4x4 {
    Float4x4 {
        r1: Float4 { x: s.x, y: 0i64, z: 0i64, w: 0i64 },
        r2: Float4 { x: 0i64, y: s.y, z: 0i64, w: 0i64 },
        r3: Float4 { x: 0i64, y: 0i64, z: s.z, w: 0i64 },
        r4: Float4 { x: 0i64, y: 0i64, z: 0i64, w: FX_ONE },
    }
}

/// The rotation matrix about the x axis with sine `s` and cosine `c`.
pub open spec fn spec_mat_rotation_x(s: i64, c: i64) -> Float4x4 {
    Float4x4 {
        r1: Float4 { x: FX_ONE, y: 0i64, z: 0i64, w: 0i64 },
        r2: Float4 { x: 0i64, y: c, z: spec_neg(s as int) as i64, w: 0i64 },
        r3: Float4 { x: 0i64, y: s, z: c, w: 0i64 },
        r4: Float4 { x: 0i64, y: 0i64, z: 0i64, w: FX_ONE },
    }
}

/// The rotation matrix about the y axis with sine `s` and cosine `c`.
pub open spec fn spec_mat_rotation_y(s: i64, c: i64) -> Float4x4 {
    Float4x4 {
        r1: Float4 { x: c, y: 0i64, z: s, w: 0i64 },
        r2: Float4 { x: 0i64, y: FX_ONE, z: 0i64, w: 0i64 },
        r3: Float4 { x: spec_neg(s as int) as i64, y: 0i64, z: c, w: 0i64 },
        r4: Float4 { x: 0i64, y: 0i64, z: 0i64, w: FX_ONE },
    }
}

/// The rotation matrix about the z axis with sine `s` and cosine `c`.
pub open spec fn spec_mat_rotation_z(s: i64, c: i64) -> Float4x4 {
    Float4x4 {
        r1: Float4 { x: c, y: spec_neg(s as int) as i64, z: 0i64, w: 0i64 },
        r2: Float4 { x: s, y: c, z: 0i64, w: 0i64 },
        r3: Float4 { x: 0i64, y: 0i64, z: FX_ONE, w: 0i64 },
        r4: Float4 { x: 0i64, y: 0i64, z: 0i64, w: FX_ONE },
    }
}

/// The basis-built model-to-world matrix, at spec level.
pub open spec fn spec_mat_transform(
    right: Float3,
    up: Float3,
    forward: Float3,
    translation: Float3,
    scale: Float3,
) -> Float4x4 {
    Float4x4 {
        r1: Float4 {
            x: spec_mul(scale.x as int, right.x as int) as i64,
            y: spec_mul(scale.y as int, right.y as int) as i64,
            z: spec_mul(scale.z as int, right.z as int) as i64,
            w: translation.x,
        },
        r2: Float4 {
            x: spec_mul(scale.x as int, up.x as int) as i64,
            y: spec_mul(scale.y as int, up.y as int) as i64,
            z: spec_mul(scale.z as int, up.z as int) as i64,
            w: translation.y,
        },
        r3: Float4 {
            x: spec_mul(scale.x as int, forward.x as int) as i64,
            y: spec_mul(scale.y as int, forward.y as int) as i64,
            z: spec_mul(scale.z as int, forward.z as int) as i64,
            w: translation.z,
        },
        r4: Float4 { x: 0i64, y: 0i64, z: 0i64, w: FX_ONE },
    }
}

/// The Euler model-to-world matrix with its trigonometric products written
/// out, at spec level; the arguments are the sines and cosines of yaw,
/// pitch, and roll.
pub open spec fn spec_mat_rotate_scale_translate(
    sy: i64,
    cy: i64,
    sp: i64,
    cp: i64,
    sr: i64,
    cr: i64,
    translation: Float3,
    scale: Float3,
) -> Float4x4 {
    Float4x4 {
        r1: Float4 {
            x: spec_sub(
                spec_mul(spec_mul(scale.x as int, cr as int), cy as int),
                spec_mul(spec_mul(sr as int, sp as int), sy as int),
            ) as i64,
            y: spec_neg(spec_mul(sr as int, cp as int)) as i64,
            z: spec_add(
                spec_mul(cr as int, sy as int),
                spec_mul(spec_mul(sr as int, sp as int), cy as int),
            ) as i64,
            w: translation.x,
        },
        r2: Float4 {
            x: spec_add(
                spec_mul(sr as int, cy as int),
                spec_mul(spec_mul(cr as int, sp as int), sy as int),
            ) as i64,
            y: spec_mul(spec_mul(scale.y as int, cr as int), cp as int) as i64,
            z: spec_sub(
                spec_mul(sr as int, sy as int),
                spec_mul(spec_mul(cr as int, sp as int), cy as int),
            ) as i64,
            w: translation.y,
        },
        r3: Float4 {
            x: spec_neg(spec_mul(cp as int, sy as int)) as i64,
            y: sp,
            z: spec_mul(spec_mul(scale.z as int, cp as int), cy as int) as i64,
            w: translation.z,
        },
        r4: Float4 { x: 0i64, y: 0i64, z: 0i64, w: FX_ONE },
    }
}

/// The off-center perspective projection matrix over the saturating ops.
pub open spec fn spec_mat_perspective(
    near: int,
    far: int,
    left: int,
    right: int,
    top: int,
    bottom: int,
) -> Float4x4 {
    Float4x4 {
        r1: Float4 {
            x: spec_div(spec_mul(131072, near), spec_sub(right, left)) as i64,
            y: 0i64,
            z: spec_neg(spec_div(spec_add(right, left), spec_sub(right, left))) as i64,
            w: 0i64,
        },
        r2: Float4 {
            x: 0i64,
            y: spec_div(spec_mul(131072, near), spec_sub(top, bottom)) as i64,
            z: spec_neg(spec_div(spec_add(top, bottom), spec_sub(top, bottom))) as i64,
            w: 0i64,
        },
        r3: Float4 {
            x: 0i64,
            y: 0i64,
            z: spec_div(spec_add(far, near), spec_sub(far, near)) as i64,
            w: spec_neg(
                spec_div(spec_mul(spec_mul(131072, far), near), spec_sub(far, near)),
            ) as i64,
        },
        r4: Float4 { x: 0i64, y: 0i64, z: FX_ONE, w: 0i64 },
    }
}

/// Twice the signed area of the screen triangle `a b c`, exactly: positive
/// for clockwise winding where `y` grows downward. The value carries two
/// scale factors of `2^16`, one from each coordinate factor.
pub open spec fn spec_double_area(a: Float2, b: Float2, c: Float2) -> int {
    (c.x - a.x) * (b.y - a.y) - (c.y - a.y) * (b.x - a.x)
}

/// Whether a point's coordinates lie in the range the exact area arithmetic
/// accepts.
pub open spec fn in_coord_range(p: Float2) -> bool {
    -(COORD_LIMIT as int) <= p.x <= COORD_LIMIT as int
        && -(COORD_LIMIT as int) <= p.y <= COORD_LIMIT as int
}

/// The exact double area of a triangle with in-range coordinates fits well
/// within the double-width intermediates.
pub proof fn lemma_double_area_bounded(a: Float2, b: Float2, c: Float2)
    requires
        in_coord_range(a),
        in_coord_range(b),
        in_coord_range(c),
    ensures
        -0x20000000000000000 <= spec_double_area(a, b, c) <= 0x20000000000000000,
{
    assert(
        -0x20000000000000000 <= (c.x - a.x) * (b.y - a.y) - (c.y - a.y) * (b.x - a.x)
            <= 0x20000000000000000
    ) by (nonlinear_arith)
        requires
            -0x100000000int <= c.x - a.x <= 0x100000000int,
            -0x100000000int <= b.y - a.y <= 0x100000000int,
            -0x100000000int <= c.y - a.y <= 0x100000000int,
            -0x100000000int <= b.x - a.x <= 0x100000000int,
    ;
}

/// Twice the signed area of triangle `a b c`, computed exactly in
/// double-width arithmetic.
pub fn double_signed_area(a: Float2, b: Float2, c: Float2) -> (r: i128)
    requires
        in_coord_range(a),
        in_coord_range(b),
        in_coord_range(c),
    ensures
        r as int == spec_double_area(a, b, c),
{
    let acx: i128 = c.x as i128 - a.x as i128;
    let aby: i128 = b.y as i128 - a.y as i128;
    let acy: i128 = c.y as i128 - a.y as i128;
    let abx: i128 = b.x as i128 - a.x as i128;
    proof {
        assert(acx * aby <= 0x10000000000000000int && acx * aby >= -0x10000000000000000int
            && acy * abx <= 0x10000000000000000int && acy * abx >= -0x10000000000000000int)
            by (nonlinear_arith)
            requires
                -0x100000000int <= acx as int <= 0x100000000int,
                -0x100000000int <= aby as int <= 0x100000000int,
                -0x100000000int <= acy as int <= 0x100000000int,
                -0x100000000int <= abx as int <= 0x100000000int,
        ;
    }
    acx * aby - acy * abx
}

/// The signed area of triangle `a b c` as a fixed-point value: half the
/// exact double area, rescaled from the squared coordinate scale and
/// truncated toward zero.
pub fn signed_triangle_area(a: Float2, b: Float2, c: Float2) -> (r: i64)
    requires
        in_coord_range(a),
        in_coord_range(b),
        in_coord_range(c),
    ensures
        r as int == sat64(div_trunc(spec_double_area(a, b, c), 131072)),
{
    proof {
        lemma_double_area_bounded(a, b, c);
    }
    let d: i128 = double_signed_area(a, b, c);
    let m: u128 = if d < 0 {
        (-d) as u128
    } else {
        d as u128
    };
    let q: u128 = m / 131072;
    let signed: i128 = if d < 0 {
        -(q as i128)
    } else {
        q as i128
    };
    sat_from_i128(signed)
}

/// Reversing a triangle's vertex order negates its signed area, so a
/// triangle and its vertex-reversed twin never both pass the positive-area
/// back-face test, and exactly one passes whenever the triangle is not
/// degenerate.
pub proof fn lemma_backface_cull_exclusive(a: Float2, b: Float2, c: Float2)
    ensures
        spec_double_area(a, c, b) == -spec_double_area(a, b, c),
        !(spec_double_area(a, b, c) > 0 && spec_double_area(a, c, b) > 0),
        spec_double_area(a, b, c) != 0 ==> (spec_double_area(a, b, c) > 0) != (spec_double_area(
            a,
            c,
            b,
        ) > 0),
{
    assert((b.x - a.x) * (c.y - a.y) - (b.y - a.y) * (c.x - a.x) == -((c.x - a.x) * (b.y - a.y) - (
    c.y - a.y) * (b.x - a.x))) by (nonlinear_arith);
}

/// Barycentric screen-coverage test. The point `p` is covered by triangle
/// `a b c` exactly when all three edge areas are non-negative and the total
/// area is positive; the weights are each edge area divided by the total.
pub open spec fn spec_covered(a: Float2, b: Float2, c: Float2, p: Float2) -> bool {
    spec_double_area(a, b, p) >= 0 && spec_double_area(b, c, p) >= 0 && spec_double_area(
        c,
        a,
        p,
    ) >= 0 && spec_double_area(a, b, p) + spec_double_area(b, c, p) + spec_double_area(c, a, p) > 0
}

/// The barycentric weight of one edge area against the total, in fixed
/// point: `area * 2^16 / total`, truncated.
pub open spec fn spec_weight(area: int, total: int) -> int {
    div_trunc(area * (FX_ONE as int), total)
}

/// The three barycentric weights of `p` in triangle `a b c`: each opposite
/// edge area over the total.
pub open spec fn spec_weights(a: Float2, b: Float2, c: Float2, p: Float2) -> Float3 {
    let area_abp = spec_double_area(a, b, p);
    let area_bcp = spec_double_area(b, c, p);
    let area_cap = spec_double_area(c, a, p);
    let total = area_abp + area_bcp + area_cap;
    Float3 {
        x: spec_weight(area_bcp, total) as i64,
        y: spec_weight(area_cap, total) as i64,
        z: spec_weight(area_abp, total) as i64,
    }
}

/// Test whether pixel `p` lies inside the front-facing triangle `a b c` and
/// return its barycentric weights.
///
/// Returns weights exactly when every edge area is non-negative and the
/// total is positive; each weight is its edge area over the total, so the
/// weights lie in `[0, 1]` and their exact rational values sum to one.
pub fn point_in_triangle(a: Float2, b: Float2, c: Float2, p: Float2) -> (r: Option<Float3>)
    requires
        in_coord_range(a),
        in_coord_range(b),
        in_coord_range(c),
        in_coord_range(p),
    ensures
        r is Some <==> spec_covered(a, b, c, p),
        r matches Some(w) ==> w == spec_weights(a, b, c, p) && 0 <= w.x <= FX_ONE && 0 <= w.y
            <= FX_ONE && 0 <= w.z <= FX_ONE,
{
    proof {
        lemma_double_area_bounded(a, b, p);
        lemma_double_area_bounded(b, c, p);
        lemma_double_area_bounded(c, a, p);
    }
    let area_abp: i128 = double_signed_area(a, b, p);
    let area_bcp: i128 = double_signed_area(b, c, p);
    let area_cap: i128 = double_signed_area(c, a, p);
    let total: i128 = area_abp + area_bcp + area_cap;
    if total > 0 && area_abp >= 0 && area_bcp >= 0 && area_cap >= 0 {
        let wx: i64 = weight_of(area_bcp, total);
        let wy: i64 = weight_of(area_cap, total);
        let wz: i64 = weight_of(area_abp, total);
        Some(Float3 { x: wx, y: wy, z: wz })
    } else {
        None
    }
}

/// One barycentric weight: `area * 2^16 / total`, exact division of
/// non-negative bounded intermediates.
fn weight_of(area: i128, total: i128) -> (r: i64)
    requires
        0 <= area <= total,
        0 < total,
        total <= 0x60000000000000000,
    ensures
        r as int == spec_weight(area as int, total as int),
        0 <= r <= FX_ONE,
{
    let n: u128 = (area as u128) * 65536;
    let q: u128 = n / (total as u128);
    proof {
        assert(q * (total as int) <= n && n < (q + 1) * (total as int)) by (nonlinear_arith)
            requires
                q == (n as int) / (total as int),
                0 < total as int,
                n == area as int * 65536,
        ;
        assert(q <= 65536) by (nonlinear_arith)
            requires
                q * (total as int) <= (area as int) * 65536,
                area <= total,
                0 < total as int,
        ;
    }
    q as i64
}

/// Barycentric coordinates of `p` in triangle `a b c` by the normal-equation
/// form; `None` when the triangle is degenerate (zero denominator).
pub fn barycentric_coords(a: Float2, b: Float2, c: Float2, p: Float2) -> (r: Option<Float3>)
    ensures
        r is Some <==> spec_bary_denom(a, b, c) != 0,
        r matches Some(w) ==> {
            let v0 = spec_f2_sub(b, a);
            let v1 = spec_f2_sub(c, a);
            let v2 = spec_f2_sub(p, a);
            let denom = spec_bary_denom(a, b, c);
            let vv = spec_div(
                spec_sub(
                    spec_mul(spec_dot2(v1, v1), spec_dot2(v2, v0)),
                    spec_mul(spec_dot2(v0, v1), spec_dot2(v2, v1)),
                ),
                denom,
            );
            let ww = spec_div(
                spec_sub(
                    spec_mul(spec_dot2(v0, v0), spec_dot2(v2, v1)),
                    spec_mul(spec_dot2(v0, v1), spec_dot2(v2, v0)),
                ),
                denom,
            );
            w.y as int == vv && w.z as int == ww && w.x as int == spec_sub(
                spec_sub(FX_ONE as int, vv),
                ww,
            )
        },
{
    let v0: Float2 = b.sub(a);
    let v1: Float2 = c.sub(a);
    let v2: Float2 = p.sub(a);
    let d00: i64 = v0.dot(v0);
    let d01: i64 = v0.dot(v1);
    let d11: i64 = v1.dot(v1);
    let d20: i64 = v2.dot(v0);
    let d21: i64 = v2.dot(v1);
    let denom: i64 = fx_sub(fx_mul(d00, d11), fx_mul(d01, d01));
    if denom == 0 {
        None
    } else {
        let vv: i64 = fx_div(fx_sub(fx_mul(d11, d20), fx_mul(d01, d21)), denom);
        let ww: i64 = fx_div(fx_sub(fx_mul(d00, d21), fx_mul(d01, d20)), denom);
        let uu: i64 = fx_sub(fx_sub(FX_ONE, vv), ww);
        Some(Float3 { x: uu, y: vv, z: ww })
    }
}

/// Componentwise difference of two-component vectors, at spec level.
pub open spec fn spec_f2_sub(a: Float2, b: Float2) -> Float2 {
    Float2 {
        x: spec_sub(a.x as int, b.x as int) as i64,
        y: spec_sub(a.y as int, b.y as int) as i64,
    }
}

/// The denominator of the normal-equation barycentric form.
pub open spec fn spec_bary_denom(a: Float2, b: Float2, c: Float2) -> int {
    let v0 = spec_f2_sub(b, a);
    let v1 = spec_f2_sub(c, a);
    spec_sub(spec_mul(spec_dot2(v0, v0), spec_dot2(v1, v1)), spec_mul(spec_dot2(v0, v1), spec_dot2(v0, v1)))
}

} // verus!
