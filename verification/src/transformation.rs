//! Affine transform constructors and fluent composition.
//!
//! Each named primitive is a closed-form 4x4 matrix.  The fluent methods on
//! `Matrix4` left-multiply the new primitive onto the matrix built so far, so
//! a chain of calls applies the first-written primitive closest to the
//! object.  Rotations take the cosine and sine of the angle as scalars, since
//! trigonometry itself lies outside this library's exact arithmetic.

use crate::matrix::{spec_det4, spec_mul4, Matrix4};
use crate::scalar::{s_mul, s_neg, s_one, s_zero, Scalar};
use crate::tuple::{
    cross, normalize, spec_cross, spec_normalize, spec_point_sub_point, Point, Vector,
};
use vstd::prelude::*;

verus! {

pub open spec fn spec_translation(x: Scalar, y: Scalar, z: Scalar) -> Matrix4 {
    Matrix4 {
        m00: s_one(), m01: s_zero(), m02: s_zero(), m03: x,
        m10: s_zero(), m11: s_one(), m12: s_zero(), m13: y,
        m20: s_zero(), m21: s_zero(), m22: s_one(), m23: z,
        m30: s_zero(), m31: s_zero(), m32: s_zero(), m33: s_one(),
    }
}

pub open spec fn spec_scaling(x: Scalar, y: Scalar, z: Scalar) -> Matrix4 {
    Matrix4 {
        m00: x, m01: s_zero(), m02: s_zero(), m03: s_zero(),
        m10: s_zero(), m11: y, m12: s_zero(), m13: s_zero(),
        m20: s_zero(), m21: s_zero(), m22: z, m23: s_zero(),
        m30: s_zero(), m31: s_zero(), m32: s_zero(), m33: s_one(),
    }
}

pub open spec fn spec_rotation_x(cos: Scalar, sin: Scalar) -> Matrix4 {
    Matrix4 {
        m00: s_one(), m01: s_zero(), m02: s_zero(), m03: s_zero(),
        m10: s_zero(), m11: cos, m12: s_neg(sin), m13: s_zero(),
        m20: s_zero(), m21: sin, m22: cos, m23: s_zero(),
        m30: s_zero(), m31: s_zero(), m32: s_zero(), m33: s_one(),
    }
}

pub open spec fn spec_rotation_y(cos: Scalar, sin: Scalar) -> Matrix4 {
    Matrix4 {
        m00: cos, m01: s_zero(), m02: sin, m03: s_zero(),
        m10: s_zero(), m11: s_one(), m12: s_zero(), m13: s_zero(),
        m20: s_neg(sin), m21: s_zero(), m22: cos, m23: s_zero(),
        m30: s_zero(), m31: s_zero(), m32: s_zero(), m33: s_one(),
    }
}

pub open spec fn spec_rotation_z(cos: Scalar, sin: Scalar) -> Matrix4 {
    Matrix4 {
        m00: cos, m01: s_neg(sin), m02: s_zero(), m03: s_zero(),
        m10: sin, m11: cos, m12: s_zero(), m13: s_zero(),
        m20: s_zero(), m21: s_zero(), m22: s_one(), m23: s_zero(),
        m30: s_zero(), m31: s_zero(), m32: s_zero(), m33: s_one(),
    }
}

pub open spec fn spec_shearing(
    x_to_y: Scalar, x_to_z: Scalar,
    y_to_x: Scalar, y_to_z: Scalar,
    z_to_x: Scalar, z_to_y: Scalar,
) -> Matrix4 {
    Matrix4 {
        m00: s_one(), m01: x_to_y, m02: x_to_z, m03: s_zero(),
        m10: y_to_x, m11: s_one(), m12: y_to_z, m13: s_zero(),
        m20: z_to_x, m21: z_to_y, m22: s_one(), m23: s_zero(),
        m30: s_zero(), m31: s_zero(), m32: s_zero(), m33: s_one(),
    }
}

/// The camera orientation from an eye point, a target point and an up hint:
/// an orthonormal-basis rotation composed with a translation to the eye.
pub open spec fn spec_view_transform(from: Point, to: Point, up: Vector) -> Matrix4 {
    let forward = spec_normalize(spec_point_sub_point(to, from));
    let left = spec_cross(forward, spec_normalize(up));
    let true_up = spec_cross(left, forward);
    let orientation = Matrix4 {
        m00: left.x, m01: left.y, m02: left.z, m03: s_zero(),
        m10: true_up.x, m11: true_up.y, m12: true_up.z, m13: s_zero(),
        m20: s_neg(forward.x), m21: s_neg(forward.y), m22: s_neg(forward.z), m23: s_zero(),
        m30: s_zero(), m31: s_zero(), m32: s_zero(), m33: s_one(),
    };
    spec_mul4(orientation, spec_translation(s_neg(from.x), s_neg(from.y), s_neg(from.z)))
}

/// The determinant of a scaling matrix is the product of its three factors.
pub proof fn lemma_scaling_det(x: Scalar, y: Scalar, z: Scalar)
    ensures
        spec_det4(spec_scaling(x, y, z)) == s_mul(x, s_mul(y, z)),
{
    reveal(crate::matrix::spec_det4);
    crate::scalar::lemma_mul_one_forall();
    crate::scalar::lemma_mul_zero_forall();
}

pub fn translation(x: Scalar, y: Scalar, z: Scalar) -> (r: Matrix4)
    ensures
        r == spec_translation(x, y, z),
{
    let o = Scalar::one();
    let zr = Scalar::zero();
    Matrix4 {
        m00: o, m01: zr, m02: zr, m03: x,
        m10: zr, m11: o, m12: zr, m13: y,
        m20: zr, m21: zr, m22: o, m23: z,
        m30: zr, m31: zr, m32: zr, m33: o,
    }
}

pub fn scaling(x: Scalar, y: Scalar, z: Scalar) -> (r: Matrix4)
    ensures
        r == spec_scaling(x, y, z),
{
    let o = Scalar::one();
    let zr = Scalar::zero();
    Matrix4 {
        m00: x, m01: zr, m02: zr, m03: zr,
        m10: zr, m11: y, m12: zr, m13: zr,
        m20: zr, m21: zr, m22: z, m23: zr,
        m30: zr, m31: zr, m32: zr, m33: o,
    }
}

/// Rotation about the x axis, given the cosine and sine of the angle.
pub fn rotation_x(cos: Scalar, sin: Scalar) -> (r: Matrix4)
    ensures
        r == spec_rotation_x(cos, sin),
{
    let o = Scalar::one();
    let zr = Scalar::zero();
    Matrix4 {
        m00: o, m01: zr, m02: zr, m03: zr,
        m10: zr, m11: cos, m12: sin.neg(), m13: zr,
        m20: zr, m21: sin, m22: cos, m23: zr,
        m30: zr, m31: zr, m32: zr, m33: o,
    }
}

/// Rotation about the y axis, given the cosine and sine of the angle.
pub fn rotation_y(cos: Scalar, sin: Scalar) -> (r: Matrix4)
    ensures
        r == spec_rotation_y(cos, sin),
{
    let o = Scalar::one();
    let zr = Scalar::zero();
    Matrix4 {
        m00: cos, m01: zr, m02: sin, m03: zr,
        m10: zr, m11: o, m12: zr, m13: zr,
        m20: sin.neg(), m21: zr, m22: cos, m23: zr,
        m30: zr, m31: zr, m32: zr, m33: o,
    }
}

/// Rotation about the z axis, given the cosine and sine of the angle.
pub fn rotation_z(cos: Scalar, sin: Scalar) -> (r: Matrix4)
    ensures
        r == spec_rotation_z(cos, sin),
{
    let o = Scalar::one();
    let zr = Scalar::zero();
    Matrix4 {
        m00: cos, m01: sin.neg(), m02: zr, m03: zr,
        m10: sin, m11: cos, m12: zr, m13: zr,
        m20: zr, m21: zr, m22: o, m23: zr,
        m30: zr, m31: zr, m32: zr, m33: o,
    }
}

/// Shear: each name reads "x in proportion to y" and so on.
pub fn shearing(
    x_to_y: Scalar, x_to_z: Scalar,
    y_to_x: Scalar, y_to_z: Scalar,
    z_to_x: Scalar, z_to_y: Scalar,
) -> (r: Matrix4)
    ensures
        r == spec_shearing(x_to_y, x_to_z, y_to_x, y_to_z, z_to_x, z_to_y),
{
    let o = Scalar::one();
    let zr = Scalar::zero();
    Matrix4 {
        m00: o, m01: x_to_y, m02: x_to_z, m03: zr,
        m10: y_to_x, m11: o, m12: y_to_z, m13: zr,
        m20: z_to_x, m21: z_to_y, m22: o, m23: zr,
        m30: zr, m31: zr, m32: zr, m33: o,
    }
}

impl Matrix4 {
    /// Left-multiply a translation onto the transform built so far.
    pub fn translation(self, x: Scalar, y: Scalar, z: Scalar) -> (r: Matrix4)
        ensures
            r == spec_mul4(spec_translation(x, y, z), self),
    {
        translation(x, y, z).multiply(&self)
    }

    /// Left-multiply a scaling onto the transform built so far.
    pub fn scaling(self, x: Scalar, y: Scalar, z: Scalar) -> (r: Matrix4)
        ensures
            r == spec_mul4(spec_scaling(x, y, z), self),
    {
        scaling(x, y, z).multiply(&self)
    }

    /// Left-multiply an x-axis rotation onto the transform built so far,
    /// given the cosine and sine of the angle.
    pub fn rotation_x(self, cos: Scalar, sin: Scalar) -> (r: Matrix4)
        ensures
            r == spec_mul4(spec_rotation_x(cos, sin), self),
    {
        rotation_x(cos, sin).multiply(&self)
    }

    /// Left-multiply a y-axis rotation onto the transform built so far,
    /// given the cosine and sine of the angle.
    pub fn rotation_y(self, cos: Scalar, sin: Scalar) -> (r: Matrix4)
        ensures
            r == spec_mul4(spec_rotation_y(cos, sin), self),
    {
        rotation_y(cos, sin).multiply(&self)
    }

    /// Left-multiply a z-axis rotation onto the transform built so far,
    /// given the cosine and sine of the angle.
    pub fn rotation_z(self, cos: Scalar, sin: Scalar) -> (r: Matrix4)
        ensures
            r == spec_mul4(spec_rotation_z(cos, sin), self),
    {
        rotation_z(cos, sin).multiply(&self)
    }

    /// Left-multiply a shear onto the transform built so far.
    pub fn shearing(
        self,
        x_to_y: Scalar, x_to_z: Scalar,
        y_to_x: Scalar, y_to_z: Scalar,
        z_to_x: Scalar, z_to_y: Scalar,
    ) -> (r: Matrix4)
        ensures
            r == spec_mul4(spec_shearing(x_to_y, x_to_z, y_to_x, y_to_z, z_to_x, z_to_y), self),
    {
        shearing(x_to_y, x_to_z, y_to_x, y_to_z, z_to_x, z_to_y).multiply(&self)
    }
}

/// The world-to-camera transform looking from `from` toward `to` with `up`
/// suggesting which way is up.
pub fn view_transform(from: &Point, to: &Point, up: &Vector) -> (r: Matrix4)
    ensures
        r == spec_view_transform(*from, *to, *up),
{
    let forward = normalize(&to.sub(*from));
    let left = cross(&forward, &normalize(up));
    let true_up = cross(&left, &forward);
    let o = Scalar::one();
    let zr = Scalar::zero();
    let orientation = Matrix4 {
        m00: left.x, m01: left.y, m02: left.z, m03: zr,
        m10: true_up.x, m11: true_up.y, m12: true_up.z, m13: zr,
        m20: forward.x.neg(), m21: forward.y.neg(), m22: forward.z.neg(), m23: zr,
        m30: zr, m31: zr, m32: zr, m33: o,
    };
    orientation.multiply(&translation(from.x.neg(), from.y.neg(), from.z.neg()))
}

} // verus!
