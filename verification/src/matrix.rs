//! Fixed-size square matrices and their exact fixed-point algebra.
//!
//! `Matrix4` is the workhorse; `Matrix3` and `Matrix2` exist as recursion
//! aids for the determinant, which expands cofactors along the first row.
//! Inversion is a partial operation: it returns `None` exactly when the
//! determinant is zero, and otherwise the transposed cofactor matrix scaled
//! by the determinant's reciprocal.

use crate::scalar::{
    lemma_mul_one, lemma_mul_zero, s_add, s_div, s_mul, s_neg, s_one, s_sub, s_zero, Scalar,
};
use crate::tuple::{Point, Vector};
use vstd::prelude::*;

verus! {

/// A matrix expected to be invertible has determinant zero.
#[derive(Clone, Copy, Debug, PartialEq, Eq, Structural)]
pub struct NotInvertibleError;

pub trait Transpose: Sized {
    /// The transpose of this value, as a spec-level function.
    spec fn spec_transpose(&self) -> Self;

    fn transpose(&self) -> (r: Self)
        ensures
            r == self.spec_transpose(),
    ;
}

pub trait Inverse: Sized {
    /// The determinant of this value, as a spec-level function.
    spec fn spec_determinant(&self) -> Scalar;

    /// The inverse of this value: `None` exactly when the determinant is
    /// zero.
    spec fn spec_inverse(&self) -> Option<Self>;

    fn is_invertible(&self) -> (r: bool)
        ensures
            r == (self.spec_determinant().raw != 0),
    ;

    fn inverse(&self) -> (r: Option<Self>)
        ensures
            r == self.spec_inverse(),
            r is Some <==> self.spec_determinant().raw != 0,
    ;
}

#[derive(Clone, Copy, Debug, PartialEq, Eq, Structural)]
pub struct Matrix4 {
    pub m00: Scalar, pub m01: Scalar, pub m02: Scalar, pub m03: Scalar,
    pub m10: Scalar, pub m11: Scalar, pub m12: Scalar, pub m13: Scalar,
    pub m20: Scalar, pub m21: Scalar, pub m22: Scalar, pub m23: Scalar,
    pub m30: Scalar, pub m31: Scalar, pub m32: Scalar, pub m33: Scalar,
}

#[derive(Clone, Copy, Debug, PartialEq, Eq, Structural)]
pub struct Matrix3 {
    pub m00: Scalar, pub m01: Scalar, pub m02: Scalar,
    pub m10: Scalar, pub m11: Scalar, pub m12: Scalar,
    pub m20: Scalar, pub m21: Scalar, pub m22: Scalar,
}

#[derive(Clone, Copy, Debug, PartialEq, Eq, Structural)]
pub struct Matrix2 {
    pub m00: Scalar, pub m01: Scalar,
    pub m10: Scalar, pub m11: Scalar,
}

/// The entry of `m` at row `i`, column `j`.
pub open spec fn idx4(m: Matrix4, i: int, j: int) -> Scalar {
    if i == 0 {
        if j == 0 { m.m00 } else if j == 1 { m.m01 } else if j == 2 { m.m02 } else { m.m03 }
    } else if i == 1 {
        if j == 0 { m.m10 } else if j == 1 { m.m11 } else if j == 2 { m.m12 } else { m.m13 }
    } else if i == 2 {
        if j == 0 { m.m20 } else if j == 1 { m.m21 } else if j == 2 { m.m22 } else { m.m23 }
    } else {
        if j == 0 { m.m30 } else if j == 1 { m.m31 } else if j == 2 { m.m32 } else { m.m33 }
    }
}

/// The entry of `m` at row `i`, column `j`.
pub open spec fn idx3(m: Matrix3, i: int, j: int) -> Scalar {
    if i == 0 {
        if j == 0 { m.m00 } else if j == 1 { m.m01 } else { m.m02 }
    } else if i == 1 {
        if j == 0 { m.m10 } else if j == 1 { m.m11 } else { m.m12 }
    } else {
        if j == 0 { m.m20 } else if j == 1 { m.m21 } else { m.m22 }
    }
}

/// The index into the enclosing matrix for index `i` of a submatrix that
/// leaves row or column `e` out.
pub open spec fn spec_skip(i: int, e: int) -> int {
    if i < e {
        i
    } else {
        i + 1
    }
}

/// Four products summed left to right: one row of a product matrix entry.
pub open spec fn spec_dot4(
    a0: Scalar, a1: Scalar, a2: Scalar, a3: Scalar,
    b0: Scalar, b1: Scalar, b2: Scalar, b3: Scalar,
) -> Scalar {
    s_add(s_add(s_add(s_mul(a0, b0), s_mul(a1, b1)), s_mul(a2, b2)), s_mul(a3, b3))
}

pub open spec fn spec_identity4() -> Matrix4 {
    Matrix4 {
        m00: s_one(), m01: s_zero(), m02: s_zero(), m03: s_zero(),
        m10: s_zero(), m11: s_one(), m12: s_zero(), m13: s_zero(),
        m20: s_zero(), m21: s_zero(), m22: s_one(), m23: s_zero(),
        m30: s_zero(), m31: s_zero(), m32: s_zero(), m33: s_one(),
    }
}

pub open spec fn spec_empty4() -> Matrix4 {
    Matrix4 {
        m00: s_zero(), m01: s_zero(), m02: s_zero(), m03: s_zero(),
        m10: s_zero(), m11: s_zero(), m12: s_zero(), m13: s_zero(),
        m20: s_zero(), m21: s_zero(), m22: s_zero(), m23: s_zero(),
        m30: s_zero(), m31: s_zero(), m32: s_zero(), m33: s_zero(),
    }
}

pub open spec fn spec_transpose4(m: Matrix4) -> Matrix4 {
    Matrix4 {
        m00: m.m00, m01: m.m10, m02: m.m20, m03: m.m30,
        m10: m.m01, m11: m.m11, m12: m.m21, m13: m.m31,
        m20: m.m02, m21: m.m12, m22: m.m22, m23: m.m32,
        m30: m.m03, m31: m.m13, m32: m.m23, m33: m.m33,
    }
}

pub open spec fn spec_mul4(a: Matrix4, b: Matrix4) -> Matrix4 {
    Matrix4 {
        m00: spec_dot4(a.m00, a.m01, a.m02, a.m03, b.m00, b.m10, b.m20, b.m30),
        m01: spec_dot4(a.m00, a.m01, a.m02, a.m03, b.m01, b.m11, b.m21, b.m31),
        m02: spec_dot4(a.m00, a.m01, a.m02, a.m03, b.m02, b.m12, b.m22, b.m32),
        m03: spec_dot4(a.m00, a.m01, a.m02, a.m03, b.m03, b.m13, b.m23, b.m33),
        m10: spec_dot4(a.m10, a.m11, a.m12, a.m13, b.m00, b.m10, b.m20, b.m30),
        m11: spec_dot4(a.m10, a.m11, a.m12, a.m13, b.m01, b.m11, b.m21, b.m31),
        m12: spec_dot4(a.m10, a.m11, a.m12, a.m13, b.m02, b.m12, b.m22, b.m32),
        m13: spec_dot4(a.m10, a.m11, a.m12, a.m13, b.m03, b.m13, b.m23, b.m33),
        m20: spec_dot4(a.m20, a.m21, a.m22, a.m23, b.m00, b.m10, b.m20, b.m30),
        m21: spec_dot4(a.m20, a.m21, a.m22, a.m23, b.m01, b.m11, b.m21, b.m31),
        m22: spec_dot4(a.m20, a.m21, a.m22, a.m23, b.m02, b.m12, b.m22, b.m32),
        m23: spec_dot4(a.m20, a.m21, a.m22, a.m23, b.m03, b.m13, b.m23, b.m33),
        m30: spec_dot4(a.m30, a.m31, a.m32, a.m33, b.m00, b.m10, b.m20, b.m30),
        m31: spec_dot4(a.m30, a.m31, a.m32, a.m33, b.m01, b.m11, b.m21, b.m31),
        m32: spec_dot4(a.m30, a.m31, a.m32, a.m33, b.m02, b.m12, b.m22, b.m32),
        m33: spec_dot4(a.m30, a.m31, a.m32, a.m33, b.m03, b.m13, b.m23, b.m33),
    }
}

pub open spec fn spec_mul4_point(m: Matrix4, p: Point) -> Point {
    Point {
        x: spec_dot4(m.m00, m.m01, m.m02, m.m03, p.x, p.y, p.z, p.w),
        y: spec_dot4(m.m10, m.m11, m.m12, m.m13, p.x, p.y, p.z, p.w),
        z: spec_dot4(m.m20, m.m21, m.m22, m.m23, p.x, p.y, p.z, p.w),
        w: spec_dot4(m.m30, m.m31, m.m32, m.m33, p.x, p.y, p.z, p.w),
    }
}

pub open spec fn spec_mul4_vector(m: Matrix4, v: Vector) -> Vector {
    Vector {
        x: spec_dot4(m.m00, m.m01, m.m02, m.m03, v.x, v.y, v.z, v.w),
        y: spec_dot4(m.m10, m.m11, m.m12, m.m13, v.x, v.y, v.z, v.w),
        z: spec_dot4(m.m20, m.m21, m.m22, m.m23, v.x, v.y, v.z, v.w),
        w: spec_dot4(m.m30, m.m31, m.m32, m.m33, v.x, v.y, v.z, v.w),
    }
}

pub open spec fn spec_det2(m: Matrix2) -> Scalar {
    s_sub(s_mul(m.m00, m.m11), s_mul(m.m01, m.m10))
}

pub open spec fn spec_submatrix3(m: Matrix3, r: int, c: int) -> Matrix2 {
    Matrix2 {
        m00: idx3(m, spec_skip(0, r), spec_skip(0, c)),
        m01: idx3(m, spec_skip(0, r), spec_skip(1, c)),
        m10: idx3(m, spec_skip(1, r), spec_skip(0, c)),
        m11: idx3(m, spec_skip(1, r), spec_skip(1, c)),
    }
}

pub open spec fn spec_minor3(m: Matrix3, r: int, c: int) -> Scalar {
    spec_det2(spec_submatrix3(m, r, c))
}

pub open spec fn spec_cofactor3(m: Matrix3, r: int, c: int) -> Scalar {
    if (r + c) % 2 == 0 {
        spec_minor3(m, r, c)
    } else {
        s_neg(spec_minor3(m, r, c))
    }
}

/// Determinant by cofactor expansion along the first row.
pub open spec fn spec_det3(m: Matrix3) -> Scalar {
    s_add(
        s_add(s_mul(m.m00, spec_cofactor3(m, 0, 0)), s_mul(m.m01, spec_cofactor3(m, 0, 1))),
        s_mul(m.m02, spec_cofactor3(m, 0, 2)),
    )
}

pub open spec fn spec_submatrix4(m: Matrix4, r: int, c: int) -> Matrix3 {
    Matrix3 {
        m00: idx4(m, spec_skip(0, r), spec_skip(0, c)),
        m01: idx4(m, spec_skip(0, r), spec_skip(1, c)),
        m02: idx4(m, spec_skip(0, r), spec_skip(2, c)),
        m10: idx4(m, spec_skip(1, r), spec_skip(0, c)),
        m11: idx4(m, spec_skip(1, r), spec_skip(1, c)),
        m12: idx4(m, spec_skip(1, r), spec_skip(2, c)),
        m20: idx4(m, spec_skip(2, r), spec_skip(0, c)),
        m21: idx4(m, spec_skip(2, r), spec_skip(1, c)),
        m22: idx4(m, spec_skip(2, r), spec_skip(2, c)),
    }
}

pub open spec fn spec_minor4(m: Matrix4, r: int, c: int) -> Scalar {
    spec_det3(spec_submatrix4(m, r, c))
}

pub open spec fn spec_cofactor4(m: Matrix4, r: int, c: int) -> Scalar {
    if (r + c) % 2 == 0 {
        spec_minor4(m, r, c)
    } else {
        s_neg(spec_minor4(m, r, c))
    }
}

/// Determinant by cofactor expansion along the first row.
#[verifier::opaque]
pub open spec fn spec_det4(m: Matrix4) -> Scalar {
    s_add(
        s_add(
            s_add(s_mul(m.m00, spec_cofactor4(m, 0, 0)), s_mul(m.m01, spec_cofactor4(m, 0, 1))),
            s_mul(m.m02, spec_cofactor4(m, 0, 2)),
        ),
        s_mul(m.m03, spec_cofactor4(m, 0, 3)),
    )
}

/// The transposed cofactor matrix scaled by the reciprocal of the
/// determinant; meaningful only when the determinant is non-zero.
#[verifier::opaque]
pub open spec fn spec_inverse4(m: Matrix4) -> Matrix4 {
    let d = spec_det4(m);
    Matrix4 {
        m00: s_div(spec_cofactor4(m, 0, 0), d),
        m01: s_div(spec_cofactor4(m, 1, 0), d),
        m02: s_div(spec_cofactor4(m, 2, 0), d),
        m03: s_div(spec_cofactor4(m, 3, 0), d),
        m10: s_div(spec_cofactor4(m, 0, 1), d),
        m11: s_div(spec_cofactor4(m, 1, 1), d),
        m12: s_div(spec_cofactor4(m, 2, 1), d),
        m13: s_div(spec_cofactor4(m, 3, 1), d),
        m20: s_div(spec_cofactor4(m, 0, 2), d),
        m21: s_div(spec_cofactor4(m, 1, 2), d),
        m22: s_div(spec_cofactor4(m, 2, 2), d),
        m23: s_div(spec_cofactor4(m, 3, 2), d),
        m30: s_div(spec_cofactor4(m, 0, 3), d),
        m31: s_div(spec_cofactor4(m, 1, 3), d),
        m32: s_div(spec_cofactor4(m, 2, 3), d),
        m33: s_div(spec_cofactor4(m, 3, 3), d),
    }
}

pub open spec fn spec_inverse4_opt(m: Matrix4) -> Option<Matrix4> {
    if spec_det4(m).raw == 0 {
        None
    } else {
        Some(spec_inverse4(m))
    }
}

/// Four products summed left to right.
fn dot4(
    a0: Scalar, a1: Scalar, a2: Scalar, a3: Scalar,
    b0: Scalar, b1: Scalar, b2: Scalar, b3: Scalar,
) -> (r: Scalar)
    ensures
        r == spec_dot4(a0, a1, a2, a3, b0, b1, b2, b3),
{
    a0.mul(b0).add(a1.mul(b1)).add(a2.mul(b2)).add(a3.mul(b3))
}

fn skip_index(i: usize, e: usize) -> (r: usize)
    requires
        i < 3,
    ensures
        r == spec_skip(i as int, e as int),
{
    if i < e {
        i
    } else {
        i + 1
    }
}

impl Matrix4 {
    pub fn new(
        m: (
            (Scalar, Scalar, Scalar, Scalar),
            (Scalar, Scalar, Scalar, Scalar),
            (Scalar, Scalar, Scalar, Scalar),
            (Scalar, Scalar, Scalar, Scalar),
        ),
    ) -> (r: Matrix4)
        ensures
            r == (Matrix4 {
                m00: m.0.0, m01: m.0.1, m02: m.0.2, m03: m.0.3,
                m10: m.1.0, m11: m.1.1, m12: m.1.2, m13: m.1.3,
                m20: m.2.0, m21: m.2.1, m22: m.2.2, m23: m.2.3,
                m30: m.3.0, m31: m.3.1, m32: m.3.2, m33: m.3.3,
            }),
    {
        Matrix4 {
            m00: m.0.0, m01: m.0.1, m02: m.0.2, m03: m.0.3,
            m10: m.1.0, m11: m.1.1, m12: m.1.2, m13: m.1.3,
            m20: m.2.0, m21: m.2.1, m22: m.2.2, m23: m.2.3,
            m30: m.3.0, m31: m.3.1, m32: m.3.2, m33: m.3.3,
        }
    }

    pub fn empty() -> (r: Matrix4)
        ensures
            r == spec_empty4(),
    {
        let z = Scalar::zero();
        Matrix4 {
            m00: z, m01: z, m02: z, m03: z,
            m10: z, m11: z, m12: z, m13: z,
            m20: z, m21: z, m22: z, m23: z,
            m30: z, m31: z, m32: z, m33: z,
        }
    }

    pub fn identity() -> (r: Matrix4)
        ensures
            r == spec_identity4(),
    {
        let z = Scalar::zero();
        let o = Scalar::one();
        Matrix4 {
            m00: o, m01: z, m02: z, m03: z,
            m10: z, m11: o, m12: z, m13: z,
            m20: z, m21: z, m22: o, m23: z,
            m30: z, m31: z, m32: z, m33: o,
        }
    }

    /// The entry at row `i`, column `j`.
    pub fn at(&self, i: usize, j: usize) -> (r: Scalar)
        requires
            i < 4,
            j < 4,
        ensures
            r == idx4(*self, i as int, j as int),
    {
        if i == 0 {
            if j == 0 { self.m00 } else if j == 1 { self.m01 } else if j == 2 { self.m02 } else { self.m03 }
        } else if i == 1 {
            if j == 0 { self.m10 } else if j == 1 { self.m11 } else if j == 2 { self.m12 } else { self.m13 }
        } else if i == 2 {
            if j == 0 { self.m20 } else if j == 1 { self.m21 } else if j == 2 { self.m22 } else { self.m23 }
        } else {
            if j == 0 { self.m30 } else if j == 1 { self.m31 } else if j == 2 { self.m32 } else { self.m33 }
        }
    }

    /// Matrix product: rows of `self` against columns of `o`.
    pub fn multiply(&self, o: &Matrix4) -> (r: Matrix4)
        ensures
            r == spec_mul4(*self, *o),
    {
        Matrix4 {
            m00: dot4(self.m00, self.m01, self.m02, self.m03, o.m00, o.m10, o.m20, o.m30),
            m01: dot4(self.m00, self.m01, self.m02, self.m03, o.m01, o.m11, o.m21, o.m31),
            m02: dot4(self.m00, self.m01, self.m02, self.m03, o.m02, o.m12, o.m22, o.m32),
            m03: dot4(self.m00, self.m01, self.m02, self.m03, o.m03, o.m13, o.m23, o.m33),
            m10: dot4(self.m10, self.m11, self.m12, self.m13, o.m00, o.m10, o.m20, o.m30),
            m11: dot4(self.m10, self.m11, self.m12, self.m13, o.m01, o.m11, o.m21, o.m31),
            m12: dot4(self.m10, self.m11, self.m12, self.m13, o.m02, o.m12, o.m22, o.m32),
            m13: dot4(self.m10, self.m11, self.m12, self.m13, o.m03, o.m13, o.m23, o.m33),
            m20: dot4(self.m20, self.m21, self.m22, self.m23, o.m00, o.m10, o.m20, o.m30),
            m21: dot4(self.m20, self.m21, self.m22, self.m23, o.m01, o.m11, o.m21, o.m31),
            m22: dot4(self.m20, self.m21, self.m22, self.m23, o.m02, o.m12, o.m22, o.m32),
            m23: dot4(self.m20, self.m21, self.m22, self.m23, o.m03, o.m13, o.m23, o.m33),
            m30: dot4(self.m30, self.m31, self.m32, self.m33, o.m00, o.m10, o.m20, o.m30),
            m31: dot4(self.m30, self.m31, self.m32, self.m33, o.m01, o.m11, o.m21, o.m31),
            m32: dot4(self.m30, self.m31, self.m32, self.m33, o.m02, o.m12, o.m22, o.m32),
            m33: dot4(self.m30, self.m31, self.m32, self.m33, o.m03, o.m13, o.m23, o.m33),
        }
    }

    /// The image of a point under this matrix.
    pub fn mul_point(&self, p: Point) -> (r: Point)
        ensures
            r == spec_mul4_point(*self, p),
    {
        Point {
            x: dot4(self.m00, self.m01, self.m02, self.m03, p.x, p.y, p.z, p.w),
            y: dot4(self.m10, self.m11, self.m12, self.m13, p.x, p.y, p.z, p.w),
            z: dot4(self.m20, self.m21, self.m22, self.m23, p.x, p.y, p.z, p.w),
            w: dot4(self.m30, self.m31, self.m32, self.m33, p.x, p.y, p.z, p.w),
        }
    }

    /// The image of a vector under this matrix.
    pub fn mul_vector(&self, v: Vector) -> (r: Vector)
        ensures
            r == spec_mul4_vector(*self, v),
    {
        Vector {
            x: dot4(self.m00, self.m01, self.m02, self.m03, v.x, v.y, v.z, v.w),
            y: dot4(self.m10, self.m11, self.m12, self.m13, v.x, v.y, v.z, v.w),
            z: dot4(self.m20, self.m21, self.m22, self.m23, v.x, v.y, v.z, v.w),
            w: dot4(self.m30, self.m31, self.m32, self.m33, v.x, v.y, v.z, v.w),
        }
    }

    /// The 3x3 matrix left over when row `r` and column `c` are crossed out.
    pub fn submatrix(&self, r: usize, c: usize) -> (s: Matrix3)
        requires
            r < 4,
            c < 4,
        ensures
            s == spec_submatrix4(*self, r as int, c as int),
    {
        Matrix3 {
            m00: self.at(skip_index(0, r), skip_index(0, c)),
            m01: self.at(skip_index(0, r), skip_index(1, c)),
            m02: self.at(skip_index(0, r), skip_index(2, c)),
            m10: self.at(skip_index(1, r), skip_index(0, c)),
            m11: self.at(skip_index(1, r), skip_index(1, c)),
            m12: self.at(skip_index(1, r), skip_index(2, c)),
            m20: self.at(skip_index(2, r), skip_index(0, c)),
            m21: self.at(skip_index(2, r), skip_index(1, c)),
            m22: self.at(skip_index(2, r), skip_index(2, c)),
        }
    }

    /// The determinant of the submatrix at `(r, c)`.
    pub fn minor(&self, r: usize, c: usize) -> (s: Scalar)
        requires
            r < 4,
            c < 4,
        ensures
            s == spec_minor4(*self, r as int, c as int),
    {
        self.submatrix(r, c).determinant()
    }

    /// The minor at `(r, c)`, negated on odd positions.
    pub fn cofactor(&self, r: usize, c: usize) -> (s: Scalar)
        requires
            r < 4,
            c < 4,
        ensures
            s == spec_cofactor4(*self, r as int, c as int),
    {
        let minor = self.minor(r, c);
        if (r + c) % 2 == 0 {
            minor
        } else {
            minor.neg()
        }
    }

    /// Determinant by cofactor expansion along the first row.
    pub fn determinant(&self) -> (s: Scalar)
        ensures
            s == spec_det4(*self),
    {
        proof {
            reveal(spec_det4);
        }
        self.m00.mul(self.cofactor(0, 0)).add(self.m01.mul(self.cofactor(0, 1))).add(
            self.m02.mul(self.cofactor(0, 2)),
        ).add(self.m03.mul(self.cofactor(0, 3)))
    }
}

impl Transpose for Matrix4 {
    open spec fn spec_transpose(&self) -> Matrix4 {
        spec_transpose4(*self)
    }

    fn transpose(&self) -> (r: Matrix4) {
        Matrix4 {
            m00: self.m00, m01: self.m10, m02: self.m20, m03: self.m30,
            m10: self.m01, m11: self.m11, m12: self.m21, m13: self.m31,
            m20: self.m02, m21: self.m12, m22: self.m22, m23: self.m32,
            m30: self.m03, m31: self.m13, m32: self.m23, m33: self.m33,
        }
    }
}

impl Inverse for Matrix4 {
    open spec fn spec_determinant(&self) -> Scalar {
        spec_det4(*self)
    }

    open spec fn spec_inverse(&self) -> Option<Matrix4> {
        spec_inverse4_opt(*self)
    }

    fn is_invertible(&self) -> (r: bool) {
        self.determinant().raw != 0
    }

    fn inverse(&self) -> (r: Option<Matrix4>) {
        proof {
            reveal(spec_inverse4);
        }
        let d = self.determinant();
        if d.raw == 0 {
            return None;
        }
        Some(
            Matrix4 {
                m00: self.cofactor(0, 0).div(d),
                m01: self.cofactor(1, 0).div(d),
                m02: self.cofactor(2, 0).div(d),
                m03: self.cofactor(3, 0).div(d),
                m10: self.cofactor(0, 1).div(d),
                m11: self.cofactor(1, 1).div(d),
                m12: self.cofactor(2, 1).div(d),
                m13: self.cofactor(3, 1).div(d),
                m20: self.cofactor(0, 2).div(d),
                m21: self.cofactor(1, 2).div(d),
                m22: self.cofactor(2, 2).div(d),
                m23: self.cofactor(3, 2).div(d),
                m30: self.cofactor(0, 3).div(d),
                m31: self.cofactor(1, 3).div(d),
                m32: self.cofactor(2, 3).div(d),
                m33: self.cofactor(3, 3).div(d),
            },
        )
    }
}

impl Matrix3 {
    pub fn new(m: ((Scalar, Scalar, Scalar), (Scalar, Scalar, Scalar), (Scalar, Scalar, Scalar)))
        -> (r: Matrix3)
        ensures
            r == (Matrix3 {
                m00: m.0.0, m01: m.0.1, m02: m.0.2,
                m10: m.1.0, m11: m.1.1, m12: m.1.2,
                m20: m.2.0, m21: m.2.1, m22: m.2.2,
            }),
    {
        Matrix3 {
            m00: m.0.0, m01: m.0.1, m02: m.0.2,
            m10: m.1.0, m11: m.1.1, m12: m.1.2,
            m20: m.2.0, m21: m.2.1, m22: m.2.2,
        }
    }

    /// The entry at row `i`, column `j`.
    pub fn at(&self, i: usize, j: usize) -> (r: Scalar)
        requires
            i < 3,
            j < 3,
        ensures
            r == idx3(*self, i as int, j as int),
    {
        if i == 0 {
            if j == 0 { self.m00 } else if j == 1 { self.m01 } else { self.m02 }
        } else if i == 1 {
            if j == 0 { self.m10 } else if j == 1 { self.m11 } else { self.m12 }
        } else {
            if j == 0 { self.m20 } else if j == 1 { self.m21 } else { self.m22 }
        }
    }

    /// The 2x2 matrix left over when row `r` and column `c` are crossed out.
    pub fn submatrix(&self, r: usize, c: usize) -> (s: Matrix2)
        requires
            r < 3,
            c < 3,
        ensures
            s == spec_submatrix3(*self, r as int, c as int),
    {
        Matrix2 {
            m00: self.at(skip_index3(0, r), skip_index3(0, c)),
            m01: self.at(skip_index3(0, r), skip_index3(1, c)),
            m10: self.at(skip_index3(1, r), skip_index3(0, c)),
            m11: self.at(skip_index3(1, r), skip_index3(1, c)),
        }
    }

    /// The determinant of the submatrix at `(r, c)`.
    pub fn minor(&self, r: usize, c: usize) -> (s: Scalar)
        requires
            r < 3,
            c < 3,
        ensures
            s == spec_minor3(*self, r as int, c as int),
    {
        self.submatrix(r, c).determinant()
    }

    /// The minor at `(r, c)`, negated on odd positions.
    pub fn cofactor(&self, r: usize, c: usize) -> (s: Scalar)
        requires
            r < 3,
            c < 3,
        ensures
            s == spec_cofactor3(*self, r as int, c as int),
    {
        let minor = self.minor(r, c);
        if (r + c) % 2 == 0 {
            minor
        } else {
            minor.neg()
        }
    }

    /// Determinant by cofactor expansion along the first row.
    pub fn determinant(&self) -> (s: Scalar)
        ensures
            s == spec_det3(*self),
    {
        self.m00.mul(self.cofactor(0, 0)).add(self.m01.mul(self.cofactor(0, 1))).add(
            self.m02.mul(self.cofactor(0, 2)),
        )
    }
}

fn skip_index3(i: usize, e: usize) -> (r: usize)
    requires
        i < 2,
    ensures
        r == spec_skip(i as int, e as int),
{
    if i < e {
        i
    } else {
        i + 1
    }
}

impl Matrix2 {
    pub fn new(m: ((Scalar, Scalar), (Scalar, Scalar))) -> (r: Matrix2)
        ensures
            r == (Matrix2 { m00: m.0.0, m01: m.0.1, m10: m.1.0, m11: m.1.1 }),
    {
        Matrix2 { m00: m.0.0, m01: m.0.1, m10: m.1.0, m11: m.1.1 }
    }

    pub fn determinant(&self) -> (s: Scalar)
        ensures
            s == spec_det2(*self),
    {
        self.m00.mul(self.m11).sub(self.m01.mul(self.m10))
    }
}

/// Summing four products against the unit row `(1, 0, 0, 0)` picks the first
/// value, and likewise for the other unit rows.
proof fn lemma_dot4_unit_left(b0: Scalar, b1: Scalar, b2: Scalar, b3: Scalar)
    ensures
        spec_dot4(s_one(), s_zero(), s_zero(), s_zero(), b0, b1, b2, b3) == b0,
        spec_dot4(s_zero(), s_one(), s_zero(), s_zero(), b0, b1, b2, b3) == b1,
        spec_dot4(s_zero(), s_zero(), s_one(), s_zero(), b0, b1, b2, b3) == b2,
        spec_dot4(s_zero(), s_zero(), s_zero(), s_one(), b0, b1, b2, b3) == b3,
{
    lemma_mul_one(b0.raw as int);
    lemma_mul_one(b1.raw as int);
    lemma_mul_one(b2.raw as int);
    lemma_mul_one(b3.raw as int);
    lemma_mul_zero(b0.raw as int);
    lemma_mul_zero(b1.raw as int);
    lemma_mul_zero(b2.raw as int);
    lemma_mul_zero(b3.raw as int);
}

/// Summing four products against the unit column picks the matching value.
proof fn lemma_dot4_unit_right(a0: Scalar, a1: Scalar, a2: Scalar, a3: Scalar)
    ensures
        spec_dot4(a0, a1, a2, a3, s_one(), s_zero(), s_zero(), s_zero()) == a0,
        spec_dot4(a0, a1, a2, a3, s_zero(), s_one(), s_zero(), s_zero()) == a1,
        spec_dot4(a0, a1, a2, a3, s_zero(), s_zero(), s_one(), s_zero()) == a2,
        spec_dot4(a0, a1, a2, a3, s_zero(), s_zero(), s_zero(), s_one()) == a3,
{
    lemma_mul_one(a0.raw as int);
    lemma_mul_one(a1.raw as int);
    lemma_mul_one(a2.raw as int);
    lemma_mul_one(a3.raw as int);
    lemma_mul_zero(a0.raw as int);
    lemma_mul_zero(a1.raw as int);
    lemma_mul_zero(a2.raw as int);
    lemma_mul_zero(a3.raw as int);
}

/// Multiplying by the identity on the left returns the matrix unchanged,
/// exactly, with no rounding: `IDENTITY * M == M`.
pub proof fn lemma_identity_mul_left(m: Matrix4)
    ensures
        spec_mul4(spec_identity4(), m) == m,
{
    lemma_dot4_unit_left(m.m00, m.m10, m.m20, m.m30);
    lemma_dot4_unit_left(m.m01, m.m11, m.m21, m.m31);
    lemma_dot4_unit_left(m.m02, m.m12, m.m22, m.m32);
    lemma_dot4_unit_left(m.m03, m.m13, m.m23, m.m33);
}

/// Multiplying by the identity on the right returns the matrix unchanged,
/// exactly, with no rounding: `M * IDENTITY == M`.
pub proof fn lemma_identity_mul_right(m: Matrix4)
    ensures
        spec_mul4(m, spec_identity4()) == m,
{
    lemma_dot4_unit_right(m.m00, m.m01, m.m02, m.m03);
    lemma_dot4_unit_right(m.m10, m.m11, m.m12, m.m13);
    lemma_dot4_unit_right(m.m20, m.m21, m.m22, m.m23);
    lemma_dot4_unit_right(m.m30, m.m31, m.m32, m.m33);
}

} // verus!
