//! Homogeneous points and vectors.
//!
//! A `Point` carries `w == 1` and a `Vector` carries `w == 0`, so the affine
//! distinction survives matrix multiplication.  Every operation's contract
//! states the exact fixed-point result through the spec mirrors below.

use crate::scalar::{
    s_add, s_div, s_mul, s_neg, s_one, s_sqrt, s_sub, s_zero, to_scalar, Scalar, SCALE,
};
use vstd::prelude::*;

verus! {

#[derive(Clone, Copy, Debug, PartialEq, Eq, Structural)]
pub struct Point {
    pub x: Scalar,
    pub y: Scalar,
    pub z: Scalar,
    pub w: Scalar,
}

#[derive(Clone, Copy, Debug, PartialEq, Eq, Structural)]
pub struct Vector {
    pub x: Scalar,
    pub y: Scalar,
    pub z: Scalar,
    pub w: Scalar,
}

pub open spec fn spec_point(x: Scalar, y: Scalar, z: Scalar) -> Point {
    Point { x, y, z, w: s_one() }
}

pub open spec fn spec_vector(x: Scalar, y: Scalar, z: Scalar) -> Vector {
    Vector { x, y, z, w: s_zero() }
}

pub open spec fn spec_point_add_vector(p: Point, v: Vector) -> Point {
    Point { x: s_add(p.x, v.x), y: s_add(p.y, v.y), z: s_add(p.z, v.z), w: s_add(p.w, v.w) }
}

pub open spec fn spec_point_sub_point(a: Point, b: Point) -> Vector {
    Vector { x: s_sub(a.x, b.x), y: s_sub(a.y, b.y), z: s_sub(a.z, b.z), w: s_sub(a.w, b.w) }
}

pub open spec fn spec_point_sub_vector(p: Point, v: Vector) -> Point {
    Point { x: s_sub(p.x, v.x), y: s_sub(p.y, v.y), z: s_sub(p.z, v.z), w: s_sub(p.w, v.w) }
}

pub open spec fn spec_vector_add(a: Vector, b: Vector) -> Vector {
    Vector { x: s_add(a.x, b.x), y: s_add(a.y, b.y), z: s_add(a.z, b.z), w: s_add(a.w, b.w) }
}

pub open spec fn spec_vector_sub(a: Vector, b: Vector) -> Vector {
    Vector { x: s_sub(a.x, b.x), y: s_sub(a.y, b.y), z: s_sub(a.z, b.z), w: s_sub(a.w, b.w) }
}

pub open spec fn spec_vector_neg(a: Vector) -> Vector {
    Vector { x: s_neg(a.x), y: s_neg(a.y), z: s_neg(a.z), w: s_neg(a.w) }
}

pub open spec fn spec_vector_scale(a: Vector, s: Scalar) -> Vector {
    Vector { x: s_mul(a.x, s), y: s_mul(a.y, s), z: s_mul(a.z, s), w: s_mul(a.w, s) }
}

pub open spec fn spec_vector_div(a: Vector, s: Scalar) -> Vector {
    Vector { x: s_div(a.x, s), y: s_div(a.y, s), z: s_div(a.z, s), w: s_div(a.w, s) }
}

/// The dot product over all four components, summed left to right.
pub open spec fn spec_dot(a: Vector, b: Vector) -> Scalar {
    s_add(s_add(s_add(s_mul(a.x, b.x), s_mul(a.y, b.y)), s_mul(a.z, b.z)), s_mul(a.w, b.w))
}

pub open spec fn spec_cross(a: Vector, b: Vector) -> Vector {
    spec_vector(
        s_sub(s_mul(a.y, b.z), s_mul(a.z, b.y)),
        s_sub(s_mul(a.z, b.x), s_mul(a.x, b.z)),
        s_sub(s_mul(a.x, b.y), s_mul(a.y, b.x)),
    )
}

/// The squared length of the three spatial components, summed left to right.
pub open spec fn spec_magnitude_squared(v: Vector) -> Scalar {
    s_add(s_add(s_mul(v.x, v.x), s_mul(v.y, v.y)), s_mul(v.z, v.z))
}

pub open spec fn spec_magnitude(v: Vector) -> Scalar {
    s_sqrt(spec_magnitude_squared(v))
}

/// Each component divided by the magnitude; a vector whose magnitude rounds
/// to zero is returned unchanged, since no direction can be recovered.
pub open spec fn spec_normalize(v: Vector) -> Vector {
    let m = spec_magnitude(v);
    if m.raw == 0 {
        v
    } else {
        Vector { x: s_div(v.x, m), y: s_div(v.y, m), z: s_div(v.z, m), w: s_div(v.w, m) }
    }
}

/// `v` mirrored about `normal`: `v - normal * 2 * dot(v, normal)`.
pub open spec fn spec_reflect(v: Vector, normal: Vector) -> Vector {
    spec_vector_sub(
        v,
        spec_vector_scale(spec_vector_scale(normal, to_two()), spec_dot(v, normal)),
    )
}

pub open spec fn to_two() -> Scalar {
    to_scalar(2 * (SCALE as int))
}

/// Dividing by a positive scalar keeps the sign: positive dividends stay at
/// or above zero, negative ones at or below, and zero stays zero.
proof fn lemma_div_keeps_sign(a: Scalar, m: Scalar)
    requires
        m.raw > 0,
    ensures
        a.raw == 0 ==> s_div(a, m).raw == 0,
        a.raw > 0 ==> s_div(a, m).raw >= 0,
        a.raw < 0 ==> s_div(a, m).raw <= 0,
{
    let p = (a.raw as int) * (SCALE as int);
    assert(((a.raw as int) > 0 ==> p > 0) && ((a.raw as int) < 0 ==> p < 0) && ((a.raw as int) == 0
        ==> p == 0)) by (nonlinear_arith)
        requires
            p == (a.raw as int) * (SCALE as int),
            SCALE > 0,
    ;
    vstd::arithmetic::div_mod::lemma_div_pos_is_pos(
        crate::scalar::mag(p),
        crate::scalar::mag(m.raw as int),
    );
    if a.raw == 0 {
        vstd::arithmetic::div_mod::lemma_div_of0(crate::scalar::mag(m.raw as int));
    }
}

/// Normalizing a vector of positive magnitude never turns a component
/// around: each spatial component of the result keeps the sign of the
/// original (or rounds to zero), so the result points the same way.
pub proof fn lemma_normalize_same_direction(v: Vector)
    requires
        spec_magnitude(v).raw > 0,
    ensures
        v.x.raw == 0 ==> spec_normalize(v).x.raw == 0,
        v.x.raw > 0 ==> spec_normalize(v).x.raw >= 0,
        v.x.raw < 0 ==> spec_normalize(v).x.raw <= 0,
        v.y.raw == 0 ==> spec_normalize(v).y.raw == 0,
        v.y.raw > 0 ==> spec_normalize(v).y.raw >= 0,
        v.y.raw < 0 ==> spec_normalize(v).y.raw <= 0,
        v.z.raw == 0 ==> spec_normalize(v).z.raw == 0,
        v.z.raw > 0 ==> spec_normalize(v).z.raw >= 0,
        v.z.raw < 0 ==> spec_normalize(v).z.raw <= 0,
{
    let m = spec_magnitude(v);
    lemma_div_keeps_sign(v.x, m);
    lemma_div_keeps_sign(v.y, m);
    lemma_div_keeps_sign(v.z, m);
}

/// A square in fixed point is never negative.
pub proof fn lemma_square_nonneg(a: Scalar)
    ensures
        s_mul(a, a).raw >= 0,
{
    let p = (a.raw as int) * (a.raw as int);
    assert((a.raw as int) * (a.raw as int) >= 0) by (nonlinear_arith);
    vstd::arithmetic::div_mod::lemma_div_nonincreasing(p, SCALE as int);
    vstd::arithmetic::div_mod::lemma_div_pos_is_pos(p, SCALE as int);
}

/// The squared magnitude is never negative.
pub proof fn lemma_magnitude_squared_nonneg(v: Vector)
    ensures
        spec_magnitude_squared(v).raw >= 0,
{
    lemma_square_nonneg(v.x);
    lemma_square_nonneg(v.y);
    lemma_square_nonneg(v.z);
}

impl Point {
    pub fn new(x: Scalar, y: Scalar, z: Scalar) -> (r: Point)
        ensures
            r == spec_point(x, y, z),
    {
        Point { x, y, z, w: Scalar::one() }
    }

    /// The point reached by following `v` from this point.
    pub fn add(self, v: Vector) -> (r: Point)
        ensures
            r == spec_point_add_vector(self, v),
    {
        Point { x: self.x.add(v.x), y: self.y.add(v.y), z: self.z.add(v.z), w: self.w.add(v.w) }
    }

    /// The vector from `o` to this point.
    pub fn sub(self, o: Point) -> (r: Vector)
        ensures
            r == spec_point_sub_point(self, o),
    {
        Vector { x: self.x.sub(o.x), y: self.y.sub(o.y), z: self.z.sub(o.z), w: self.w.sub(o.w) }
    }

    /// The point reached by following `v` backwards from this point.
    pub fn sub_vector(self, v: Vector) -> (r: Point)
        ensures
            r == spec_point_sub_vector(self, v),
    {
        Point { x: self.x.sub(v.x), y: self.y.sub(v.y), z: self.z.sub(v.z), w: self.w.sub(v.w) }
    }
}

impl Vector {
    pub fn new(x: Scalar, y: Scalar, z: Scalar) -> (r: Vector)
        ensures
            r == spec_vector(x, y, z),
    {
        Vector { x, y, z, w: Scalar::zero() }
    }

    pub fn add(self, o: Vector) -> (r: Vector)
        ensures
            r == spec_vector_add(self, o),
    {
        Vector { x: self.x.add(o.x), y: self.y.add(o.y), z: self.z.add(o.z), w: self.w.add(o.w) }
    }

    pub fn sub(self, o: Vector) -> (r: Vector)
        ensures
            r == spec_vector_sub(self, o),
    {
        Vector { x: self.x.sub(o.x), y: self.y.sub(o.y), z: self.z.sub(o.z), w: self.w.sub(o.w) }
    }

    pub fn neg(self) -> (r: Vector)
        ensures
            r == spec_vector_neg(self),
    {
        Vector { x: self.x.neg(), y: self.y.neg(), z: self.z.neg(), w: self.w.neg() }
    }

    /// Each component multiplied by `s`.
    pub fn scale(self, s: Scalar) -> (r: Vector)
        ensures
            r == spec_vector_scale(self, s),
    {
        Vector { x: self.x.mul(s), y: self.y.mul(s), z: self.z.mul(s), w: self.w.mul(s) }
    }

    /// Each component divided by `s`, which must be non-zero.
    pub fn div_scale(self, s: Scalar) -> (r: Vector)
        requires
            s.raw != 0,
        ensures
            r == spec_vector_div(self, s),
    {
        Vector { x: self.x.div(s), y: self.y.div(s), z: self.z.div(s), w: self.w.div(s) }
    }

    /// This vector mirrored about `normal`.
    pub fn reflect(&self, normal: &Vector) -> (r: Vector)
        ensures
            r == spec_reflect(*self, *normal),
    {
        let two = Scalar::from_int(2);
        let d = dot(self, normal);
        self.sub(normal.scale(two).scale(d))
    }
}

pub fn dot(a: &Vector, b: &Vector) -> (r: Scalar)
    ensures
        r == spec_dot(*a, *b),
{
    a.x.mul(b.x).add(a.y.mul(b.y)).add(a.z.mul(b.z)).add(a.w.mul(b.w))
}

pub fn cross(a: &Vector, b: &Vector) -> (r: Vector)
    ensures
        r == spec_cross(*a, *b),
{
    Vector::new(
        a.y.mul(b.z).sub(a.z.mul(b.y)),
        a.z.mul(b.x).sub(a.x.mul(b.z)),
        a.x.mul(b.y).sub(a.y.mul(b.x)),
    )
}

/// The length of the three spatial components.
pub fn magnitude(v: &Vector) -> (r: Scalar)
    ensures
        r == spec_magnitude(*v),
        r.raw >= 0,
{
    let sq = v.x.mul(v.x).add(v.y.mul(v.y)).add(v.z.mul(v.z));
    proof {
        lemma_magnitude_squared_nonneg(*v);
    }
    sq.sqrt()
}

/// The unit vector in this direction; a vector whose magnitude rounds to
/// zero is returned unchanged, since no direction can be recovered.
pub fn normalize(v: &Vector) -> (r: Vector)
    ensures
        r == spec_normalize(*v),
{
    let m = magnitude(v);
    if m.raw == 0 {
        *v
    } else {
        Vector { x: v.x.div(m), y: v.y.div(m), z: v.z.div(m), w: v.w.div(m) }
    }
}

} // verus!
