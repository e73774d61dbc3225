//! Procedural surface patterns: a color as a function of a point.
//!
//! Each kind maps an object-space point to one of two base colors or an
//! interpolation between them.  `pattern_at_object` first carries the world
//! point into object space through the owning shape's inverse transform, then
//! into pattern space through the pattern's own inverse transform.

use crate::color::{spec_color_add, spec_color_scale, spec_color_sub, Color};
use crate::matrix::{
    spec_det4, spec_identity4, spec_mul4_point, Inverse, Matrix4, NotInvertibleError,
};
use crate::scalar::{is_even_int, s_add, s_fract, s_mul, s_sqrt, spec_floor_int, Scalar};
use crate::shape::{spec_inverse4_of, Shape};
use crate::tuple::{lemma_square_nonneg, Point};
use vstd::prelude::*;

verus! {

#[derive(Clone, Copy, Debug, PartialEq, Eq, Structural)]
pub enum PatternKind {
    Stripe,
    Gradient,
    Ring,
    Checkers,
}

#[derive(Clone, Copy, Debug, PartialEq, Eq, Structural)]
pub struct Pattern {
    pub a: Color,
    pub b: Color,
    pub transform: Matrix4,
    pub kind: PatternKind,
}

/// Alternating unit-wide bands along x: `a` on even floors, `b` on odd.
pub open spec fn spec_stripe_at(p: Pattern, point: Point) -> Color {
    if spec_floor_int(point.x.raw as int) % 2 == 0 {
        p.a
    } else {
        p.b
    }
}

/// Linear blend from `a` to `b` by the fractional part of x.
pub open spec fn spec_gradient_at(p: Pattern, point: Point) -> Color {
    spec_color_add(p.a, spec_color_scale(spec_color_sub(p.b, p.a), s_fract(point.x)))
}

/// Concentric unit-wide rings about the y axis in the XZ plane.
pub open spec fn spec_ring_at(p: Pattern, point: Point) -> Color {
    let radius = s_sqrt(s_add(s_mul(point.x, point.x), s_mul(point.z, point.z)));
    if spec_floor_int(radius.raw as int) % 2 == 0 {
        p.a
    } else {
        p.b
    }
}

/// Unit cubes colored by the parity of the summed floors of x, y and z.
pub open spec fn spec_checkers_at(p: Pattern, point: Point) -> Color {
    let parity = spec_floor_int(point.x.raw as int) + spec_floor_int(point.y.raw as int)
        + spec_floor_int(point.z.raw as int);
    if parity % 2 == 0 {
        p.a
    } else {
        p.b
    }
}

pub open spec fn spec_pattern_at(p: Pattern, point: Point) -> Color {
    match p.kind {
        PatternKind::Stripe => spec_stripe_at(p, point),
        PatternKind::Gradient => spec_gradient_at(p, point),
        PatternKind::Ring => spec_ring_at(p, point),
        PatternKind::Checkers => spec_checkers_at(p, point),
    }
}

/// The pattern color at a world point on a shape: world space to object
/// space through the shape's inverse transform, then to pattern space
/// through the pattern's own inverse transform.
pub open spec fn spec_pattern_at_object(p: Pattern, object: Shape, world_point: Point) -> Color {
    let object_point = spec_mul4_point(spec_inverse4_of(object.transform), world_point);
    let pattern_point = spec_mul4_point(spec_inverse4_of(p.transform), object_point);
    spec_pattern_at(p, pattern_point)
}

impl Pattern {
    /// A pattern is well-formed when its transform is invertible.
    pub open spec fn wf(self) -> bool {
        spec_det4(self.transform).raw != 0
    }

    pub fn stripe(a: Color, b: Color) -> (p: Pattern)
        ensures
            p == (Pattern { a, b, transform: spec_identity4(), kind: PatternKind::Stripe }),
            p.wf(),
    {
        proof {
            crate::shape::lemma_identity_det_nonzero();
        }
        Pattern { a, b, transform: Matrix4::identity(), kind: PatternKind::Stripe }
    }

    pub fn gradient(a: Color, b: Color) -> (p: Pattern)
        ensures
            p == (Pattern { a, b, transform: spec_identity4(), kind: PatternKind::Gradient }),
            p.wf(),
    {
        proof {
            crate::shape::lemma_identity_det_nonzero();
        }
        Pattern { a, b, transform: Matrix4::identity(), kind: PatternKind::Gradient }
    }

    pub fn ring(a: Color, b: Color) -> (p: Pattern)
        ensures
            p == (Pattern { a, b, transform: spec_identity4(), kind: PatternKind::Ring }),
            p.wf(),
    {
        proof {
            crate::shape::lemma_identity_det_nonzero();
        }
        Pattern { a, b, transform: Matrix4::identity(), kind: PatternKind::Ring }
    }

    pub fn checkers(a: Color, b: Color) -> (p: Pattern)
        ensures
            p == (Pattern { a, b, transform: spec_identity4(), kind: PatternKind::Checkers }),
            p.wf(),
    {
        proof {
            crate::shape::lemma_identity_det_nonzero();
        }
        Pattern { a, b, transform: Matrix4::identity(), kind: PatternKind::Checkers }
    }

    /// Install a new pattern-space transform.  A singular matrix is a
    /// configuration error: it is rejected and the pattern is left
    /// unchanged.
    pub fn set_transform(&mut self, new_transform: Matrix4) -> (r: Result<(), NotInvertibleError>)
        ensures
            spec_det4(new_transform).raw != 0 ==> r is Ok && *final(self) == (Pattern {
                transform: new_transform,
                ..*old(self)
            }),
            spec_det4(new_transform).raw == 0 ==> r is Err && *final(self) == *old(self),
    {
        if new_transform.is_invertible() {
            self.transform = new_transform;
            Ok(())
        } else {
            Err(NotInvertibleError)
        }
    }

    pub fn stripe_at(&self, point: &Point) -> (c: Color)
        ensures
            c == spec_stripe_at(*self, *point),
    {
        let k = point.x.floor_int();
        if is_even_int(k) {
            self.a
        } else {
            self.b
        }
    }

    pub fn gradient_at(&self, point: &Point) -> (c: Color)
        ensures
            c == spec_gradient_at(*self, *point),
    {
        let distance = self.b.sub(self.a);
        let fraction = point.x.fract();
        self.a.add(distance.scale(fraction))
    }

    pub fn ring_at(&self, point: &Point) -> (c: Color)
        ensures
            c == spec_ring_at(*self, *point),
    {
        let sq = point.x.mul(point.x).add(point.z.mul(point.z));
        proof {
            lemma_square_nonneg(point.x);
            lemma_square_nonneg(point.z);
        }
        let radius = sq.sqrt();
        let k = radius.floor_int();
        if is_even_int(k) {
            self.a
        } else {
            self.b
        }
    }

    pub fn checkers_at(&self, point: &Point) -> (c: Color)
        ensures
            c == spec_checkers_at(*self, *point),
    {
        let kx = point.x.floor_int();
        let ky = point.y.floor_int();
        let kz = point.z.floor_int();
        if is_even_int(kx + ky + kz) {
            self.a
        } else {
            self.b
        }
    }

    pub fn pattern_at(&self, point: &Point) -> (c: Color)
        ensures
            c == spec_pattern_at(*self, *point),
    {
        match self.kind {
            PatternKind::Stripe => self.stripe_at(point),
            PatternKind::Gradient => self.gradient_at(point),
            PatternKind::Ring => self.ring_at(point),
            PatternKind::Checkers => self.checkers_at(point),
        }
    }

    /// The pattern color at a world point on `object`.
    pub fn pattern_at_object(&self, object: &Shape, world_point: &Point) -> (c: Color)
        requires
            self.wf(),
            spec_det4(object.transform).raw != 0,
        ensures
            c == spec_pattern_at_object(*self, *object, *world_point),
    {
        let object_inverse = match object.transform.inverse() {
            Some(inv) => inv,
            None => {
                proof {
                    assert(false);
                }
                Matrix4::identity()
            },
        };
        let pattern_inverse = match self.transform.inverse() {
            Some(inv) => inv,
            None => {
                proof {
                    assert(false);
                }
                Matrix4::identity()
            },
        };
        let object_point = object_inverse.mul_point(*world_point);
        let pattern_point = pattern_inverse.mul_point(object_point);
        self.pattern_at(&pattern_point)
    }
}

} // verus!
