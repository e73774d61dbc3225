//! Scene primitives: a shape is a kind tag, an object-to-world transform and
//! a material.
//!
//! The two kinds are the unit sphere about the object-space origin and the
//! object-space XZ plane.  A shape's transform must stay invertible -- both
//! intersection and the normal need its inverse -- so the setter rejects a
//! singular matrix as a domain error at configuration time.

use crate::material::{material, spec_default_material, Material};
use crate::matrix::{
    spec_det4, spec_identity4, spec_mul4_point, spec_mul4_vector, spec_transpose4, Inverse,
    Matrix4, NotInvertibleError, Transpose,
};
use crate::scalar::{s_one, s_zero, Scalar};
use crate::tuple::{
    normalize, spec_normalize, spec_point, spec_point_sub_point, spec_vector, Point, Vector,
};
use vstd::prelude::*;

verus! {

#[derive(Clone, Copy, Debug, PartialEq, Eq, Structural)]
pub enum ShapeKind {
    Sphere,
    Plane,
}

#[derive(Clone, Copy, Debug, PartialEq, Eq, Structural)]
pub struct Shape {
    pub transform: Matrix4,
    pub material: Material,
    pub kind: ShapeKind,
}

impl Shape {
    /// A shape is well-formed when its transform is invertible and its
    /// material's pattern, if any, has an invertible transform too.
    pub open spec fn wf(self) -> bool {
        spec_det4(self.transform).raw != 0 && self.material.wf()
    }

    pub fn default_sphere() -> (s: Shape)
        ensures
            s == (Shape {
                transform: spec_identity4(),
                material: spec_default_material(),
                kind: ShapeKind::Sphere,
            }),
            s.wf(),
    {
        let s = Shape { transform: Matrix4::identity(), material: material(), kind: ShapeKind::Sphere };
        proof {
            lemma_identity_det_nonzero();
        }
        s
    }

    pub fn default_plane() -> (s: Shape)
        ensures
            s == (Shape {
                transform: spec_identity4(),
                material: spec_default_material(),
                kind: ShapeKind::Plane,
            }),
            s.wf(),
    {
        let s = Shape { transform: Matrix4::identity(), material: material(), kind: ShapeKind::Plane };
        proof {
            lemma_identity_det_nonzero();
        }
        s
    }

    pub fn transformation_matrix(&self) -> (r: &Matrix4)
        ensures
            r == &self.transform,
    {
        &self.transform
    }

    /// Install a new object-to-world transform.  A singular matrix is a
    /// configuration error: it is rejected and the shape is left unchanged.
    pub fn set_transformation_matrix(&mut self, new_transform: Matrix4) -> (r: Result<
        (),
        NotInvertibleError,
    >)
        ensures
            spec_det4(new_transform).raw != 0 ==> r is Ok && *final(self) == (Shape {
                transform: new_transform,
                ..*old(self)
            }),
            spec_det4(new_transform).raw == 0 ==> r is Err && *final(self) == *old(self),
    {
        if new_transform.is_invertible() {
            self.transform = new_transform;
            Ok(())
        } else {
            Err(NotInvertibleError)
        }
    }

    /// The world-space surface normal at a world-space point on the shape.
    pub fn normal_at(&self, world_point: Point) -> (n: Vector)
        requires
            spec_det4(self.transform).raw != 0,
        ensures
            n == spec_normal_at(*self, world_point),
    {
        match self.kind {
            ShapeKind::Sphere => self.sphere_normal_at(world_point),
            ShapeKind::Plane => self.plane_normal_at(world_point),
        }
    }

    /// Sphere normal: carry the point to object space, take the radius
    /// vector as the local normal, and carry it back to world space.
    pub fn sphere_normal_at(&self, world_point: Point) -> (n: Vector)
        requires
            spec_det4(self.transform).raw != 0,
        ensures
            n == spec_sphere_normal_at(*self, world_point),
    {
        let transform_inverse = match self.transform.inverse() {
            Some(inv) => inv,
            None => {
                proof {
                    assert(false);
                }
                Matrix4::identity()
            },
        };
        let object_point = transform_inverse.mul_point(world_point);
        let zero = Scalar::zero();
        let object_normal = object_point.sub(Point::new(zero, zero, zero));
        let mut world_normal = transform_inverse.transpose().mul_vector(object_normal);
        world_normal.w = Scalar::zero();
        normalize(&world_normal)
    }

    /// Plane normal: the local normal is the constant `(0, 1, 0)` at every
    /// point of the object-space XZ plane; it is then carried back to world
    /// space like any other normal.
    pub fn plane_normal_at(&self, _world_point: Point) -> (n: Vector)
        requires
            spec_det4(self.transform).raw != 0,
        ensures
            n == spec_plane_normal_at(*self),
    {
        let transform_inverse = match self.transform.inverse() {
            Some(inv) => inv,
            None => {
                proof {
                    assert(false);
                }
                Matrix4::identity()
            },
        };
        let zero = Scalar::zero();
        let object_normal = Vector::new(zero, Scalar::one(), zero);
        let mut world_normal = transform_inverse.transpose().mul_vector(object_normal);
        world_normal.w = Scalar::zero();
        normalize(&world_normal)
    }
}

/// An object-space normal carried back to world space: through the
/// transpose of the inverse transform, with the homogeneous component
/// cleared to cancel any translation leakage, then normalized.
pub open spec fn spec_world_normal(shape: Shape, object_normal: Vector) -> Vector {
    let inv = spec_inverse4_of(shape.transform);
    let carried = spec_mul4_vector(spec_transpose4(inv), object_normal);
    let flattened = Vector { w: s_zero(), ..carried };
    spec_normalize(flattened)
}

pub open spec fn spec_sphere_normal_at(shape: Shape, world_point: Point) -> Vector {
    let inv = spec_inverse4_of(shape.transform);
    let object_point = spec_mul4_point(inv, world_point);
    let object_normal = spec_point_sub_point(
        object_point,
        spec_point(s_zero(), s_zero(), s_zero()),
    );
    spec_world_normal(shape, object_normal)
}

pub open spec fn spec_plane_normal_at(shape: Shape) -> Vector {
    spec_world_normal(shape, spec_vector(s_zero(), s_one(), s_zero()))
}

pub open spec fn spec_normal_at(shape: Shape, world_point: Point) -> Vector {
    match shape.kind {
        ShapeKind::Sphere => spec_sphere_normal_at(shape, world_point),
        ShapeKind::Plane => spec_plane_normal_at(shape),
    }
}

/// The inverse of `m` when it has one; the identity otherwise, so the spec
/// stays total.
pub open spec fn spec_inverse4_of(m: Matrix4) -> Matrix4 {
    if spec_det4(m).raw != 0 {
        crate::matrix::spec_inverse4(m)
    } else {
        spec_identity4()
    }
}

/// The identity matrix has determinant one.
pub proof fn lemma_identity_det_nonzero()
    ensures
        spec_det4(spec_identity4()).raw == crate::scalar::SCALE,
{
    reveal(crate::matrix::spec_det4);
    crate::scalar::lemma_mul_one(crate::scalar::SCALE as int);
    crate::scalar::lemma_mul_one(0);
    crate::scalar::lemma_mul_zero(crate::scalar::SCALE as int);
    crate::scalar::lemma_mul_zero(0);
}

} // verus!
