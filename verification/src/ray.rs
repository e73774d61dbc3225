//! Rays, ray-shape intersection and hit selection.
//!
//! A ray is intersected with a shape by carrying it into object space
//! through the shape's inverse transform and solving the kind-specific local
//! problem: the quadratic of the unit sphere, or the single crossing of the
//! XZ plane.  `intersect_world` gathers the intersections of every shape in
//! scene order and sorts them by the ray parameter; `hit` picks the first
//! intersection with the smallest non-negative parameter.

use crate::intersection::{
    is_first_hit, lemma_hit_pairs_characterization, lemma_insert_pair_at, pair_of, pairs_of,
    spec_hit_pairs, spec_insert_pair, spec_sort_pairs, Intersection,
};
use crate::matrix::{spec_det4, Inverse, Matrix4};
use crate::scalar::{
    lemma_mul_int_nonzero, s_abs, s_add, s_div, s_mul, s_neg, s_one, s_sqrt, s_sub, s_zero,
    to_scalar, Scalar, EPSILON_RAW, SCALE,
};
use crate::shape::{spec_inverse4_of, Shape, ShapeKind};
use crate::tuple::{
    dot, spec_dot, spec_point, spec_point_add_vector, spec_point_sub_point, spec_vector_scale,
    Point, Vector,
};
use crate::world::World;
use vstd::prelude::*;

verus! {

#[derive(Clone, Copy, Debug, PartialEq, Eq, Structural)]
pub struct Ray {
    pub origin: Point,
    pub direction: Vector,
}

pub fn ray(origin: Point, direction: Vector) -> (r: Ray)
    ensures
        r == (Ray { origin, direction }),
{
    Ray { origin, direction }
}

/// The point `t` units along the ray.
pub open spec fn spec_position(r: Ray, t: Scalar) -> Point {
    spec_point_add_vector(r.origin, spec_vector_scale(r.direction, t))
}

/// The ray carried through a matrix: both origin and direction transformed.
pub open spec fn spec_ray_transform(r: Ray, m: Matrix4) -> Ray {
    Ray {
        origin: crate::matrix::spec_mul4_point(m, r.origin),
        direction: crate::matrix::spec_mul4_vector(m, r.direction),
    }
}

/// The ray parameters at which `ray` meets `shape`, in the order the solver
/// produces them.  A sphere yields both quadratic roots or nothing; a ray
/// whose direction underflows to length zero in object space yields nothing.
/// A plane yields one crossing, or nothing when the ray runs parallel to it
/// within epsilon.
pub open spec fn spec_intersect_ts(shape: Shape, ray: Ray) -> Seq<Scalar> {
    let local = spec_ray_transform(ray, spec_inverse4_of(shape.transform));
    match shape.kind {
        ShapeKind::Sphere => {
            let sphere_to_ray = spec_point_sub_point(
                local.origin,
                spec_point(s_zero(), s_zero(), s_zero()),
            );
            let a = spec_dot(local.direction, local.direction);
            let b = s_mul(to_scalar(2 * (SCALE as int)), spec_dot(local.direction, sphere_to_ray));
            let c = s_sub(spec_dot(sphere_to_ray, sphere_to_ray), s_one());
            let discriminant = s_sub(
                s_mul(b, b),
                s_mul(s_mul(to_scalar(4 * (SCALE as int)), a), c),
            );
            if discriminant.raw < 0 {
                Seq::empty()
            } else if a.raw == 0 {
                Seq::empty()
            } else {
                let root = s_sqrt(discriminant);
                let denominator = s_mul(to_scalar(2 * (SCALE as int)), a);
                seq![
                    s_div(s_sub(s_neg(b), root), denominator),
                    s_div(s_add(s_neg(b), root), denominator),
                ]
            }
        },
        ShapeKind::Plane => {
            if s_abs(local.direction.y).raw < EPSILON_RAW {
                Seq::empty()
            } else {
                seq![s_div(s_neg(local.origin.y), local.direction.y)]
            }
        },
    }
}

/// The intersections of one shape as value pairs, in solver order.
pub open spec fn spec_pairs_of_shape(shape: Shape, ray: Ray) -> Seq<(Scalar, Shape)> {
    spec_intersect_ts(shape, ray).map_values(|t: Scalar| (t, shape))
}

/// The intersections of a whole shape list, concatenated in scene order,
/// unsorted.
pub open spec fn spec_shapes_hit_pairs(shapes: Seq<Shape>, ray: Ray) -> Seq<(Scalar, Shape)>
    decreases shapes.len(),
{
    if shapes.len() == 0 {
        Seq::empty()
    } else {
        spec_shapes_hit_pairs(shapes.drop_last(), ray) + spec_pairs_of_shape(shapes.last(), ray)
    }
}

/// The scene's intersections for a ray: every shape's, sorted by parameter.
pub open spec fn spec_world_hit_pairs(world: World, ray: Ray) -> Seq<(Scalar, Shape)> {
    spec_sort_pairs(spec_shapes_hit_pairs(world.shapes@, ray))
}

/// One shape's intersections all strike that shape, so a well-formed shape
/// yields well-formed pairs.
pub proof fn lemma_pairs_of_shape_wf(shape: Shape, r: Ray)
    requires
        shape.wf(),
    ensures
        crate::intersection::pairs_wf(spec_pairs_of_shape(shape, r)),
{
}

/// Intersections gathered from well-formed shapes are well-formed.
pub proof fn lemma_shapes_hit_pairs_wf(shapes: Seq<Shape>, r: Ray)
    requires
        forall|k: int| 0 <= k < shapes.len() ==> (#[trigger] shapes[k]).wf(),
    ensures
        crate::intersection::pairs_wf(spec_shapes_hit_pairs(shapes, r)),
    decreases shapes.len(),
{
    if shapes.len() > 0 {
        let prev = shapes.drop_last();
        assert(forall|k: int| 0 <= k < prev.len() ==> #[trigger] prev[k] == shapes[k]);
        lemma_shapes_hit_pairs_wf(prev, r);
        lemma_pairs_of_shape_wf(shapes.last(), r);
    }
}

/// Insertion keeps every intersection well-formed.
pub proof fn lemma_insert_pair_wf(x: (Scalar, Shape), s: Seq<(Scalar, Shape)>)
    requires
        x.1.wf(),
        crate::intersection::pairs_wf(s),
    ensures
        crate::intersection::pairs_wf(spec_insert_pair(x, s)),
    decreases s.len(),
{
    if s.len() != 0 && !(x.0.raw < s[0].0.raw) {
        let rest = s.drop_first();
        assert(forall|k: int| 0 <= k < rest.len() ==> #[trigger] rest[k] == s[k + 1]);
        lemma_insert_pair_wf(x, rest);
    }
}

/// Sorting keeps every intersection well-formed.
pub proof fn lemma_sort_pairs_wf(s: Seq<(Scalar, Shape)>)
    requires
        crate::intersection::pairs_wf(s),
    ensures
        crate::intersection::pairs_wf(spec_sort_pairs(s)),
    decreases s.len(),
{
    if s.len() > 0 {
        let rest = s.drop_first();
        assert(forall|k: int| 0 <= k < rest.len() ==> #[trigger] rest[k] == s[k + 1]);
        lemma_sort_pairs_wf(rest);
        lemma_insert_pair_wf(s[0], spec_sort_pairs(rest));
    }
}

/// In a well-formed world every intersection strikes a well-formed shape.
pub proof fn lemma_world_pairs_wf(w: World, r: Ray)
    requires
        w.wf(),
    ensures
        crate::intersection::pairs_wf(spec_world_hit_pairs(w, r)),
{
    lemma_shapes_hit_pairs_wf(w.shapes@, r);
    lemma_sort_pairs_wf(spec_shapes_hit_pairs(w.shapes@, r));
}

impl Ray {
    /// The point `t` units along the ray.
    pub fn position(&self, t: Scalar) -> (p: Point)
        ensures
            p == spec_position(*self, t),
    {
        self.origin.add(self.direction.scale(t))
    }

    /// The ray carried through a matrix: both origin and direction
    /// transformed.
    pub fn transform(&self, matrix: &Matrix4) -> (r: Ray)
        ensures
            r == spec_ray_transform(*self, *matrix),
    {
        Ray {
            origin: matrix.mul_point(self.origin),
            direction: matrix.mul_vector(self.direction),
        }
    }

    /// The intersections of this ray with one shape, in solver order.
    pub fn intersect<'a>(&self, shape: &'a Shape) -> (v: Vec<Intersection<'a>>)
        requires
            spec_det4(shape.transform).raw != 0,
        ensures
            v@.len() == spec_intersect_ts(*shape, *self).len(),
            forall|k: int|
                0 <= k < v@.len() ==> (#[trigger] v@[k]).t == spec_intersect_ts(*shape, *self)[k]
                    && v@[k].object == shape,
            pairs_of(v@) == spec_pairs_of_shape(*shape, *self),
    {
        let inverse_transform = match shape.transformation_matrix().inverse() {
            Some(inv) => inv,
            None => {
                proof {
                    assert(false);
                }
                Matrix4::identity()
            },
        };
        let local = self.transform(&inverse_transform);
        let mut v: Vec<Intersection<'a>> = Vec::new();
        match shape.kind {
            ShapeKind::Sphere => {
                let zero = Scalar::zero();
                let sphere_to_ray = local.origin.sub(Point::new(zero, zero, zero));
                let two = Scalar::from_int(2);
                let four = Scalar::from_int(4);
                let a = dot(&local.direction, &local.direction);
                let b = two.mul(dot(&local.direction, &sphere_to_ray));
                let c = dot(&sphere_to_ray, &sphere_to_ray).sub(Scalar::one());
                let discriminant = b.mul(b).sub(four.mul(a).mul(c));
                if discriminant.raw < 0 {
                    proof {
                        assert(pairs_of(v@) =~= spec_pairs_of_shape(*shape, *self));
                    }
                    return v;
                }
                if a.raw == 0 {
                    proof {
                        assert(pairs_of(v@) =~= spec_pairs_of_shape(*shape, *self));
                    }
                    return v;
                }
                let root = discriminant.sqrt();
                let denominator = two.mul(a);
                proof {
                    lemma_mul_int_nonzero(2, a.raw as int);
                }
                let t1 = b.neg().sub(root).div(denominator);
                v.push(Intersection { t: t1, object: shape });
                let t2 = b.neg().add(root).div(denominator);
                v.push(Intersection { t: t2, object: shape });
                proof {
                    assert(pairs_of(v@) =~= spec_pairs_of_shape(*shape, *self));
                }
                v
            },
            ShapeKind::Plane => {
                if local.direction.y.abs().raw < EPSILON_RAW {
                    proof {
                        assert(pairs_of(v@) =~= spec_pairs_of_shape(*shape, *self));
                    }
                    return v;
                }
                let t = local.origin.y.neg().div(local.direction.y);
                v.push(Intersection { t, object: shape });
                proof {
                    assert(pairs_of(v@) =~= spec_pairs_of_shape(*shape, *self));
                }
                v
            },
        }
    }

    /// Every shape's intersections with this ray, sorted by parameter.
    pub fn intersect_world<'a>(&self, world: &'a World) -> (v: Vec<Intersection<'a>>)
        requires
            world.wf(),
        ensures
            pairs_of(v@) == spec_world_hit_pairs(*world, *self),
    {
        let mut all: Vec<Intersection<'a>> = Vec::new();
        let mut idx: usize = 0;
        proof {
            assert(pairs_of(all@) =~= spec_shapes_hit_pairs(
                world.shapes@.subrange(0, 0),
                *self,
            ));
        }
        while idx < world.shapes.len()
            invariant
                idx <= world.shapes.len(),
                world.wf(),
                pairs_of(all@) == spec_shapes_hit_pairs(
                    world.shapes@.subrange(0, idx as int),
                    *self,
                ),
            decreases world.shapes.len() - idx,
        {
            let mut these = self.intersect(&world.shapes[idx]);
            proof {
                let prefix = world.shapes@.subrange(0, idx as int);
                let next = world.shapes@.subrange(0, idx as int + 1);
                assert(next.drop_last() =~= prefix);
                assert(next.last() == world.shapes@[idx as int]);
                assert(pairs_of(all@ + these@) =~= pairs_of(all@) + pairs_of(these@));
            }
            all.append(&mut these);
            idx = idx + 1;
        }
        proof {
            assert(world.shapes@.subrange(0, world.shapes@.len() as int) =~= world.shapes@);
        }
        sort_intersections(all)
    }
}

impl Shape {
    /// The intersections of a ray with this shape, in solver order.
    pub fn intersect<'a>(&'a self, r: &Ray) -> (v: Vec<Intersection<'a>>)
        requires
            spec_det4(self.transform).raw != 0,
        ensures
            v@.len() == spec_intersect_ts(*self, *r).len(),
            forall|k: int|
                0 <= k < v@.len() ==> (#[trigger] v@[k]).t == spec_intersect_ts(*self, *r)[k]
                    && v@[k].object == self,
            pairs_of(v@) == spec_pairs_of_shape(*self, *r),
    {
        r.intersect(self)
    }
}

/// Insert one intersection into a list sorted by parameter, keeping it
/// sorted and placing the newcomer behind every entry it does not strictly
/// undercut.
fn insert_sorted<'a>(x: Intersection<'a>, v: &Vec<Intersection<'a>>) -> (r: Vec<Intersection<'a>>)
    ensures
        pairs_of(r@) == spec_insert_pair(pair_of(x), pairs_of(v@)),
{
    let mut out: Vec<Intersection<'a>> = Vec::new();
    let mut i: usize = 0;
    while i < v.len() && !(x.t.raw < v[i].t.raw)
        invariant
            i <= v.len(),
            out@ == v@.subrange(0, i as int),
            forall|k: int| 0 <= k < i ==> !(x.t.raw < (#[trigger] v@[k]).t.raw),
        decreases v.len() - i,
    {
        out.push(v[i]);
        proof {
            assert(out@ =~= v@.subrange(0, i as int + 1));
        }
        i = i + 1;
    }
    let j = i;
    out.push(x);
    while i < v.len()
        invariant
            j <= i <= v.len(),
            out@ == v@.subrange(0, j as int) + seq![x] + v@.subrange(j as int, i as int),
        decreases v.len() - i,
    {
        out.push(v[i]);
        proof {
            assert(out@ =~= v@.subrange(0, j as int) + seq![x] + v@.subrange(
                j as int,
                i as int + 1,
            ));
        }
        i = i + 1;
    }
    proof {
        let pv = pairs_of(v@);
        assert(forall|k: int| 0 <= k < j ==> !(pair_of(x).0.raw < (#[trigger] pv[k]).0.raw));
        lemma_insert_pair_at(pair_of(x), pv, j as int);
        assert(pairs_of(out@) =~= pv.subrange(0, j as int) + seq![pair_of(x)] + pv.subrange(
            j as int,
            pv.len() as int,
        ));
    }
    out
}

/// Insertion sort of intersections by their ray parameter, inserting from
/// the back so the result matches the specification fold.
fn sort_intersections<'a>(v: Vec<Intersection<'a>>) -> (r: Vec<Intersection<'a>>)
    ensures
        pairs_of(r@) == spec_sort_pairs(pairs_of(v@)),
{
    let mut out: Vec<Intersection<'a>> = Vec::new();
    let mut i: usize = v.len();
    proof {
        assert(pairs_of(v@).subrange(i as int, pairs_of(v@).len() as int) =~= Seq::<
            (Scalar, Shape),
        >::empty());
        assert(pairs_of(out@) =~= Seq::<(Scalar, Shape)>::empty());
    }
    while i > 0
        invariant
            i <= v.len(),
            pairs_of(out@) == spec_sort_pairs(
                pairs_of(v@).subrange(i as int, pairs_of(v@).len() as int),
            ),
        decreases i,
    {
        i = i - 1;
        out = insert_sorted(v[i], &out);
        proof {
            let pv = pairs_of(v@);
            let tail = pv.subrange(i as int, pv.len() as int);
            assert(tail.drop_first() =~= pv.subrange(i as int + 1, pv.len() as int));
            assert(tail[0] == pair_of(v@[i as int]));
        }
    }
    proof {
        assert(pairs_of(v@).subrange(0, pairs_of(v@).len() as int) =~= pairs_of(v@));
    }
    out
}

/// The first intersection with the smallest non-negative parameter, or
/// nothing when every parameter is negative.
pub fn hit<'a>(intersections: &'a Vec<Intersection<'a>>) -> (r: Option<&'a Intersection<'a>>)
    ensures
        (r is Some) == (spec_hit_pairs(pairs_of(intersections@)) is Some),
        r is Some ==> pair_of(*r->0) == spec_hit_pairs(pairs_of(intersections@))->0,
        r is None ==> forall|k: int|
            0 <= k < intersections@.len() ==> (#[trigger] intersections@[k]).t.raw < 0,
        r is Some ==> exists|j: int|
            #[trigger] is_first_hit(pairs_of(intersections@), j) && pairs_of(intersections@)[j]
                == pair_of(*r->0),
{
    let ghost pv = pairs_of(intersections@);
    let mut best: Option<usize> = None;
    let mut k: usize = 0;
    proof {
        assert(pv.subrange(0, 0) =~= Seq::<(Scalar, Shape)>::empty());
    }
    while k < intersections.len()
        invariant
            k <= intersections.len(),
            pv == pairs_of(intersections@),
            match best {
                None => spec_hit_pairs(pv.subrange(0, k as int)) is None,
                Some(bi) => bi < k && spec_hit_pairs(pv.subrange(0, k as int)) == Some(
                    pair_of(intersections@[bi as int]),
                ) && intersections@[bi as int].t.raw >= 0,
            },
        decreases intersections.len() - k,
    {
        proof {
            let prefix = pv.subrange(0, k as int + 1);
            assert(prefix.drop_last() =~= pv.subrange(0, k as int));
            assert(prefix.last() == pair_of(intersections@[k as int]));
        }
        let candidate = &intersections[k];
        if candidate.t.raw >= 0 {
            match best {
                None => {
                    best = Some(k);
                },
                Some(bi) => {
                    if candidate.t.raw < intersections[bi].t.raw {
                        best = Some(k);
                    }
                },
            }
        }
        k = k + 1;
    }
    proof {
        assert(pv.subrange(0, intersections@.len() as int) =~= pv);
        lemma_hit_pairs_characterization(pv);
        assert(forall|k: int|
            0 <= k < intersections@.len() ==> pv[k] == pair_of(#[trigger] intersections@[k]));
    }
    match best {
        None => None,
        Some(bi) => Some(&intersections[bi]),
    }
}

} // verus!
