//! Ray-shape intersections and the derived per-hit geometry.
//!
//! An `Intersection` is ephemeral and ray-local: a parameter `t` along the
//! ray and a reference to the shape that was struck.  Spec-level reasoning
//! works on `(Scalar, Shape)` pairs -- the intersection's value content --
//! so that contracts need no lifetimes.

use crate::matrix::spec_det4;
use crate::ray::{spec_position, Ray};
use crate::scalar::{s_one, to_scalar, Scalar, EPSILON_RAW};
use crate::shape::{spec_normal_at, Shape};
use crate::tuple::{
    dot, spec_dot, spec_point_add_vector, spec_point_sub_vector, spec_reflect, spec_vector_neg,
    spec_vector_scale, Point, Vector,
};
use vstd::prelude::*;

verus! {

#[derive(Clone, Copy, Debug, PartialEq, Eq, Structural)]
pub struct Intersection<'a> {
    pub t: Scalar,
    pub object: &'a Shape,
}

/// The value content of an intersection: its parameter and the struck shape.
pub open spec fn pair_of<'a>(i: Intersection<'a>) -> (Scalar, Shape) {
    (i.t, *i.object)
}

/// The value contents of a whole intersection list.
pub open spec fn pairs_of<'a>(s: Seq<Intersection<'a>>) -> Seq<(Scalar, Shape)> {
    s.map_values(|i: Intersection<'a>| pair_of(i))
}

pub fn intersection<'a>(t: Scalar, object: &'a Shape) -> (i: Intersection<'a>)
    ensures
        i.t == t,
        i.object == object,
{
    Intersection { t, object }
}

/// `x` inserted into `s` just ahead of the first entry whose parameter
/// exceeds it: the step of an insertion sort on the ray parameter.
pub open spec fn spec_insert_pair(x: (Scalar, Shape), s: Seq<(Scalar, Shape)>) -> Seq<
    (Scalar, Shape),
>
    decreases s.len(),
{
    if s.len() == 0 {
        seq![x]
    } else if x.0.raw < s[0].0.raw {
        seq![x] + s
    } else {
        seq![s[0]] + spec_insert_pair(x, s.drop_first())
    }
}

/// Insertion sort of intersections by their ray parameter.
pub open spec fn spec_sort_pairs(s: Seq<(Scalar, Shape)>) -> Seq<(Scalar, Shape)>
    decreases s.len(),
{
    if s.len() == 0 {
        Seq::empty()
    } else {
        spec_insert_pair(s[0], spec_sort_pairs(s.drop_first()))
    }
}

/// The hit: the first intersection carrying the smallest non-negative
/// parameter, scanning left to right, or nothing when every parameter is
/// negative.
pub open spec fn spec_hit_pairs(s: Seq<(Scalar, Shape)>) -> Option<(Scalar, Shape)>
    decreases s.len(),
{
    if s.len() == 0 {
        None
    } else {
        let prev = spec_hit_pairs(s.drop_last());
        let last = s.last();
        if last.0.raw < 0 {
            prev
        } else {
            match prev {
                None => Some(last),
                Some(p) => if last.0.raw < p.0.raw {
                    Some(last)
                } else {
                    Some(p)
                },
            }
        }
    }
}

/// `j` points at the hit of `s`: a non-negative parameter no other
/// non-negative parameter undercuts, and every earlier entry is either
/// negative or strictly larger.
pub open spec fn is_first_hit(s: Seq<(Scalar, Shape)>, j: int) -> bool {
    &&& 0 <= j < s.len()
    &&& s[j].0.raw >= 0
    &&& forall|k: int|
        0 <= k < s.len() && (#[trigger] s[k]).0.raw >= 0 ==> s[j].0.raw <= s[k].0.raw
    &&& forall|k: int| 0 <= k < j ==> ((#[trigger] s[k]).0.raw < 0 || s[k].0.raw > s[j].0.raw)
}

/// What the hit fold computes: nothing exactly when every parameter is
/// negative, and otherwise the first intersection with the smallest
/// non-negative parameter.
pub proof fn lemma_hit_pairs_characterization(s: Seq<(Scalar, Shape)>)
    ensures
        spec_hit_pairs(s) is None <==> (forall|k: int|
            0 <= k < s.len() ==> (#[trigger] s[k]).0.raw < 0),
        spec_hit_pairs(s) is Some ==> exists|j: int|
            #[trigger] is_first_hit(s, j) && s[j] == spec_hit_pairs(s)->0,
    decreases s.len(),
{
    if s.len() > 0 {
        let t = s.drop_last();
        let last = s.last();
        let n = s.len() - 1;
        lemma_hit_pairs_characterization(t);
        assert(forall|k: int| 0 <= k < n ==> #[trigger] s[k] == t[k]);
        if last.0.raw < 0 {
            if spec_hit_pairs(t) is Some {
                let j = choose|j: int| #[trigger] is_first_hit(t, j) && t[j] == spec_hit_pairs(t)->0;
                assert(is_first_hit(s, j));
            }
        } else {
            match spec_hit_pairs(t) {
                None => {
                    assert(is_first_hit(s, n));
                },
                Some(p) => {
                    let j = choose|j: int|
                        #[trigger] is_first_hit(t, j) && t[j] == spec_hit_pairs(t)->0;
                    if last.0.raw < p.0.raw {
                        assert(is_first_hit(s, n));
                    } else {
                        assert(is_first_hit(s, j));
                    }
                },
            }
        }
    }
}

/// Every intersection in the list strikes a well-formed shape.
pub open spec fn pairs_wf(xs: Seq<(Scalar, Shape)>) -> bool {
    forall|k: int| 0 <= k < xs.len() ==> (#[trigger] xs[k]).1.wf()
}

/// The index of the first occurrence of `x` in `s`, or `-1` when absent.
pub open spec fn spec_find(s: Seq<Shape>, x: Shape) -> int
    decreases s.len(),
{
    if s.len() == 0 {
        -1
    } else if s[0] == x {
        0
    } else {
        let r = spec_find(s.drop_first(), x);
        if r < 0 {
            -1
        } else {
            r + 1
        }
    }
}

/// `spec_find` returns the position of the first occurrence.
pub proof fn lemma_find_first(s: Seq<Shape>, x: Shape, p: int)
    requires
        0 <= p < s.len(),
        s[p] == x,
        forall|j: int| 0 <= j < p ==> s[j] != x,
    ensures
        spec_find(s, x) == p,
    decreases p,
{
    if p > 0 {
        let rest = s.drop_first();
        assert(forall|j: int| 0 <= j < p - 1 ==> #[trigger] rest[j] == s[j + 1]);
        lemma_find_first(rest, x, p - 1);
    }
}

/// `spec_find` misses exactly when the value is absent.
pub proof fn lemma_find_none(s: Seq<Shape>, x: Shape)
    requires
        forall|j: int| 0 <= j < s.len() ==> s[j] != x,
    ensures
        spec_find(s, x) == -1,
    decreases s.len(),
{
    if s.len() > 0 {
        let rest = s.drop_first();
        assert(forall|j: int| 0 <= j < rest.len() ==> #[trigger] rest[j] == s[j + 1]);
        lemma_find_none(rest, x);
    }
}

/// The containment walk over a sorted intersection list, carried up to and
/// including the hit: the shapes the ray is currently inside, and the
/// refractive indices just before and just after the hit surface.  A shape
/// already in the containment list is being exited and leaves it; a new one
/// is being entered and joins it.
pub open spec fn spec_refraction_state(xs: Seq<(Scalar, Shape)>, hit: (Scalar, Shape)) -> (
    Seq<Shape>,
    Scalar,
    Scalar,
)
    decreases xs.len(),
{
    if xs.len() == 0 {
        (Seq::empty(), s_one(), s_one())
    } else {
        let (containers, n1, n2) = spec_refraction_state(xs.drop_last(), hit);
        let i = xs.last();
        let n1_here = if i == hit {
            if containers.len() == 0 {
                s_one()
            } else {
                containers.last().material.refractive_index
            }
        } else {
            n1
        };
        let position = spec_find(containers, i.1);
        let containers_here = if position >= 0 {
            containers.remove(position)
        } else {
            containers.push(i.1)
        };
        let n2_here = if i == hit {
            if containers_here.len() == 0 {
                s_one()
            } else {
                containers_here.last().material.refractive_index
            }
        } else {
            n2
        };
        (containers_here, n1_here, n2_here)
    }
}

/// When every listed shape is well-formed, the walk only ever reports
/// positive refractive indices.
pub proof fn lemma_refraction_state_positive(xs: Seq<(Scalar, Shape)>, hit: (Scalar, Shape))
    requires
        pairs_wf(xs),
    ensures
        spec_refraction_state(xs, hit).1.raw > 0,
        spec_refraction_state(xs, hit).2.raw > 0,
        forall|k: int|
            0 <= k < spec_refraction_state(xs, hit).0.len() ==> (#[trigger] spec_refraction_state(
                xs,
                hit,
            ).0[k]).material.refractive_index.raw > 0,
    decreases xs.len(),
{
    if xs.len() > 0 {
        let prev = xs.drop_last();
        assert(pairs_wf(prev)) by {
            assert(forall|k: int| 0 <= k < prev.len() ==> #[trigger] prev[k] == xs[k]);
        }
        lemma_refraction_state_positive(prev, hit);
        let (containers, n1, n2) = spec_refraction_state(prev, hit);
        let i = xs.last();
        assert(i.1.wf());
        let position = spec_find(containers, i.1);
        if position >= 0 {
            lemma_find_in_range(containers, i.1);
            let removed = containers.remove(position);
            assert(forall|k: int|
                0 <= k < removed.len() ==> (#[trigger] removed[k]).material.refractive_index.raw
                    > 0) by {
                assert(forall|k: int|
                    0 <= k < removed.len() ==> #[trigger] removed[k] == (if k < position {
                        containers[k]
                    } else {
                        containers[k + 1]
                    }));
            }
        }
    }
}

/// A found index lies inside the sequence.
pub proof fn lemma_find_in_range(s: Seq<Shape>, x: Shape)
    ensures
        spec_find(s, x) >= 0 ==> 0 <= spec_find(s, x) < s.len() && s[spec_find(s, x)] == x,
    decreases s.len(),
{
    if s.len() > 0 && s[0] != x {
        lemma_find_in_range(s.drop_first(), x);
    }
}

/// Inserting `x` at the position `j` where the scan stops splits the
/// sequence around `x`.
pub proof fn lemma_insert_pair_at(x: (Scalar, Shape), s: Seq<(Scalar, Shape)>, j: int)
    requires
        0 <= j <= s.len(),
        forall|k: int| 0 <= k < j ==> !(x.0.raw < (#[trigger] s[k]).0.raw),
        j < s.len() ==> x.0.raw < s[j].0.raw,
    ensures
        spec_insert_pair(x, s) == s.subrange(0, j) + seq![x] + s.subrange(j, s.len() as int),
    decreases j,
{
    if j == 0 {
        if s.len() == 0 {
            assert(spec_insert_pair(x, s) =~= s.subrange(0, 0) + seq![x] + s.subrange(0, 0));
        } else {
            assert(spec_insert_pair(x, s) =~= s.subrange(0, 0) + seq![x] + s.subrange(
                0,
                s.len() as int,
            ));
        }
    } else {
        let rest = s.drop_first();
        assert(forall|k: int| 0 <= k < j - 1 ==> #[trigger] rest[k] == s[k + 1]);
        lemma_insert_pair_at(x, rest, j - 1);
        assert(spec_insert_pair(x, s) =~= s.subrange(0, j) + seq![x] + s.subrange(
            j,
            s.len() as int,
        ));
    }
}

/// The geometry derived from one chosen intersection: the surface point, the
/// eye, normal and reflection vectors, the epsilon-nudged points for shadow
/// and refraction probes, and the refractive indices on both sides of the
/// surface.
#[derive(Clone, Copy, Debug, PartialEq, Eq, Structural)]
pub struct Computation<'a> {
    pub t: Scalar,
    pub object: &'a Shape,
    pub point: Point,
    pub eyev: Vector,
    pub normalv: Vector,
    pub reflectv: Vector,
    pub inside: bool,
    pub over_point: Point,
    pub under_point: Point,
    pub n1: Scalar,
    pub n2: Scalar,
}

/// The value content of a computation, with the shape held by value.
pub struct ComputationModel {
    pub t: Scalar,
    pub object: Shape,
    pub point: Point,
    pub eyev: Vector,
    pub normalv: Vector,
    pub reflectv: Vector,
    pub inside: bool,
    pub over_point: Point,
    pub under_point: Point,
    pub n1: Scalar,
    pub n2: Scalar,
}

pub open spec fn comp_of<'a>(c: Computation<'a>) -> ComputationModel {
    ComputationModel {
        t: c.t,
        object: *c.object,
        point: c.point,
        eyev: c.eyev,
        normalv: c.normalv,
        reflectv: c.reflectv,
        inside: c.inside,
        over_point: c.over_point,
        under_point: c.under_point,
        n1: c.n1,
        n2: c.n2,
    }
}

pub open spec fn spec_epsilon() -> Scalar {
    to_scalar(EPSILON_RAW as int)
}

/// Everything `prepare_computations` derives, as a function of the hit, the
/// ray and the full sorted intersection list.
pub open spec fn spec_prepare(hit: (Scalar, Shape), ray: Ray, xs: Seq<(Scalar, Shape)>)
    -> ComputationModel {
    let t = hit.0;
    let object = hit.1;
    let point = spec_position(ray, t);
    let eyev = spec_vector_neg(ray.direction);
    let outward_normal = spec_normal_at(object, point);
    let inside = spec_dot(outward_normal, eyev).raw < 0;
    let normalv = if inside {
        spec_vector_neg(outward_normal)
    } else {
        outward_normal
    };
    let reflectv = spec_reflect(ray.direction, normalv);
    let nudge = spec_vector_scale(normalv, spec_epsilon());
    let state = spec_refraction_state(xs, hit);
    ComputationModel {
        t,
        object,
        point,
        eyev,
        normalv,
        reflectv,
        inside,
        over_point: spec_point_add_vector(point, nudge),
        under_point: spec_point_sub_vector(point, nudge),
        n1: state.1,
        n2: state.2,
    }
}

/// The shapes the containment walk holds, by value.
pub open spec fn containers_of(s: Seq<&Shape>) -> Seq<Shape> {
    s.map_values(|r: &Shape| *r)
}

/// Derive the per-hit geometry from a chosen intersection, the ray that
/// produced it, and the full intersection list sorted by parameter (needed
/// for the refractive indices on both sides of the hit).
pub fn prepare_computations<'a>(
    hit: &Intersection<'a>,
    ray: &Ray,
    intersections: &Vec<Intersection<'a>>,
) -> (c: Computation<'a>)
    requires
        spec_det4(hit.object.transform).raw != 0,
    ensures
        comp_of(c) == spec_prepare(pair_of(*hit), *ray, pairs_of(intersections@)),
        c.object == hit.object,
        pairs_wf(pairs_of(intersections@)) ==> c.n1.raw > 0 && c.n2.raw > 0,
{
    let ghost pxs = pairs_of(intersections@);
    let t = hit.t;
    let object = hit.object;
    let point = ray.position(t);
    let eyev = ray.direction.neg();
    let outward_normal = object.normal_at(point);
    let inside = dot(&outward_normal, &eyev).raw < 0;
    let normalv = if inside {
        outward_normal.neg()
    } else {
        outward_normal
    };
    let reflectv = ray.direction.reflect(&normalv);
    let nudge = normalv.scale(Scalar::from_raw(EPSILON_RAW));

    let mut containers: Vec<&'a Shape> = Vec::new();
    let mut n1 = Scalar::one();
    let mut n2 = Scalar::one();
    let mut k: usize = 0;
    proof {
        assert(pxs.subrange(0, 0) =~= Seq::<(Scalar, Shape)>::empty());
        assert(containers_of(containers@) =~= Seq::<Shape>::empty());
    }
    while k < intersections.len()
        invariant
            k <= intersections.len(),
            pxs == pairs_of(intersections@),
            spec_det4(hit.object.transform).raw != 0,
            containers_of(containers@) == spec_refraction_state(
                pxs.subrange(0, k as int),
                pair_of(*hit),
            ).0,
            n1 == spec_refraction_state(pxs.subrange(0, k as int), pair_of(*hit)).1,
            n2 == spec_refraction_state(pxs.subrange(0, k as int), pair_of(*hit)).2,
        decreases intersections.len() - k,
    {
        proof {
            let prefix = pxs.subrange(0, k as int + 1);
            assert(prefix.drop_last() =~= pxs.subrange(0, k as int));
            assert(prefix.last() == pair_of(intersections@[k as int]));
        }
        let i = &intersections[k];
        let is_the_hit = i.t == hit.t && *i.object == *hit.object;
        if is_the_hit {
            if containers.len() == 0 {
                n1 = Scalar::one();
            } else {
                n1 = containers[containers.len() - 1].material.refractive_index;
            }
        }
        let ghost conts = containers_of(containers@);
        let mut position: Option<usize> = None;
        let mut j: usize = 0;
        while j < containers.len() && position.is_none()
            invariant
                j <= containers.len(),
                conts == containers_of(containers@),
                match position {
                    None => forall|q: int| 0 <= q < j ==> (#[trigger] conts[q]) != *i.object,
                    Some(p) => p < j <= containers.len() && conts[p as int] == *i.object && (
                    forall|q: int| 0 <= q < p ==> (#[trigger] conts[q]) != *i.object),
                },
            decreases containers.len() - j,
        {
            if *containers[j] == *i.object {
                position = Some(j);
            }
            j = j + 1;
        }
        match position {
            Some(p) => {
                proof {
                    lemma_find_first(conts, *i.object, p as int);
                }
                containers.remove(p);
                proof {
                    assert(containers_of(containers@) =~= conts.remove(p as int));
                }
            },
            None => {
                proof {
                    lemma_find_none(conts, *i.object);
                }
                containers.push(i.object);
                proof {
                    assert(containers_of(containers@) =~= conts.push(*i.object));
                }
            },
        }
        if is_the_hit {
            if containers.len() == 0 {
                n2 = Scalar::one();
            } else {
                n2 = containers[containers.len() - 1].material.refractive_index;
            }
        }
        k = k + 1;
    }
    proof {
        assert(pxs.subrange(0, intersections@.len() as int) =~= pxs);
        if pairs_wf(pxs) {
            lemma_refraction_state_positive(pxs, pair_of(*hit));
        }
    }
    Computation {
        t,
        object,
        point,
        eyev,
        normalv,
        reflectv,
        inside,
        over_point: point.add(nudge),
        under_point: point.sub_vector(nudge),
        n1,
        n2,
    }
}

impl<'a> Computation<'a> {
    /// The color at this hit: direct Phong lighting with the shadow flag,
    /// plus the reflected and the refracted contributions; black without a
    /// light.
    pub fn shade_hit(&self, world: &crate::world::World, remaining: usize) -> (c:
        crate::color::Color)
        requires
            world.wf(),
            (*self.object).wf(),
            self.n2.raw != 0,
        ensures
            c == crate::world::spec_shade_hit(*world, comp_of(*self), remaining as nat),
        decreases remaining, 2int,
    {
        let light = match &world.light {
            None => {
                return crate::color::black();
            },
            Some(l) => l,
        };
        let shadowed = crate::world::is_shadowed(world, &self.over_point);
        let surface = crate::lighting::lighting(
            &self.object.material,
            self.object,
            light,
            &self.point,
            &self.eyev,
            &self.normalv,
            shadowed,
        );
        let reflected = world.reflected_color(self, remaining);
        let refracted = world.refracted_color(self, remaining);
        surface.add(reflected).add(refracted)
    }
}

} // verus!
