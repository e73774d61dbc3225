//! The scene: at most one point light and an ordered collection of shapes.
//!
//! The insertion order of shapes only affects the order in which they are
//! tested for intersections, never the color that comes out.  The recursive
//! color-resolution pipeline lives here too, bounded by an explicit
//! remaining-depth budget.

use crate::color::{black, spec_black, spec_color_scale, Color};
use crate::color::{spec_white, white};
use crate::intersection::{
    comp_of, pair_of, pairs_of, pairs_wf, prepare_computations, spec_hit_pairs, spec_prepare,
    Computation, ComputationModel,
};
use crate::lights::{point_light, Light};
use crate::material::spec_default_material;
use crate::matrix::spec_identity4;
use crate::ray::{hit, lemma_world_pairs_wf, ray, spec_world_hit_pairs, Ray};
use crate::scalar::{s_div, s_mul, s_one, s_sqrt, s_sub, to_scalar, Scalar, SCALE};
use crate::shape::{Shape, ShapeKind};
use crate::transformation::{lemma_scaling_det, scaling, spec_scaling};
use crate::tuple::{
    dot, magnitude, normalize, spec_dot, spec_magnitude, spec_normalize, spec_point,
    spec_point_sub_point, spec_vector_scale, spec_vector_sub, Point,
};
use vstd::prelude::*;

verus! {

pub struct World {
    pub light: Option<Light>,
    pub shapes: Vec<Shape>,
}

impl World {
    /// A world is well-formed when every shape in it is.
    pub open spec fn wf(self) -> bool {
        forall|k: int| 0 <= k < self.shapes@.len() ==> (#[trigger] self.shapes@[k]).wf()
    }
}

/// Raw value closest to eight tenths.
pub const LIME_RED_RAW: i64 = 3435973837;

/// Raw value closest to six tenths.
pub const LIME_BLUE_RAW: i64 = 2576980378;

/// Raw value closest to seven tenths.
pub const LIME_DIFFUSE_RAW: i64 = 3006477107;

/// Raw value closest to two tenths.
pub const LIME_SPECULAR_RAW: i64 = 858993459;

/// Raw value of one half.
pub const HALF_RAW: i64 = 2147483648;

pub open spec fn spec_default_light() -> Light {
    Light {
        position: spec_point(
            to_scalar(-10 * (SCALE as int)),
            to_scalar(10 * (SCALE as int)),
            to_scalar(-10 * (SCALE as int)),
        ),
        intensity: spec_white(),
    }
}

/// The matte greenish unit sphere of the canonical default world.
pub open spec fn spec_default_outer_sphere() -> Shape {
    Shape {
        transform: spec_identity4(),
        material: crate::material::Material {
            color: Color {
                r: to_scalar(LIME_RED_RAW as int),
                g: to_scalar(SCALE as int),
                b: to_scalar(LIME_BLUE_RAW as int),
            },
            diffuse: to_scalar(LIME_DIFFUSE_RAW as int),
            specular: to_scalar(LIME_SPECULAR_RAW as int),
            ..spec_default_material()
        },
        kind: ShapeKind::Sphere,
    }
}

/// The half-scale default-material sphere of the canonical default world.
pub open spec fn spec_default_inner_sphere() -> Shape {
    Shape {
        transform: spec_scaling(
            to_scalar(HALF_RAW as int),
            to_scalar(HALF_RAW as int),
            to_scalar(HALF_RAW as int),
        ),
        material: spec_default_material(),
        kind: ShapeKind::Sphere,
    }
}

/// The canonical default world: a white point light at `(-10, 10, -10)`, a
/// matte greenish unit sphere and a half-scale sphere inside it.
pub fn default_world() -> (w: World)
    ensures
        w.light == Some(spec_default_light()),
        w.shapes@ == seq![spec_default_outer_sphere(), spec_default_inner_sphere()],
        w.wf(),
{
    let ten = Scalar::from_int(10);
    let neg_ten = Scalar::from_int(-10);
    let white_point_light = point_light(Point::new(neg_ten, ten, neg_ten), white());

    let mut lime_sphere = Shape::default_sphere();
    lime_sphere.material.color = Color {
        r: Scalar::from_raw(LIME_RED_RAW),
        g: Scalar::one(),
        b: Scalar::from_raw(LIME_BLUE_RAW),
    };
    lime_sphere.material.diffuse = Scalar::from_raw(LIME_DIFFUSE_RAW);
    lime_sphere.material.specular = Scalar::from_raw(LIME_SPECULAR_RAW);

    let half = Scalar::from_raw(HALF_RAW);
    let mut small_sphere = Shape::default_sphere();
    small_sphere.transform = scaling(half, half, half);
    proof {
        lemma_scaling_det(half, half, half);
        vstd::arithmetic::div_mod::lemma_fundamental_div_mod_converse_div(
            4611686018427387904,
            4294967296,
            1073741824,
            0,
        );
        assert(s_mul(half, half).raw == 1073741824);
        vstd::arithmetic::div_mod::lemma_fundamental_div_mod_converse_div(
            2305843009213693952,
            4294967296,
            536870912,
            0,
        );
        assert(s_mul(half, s_mul(half, half)).raw == 536870912);
    }

    let mut shapes: Vec<Shape> = Vec::new();
    shapes.push(lime_sphere);
    shapes.push(small_sphere);
    let w = World { light: Some(white_point_light), shapes };
    proof {
        assert(w.shapes@ =~= seq![spec_default_outer_sphere(), spec_default_inner_sphere()]);
    }
    w
}

/// Whether an object in the scene blocks the straight path from `point` to
/// the light: some intersection of the shadow ray lies strictly closer than
/// the light itself.  Without a light nothing is shadowed.
pub open spec fn spec_is_shadowed(w: World, point: Point) -> bool {
    match w.light {
        None => false,
        Some(light) => {
            let v = spec_point_sub_point(light.position, point);
            let distance = spec_magnitude(v);
            let direction = spec_normalize(v);
            let shadow_ray = Ray { origin: point, direction };
            match spec_hit_pairs(spec_world_hit_pairs(w, shadow_ray)) {
                Some(h) => h.0.raw < distance.raw,
                None => false,
            }
        },
    }
}

/// The color a ray finds in the world: black where it hits nothing, and
/// otherwise the shaded color of the nearest hit, with `remaining` bounding
/// how many more reflective or refractive bounces may be taken.
pub open spec fn spec_color_at(w: World, r: Ray, remaining: nat) -> Color
    decreases remaining, 3nat,
{
    let xs = spec_world_hit_pairs(w, r);
    match spec_hit_pairs(xs) {
        None => spec_black(),
        Some(h) => spec_shade_hit(w, spec_prepare(h, r, xs), remaining),
    }
}

/// Direct Phong lighting with the shadow flag, plus the reflected and the
/// refracted contributions; black without a light.
pub open spec fn spec_shade_hit(w: World, c: ComputationModel, remaining: nat) -> Color
    decreases remaining, 2nat,
{
    match w.light {
        None => spec_black(),
        Some(light) => {
            let shadowed = spec_is_shadowed(w, c.over_point);
            let surface = crate::lighting::spec_lighting(
                c.object.material,
                c.object,
                light,
                c.point,
                c.eyev,
                c.normalv,
                shadowed,
            );
            crate::color::spec_color_add(
                crate::color::spec_color_add(surface, spec_reflected_color(w, c, remaining)),
                spec_refracted_color(w, c, remaining),
            )
        },
    }
}

/// The color arriving along the reflection direction, scaled by the
/// material's reflectivity; black once the bounce budget is spent or on a
/// non-reflective material.
pub open spec fn spec_reflected_color(w: World, c: ComputationModel, remaining: nat) -> Color
    decreases remaining, 1nat,
{
    if remaining == 0 {
        spec_black()
    } else if c.object.material.reflective.raw == 0 {
        spec_black()
    } else {
        let reflect_ray = Ray { origin: c.over_point, direction: c.reflectv };
        spec_color_scale(
            spec_color_at(w, reflect_ray, (remaining - 1) as nat),
            c.object.material.reflective,
        )
    }
}

/// The color arriving through the surface by Snell's law, scaled by the
/// material's transparency; black once the bounce budget is spent, on an
/// opaque material, or under total internal reflection.
pub open spec fn spec_refracted_color(w: World, c: ComputationModel, remaining: nat) -> Color
    decreases remaining, 1nat,
{
    if remaining == 0 {
        spec_black()
    } else if c.object.material.transparency.raw == 0 {
        spec_black()
    } else {
        let n_ratio = s_div(c.n1, c.n2);
        let cos_i = spec_dot(c.eyev, c.normalv);
        let sin2_t = s_mul(s_mul(n_ratio, n_ratio), s_sub(s_one(), s_mul(cos_i, cos_i)));
        if sin2_t.raw > SCALE {
            spec_black()
        } else {
            let cos_t = s_sqrt(s_sub(s_one(), sin2_t));
            let direction = spec_vector_sub(
                spec_vector_scale(c.normalv, s_sub(s_mul(n_ratio, cos_i), cos_t)),
                spec_vector_scale(c.eyev, n_ratio),
            );
            let refract_ray = Ray { origin: c.under_point, direction };
            spec_color_scale(
                spec_color_at(w, refract_ray, (remaining - 1) as nat),
                c.object.material.transparency,
            )
        }
    }
}

/// The squared sine of the refraction angle at a hit, by Snell's law.
pub open spec fn spec_sin2_t(c: ComputationModel) -> Scalar {
    let n_ratio = s_div(c.n1, c.n2);
    let cos_i = spec_dot(c.eyev, c.normalv);
    s_mul(s_mul(n_ratio, n_ratio), s_sub(s_one(), s_mul(cos_i, cos_i)))
}

/// Total internal reflection: whenever the squared sine of the refraction
/// angle exceeds one, the refracted contribution is black, whatever the
/// bounce budget and the material.
pub proof fn lemma_refracted_color_total_internal_reflection(
    w: World,
    c: ComputationModel,
    remaining: nat,
)
    requires
        spec_sin2_t(c).raw > SCALE,
    ensures
        spec_refracted_color(w, c, remaining) == spec_black(),
{
}

/// Whether an object in the scene blocks the straight path from `point` to
/// the light.  The world must hold a light.
pub fn is_shadowed(world: &World, point: &Point) -> (r: bool)
    requires
        world.wf(),
        world.light is Some,
    ensures
        r == spec_is_shadowed(*world, *point),
{
    let light = match &world.light {
        Some(l) => l,
        None => {
            proof {
                assert(false);
            }
            return false;
        },
    };
    let v = light.position.sub(*point);
    let distance = magnitude(&v);
    let direction = normalize(&v);

    let shadow_ray = ray(*point, direction);
    let intersections = shadow_ray.intersect_world(world);

    match hit(&intersections) {
        Some(h) => h.t.raw < distance.raw,
        None => false,
    }
}

impl World {
    /// The color this ray finds: black where it hits nothing, and otherwise
    /// the shaded color of the nearest hit, with `remaining` bounding how
    /// many more reflective or refractive bounces may be taken.
    pub fn color_at(&self, r: &Ray, remaining: usize) -> (c: Color)
        requires
            self.wf(),
        ensures
            c == spec_color_at(*self, *r, remaining as nat),
        decreases remaining, 3int,
    {
        let intersections = r.intersect_world(self);
        let the_hit = match hit(&intersections) {
            None => {
                return black();
            },
            Some(h) => h,
        };
        proof {
            lemma_world_pairs_wf(*self, *r);
            let pxs = pairs_of(intersections@);
            let j = choose|j: int|
                #[trigger] crate::intersection::is_first_hit(pxs, j) && pxs[j] == pair_of(
                    *the_hit,
                );
            assert(pxs[j].1.wf());
        }
        let comps = prepare_computations(the_hit, r, &intersections);
        comps.shade_hit(self, remaining)
    }

    /// The color arriving along the reflection direction, scaled by the
    /// material's reflectivity; black once the bounce budget is spent or on
    /// a non-reflective material.
    pub fn reflected_color(&self, comps: &Computation, remaining: usize) -> (c: Color)
        requires
            self.wf(),
        ensures
            c == spec_reflected_color(*self, comp_of(*comps), remaining as nat),
        decreases remaining, 1int,
    {
        if remaining == 0 {
            return black();
        }
        if comps.object.material.reflective.raw == 0 {
            return black();
        }

        let reflected_ray = ray(comps.over_point, comps.reflectv);
        let color = self.color_at(&reflected_ray, remaining - 1);

        color.scale(comps.object.material.reflective)
    }

    /// The color arriving through the surface by Snell's law, scaled by the
    /// material's transparency; black once the bounce budget is spent, on an
    /// opaque material, or under total internal reflection.
    pub fn refracted_color(&self, comps: &Computation, remaining: usize) -> (c: Color)
        requires
            self.wf(),
            comps.n2.raw != 0,
        ensures
            c == spec_refracted_color(*self, comp_of(*comps), remaining as nat),
        decreases remaining, 1int,
    {
        if remaining == 0 {
            return black();
        }
        if comps.object.material.transparency.raw == 0 {
            return black();
        }
        // the ratio of the refractive index left behind to the one entered
        let n_ratio = comps.n1.div(comps.n2);
        let cos_i = dot(&comps.eyev, &comps.normalv);
        let one = Scalar::one();
        let sin2_t = n_ratio.mul(n_ratio).mul(one.sub(cos_i.mul(cos_i)));

        if sin2_t.raw > SCALE {
            // total internal reflection: nothing passes through
            return black();
        }

        let cos_t = one.sub(sin2_t).sqrt();
        let direction = comps.normalv.scale(n_ratio.mul(cos_i).sub(cos_t)).sub(
            comps.eyev.scale(n_ratio),
        );
        let refract_ray = ray(comps.under_point, direction);

        self.color_at(&refract_ray, remaining - 1).scale(comps.object.material.transparency)
    }
}

pub struct WorldBuilder {
    pub world: World,
}

impl WorldBuilder {
    /// A builder around an empty world: no light, no shapes.
    pub fn new() -> (b: WorldBuilder)
        ensures
            b.world.light is None,
            b.world.shapes@.len() == 0,
            b.world.wf(),
    {
        let world = World { light: None, shapes: Vec::new() };
        WorldBuilder { world }
    }

    /// Append a shape to the scene.
    pub fn add_shape(&mut self, new_shape: Shape)
        ensures
            final(self).world.shapes@ == old(self).world.shapes@.push(new_shape),
            final(self).world.light == old(self).world.light,
    {
        self.world.shapes.push(new_shape);
    }

    /// Install the scene's single light source.
    pub fn add_light_source(&mut self, new_light: Light)
        ensures
            final(self).world.light == Some(new_light),
            final(self).world.shapes@ == old(self).world.shapes@,
    {
        self.world.light = Some(new_light);
    }
}

} // verus!
