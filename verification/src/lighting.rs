//! The Phong illumination model for a single point light.
//!
//! The returned color is the unclamped sum of ambient, diffuse and specular
//! contributions; a shadowed point receives the ambient term alone.

use crate::color::{black, spec_black, spec_color_add, spec_color_mul, spec_color_scale, Color};
use crate::lights::Light;
use crate::material::Material;
use crate::matrix::spec_det4;
use crate::patterns::spec_pattern_at_object;
use crate::scalar::{s_pow, spec_floor_int, Scalar};
use crate::shape::Shape;
use crate::tuple::{
    dot, normalize, spec_dot, spec_normalize, spec_point_sub_point, spec_reflect, spec_vector_neg,
    Point, Vector,
};
use vstd::prelude::*;

verus! {

/// The specular exponent: the shininess rounded down to a whole number and
/// clamped into the `u32` range.
pub open spec fn spec_shininess_exponent(s: Scalar) -> nat {
    let k = spec_floor_int(s.raw as int);
    if k < 0 {
        0nat
    } else if k > u32::MAX as int {
        u32::MAX as nat
    } else {
        k as nat
    }
}

fn shininess_exponent(s: Scalar) -> (n: u32)
    ensures
        n as nat == spec_shininess_exponent(s),
{
    let k = s.floor_int();
    if k < 0 {
        0
    } else if k > u32::MAX as i64 {
        u32::MAX
    } else {
        k as u32
    }
}

/// Phong shading at a surface point: ambient plus diffuse plus specular,
/// with the pattern color standing in for the material color where a
/// pattern is present, and only ambient when the point is in shadow.
pub open spec fn spec_lighting(
    material: Material,
    object: Shape,
    light: Light,
    point: Point,
    camerav: Vector,
    normalv: Vector,
    in_shadow: bool,
) -> Color {
    let base = match material.pattern {
        Some(p) => spec_pattern_at_object(p, object, point),
        None => material.color,
    };
    let effective = spec_color_mul(base, light.intensity);
    let lightv = spec_normalize(spec_point_sub_point(light.position, point));
    let ambient = spec_color_scale(effective, material.ambient);
    if in_shadow {
        ambient
    } else {
        let light_dot_normal = spec_dot(lightv, normalv);
        if light_dot_normal.raw < 0 {
            spec_color_add(spec_color_add(ambient, spec_black()), spec_black())
        } else {
            let diffuse = spec_color_scale(
                spec_color_scale(effective, material.diffuse),
                light_dot_normal,
            );
            let reflectv = spec_reflect(spec_vector_neg(lightv), normalv);
            let reflect_dot_camera = spec_dot(reflectv, camerav);
            let specular = if reflect_dot_camera.raw <= 0 {
                spec_black()
            } else {
                spec_color_scale(
                    spec_color_scale(light.intensity, material.specular),
                    s_pow(reflect_dot_camera, spec_shininess_exponent(material.shininess)),
                )
            };
            spec_color_add(spec_color_add(ambient, diffuse), specular)
        }
    }
}

/// Phong shading at a surface point for one point light.
pub fn lighting(
    material: &Material,
    object: &Shape,
    light: &Light,
    point: &Point,
    camerav: &Vector,
    normalv: &Vector,
    in_shadow: bool,
) -> (c: Color)
    requires
        material.wf(),
        spec_det4(object.transform).raw != 0,
    ensures
        c == spec_lighting(*material, *object, *light, *point, *camerav, *normalv, in_shadow),
{
    // combine the surface (or pattern) color with the light's intensity
    let base_color = match &material.pattern {
        Some(p) => p.pattern_at_object(object, point),
        None => material.color,
    };
    let effective_color = base_color.mul(light.intensity);

    // direction toward the light source
    let lightv = normalize(&light.position.sub(*point));

    let ambient = effective_color.scale(material.ambient);
    if in_shadow {
        return ambient;
    }

    // the cosine of the angle between the light vector and the normal; a
    // negative value means the light is behind the surface
    let light_dot_normal = dot(&lightv, normalv);
    let diffuse: Color;
    let specular: Color;
    if light_dot_normal.raw < 0 {
        diffuse = black();
        specular = black();
    } else {
        diffuse = effective_color.scale(material.diffuse).scale(light_dot_normal);

        // the cosine of the angle between the reflected beam and the camera
        let reflectv = lightv.neg().reflect(normalv);
        let reflect_dot_camera = dot(&reflectv, camerav);
        if reflect_dot_camera.raw <= 0 {
            specular = black();
        } else {
            let factor = reflect_dot_camera.powi(shininess_exponent(material.shininess));
            specular = light.intensity.scale(material.specular).scale(factor);
        }
    }
    ambient.add(diffuse).add(specular)
}

} // verus!
