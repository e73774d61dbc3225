//! Phong material parameters, an optional pattern, and the optical
//! coefficients for reflection and refraction.

use crate::color::{spec_white, white, Color};
use crate::patterns::Pattern;
use crate::scalar::{Scalar, SCALE};
use vstd::prelude::*;

verus! {

#[derive(Clone, Copy, Debug, PartialEq, Eq, Structural)]
pub struct Material {
    pub color: Color,
    pub ambient: Scalar,
    pub diffuse: Scalar,
    pub specular: Scalar,
    pub shininess: Scalar,
    pub pattern: Option<Pattern>,
    pub reflective: Scalar,
    pub transparency: Scalar,
    pub refractive_index: Scalar,
}

/// Raw value closest to an ambient of one tenth.
pub const DEFAULT_AMBIENT_RAW: i64 = 429496730;

/// Raw value closest to a diffuse and specular of nine tenths.
pub const DEFAULT_DIFFUSE_RAW: i64 = 3865470566;

/// Raw value of the default shininess of two hundred.
pub const DEFAULT_SHININESS_RAW: i64 = 200 * SCALE;

pub open spec fn spec_default_material() -> Material {
    Material {
        color: spec_white(),
        ambient: Scalar { raw: DEFAULT_AMBIENT_RAW },
        diffuse: Scalar { raw: DEFAULT_DIFFUSE_RAW },
        specular: Scalar { raw: DEFAULT_DIFFUSE_RAW },
        shininess: Scalar { raw: DEFAULT_SHININESS_RAW },
        pattern: None,
        reflective: Scalar { raw: 0 },
        transparency: Scalar { raw: 0 },
        refractive_index: Scalar { raw: SCALE },
    }
}

impl Material {
    /// A material is well-formed when its pattern, if any, is, its Phong
    /// coefficients are not negative, its shininess and refractive index are
    /// positive, and its reflectivity and transparency lie between zero and
    /// one.
    pub open spec fn wf(self) -> bool {
        &&& match self.pattern {
            Some(p) => p.wf(),
            None => true,
        }
        &&& self.ambient.raw >= 0
        &&& self.diffuse.raw >= 0
        &&& self.specular.raw >= 0
        &&& self.shininess.raw > 0
        &&& 0 <= self.reflective.raw <= SCALE
        &&& 0 <= self.transparency.raw <= SCALE
        &&& self.refractive_index.raw > 0
    }
}

/// The default material: white, matte-ish, opaque, with the refractive
/// index of a vacuum.
pub fn material() -> (m: Material)
    ensures
        m == spec_default_material(),
        m.wf(),
{
    Material {
        color: white(),
        ambient: Scalar::from_raw(DEFAULT_AMBIENT_RAW),
        diffuse: Scalar::from_raw(DEFAULT_DIFFUSE_RAW),
        specular: Scalar::from_raw(DEFAULT_DIFFUSE_RAW),
        shininess: Scalar::from_int(200),
        pattern: None,
        reflective: Scalar::zero(),
        transparency: Scalar::zero(),
        refractive_index: Scalar::one(),
    }
}

} // verus!
