//! Point lights: a position and an intensity.

use crate::color::Color;
use crate::tuple::Point;
use vstd::prelude::*;

verus! {

#[derive(Clone, Copy, Debug, PartialEq, Eq, Structural)]
pub struct Light {
    pub position: Point,
    pub intensity: Color,
}

pub fn point_light(position: Point, intensity: Color) -> (l: Light)
    ensures
        l == (Light { position, intensity }),
{
    Light { position, intensity }
}

} // verus!
