//! A CPU ray tracer over exact fixed-point arithmetic.
//!
//! Every geometric quantity is a [`scalar::Scalar`]: a real number stored as a
//! signed 64-bit integer count of 2^-32 units, with saturating arithmetic.
//! Each executable operation carries a contract that pins its result down to
//! the exact fixed-point value it returns, so the whole shading pipeline --
//! intersection, Phong lighting, shadows, reflection and refraction -- is
//! specified and verified end to end.

pub mod camera;
pub mod canvas;
pub mod color;
pub mod intersection;
pub mod lighting;
pub mod lights;
pub mod material;
pub mod matrix;
pub mod patterns;
pub mod ray;
pub mod scalar;
pub mod shape;
pub mod transformation;
pub mod tuple;
pub mod world;
