//! The camera: viewport geometry and per-pixel ray generation.
//!
//! The constructor takes the tangent of half the field of view as a scalar,
//! since trigonometry itself lies outside this library's exact arithmetic;
//! callers evaluate the tangent and hand it in.  `render` casts one ray per
//! pixel and resolves it against the world under a fixed recursion budget.

use crate::canvas::{canvas, Canvas};
use crate::matrix::{spec_det4, spec_identity4, spec_mul4_point, Inverse, Matrix4};
use crate::ray::{spec_position, Ray};
use crate::scalar::{s_add, s_div, s_mul, s_sub, s_zero, to_scalar, Scalar, SCALE};
use crate::shape::spec_inverse4_of;
use crate::tuple::{normalize, spec_normalize, spec_point, spec_point_sub_point, Point};
use crate::world::{spec_color_at, World};
use vstd::prelude::*;

verus! {

pub struct Camera {
    pub hsize: u32,
    pub vsize: u32,
    pub half_width: Scalar,
    pub half_height: Scalar,
    pub pixel_size: Scalar,
    pub transform: Matrix4,
}

/// The camera a constructor call returns: the viewport spans `half_view`
/// (the tangent of half the field of view) along its longer axis, and the
/// transform starts at the identity.
pub open spec fn spec_camera(hsize: u32, vsize: u32, half_view: Scalar) -> Camera {
    let sh = to_scalar((hsize as int) * (SCALE as int));
    let sv = to_scalar((vsize as int) * (SCALE as int));
    let aspect = s_div(sh, sv);
    let half_width = if aspect.raw >= SCALE {
        half_view
    } else {
        s_mul(half_view, aspect)
    };
    let half_height = if aspect.raw >= SCALE {
        s_div(half_view, aspect)
    } else {
        half_view
    };
    let pixel_size = s_div(s_mul(half_width, to_scalar(2 * (SCALE as int))), sh);
    Camera {
        hsize,
        vsize,
        half_width,
        half_height,
        pixel_size,
        transform: spec_identity4(),
    }
}

/// The ray from the camera origin through the center of pixel `(x, y)`, in
/// world space.
pub open spec fn spec_ray_for_pixel(c: Camera, x: u32, y: u32) -> Ray {
    let half = to_scalar(2147483648int);
    let xoffset = s_mul(s_add(to_scalar((x as int) * (SCALE as int)), half), c.pixel_size);
    let yoffset = s_mul(s_add(to_scalar((y as int) * (SCALE as int)), half), c.pixel_size);
    let world_x = s_sub(c.half_width, xoffset);
    let world_y = s_sub(c.half_height, yoffset);
    let inv = spec_inverse4_of(c.transform);
    let pixel = spec_mul4_point(inv, spec_point(world_x, world_y, to_scalar(-(SCALE as int))));
    let origin = spec_mul4_point(inv, spec_point(s_zero(), s_zero(), s_zero()));
    let direction = spec_normalize(spec_point_sub_point(pixel, origin));
    Ray { origin, direction }
}

impl Camera {
    /// A camera over `hsize` by `vsize` pixels whose viewport spans
    /// `half_view` -- the tangent of half the field of view -- along its
    /// longer axis.
    pub fn new(hsize: u32, vsize: u32, half_view: Scalar) -> (c: Camera)
        requires
            1 <= hsize < 0x8000_0000u32,
            1 <= vsize < 0x8000_0000u32,
        ensures
            c == spec_camera(hsize, vsize, half_view),
    {
        let sh = Scalar::from_int(hsize as i32);
        let sv = Scalar::from_int(vsize as i32);
        proof {
            assert((hsize as int) * (SCALE as int) >= SCALE as int && (hsize as int) * (
            SCALE as int) <= 0x7FFF_FFFFi64 * (SCALE as int)) by (nonlinear_arith)
                requires
                    1 <= hsize as int <= 0x7FFF_FFFFi64,
                    SCALE == 4294967296i64,
            ;
            assert((vsize as int) * (SCALE as int) >= SCALE as int && (vsize as int) * (
            SCALE as int) <= 0x7FFF_FFFFi64 * (SCALE as int)) by (nonlinear_arith)
                requires
                    1 <= vsize as int <= 0x7FFF_FFFFi64,
                    SCALE == 4294967296i64,
            ;
        }
        let aspect = sh.div(sv);
        let half_width: Scalar;
        let half_height: Scalar;
        if aspect.raw >= SCALE {
            half_width = half_view;
            half_height = half_view.div(aspect);
        } else {
            half_width = half_view.mul(aspect);
            half_height = half_view;
        }
        let pixel_size = half_width.mul(Scalar::from_int(2)).div(sh);
        Camera {
            hsize,
            vsize,
            half_width,
            half_height,
            pixel_size,
            transform: Matrix4::identity(),
        }
    }

    /// The ray from the camera origin through the center of pixel `(x, y)`,
    /// in world space.
    pub fn ray_for_pixel(&self, x: u32, y: u32) -> (r: Ray)
        requires
            spec_det4(self.transform).raw != 0,
            x < 0x8000_0000u32,
            y < 0x8000_0000u32,
        ensures
            r == spec_ray_for_pixel(*self, x, y),
    {
        let half = Scalar::from_raw(2147483648);
        // offsets from the canvas edge to the center of the pixel
        let xoffset = Scalar::from_int(x as i32).add(half).mul(self.pixel_size);
        let yoffset = Scalar::from_int(y as i32).add(half).mul(self.pixel_size);

        // untransformed world-space pixel coordinates; the camera looks
        // toward -z, so +x points left
        let world_x = self.half_width.sub(xoffset);
        let world_y = self.half_height.sub(yoffset);

        let inverse_transform = match self.transform.inverse() {
            Some(inv) => inv,
            None => {
                proof {
                    assert(false);
                }
                Matrix4::identity()
            },
        };
        let pixel = inverse_transform.mul_point(
            Point::new(world_x, world_y, Scalar::from_int(-1)),
        );
        let zero = Scalar::zero();
        let origin = inverse_transform.mul_point(Point::new(zero, zero, zero));
        let direction = normalize(&pixel.sub(origin));

        crate::ray::ray(origin, direction)
    }

    /// Render the world: one ray per pixel, each resolved under the given
    /// recursion budget, written to a fresh canvas.
    pub fn render(&self, world: &World, remaining: usize) -> (image: Canvas)
        requires
            spec_det4(self.transform).raw != 0,
            self.hsize < 0x8000_0000u32,
            self.vsize < 0x8000_0000u32,
            world.wf(),
        ensures
            image.wf(),
            image.width == self.hsize,
            image.height == self.vsize,
            forall|i: int, j: int|
                0 <= i < self.hsize && 0 <= j < self.vsize ==> image.spec_pixel(i, j)
                    == spec_color_at(
                    *world,
                    spec_ray_for_pixel(*self, i as u32, j as u32),
                    remaining as nat,
                ),
    {
        let mut image = canvas(self.hsize, self.vsize);
        let mut y: u32 = 0;
        while y < self.vsize
            invariant
                y <= self.vsize,
                spec_det4(self.transform).raw != 0,
                self.hsize < 0x8000_0000u32,
                self.vsize < 0x8000_0000u32,
                world.wf(),
                image.wf(),
                image.width == self.hsize,
                image.height == self.vsize,
                forall|i: int, j: int|
                    0 <= i < self.hsize && 0 <= j < y ==> image.spec_pixel(i, j) == spec_color_at(
                        *world,
                        spec_ray_for_pixel(*self, i as u32, j as u32),
                        remaining as nat,
                    ),
            decreases self.vsize - y,
        {
            let mut x: u32 = 0;
            while x < self.hsize
                invariant
                    x <= self.hsize,
                    y < self.vsize,
                    spec_det4(self.transform).raw != 0,
                    self.hsize < 0x8000_0000u32,
                    self.vsize < 0x8000_0000u32,
                    world.wf(),
                    image.wf(),
                    image.width == self.hsize,
                    image.height == self.vsize,
                    forall|i: int, j: int|
                        0 <= i < self.hsize && 0 <= j < self.vsize && (j < y || (j == y && i < x))
                            ==> image.spec_pixel(i, j) == spec_color_at(
                            *world,
                            spec_ray_for_pixel(*self, i as u32, j as u32),
                            remaining as nat,
                        ),
                decreases self.hsize - x,
            {
                let r = self.ray_for_pixel(x, y);
                let color = world.color_at(&r, remaining);
                image.write_pixel(x, y, color);
                x = x + 1;
            }
            y = y + 1;
        }
        image
    }
}

} // verus!
