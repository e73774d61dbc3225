//! The pixel grid a render writes into.
//!
//! The canvas holds one color per pixel, row by row, addressed as `(x, y)`
//! with `x` running along a row.  Encoding the grid into a file format
//! happens outside this library; [`crate::color::Color::to_byte`] supplies
//! the clamped display bytes.

use crate::color::{black, spec_black, Color};
use vstd::prelude::*;

verus! {

pub struct Canvas {
    pub width: u32,
    pub height: u32,
    pub grid: Vec<Vec<Color>>,
}

impl Canvas {
    /// The grid has exactly `height` rows of exactly `width` pixels.
    pub open spec fn wf(self) -> bool {
        self.grid@.len() == self.height && forall|y: int|
            0 <= y < self.grid@.len() ==> (#[trigger] self.grid@[y])@.len() == self.width
    }

    pub open spec fn spec_pixel(self, x: int, y: int) -> Color {
        self.grid@[y]@[x]
    }

    /// Set the pixel at `(x, y)`, leaving every other pixel untouched.
    pub fn write_pixel(&mut self, x: u32, y: u32, value: Color)
        requires
            old(self).wf(),
            x < old(self).width,
            y < old(self).height,
        ensures
            final(self).wf(),
            final(self).width == old(self).width,
            final(self).height == old(self).height,
            final(self).spec_pixel(x as int, y as int) == value,
            forall|i: int, j: int|
                0 <= i < old(self).width && 0 <= j < old(self).height && !(i == x && j == y)
                    ==> final(self).spec_pixel(i, j) == old(self).spec_pixel(i, j),
    {
        self.grid[y as usize][x as usize] = value;
    }

    /// The pixel at `(x, y)`.
    pub fn pixel_at(&self, x: u32, y: u32) -> (c: &Color)
        requires
            self.wf(),
            x < self.width,
            y < self.height,
        ensures
            *c == self.spec_pixel(x as int, y as int),
    {
        &self.grid[y as usize][x as usize]
    }
}

/// A canvas of the given size with every pixel black.
pub fn canvas(width: u32, height: u32) -> (c: Canvas)
    ensures
        c.wf(),
        c.width == width,
        c.height == height,
        forall|i: int, j: int|
            0 <= i < width && 0 <= j < height ==> c.spec_pixel(i, j) == spec_black(),
{
    let mut grid: Vec<Vec<Color>> = Vec::new();
    let mut y: u32 = 0;
    while y < height
        invariant
            y <= height,
            grid@.len() == y,
            forall|q: int|
                0 <= q < y ==> (#[trigger] grid@[q])@.len() == width && forall|i: int|
                    0 <= i < width ==> grid@[q]@[i] == spec_black(),
        decreases height - y,
    {
        let mut row: Vec<Color> = Vec::new();
        let mut x: u32 = 0;
        while x < width
            invariant
                x <= width,
                row@.len() == x,
                forall|i: int| 0 <= i < x ==> (#[trigger] row@[i]) == spec_black(),
            decreases width - x,
        {
            row.push(black());
            x = x + 1;
        }
        grid.push(row);
        y = y + 1;
    }
    Canvas { width, height, grid }
}

} // verus!
