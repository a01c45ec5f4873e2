//! The computed artifact: a row-major grid of RGBA color values, owned
//! solely by the run that produced it.

use vstd::prelude::*;

verus! {

/// One pixel's color with an alpha channel.
#[derive(Clone, Copy, PartialEq, Eq, Structural, Debug)]
pub struct Rgba {
    pub r: u8,
    pub g: u8,
    pub b: u8,
    pub a: u8,
}

/// A `width` by `height` grid of pixels, stored row-major: the pixel at
/// column `x` of row `y` sits at index `y * width + x`.
#[derive(Clone, PartialEq, Debug)]
pub struct Raster {
    pub width: u32,
    pub height: u32,
    pub pixels: Vec<Rgba>,
}

impl Raster {
    /// The grid holds exactly one pixel per coordinate pair.
    pub open spec fn well_formed(self) -> bool {
        self.pixels@.len() == self.width as int * self.height as int
    }

    /// The pixel stored for column `x` of row `y`.
    pub open spec fn spec_pixel_at(self, x: int, y: int) -> Rgba {
        self.pixels@[y * self.width as int + x]
    }

    /// Read one pixel of the grid.
    pub fn pixel_at(&self, x: u32, y: u32) -> (p: Rgba)
        requires
            self.well_formed(),
            x < self.width,
            y < self.height,
        ensures
            p == self.spec_pixel_at(x as int, y as int),
    {
        let n: usize = self.pixels.len();
        proof {
            lemma_row_major_index(self.width as int, self.height as int, x as int, y as int);
            assert((y as int) * (self.width as int) + (x as int) < n as int);
        }
        let idx: usize = (y as usize) * (self.width as usize) + (x as usize);
        self.pixels[idx]
    }
}

/// A row-major index lies inside the grid.
pub proof fn lemma_row_major_index(w: int, h: int, x: int, y: int)
    requires
        0 <= x < w,
        0 <= y < h,
    ensures
        0 <= y * w + x < h * w,
        h * w == w * h,
{
    assert(0 <= y * w + x < h * w && h * w == w * h) by (nonlinear_arith)
        requires
            0 <= x < w,
            0 <= y < h,
    ;
}

} // verus!
