//! The in-memory raster: a row-major grid of RGB8 pixels.

use vstd::prelude::*;

verus! {

/// One pixel: three 8-bit channels, no alpha.
#[derive(Clone, Copy, PartialEq, Eq, Structural, Debug)]
pub struct Rgb {
    pub r: u8,
    pub g: u8,
    pub b: u8,
}

/// The flat index of the pixel at `(x, y)` in a row-major grid of the given
/// width.
pub open spec fn pix_index(x: int, y: int, width: int) -> int {
    y * width + x
}

/// A coordinate inside a row-major grid lies inside the flat pixel array.
pub proof fn lemma_row_major_bounds(x: int, y: int, w: int, h: int)
    requires
        0 <= x < w,
        0 <= y < h,
    ensures
        0 <= pix_index(x, y, w) < w * h,
{
    assert(0 <= y * w + x && y * w + x < w * h) by (nonlinear_arith)
        requires
            0 <= x < w,
            0 <= y < h,
    ;
}

/// A full-resolution image: `width * height` pixels in row-major order.
pub struct Raster {
    width: u32,
    height: u32,
    pixels: Vec<Rgb>,
}

/// The byte at position `j` of the flat RGB8 encoding of a pixel sequence:
/// pixel `j / 3`, channel red, green or blue as `j % 3` is 0, 1 or 2.
pub open spec fn channel_byte(pixels: Seq<Rgb>, j: int) -> u8 {
    let p = pixels[j / 3];
    if j % 3 == 0 {
        p.r
    } else if j % 3 == 1 {
        p.g
    } else {
        p.b
    }
}

impl Raster {
    pub closed spec fn spec_width(self) -> u32 {
        self.width
    }

    pub closed spec fn spec_height(self) -> u32 {
        self.height
    }

    /// The pixel contents, row by row.
    pub closed spec fn pixels(self) -> Seq<Rgb> {
        self.pixels@
    }

    /// The raster holds exactly one pixel for every coordinate.
    pub open spec fn wf(self) -> bool {
        self.pixels().len() == self.spec_width() * self.spec_height()
    }

    /// The pixel stored at `(x, y)`.
    pub open spec fn spec_index(self, x: int, y: int) -> Rgb {
        self.pixels()[pix_index(x, y, self.spec_width() as int)]
    }

    /// Wraps an already-filled row-major pixel array.
    pub fn from_pixels(width: u32, height: u32, pixels: Vec<Rgb>) -> (r: Raster)
        requires
            pixels@.len() == width * height,
        ensures
            r.wf(),
            r.spec_width() == width,
            r.spec_height() == height,
            r.pixels() == pixels@,
    {
        Raster { width, height, pixels }
    }

    pub fn width(&self) -> (w: u32)
        ensures
            w == self.spec_width(),
    {
        self.width
    }

    pub fn height(&self) -> (h: u32)
        ensures
            h == self.spec_height(),
    {
        self.height
    }

    /// Reads the pixel at `(x, y)`.
    pub fn get(&self, x: u32, y: u32) -> (p: Rgb)
        requires
            self.wf(),
            x < self.spec_width(),
            y < self.spec_height(),
        ensures
            p == self.spec_index(x as int, y as int),
    {
        proof {
            // the pixel array is held in memory, so the flat index fits in usize
            assert(self.pixels.len() == self.pixels@.len());
            lemma_row_major_bounds(
                x as int,
                y as int,
                self.spec_width() as int,
                self.spec_height() as int,
            );
        }
        let idx: usize = (y as usize) * (self.width as usize) + (x as usize);
        self.pixels[idx]
    }

    /// The flat RGB8 encoding: three bytes per pixel, row-major.
    pub fn bytes(&self) -> (out: Vec<u8>)
        requires
            self.wf(),
            self.pixels().len() * 3 <= usize::MAX,
        ensures
            out@.len() == self.pixels().len() * 3,
            forall|j: int|
                0 <= j < out@.len() ==> out@[j] == channel_byte(self.pixels(), j),
    {
        let mut out: Vec<u8> = Vec::new();
        let mut k: usize = 0;
        let n = self.pixels.len();
        while k < n
            invariant
                k <= n,
                n == self.pixels().len(),
                self.pixels().len() * 3 <= usize::MAX,
                out@.len() == k * 3,
                forall|j: int|
                    0 <= j < out@.len() ==> out@[j] == channel_byte(self.pixels(), j),
            decreases n - k,
        {
            proof {
                assert(k * 3 + 3 <= n * 3) by (nonlinear_arith)
                    requires
                        k < n,
                ;
            }
            let p = self.pixels[k];
            out.push(p.r);
            out.push(p.g);
            out.push(p.b);
            proof {
                vstd::arithmetic::div_mod::lemma_fundamental_div_mod_converse(
                    k * 3,
                    3,
                    k as int,
                    0,
                );
                vstd::arithmetic::div_mod::lemma_fundamental_div_mod_converse(
                    k * 3 + 1,
                    3,
                    k as int,
                    1,
                );
                vstd::arithmetic::div_mod::lemma_fundamental_div_mod_converse(
                    k * 3 + 2,
                    3,
                    k as int,
                    2,
                );
            }
            k = k + 1;
        }
        out
    }
}

} // verus!
