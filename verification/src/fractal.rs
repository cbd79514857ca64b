//! Assembly of the fractal raster.
//!
//! A fractal image combines a cheap background gradient with a foreground
//! escape count:
//! - the red channel of the pixel at `(x, y)` is the gradient value of `x`,
//!   the blue channel the gradient value of `y`;
//! - the green channel is the escape count of the point of the complex plane
//!   that the pixel maps to, an integer in `[0, 255]`.
//!
//! The escape counts depend on floating-point rounding, so the caller
//! computes them (one byte per pixel, row-major) and [`render`] builds the
//! raster from them; everything about the raster's shape and contents is
//! stated here and proved.

use vstd::prelude::*;

use crate::raster::{lemma_row_major_bounds, pix_index, Raster, Rgb};

verus! {

/// The background gradient: three tenths of the coordinate, rounded down,
/// saturating at the channel maximum.
///
/// Truncation rule: a gradient value of 255 or more becomes 255 (the
/// saturating narrowing of a float-to-integer cast); values never wrap.
pub open spec fn gradient(c: int) -> u8 {
    if 3 * c / 10 >= 255 {
        255u8
    } else {
        (3 * c / 10) as u8
    }
}

/// The gradient channel for a pixel coordinate.
pub fn gradient_channel(c: u32) -> (r: u8)
    ensures
        r == gradient(c as int),
{
    if c >= 850 {
        255
    } else {
        ((3 * c) / 10) as u8
    }
}

/// Why a render request is rejected.
#[derive(Clone, Copy, PartialEq, Eq, Structural, Debug)]
pub enum FractalError {
    /// The requested width or height was zero. A raster with no pixels
    /// cannot be encoded, so degenerate dimensions are rejected up front,
    /// and always in the same way.
    InvalidDimensions,
}

/// The pixel at `(x, y)` of a fractal raster: gradient red from `x`,
/// gradient blue from `y`, and the caller-computed escape count as green.
pub open spec fn fractal_pixel(x: int, y: int, width: int, greens: Seq<u8>) -> Rgb {
    Rgb { r: gradient(x), g: greens[pix_index(x, y, width)], b: gradient(y) }
}

/// What it means for a raster to be the fractal image for `(width, height)`
/// with the given green channel: right dimensions, and every pixel holds
/// exactly its gradient-plus-escape-count colour.
pub open spec fn is_fractal_raster(r: Raster, width: u32, height: u32, greens: Seq<u8>) -> bool {
    &&& r.wf()
    &&& r.spec_width() == width
    &&& r.spec_height() == height
    &&& forall|x: int, y: int|
        0 <= x < width && 0 <= y < height ==> r.spec_index(x, y) == fractal_pixel(
            x,
            y,
            width as int,
            greens,
        )
}

/// Builds the fractal raster for `(width, height)` from the per-pixel
/// escape counts in `greens` (row-major, one byte per pixel).
///
/// Fails exactly when `width == 0 || height == 0`, and then always with
/// `InvalidDimensions`; every other request yields the fully determined
/// raster described by [`is_fractal_raster`].
pub fn render(width: u32, height: u32, greens: &Vec<u8>) -> (result: Result<
    Raster,
    FractalError,
>)
    requires
        greens@.len() == width * height,
    ensures
        result is Ok <==> (width > 0 && height > 0),
        result is Err ==> result->Err_0 == FractalError::InvalidDimensions,
        result is Ok ==> is_fractal_raster(result->Ok_0, width, height, greens@),
{
    if width == 0 || height == 0 {
        return Err(FractalError::InvalidDimensions);
    }
    let mut pixels: Vec<Rgb> = Vec::new();
    let mut y: u32 = 0;
    while y < height
        invariant
            y <= height,
            greens@.len() == width * height,
            pixels@.len() == pix_index(0, y as int, width as int),
            forall|i: int, j: int|
                0 <= i < width && 0 <= j < y ==> pixels@[pix_index(i, j, width as int)]
                    == fractal_pixel(i, j, width as int, greens@),
        decreases height - y,
    {
        let mut x: u32 = 0;
        while x < width
            invariant
                x <= width,
                y < height,
                greens@.len() == width * height,
                pixels@.len() == pix_index(x as int, y as int, width as int),
                forall|i: int, j: int|
                    0 <= i < width && 0 <= j < y ==> pixels@[pix_index(i, j, width as int)]
                        == fractal_pixel(i, j, width as int, greens@),
                forall|i: int|
                    0 <= i < x ==> pixels@[pix_index(i, y as int, width as int)]
                        == fractal_pixel(i, y as int, width as int, greens@),
            decreases width - x,
        {
            proof {
                // the green channel is held in memory, so the flat index fits in usize
                assert(greens.len() == greens@.len());
                lemma_row_major_bounds(x as int, y as int, width as int, height as int);
            }
            let gi: usize = (y as usize) * (width as usize) + (x as usize);
            let p = Rgb { r: gradient_channel(x), g: greens[gi], b: gradient_channel(y) };
            pixels.push(p);
            proof {
                assert forall|i: int, j: int|
                    0 <= i < width && 0 <= j < y implies pixels@[pix_index(i, j, width as int)]
                    == fractal_pixel(i, j, width as int, greens@) by {
                    lemma_row_major_bounds(i, j, width as int, y as int);
                    assert(pix_index(i, j, width as int) < pix_index(x as int, y as int, width as int))
                        by (nonlinear_arith)
                        requires
                            0 <= i < width,
                            0 <= j < y,
                            0 <= x,
                    ;
                }
            }
            x = x + 1;
        }
        proof {
            assert((y as int + 1) * (width as int) == (y as int) * (width as int) + width)
                by (nonlinear_arith);
        }
        y = y + 1;
    }
    proof {
        assert((height as int) * (width as int) == (width as int) * (height as int))
            by (nonlinear_arith);
    }
    Ok(Raster::from_pixels(width, height, pixels))
}

/// Determinism: the fractal raster is a function of the width, the height and
/// the green channel alone. Any two rasters that satisfy the render
/// contract for the same inputs hold the same pixels.
pub proof fn lemma_render_deterministic(
    r1: Raster,
    r2: Raster,
    width: u32,
    height: u32,
    greens: Seq<u8>,
)
    requires
        is_fractal_raster(r1, width, height, greens),
        is_fractal_raster(r2, width, height, greens),
    ensures
        r1.pixels() == r2.pixels(),
        r1.spec_width() == r2.spec_width(),
        r1.spec_height() == r2.spec_height(),
{
    assert forall|k: int| 0 <= k < r1.pixels().len() implies r1.pixels()[k] == r2.pixels()[k] by {
        let w = width as int;
        assert(w > 0) by (nonlinear_arith)
            requires
                0 <= k < w * (height as int),
        ;
        let x = k % w;
        let y = k / w;
        vstd::arithmetic::div_mod::lemma_fundamental_div_mod(k, w);
        vstd::arithmetic::div_mod::lemma_mod_bound(k, w);
        assert(k == w * y + x);
        assert(0 <= y < height) by (nonlinear_arith)
            requires
                k == w * y + x,
                0 <= x < w,
                0 <= k < w * (height as int),
        ;
        assert(y * w + x == k) by (nonlinear_arith)
            requires
                k == w * y + x,
        ;
        assert(pix_index(x, y, w) == k);
        assert(r1.spec_index(x, y) == fractal_pixel(x, y, w, greens));
        assert(r2.spec_index(x, y) == fractal_pixel(x, y, w, greens));
    }
    assert(r1.pixels() =~= r2.pixels());
}

/// Channel bounds: every channel of every pixel of a raster lies in
/// `[0, 255]`; in particular every green escape count does.
pub proof fn lemma_channel_bounds(r: Raster)
    ensures
        forall|k: int|
            0 <= k < r.pixels().len() ==> 0 <= #[trigger] r.pixels()[k].r <= 255 && 0 <= r.pixels()[k].g
                <= 255 && 0 <= r.pixels()[k].b <= 255,
{
}

} // verus!
