//! Screenshot pixel bookkeeping.
//!
//! The renderer reads the framebuffer back bottom-up; image files are
//! top-down, so the rows are flipped vertically before encoding. The
//! encoder itself lives outside the library; here the byte shuffle is
//! exact.

use vstd::prelude::*;
use vstd::arithmetic::mul::{lemma_mul_inequality, lemma_mul_nonnegative};
use crate::camera::ConfigError;

verus! {

/// The byte at column `k` of row `row`, with `row_bytes` bytes per row.
pub open spec fn byte_at(s: Seq<u8>, row_bytes: int, row: int, k: int) -> u8 {
    s[row * row_bytes + k]
}

/// Reverse the order of the pixel rows of a tightly packed RGBA8 image.
pub fn flip_vertical(pixels: &Vec<u8>, width: u32, height: u32) -> (r: Vec<u8>)
    requires
        pixels@.len() == 4 * width * height,
    ensures
        r@.len() == pixels@.len(),
        forall|row: int, k: int|
            0 <= row < height && 0 <= k < 4 * width ==> #[trigger] byte_at(
                r@,
                4 * width,
                row,
                k,
            ) == byte_at(pixels@, 4 * width, height - 1 - row, k),
{
    let total: usize = pixels.len();
    let ghost rb: int = 4 * width as int;
    let row_bytes: u64 = 4 * (width as u64);
    proof {
        lemma_mul_nonnegative(height as int, rb);
    }
    let mut out: Vec<u8> = Vec::new();
    let mut row: u32 = 0;
    while row < height
        invariant
            pixels@.len() == (height as int) * rb,
            total == pixels@.len(),
            rb == 4 * width as int,
            row_bytes == rb,
            row <= height,
            out@.len() == (row as int) * rb,
            forall|rr: int, k: int|
                0 <= rr < row && 0 <= k < rb ==> #[trigger] byte_at(out@, rb, rr, k) == byte_at(
                    pixels@,
                    rb,
                    height - 1 - rr,
                    k,
                ),
        decreases height - row,
    {
        let src_row: u32 = height - 1 - row;
        proof {
            lemma_mul_inequality(src_row as int + 1, height as int, rb);
            lemma_mul_nonnegative(src_row as int, rb);
            assert((src_row as int + 1) * rb == (src_row as int) * rb + rb) by (nonlinear_arith);
            assert((row as int + 1) * rb == (row as int) * rb + rb) by (nonlinear_arith);
            lemma_mul_inequality(row as int + 1, height as int, rb);
        }
        let base: u64 = (src_row as u64) * row_bytes;
        let mut k: u64 = 0;
        while k < row_bytes
            invariant
                pixels@.len() == (height as int) * rb,
                total == pixels@.len(),
                rb == 4 * width as int,
                row_bytes == rb,
                row < height,
                src_row == height - 1 - row,
                base == (src_row as int) * rb,
                (src_row as int) * rb + rb <= pixels@.len(),
                k <= row_bytes,
                out@.len() == (row as int) * rb + k,
                (row as int) * rb + rb <= (height as int) * rb,
                forall|rr: int, kk: int|
                    0 <= rr < row && 0 <= kk < rb ==> #[trigger] byte_at(out@, rb, rr, kk)
                        == byte_at(pixels@, rb, height - 1 - rr, kk),
                forall|kk: int|
                    0 <= kk < k ==> #[trigger] byte_at(out@, rb, row as int, kk) == byte_at(
                        pixels@,
                        rb,
                        src_row as int,
                        kk,
                    ),
            decreases row_bytes - k,
        {
            assert(base + k < total);
            let idx: usize = (base + k) as usize;
            let b: u8 = pixels[idx];
            let ghost out0: Seq<u8> = out@;
            out.push(b);
            proof {
                lemma_mul_nonnegative(row as int, rb);
                assert forall|rr: int, kk: int|
                    0 <= rr < row && 0 <= kk < rb implies #[trigger] byte_at(out@, rb, rr, kk)
                    == byte_at(pixels@, rb, height - 1 - rr, kk) by {
                    lemma_mul_nonnegative(rr, rb);
                    lemma_mul_inequality(rr + 1, row as int, rb);
                    assert((rr + 1) * rb == rr * rb + rb) by (nonlinear_arith);
                    assert(byte_at(out0, rb, rr, kk) == byte_at(pixels@, rb, height - 1 - rr, kk));
                    assert(out0.push(b)[rr * rb + kk] == out0[rr * rb + kk]);
                }
                assert forall|kk: int|
                    0 <= kk < k + 1 implies #[trigger] byte_at(out@, rb, row as int, kk)
                    == byte_at(pixels@, rb, src_row as int, kk) by {
                    if kk < k {
                        assert(byte_at(out0, rb, row as int, kk) == byte_at(
                            pixels@,
                            rb,
                            src_row as int,
                            kk,
                        ));
                        assert(out0.push(b)[(row as int) * rb + kk] == out0[(row as int) * rb
                            + kk]);
                    } else {
                        assert(out0.push(b)[(row as int) * rb + k] == b);
                    }
                }
            }
            k = k + 1;
        }
        row = row + 1;
    }
    proof {
        assert(out@.len() == (height as int) * rb);
    }
    out
}

/// The pixel layouts a screenshot readback can have.
#[derive(Clone, Copy, Debug, PartialEq, Eq, Structural)]
pub enum PixelColor {
    /// 8-bit RGB, three bytes per pixel.
    Rgb8,
    /// 8-bit RGBA, four bytes per pixel.
    Rgba8,
    /// Anything else the image library may report.
    Unsupported,
}

/// The palette-extraction formats matching the supported layouts.
#[derive(Clone, Copy, Debug, PartialEq, Eq, Structural)]
pub enum PaletteFormat {
    Rgb,
    Rgba,
}

/// The palette format for a pixel layout; only the two 8-bit layouts are
/// accepted.
pub fn find_color_type(t: PixelColor) -> (r: Result<PaletteFormat, ConfigError>)
    ensures
        t is Rgb8 <==> r == Ok::<PaletteFormat, ConfigError>(PaletteFormat::Rgb),
        t is Rgba8 <==> r == Ok::<PaletteFormat, ConfigError>(PaletteFormat::Rgba),
        t is Unsupported <==> r is Err,
{
    match t {
        PixelColor::Rgb8 => Ok(PaletteFormat::Rgb),
        PixelColor::Rgba8 => Ok(PaletteFormat::Rgba),
        PixelColor::Unsupported => Err(ConfigError::InvalidConfig),
    }
}

} // verus!
