//! The pixel boundary with the `image` crate: luma extraction from RGBA
//! captures, and downsampling of a panel's upscaled render to its native
//! pixel grid with the crate's triangle-filtered resampler.

use vstd::prelude::*;
use crate::gray::{lemma_row_major_in_bounds, GrayImage};

verus! {

/// CIE luminance of one sRGB pixel as the `image` crate computes it:
/// `(2126 * r + 7152 * g + 722 * b) / 10000`, which always fits a byte.
pub open spec fn luma_from_rgb(r: u8, g: u8, b: u8) -> u8 {
    ((2126 * r + 7152 * g + 722 * b) / 10000) as u8
}

/// Relies on `image::Pixel::to_luma` for `Rgba<u8>`: the luminance is
/// `(2126 * r + 7152 * g + 722 * b) / 10000`, and the alpha channel is
/// ignored.
#[verifier::external_body]
fn rgba_luma(r: u8, g: u8, b: u8, a: u8) -> (l: u8)
    ensures
        l == luma_from_rgb(r, g, b),
{
    let px: image::Rgba<u8> = image::Rgba([r, g, b, a]);
    image::Pixel::to_luma(&px).0[0]
}

/// Extracts the luma plane of a row-major RGBA capture, as the render
/// readback hands it over, into a grayscale image.
pub fn gray_from_rgba(rgba: &Vec<u8>, rows: usize, cols: usize) -> (img: GrayImage)
    requires
        rows * cols <= usize::MAX / 4,
        rgba@.len() == 4 * (rows * cols),
    ensures
        img.wf(),
        img.spec_rows() == rows,
        img.spec_cols() == cols,
        forall|r: int, c: int|
            0 <= r < rows && 0 <= c < cols
                ==> img.px(r, c) == luma_from_rgb(
                    rgba@[4 * (r * cols + c)],
                    rgba@[4 * (r * cols + c) + 1],
                    rgba@[4 * (r * cols + c) + 2],
                ),
{
    let n: usize = rows * cols;
    let mut data: Vec<u8> = Vec::new();
    let mut i: usize = 0;
    while i < n
        invariant
            i <= n,
            n <= usize::MAX / 4,
            n == rows * cols,
            rgba@.len() == 4 * n,
            data@.len() == i,
            forall|j: int|
                0 <= j < i ==> data@[j] == luma_from_rgb(rgba@[4 * j], rgba@[4 * j + 1],
                    rgba@[4 * j + 2]),
        decreases n - i,
    {
        let l: u8 = rgba_luma(rgba[4 * i], rgba[4 * i + 1], rgba[4 * i + 2], rgba[4 * i + 3]);
        data.push(l);
        i = i + 1;
    }
    let img = GrayImage::from_raw(rows, cols, data);
    proof {
        assert forall|r: int, c: int|
            0 <= r < rows && 0 <= c < cols
                implies img.px(r, c) == luma_from_rgb(rgba@[4 * (r * cols + c)],
                    rgba@[4 * (r * cols + c) + 1], rgba@[4 * (r * cols + c) + 2]) by {
            lemma_row_major_in_bounds(r, c, rows as int, cols as int);
        }
    }
    img
}

/// The bytes `image::imageops::resize` produces with the triangle filter
/// for a grayscale source of the given dimensions. The result depends only
/// on the source pixels and the four dimensions.
pub uninterp spec fn resampled_of(src: Seq<u8>, src_w: u32, src_h: u32, new_w: u32, new_h: u32)
    -> Seq<u8>;

/// Relies on `image::imageops::resize` with `FilterType::Triangle`: it
/// returns a buffer of exactly `new_w * new_h` pixels, one byte per pixel
/// for 8-bit grayscale, computed from the source pixels alone.
#[verifier::external_body]
pub fn resize_gray(src: &Vec<u8>, src_w: u32, src_h: u32, new_w: u32, new_h: u32) -> (out: Vec<u8>)
    requires
        src@.len() == src_w * src_h,
        1 <= src_w,
        1 <= src_h,
        1 <= new_w,
        1 <= new_h,
    ensures
        out@ == resampled_of(src@, src_w, src_h, new_w, new_h),
        out@.len() == new_w * new_h,
{
    let buffer: image::GrayImage =
        image::ImageBuffer::from_raw(src_w, src_h, src.clone()).unwrap();
    let resized = image::imageops::resize(&buffer, new_w, new_h,
        image::imageops::FilterType::Triangle);
    resized.into_raw()
}

} // verus!
