//! Downscaling to a target width, keeping the aspect ratio; never upscaling.

use image::imageops;
use image::imageops::FilterType;
use image::RgbaImage;
use vstd::prelude::*;

use crate::pixels::{PixelBuffer, PixelModel};

verus! {

/// The resampling kernel to downscale with.
#[derive(Debug, Clone, Copy, PartialEq, Eq)]
pub enum ResizeMode {
    /// Triangular (bilinear-equivalent) resampling.
    Standard,
    /// Lanczos resampling: wider support, sharper edges, slower.
    HighQuality,
}

/// `height * target / width` rounded to the nearest integer, halves upward.
pub open spec fn scaled_height(height: int, target: int, width: int) -> int {
    (2 * height * target + width) / (2 * width)
}

/// The dimensions after a resize to `target` columns: unchanged when `target`
/// is not below the width; else at least one column, and the height scaled in
/// proportion, at least one row unless the image has none.
pub open spec fn resized_dims(width: u32, height: u32, target: u32) -> (u32, u32) {
    if target >= width {
        (width, height)
    } else {
        let w: u32 = if target == 0 {
            1
        } else {
            target
        };
        let s = scaled_height(height as int, target as int, width as int);
        let h: u32 = if height == 0 {
            0
        } else if s == 0 {
            1
        } else {
            s as u32
        };
        (w, h)
    }
}

/// Relies on imageops::resize: the result has exactly `new_width` by
/// `new_height` RGBA pixels. Its values come from floating-point kernels and
/// are not described further.
#[verifier::external_body]
fn resample_rgba(
    width: u32,
    height: u32,
    pixels: &Vec<u8>,
    new_width: u32,
    new_height: u32,
    high_quality: bool,
) -> (r: Vec<u8>)
    requires
        pixels@.len() == width as int * height as int * 4,
        new_width <= width,
        new_height <= height,
    ensures
        r@.len() == new_width as int * new_height as int * 4,
{
    let img = RgbaImage::from_raw(width, height, pixels.clone()).unwrap();
    let filter = if high_quality { FilterType::Lanczos3 } else { FilterType::Triangle };
    imageops::resize(&img, new_width, new_height, filter).into_raw()
}

/// `height * target / width`, rounded, for a target below the width.
fn scale_height(height: u32, target: u32, width: u32) -> (r: u32)
    requires
        target < width,
    ensures
        r == scaled_height(height as int, target as int, width as int),
        r <= height,
{
    let ghost (h, t, w) = (height as int, target as int, width as int);
    proof {
        assert(0 <= h * t <= 0xffff_ffff * 0xffff_ffff) by (nonlinear_arith)
            requires 0 <= h <= 0xffff_ffff, 0 <= t <= 0xffff_ffff;
    }
    let prod: u64 = height as u64 * target as u64;
    let q: u64 = prod / width as u64;
    let rem: u64 = prod % width as u64;
    let up: u64 = if 2 * rem >= width as u64 {
        1
    } else {
        0
    };
    proof {
        let (qi, ri) = (q as int, rem as int);
        assert(h * t == qi * w + ri && 0 <= ri < w) by (nonlinear_arith)
            requires qi == (h * t) / w, ri == (h * t) % w, w > 0;
        assert((2 * h * t + w) / (2 * w) == qi + up) by (nonlinear_arith)
            requires
                h * t == qi * w + ri,
                0 <= ri < w,
                up == (if 2 * ri >= w { 1int } else { 0int }),
                w > 0,
        ;
        assert(qi + up <= h) by (nonlinear_arith)
            requires
                h * t == qi * w + ri,
                0 <= ri < w,
                up == (if 2 * ri >= w { 1int } else { 0int }),
                0 <= t < w,
                h >= 0,
        ;
    }
    (q + up) as u32
}

/// Downscales `buffer` to `target_width` columns with the kernel that `mode`
/// selects, keeping the aspect ratio. A target at or above the current width
/// leaves the buffer as it is.
pub fn resize(buffer: PixelBuffer, target_width: u32, mode: ResizeMode) -> (r: PixelBuffer)
    requires
        buffer.wf(),
    ensures
        r.wf(),
        (r@.width, r@.height) == resized_dims(buffer@.width, buffer@.height, target_width),
        target_width >= buffer@.width ==> r@ == buffer@,
        r@.width <= buffer@.width,
        r@.width <= if buffer@.width >= target_width { buffer@.width } else { target_width },
{
    let width = buffer.width();
    let height = buffer.height();
    if target_width >= width {
        return buffer;
    }
    let new_width: u32 = if target_width == 0 {
        1
    } else {
        target_width
    };
    let s = scale_height(height, target_width, width);
    let new_height: u32 = if height == 0 {
        0
    } else if s == 0 {
        1
    } else {
        s
    };
    let high_quality = match mode {
        ResizeMode::Standard => false,
        ResizeMode::HighQuality => true,
    };
    let out = resample_rgba(width, height, buffer.pixels(), new_width, new_height, high_quality);
    PixelBuffer::from_parts(new_width, new_height, out)
}

} // verus!
