//! The pixel filters of the pipeline and the fixed order in which they run.

use image::imageops;
use image::RgbaImage;
use vstd::prelude::*;

use crate::pixels::{PixelBuffer, PixelModel};

verus! {

/// Whether byte `j` of an RGBA buffer is an alpha byte.
pub open spec fn is_alpha(j: int) -> bool {
    j % 4 == 3
}

/// Every colour byte replaced by `255 - v`; alpha unchanged.
pub open spec fn inverted(px: Seq<u8>) -> Seq<u8> {
    Seq::new(px.len(), |j: int| if is_alpha(j) { px[j] } else { (255 - px[j]) as u8 })
}

/// An integer clamped into the range of a channel.
pub open spec fn clamp_channel(v: int) -> u8 {
    if v < 0 {
        0
    } else if v > 255 {
        255
    } else {
        v as u8
    }
}

/// `delta` added to every colour byte, clamped to `[0, 255]`; alpha unchanged.
pub open spec fn brightened(px: Seq<u8>, delta: int) -> Seq<u8> {
    Seq::new(px.len(), |j: int| if is_alpha(j) { px[j] } else { clamp_channel(px[j] + delta) })
}

/// The perceptual luma of a colour, with the sRGB weights in ten-thousandths.
pub open spec fn luma(r: u8, g: u8, b: u8) -> u8 {
    ((2126 * r + 7152 * g + 722 * b) / 10000) as u8
}

/// The luma of pixel `p` of an RGBA buffer.
pub open spec fn pixel_luma(px: Seq<u8>, p: int) -> u8 {
    luma(px[4 * p], px[4 * p + 1], px[4 * p + 2])
}

/// Each pixel's colour replaced by its luma in all three colour bytes; alpha unchanged.
pub open spec fn grayscaled(px: Seq<u8>) -> Seq<u8> {
    Seq::new(px.len(), |j: int| if is_alpha(j) { px[j] } else { pixel_luma(px, j / 4) })
}

/// A rotation in degrees brought into `[0, 360)`.
pub open spec fn turn_of(degrees: int) -> int {
    degrees % 360
}

/// Relies on imageops::invert: each RGBA pixel becomes
/// `(255 - r, 255 - g, 255 - b, a)`.
#[verifier::external_body]
fn invert_rgba(width: u32, height: u32, pixels: Vec<u8>) -> (r: Vec<u8>)
    requires
        pixels@.len() == width as int * height as int * 4,
    ensures
        r@ == inverted(pixels@),
{
    let mut img = RgbaImage::from_raw(width, height, pixels).unwrap();
    imageops::invert(&mut img);
    img.into_raw()
}

/// Relies on imageops::brighten: each colour channel `c` becomes
/// `clamp(c + value, 0, 255)` and alpha is kept. `c + value` is computed in
/// `i32`, hence the bound on `value`.
#[verifier::external_body]
fn brighten_rgba(width: u32, height: u32, pixels: &Vec<u8>, value: i32) -> (r: Vec<u8>)
    requires
        pixels@.len() == width as int * height as int * 4,
        value <= 255,
    ensures
        r@ == brightened(pixels@, value as int),
{
    let img = RgbaImage::from_raw(width, height, pixels.clone()).unwrap();
    imageops::brighten(&img, value).into_raw()
}

/// Relies on imageops::grayscale_alpha: each RGBA pixel becomes the luma-alpha
/// pair `(luma(r, g, b), a)`, with luma `(2126 r + 7152 g + 722 b) / 10000`.
#[verifier::external_body]
fn luma_alpha_rgba(width: u32, height: u32, pixels: &Vec<u8>) -> (r: Vec<u8>)
    requires
        pixels@.len() == width as int * height as int * 4,
    ensures
        r@.len() == width as int * height as int * 2,
        forall|p: int|
            0 <= p < width as int * height as int ==> #[trigger] r@[2 * p] == pixel_luma(
                pixels@,
                p,
            ) && r@[2 * p + 1] == pixels@[4 * p + 3],
{
    let img = RgbaImage::from_raw(width, height, pixels.clone()).unwrap();
    imageops::grayscale_alpha(&img).into_raw()
}

/// Relies on imageops::huerotate: the image keeps its size and each pixel its
/// alpha. The new colours come from floating-point trigonometry and are not
/// described further.
#[verifier::external_body]
fn hue_rotate_rgba(width: u32, height: u32, pixels: &Vec<u8>, degrees: i32) -> (r: Vec<u8>)
    requires
        pixels@.len() == width as int * height as int * 4,
    ensures
        r@.len() == pixels@.len(),
        forall|j: int| 0 <= j < r@.len() && is_alpha(j) ==> #[trigger] r@[j] == pixels@[j],
{
    let img = RgbaImage::from_raw(width, height, pixels.clone()).unwrap();
    imageops::huerotate(&img, degrees).into_raw()
}

/// A rotation in degrees brought into `[0, 360)`.
pub fn hue_turn(degrees: i32) -> (r: i32)
    ensures
        r == turn_of(degrees as int),
        0 <= r < 360,
{
    let m = degrees % 360;
    if m < 0 {
        m + 360
    } else {
        m
    }
}

/// The model of `b` with its bytes replaced by `pixels`.
pub open spec fn with_pixels(b: PixelModel, pixels: Seq<u8>) -> PixelModel {
    PixelModel { width: b.width, height: b.height, pixels }
}

impl PixelBuffer {
    /// Replaces each colour byte `v` by `255 - v`, keeping alpha.
    pub fn invert(self) -> (r: PixelBuffer)
        requires
            self.wf(),
        ensures
            r.wf(),
            r@ == with_pixels(self@, inverted(self@.pixels)),
    {
        let width = self.width();
        let height = self.height();
        let out = invert_rgba(width, height, self.into_pixels());
        PixelBuffer::from_parts(width, height, out)
    }

    /// Adds `delta` to each colour byte, clamped to `[0, 255]`, keeping alpha.
    pub fn brighten(self, delta: i32) -> (r: PixelBuffer)
        requires
            self.wf(),
        ensures
            r.wf(),
            r@ == with_pixels(self@, brightened(self@.pixels, delta as int)),
    {
        // Any delta of 255 or more saturates every colour byte alike.
        let value: i32 = if delta > 255 {
            255
        } else {
            delta
        };
        let out = brighten_rgba(self.width(), self.height(), self.pixels(), value);
        assert(brightened(self@.pixels, value as int) =~= brightened(self@.pixels, delta as int));
        PixelBuffer::from_parts(self.width(), self.height(), out)
    }

    /// Replaces the colour of each pixel by its luma, keeping alpha.
    pub fn grayscale(self) -> (r: PixelBuffer)
        requires
            self.wf(),
        ensures
            r.wf(),
            r@ == with_pixels(self@, grayscaled(self@.pixels)),
    {
        let width = self.width();
        let height = self.height();
        let la = luma_alpha_rgba(width, height, self.pixels());
        let n: usize = la.len() / 2;
        let ghost px = self@.pixels;
        let mut out: Vec<u8> = Vec::new();
        let mut p: usize = 0;
        while p < n
            invariant
                n as int == width as int * height as int,
                la@.len() == 2 * n,
                la@.len() <= usize::MAX,
                px.len() == 4 * n,
                p <= n,
                out@.len() == 4 * p,
                forall|p: int|
                    0 <= p < width as int * height as int ==> #[trigger] la@[2 * p] == pixel_luma(
                        px,
                        p,
                    ) && la@[2 * p + 1] == px[4 * p + 3],
                forall|j: int| 0 <= j < 4 * p ==> #[trigger] out@[j] == grayscaled(px)[j],
            decreases n - p,
        {
            let l = la[2 * p];
            let a = la[2 * p + 1];
            assert(la@[2 * (p as int)] == pixel_luma(px, p as int));
            out.push(l);
            out.push(l);
            out.push(l);
            out.push(a);
            p = p + 1;
            assert forall|j: int| 0 <= j < 4 * p implies #[trigger] out@[j] == grayscaled(px)[j] by {
                if j >= 4 * (p - 1) {
                    assert(j / 4 == p - 1);
                }
            }
        }
        assert(out@ =~= grayscaled(px));
        PixelBuffer::from_parts(width, height, out)
    }

    /// Rotates the hue of every pixel by `degrees`, taken modulo 360; the
    /// buffer keeps its dimensions and every pixel its alpha.
    pub fn hue_rotate(self, degrees: i32) -> (r: PixelBuffer)
        requires
            self.wf(),
        ensures
            r.wf(),
            r@.width == self@.width,
            r@.height == self@.height,
            forall|j: int|
                0 <= j < r@.pixels.len() && is_alpha(j) ==> #[trigger] r@.pixels[j]
                    == self@.pixels[j],
    {
        let turn = hue_turn(degrees);
        let out = hue_rotate_rgba(self.width(), self.height(), self.pixels(), turn);
        PixelBuffer::from_parts(self.width(), self.height(), out)
    }
}

} // verus!
