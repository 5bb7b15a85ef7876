//! The last stage: dropping alpha and compressing to JPEG.

use image::codecs::jpeg::JpegEncoder;
use image::{ExtendedColorType, ImageError};
use vstd::prelude::*;

use crate::pixels::{PipelineError, PixelBuffer};

verus! {

#[verifier::external_type_specification]
#[verifier::external_body]
pub struct ExImageError(ImageError);

/// The RGB bytes of an RGBA buffer: each pixel's alpha byte left out.
pub open spec fn rgb_of(px: Seq<u8>) -> Seq<u8> {
    Seq::new(((px.len() / 4) * 3) as nat, |i: int| px[4 * (i / 3) + i % 3])
}

/// The quality handed to the compressor: clamped into `[1, 100]`.
pub open spec fn clamped_quality(quality: u8) -> u8 {
    if quality < 1 {
        1
    } else if quality > 100 {
        100
    } else {
        quality
    }
}

/// The JPEG stream that the image crate's encoder writes for `rgb`, a
/// `width` by `height` RGB image, at `quality`.
pub uninterp spec fn jpeg_of(rgb: Seq<u8>, width: u32, height: u32, quality: u8) -> Seq<u8>;

/// Whether JPEG can hold an image of these dimensions.
pub open spec fn jpeg_size_ok(width: u32, height: u32) -> bool {
    1 <= width <= 65535 && 1 <= height <= 65535
}

/// Relies on JpegEncoder::new_with_quality and JpegEncoder::encode with
/// `Rgb8`: on success the bytes written are the JPEG stream of the image.
/// `encode` panics unless the buffer holds exactly three bytes per pixel.
/// `encode_image` fails exactly when a dimension lies outside `[1, 65535]`:
/// every other write goes into the `Vec`, which cannot fail.
#[verifier::external_body]
fn jpeg_encode(rgb: &Vec<u8>, width: u32, height: u32, quality: u8) -> (r: Result<Vec<u8>, ImageError>)
    requires
        rgb@.len() == width as int * height as int * 3,
    ensures
        r matches Ok(bytes) ==> bytes@ == jpeg_of(rgb@, width, height, quality),
        r is Ok <==> jpeg_size_ok(width, height),
{
    let mut out: Vec<u8> = Vec::new();
    let mut encoder = JpegEncoder::new_with_quality(&mut out, quality);
    encoder.encode(rgb, width, height, ExtendedColorType::Rgb8)?;
    Ok(out)
}

/// Relies on ImageError's Display impl, for the text of an error.
#[verifier::external_body]
pub(crate) fn error_text(e: &ImageError) -> String {
    e.to_string()
}

/// The RGB bytes of `buffer`, row by row: each pixel without its alpha.
pub fn drop_alpha(buffer: &PixelBuffer) -> (r: Vec<u8>)
    requires
        buffer.wf(),
    ensures
        r@ == rgb_of(buffer@.pixels),
{
    let px = buffer.pixels();
    let n: usize = px.len() / 4;
    let mut out: Vec<u8> = Vec::new();
    let mut p: usize = 0;
    while p < n
        invariant
            px@ == buffer@.pixels,
            n == px@.len() / 4,
            px@.len() <= usize::MAX,
            p <= n,
            out@.len() == 3 * p,
            forall|i: int| 0 <= i < 3 * p ==> #[trigger] out@[i] == rgb_of(px@)[i],
        decreases n - p,
    {
        out.push(px[4 * p]);
        out.push(px[4 * p + 1]);
        out.push(px[4 * p + 2]);
        p = p + 1;
        assert forall|i: int| 0 <= i < 3 * p implies #[trigger] out@[i] == rgb_of(px@)[i] by {
            if i >= 3 * (p - 1) {
                assert(i / 3 == p - 1);
            }
        }
    }
    assert(out@ =~= rgb_of(px@));
    out
}

/// Compresses `buffer` to JPEG at `quality`, clamped into `[1, 100]`, after
/// dropping its alpha channel. It succeeds exactly when both dimensions lie
/// in `[1, 65535]`; otherwise the compressor's failure becomes `Encode` with
/// its message.
pub fn encode_jpeg(buffer: &PixelBuffer, quality: u8) -> (r: Result<Vec<u8>, PipelineError>)
    requires
        buffer.wf(),
    ensures
        r matches Ok(bytes) ==> bytes@ == jpeg_of(
            rgb_of(buffer@.pixels),
            buffer@.width,
            buffer@.height,
            clamped_quality(quality),
        ),
        r matches Err(e) ==> e is Encode,
        r is Ok <==> jpeg_size_ok(buffer@.width, buffer@.height),
{
    let rgb = drop_alpha(buffer);
    let q: u8 = if quality < 1 {
        1
    } else if quality > 100 {
        100
    } else {
        quality
    };
    proof {
        let n = buffer@.width as int * buffer@.height as int;
        assert(rgb@.len() == n * 3);
    }
    match jpeg_encode(&rgb, buffer.width(), buffer.height(), q) {
        Ok(bytes) => Ok(bytes),
        Err(e) => Err(PipelineError::Encode(error_text(&e))),
    }
}

} // verus!
