//! The entry point that turns an encoded image into a downscaled JPEG.

use image::ImageError;
use vstd::prelude::*;

use crate::encode::{clamped_quality, encode_jpeg, error_text, jpeg_of, jpeg_size_ok, rgb_of};
use crate::pixels::{PipelineError, PixelBuffer, PixelModel};
use crate::resize::{resize, resized_dims, ResizeMode};

verus! {

/// Relies on image::load_from_memory and DynamicImage::to_rgba8: the decoded
/// image as width, height and RGBA bytes. Nothing is assumed of them: the
/// caller checks their consistency.
#[verifier::external_body]
fn decode_rgba(bytes: &[u8]) -> (r: Result<(u32, u32, Vec<u8>), ImageError>) {
    let rgba = image::load_from_memory(bytes)?.to_rgba8();
    let (width, height) = rgba.dimensions();
    Ok((width, height, rgba.into_raw()))
}

/// Decodes an encoded image (any format the image crate recognises) into an
/// RGBA buffer. A failure becomes `Decode` with the decoder's message.
pub fn decode_image(bytes: &[u8]) -> (r: Result<PixelBuffer, PipelineError>)
    ensures
        r matches Ok(b) ==> b.wf(),
        r matches Err(e) ==> e is Decode,
{
    match decode_rgba(bytes) {
        Ok((width, height, pixels)) => match PixelBuffer::from_raw(width, height, pixels) {
            Ok(b) => Ok(b),
            Err(_) => Err(PipelineError::Decode(String::from_str("decoded image has inconsistent dimensions"))),
        },
        Err(e) => Err(PipelineError::Decode(error_text(&e))),
    }
}

/// Whether the image crate's JPEG encoder accepts the size that a resize of a
/// `width` by `height` image to `target_width` columns gives.
pub open spec fn resized_size_ok(width: u32, height: u32, target_width: u32) -> bool {
    let (w, h) = resized_dims(width, height, target_width);
    jpeg_size_ok(w, h)
}

/// Downscales a decoded image to `target_width` (never upscaling) and
/// compresses it to JPEG at `quality`. It succeeds exactly when the resized
/// dimensions both lie in `[1, 65535]`; otherwise it fails with `Encode`.
pub fn optimize_buffer(buffer: PixelBuffer, target_width: u32, quality: u8, mode: Option<ResizeMode>) -> (r:
    Result<Vec<u8>, PipelineError>)
    requires
        buffer.wf(),
    ensures
        r is Ok <==> resized_size_ok(buffer@.width, buffer@.height, target_width),
        r matches Ok(bytes) ==> exists|p: Seq<u8>|
            {
                let (w, h) = resized_dims(buffer@.width, buffer@.height, target_width);
                &&& p.len() == w * h * 4
                &&& bytes@ == jpeg_of(#[trigger] rgb_of(p), w, h, clamped_quality(quality))
            },
        target_width >= buffer@.width ==> (r matches Ok(bytes) ==> bytes@ == jpeg_of(
            rgb_of(buffer@.pixels),
            buffer@.width,
            buffer@.height,
            clamped_quality(quality),
        )),
        r matches Err(e) ==> e is Encode,
{
    let m = match mode {
        Some(m) => m,
        None => ResizeMode::Standard,
    };
    let resized = resize(buffer, target_width, m);
    encode_jpeg(&resized, quality)
}

/// Finishes an optimisation from the outcome of decoding: a decoding error is
/// handed back as it is, without encoding anything; a decoded image goes on to
/// `optimize_buffer`.
pub fn optimize_decoded(
    decoded: Result<PixelBuffer, PipelineError>,
    target_width: u32,
    quality: u8,
    mode: Option<ResizeMode>,
) -> (r: Result<Vec<u8>, PipelineError>)
    requires
        decoded matches Ok(b) ==> b.wf(),
    ensures
        decoded matches Err(e) ==> r == Err::<Vec<u8>, PipelineError>(e),
        decoded matches Ok(b) ==> {
            &&& r is Ok <==> resized_size_ok(b@.width, b@.height, target_width)
            &&& r matches Err(e) ==> e is Encode
            &&& r matches Ok(bytes) ==> exists|p: Seq<u8>|
                {
                    let (w, h) = resized_dims(b@.width, b@.height, target_width);
                    &&& p.len() == w * h * 4
                    &&& bytes@ == jpeg_of(#[trigger] rgb_of(p), w, h, clamped_quality(quality))
                }
            &&& target_width >= b@.width ==> (r matches Ok(bytes) ==> bytes@ == jpeg_of(
                rgb_of(b@.pixels),
                b@.width,
                b@.height,
                clamped_quality(quality),
            ))
        },
{
    match decoded {
        Ok(b) => optimize_buffer(b, target_width, quality, mode),
        Err(e) => Err(e),
    }
}

/// Decodes `bytes`, downscales the image to `target_width` (never upscaling)
/// with the kernel of `mode` (`Standard` when absent), and compresses it to
/// JPEG at `quality`. `Encode` comes only from a decoded image whose resized
/// size JPEG cannot hold; any other failure is the decoder's, as `Decode`.
pub fn optimize_image(bytes: &[u8], target_width: u32, quality: u8, mode: Option<ResizeMode>) -> (r: Result<
    Vec<u8>,
    PipelineError,
>)
    ensures
        r matches Err(e) ==> e is Decode || e is Encode,
        r matches Err(e) && e is Encode ==> exists|m: PixelModel|
            #[trigger] m.wf() && !resized_size_ok(m.width, m.height, target_width),
        r matches Ok(bytes) ==> exists|m: PixelModel|
            #[trigger] m.wf() && resized_size_ok(m.width, m.height, target_width) && exists|p: Seq<u8>|
                {
                    let (w, h) = resized_dims(m.width, m.height, target_width);
                    &&& p.len() == w * h * 4
                    &&& bytes@ == jpeg_of(#[trigger] rgb_of(p), w, h, clamped_quality(quality))
                },
{
    let decoded = decode_image(bytes);
    let ghost d = decoded;
    let r = optimize_decoded(decoded, target_width, quality, mode);
    proof {
        if let Ok(b) = d {
            assert(b@.wf());
        }
    }
    r
}

} // verus!
