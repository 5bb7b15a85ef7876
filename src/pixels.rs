//! The validated RGBA pixel buffer that every stage of the pipeline works on.

use vstd::prelude::*;

verus! {

/// The mathematical content of a pixel buffer: its dimensions and its bytes,
/// four per pixel (red, green, blue, alpha), row by row.
pub struct PixelModel {
    pub width: u32,
    pub height: u32,
    pub pixels: Seq<u8>,
}

impl PixelModel {
    /// The buffer holds exactly four bytes for each of its pixels.
    pub open spec fn wf(self) -> bool {
        self.pixels.len() == self.width as int * self.height as int * 4
    }
}

/// Everything that can make a pipeline call fail.
#[derive(Debug, PartialEq, Eq)]
pub enum PipelineError {
    /// The byte length does not match the declared dimensions.
    InvalidBuffer,
    /// The encoded input could not be decoded; carries the decoder's message.
    Decode(String),
    /// A filter parameter lies outside its numeric domain.
    FilterParameter(String),
    /// The compressor failed; carries the encoder's message.
    Encode(String),
}

impl PipelineError {
    /// A one-line description of the error, for the host: the carried text,
    /// after a prefix that names the failing step for decoding and encoding.
    pub fn message(&self) -> (r: String)
        ensures
            *self == PipelineError::InvalidBuffer ==> r@ == "Invalid RGBA data dimensions"@,
            self matches PipelineError::Decode(m) ==> r@ == "Error reading: "@ + m@,
            self matches PipelineError::FilterParameter(m) ==> r@ == m@,
            self matches PipelineError::Encode(m) ==> r@ == "Error encoding JPEG: "@ + m@,
    {
        match self {
            PipelineError::InvalidBuffer => String::from_str("Invalid RGBA data dimensions"),
            PipelineError::Decode(m) => String::from_str("Error reading: ").concat(m.as_str()),
            PipelineError::FilterParameter(m) => m.clone(),
            PipelineError::Encode(m) => String::from_str("Error encoding JPEG: ").concat(m.as_str()),
        }
    }
}

/// Row-major RGBA pixels together with their dimensions.
pub struct PixelBuffer {
    width: u32,
    height: u32,
    pixels: Vec<u8>,
}

impl View for PixelBuffer {
    type V = PixelModel;

    closed spec fn view(&self) -> PixelModel {
        PixelModel { width: self.width, height: self.height, pixels: self.pixels@ }
    }
}

/// Whether `len` bytes are exactly what a `width` by `height` RGBA image needs.
pub open spec fn fits_rgba(len: int, width: u32, height: u32) -> bool {
    len == width as int * height as int * 4
}

impl PixelBuffer {
    pub open spec fn wf(&self) -> bool {
        self@.wf()
    }

    /// Builds a buffer from raw RGBA bytes, refusing any length other than
    /// `width * height * 4`.
    pub fn from_raw(width: u32, height: u32, pixels: Vec<u8>) -> (r: Result<PixelBuffer, PipelineError>)
        ensures
            r.is_ok() <==> fits_rgba(pixels@.len() as int, width, height),
            r matches Ok(b) ==> b.wf() && b@ == (PixelModel { width, height, pixels: pixels@ }),
            r matches Err(e) ==> e == PipelineError::InvalidBuffer,
    {
        proof {
            let (w, h) = (width as int, height as int);
            assert(0 <= w * h <= 0xffff_ffff * 0xffff_ffff) by (nonlinear_arith)
                requires 0 <= w <= 0xffff_ffff, 0 <= h <= 0xffff_ffff;
        }
        let area: u64 = width as u64 * height as u64;
        let len: usize = pixels.len();
        let fits = match area.checked_mul(4) {
            Some(need) => len as u64 == need,
            None => {
                false
            },
        };
        assert(area as int == width as int * height as int);
        if fits {
            Ok(PixelBuffer { width, height, pixels })
        } else {
            Err(PipelineError::InvalidBuffer)
        }
    }

    /// Assembles a buffer from its parts as they stand.
    pub(crate) fn from_parts(width: u32, height: u32, pixels: Vec<u8>) -> (r: PixelBuffer)
        ensures
            r@ == (PixelModel { width, height, pixels: pixels@ }),
    {
        PixelBuffer { width, height, pixels }
    }

    pub fn width(&self) -> (r: u32)
        ensures
            r == self@.width,
    {
        self.width
    }

    pub fn height(&self) -> (r: u32)
        ensures
            r == self@.height,
    {
        self.height
    }

    /// The RGBA bytes, row by row.
    pub fn pixels(&self) -> (r: &Vec<u8>)
        ensures
            r@ == self@.pixels,
    {
        &self.pixels
    }

    pub fn into_pixels(self) -> (r: Vec<u8>)
        ensures
            r@ == self@.pixels,
    {
        self.pixels
    }
}

} // verus!
