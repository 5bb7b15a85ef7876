//! An image optimisation pipeline over RGBA pixel buffers: validation, an
//! ordered chain of pixel filters, downscaling and JPEG encoding.

pub mod encode;
pub mod filters;
pub mod laws;
pub mod pipeline;
pub mod pixels;
pub mod plan;
pub mod resize;

pub use encode::{drop_alpha, encode_jpeg};
pub use filters::hue_turn;
pub use pipeline::{decode_image, optimize_buffer, optimize_decoded, optimize_image};
pub use pixels::{PipelineError, PixelBuffer, PixelModel};
pub use plan::{filter_plan, FilterConfig, Stage};
pub use resize::{resize, ResizeMode};
