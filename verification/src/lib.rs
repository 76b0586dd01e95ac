//! Compression pipeline for RGBA pixel buffers: input validation, pixel-buffer
//! materialization, optional color quantization, and PNG / AVIF encoding.

pub mod avif_codec;
pub mod error;
pub mod png_codec;
pub mod quantize;
pub mod utils;

pub use avif_codec::{compress_avif, AvifOptions};
pub use error::{CompressError, CompressResult};
pub use png_codec::{compress_png, default_compression_level, PngOptions};
pub use utils::validate_dimensions;
pub use utils::PixelBuffer;
