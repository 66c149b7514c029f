//! Smart image compression: analysis of a decoded raster, a rule-based choice
//! of encoder family, per-family encoders and a search for a byte budget.
pub mod algorithm;
pub mod analysis;
pub mod codecs;
pub mod compressor;
pub mod inputs;
pub mod raster;
pub mod search;
pub mod simple;

pub use algorithm::{CompressionAlgorithm, OutputFormat};
pub use analysis::ImageAnalysis;
pub use compressor::{CompressError, CompressionOptions, CompressionResult, SmartCompressor};
pub use raster::{PixelLayout, RasterImage};
