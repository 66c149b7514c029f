//! The algorithms a caller can request, and the static facts about each.
use vstd::prelude::*;

verus! {

/// The compression algorithms a caller can ask for. `Auto` is resolved to a
/// concrete member by image analysis before any encoding happens.
#[derive(Debug, Clone, Copy, PartialEq, Eq, Structural)]
pub enum CompressionAlgorithm {
    Auto,
    Simple,
    StandardJpeg,
    MozJpeg,
    StandardPng,
    OptiPng,
    OxiPng,
    PngQuant,
    WebPLossy,
    WebPLossless,
    Avif,
}

/// The container format of an encoded byte stream.
#[derive(Debug, Clone, Copy, PartialEq, Eq, Structural)]
pub enum OutputFormat {
    Jpeg,
    Png,
    WebP,
    Avif,
}

impl Default for CompressionAlgorithm {
    fn default() -> (r: Self)
        ensures
            r == CompressionAlgorithm::Simple,
    {
        CompressionAlgorithm::Simple
    }
}

/// Whether an algorithm takes a quality parameter.
pub open spec fn takes_quality(a: CompressionAlgorithm) -> bool {
    match a {
        CompressionAlgorithm::StandardJpeg | CompressionAlgorithm::MozJpeg
        | CompressionAlgorithm::WebPLossy | CompressionAlgorithm::Avif => true,
        _ => false,
    }
}

/// The default quality of an algorithm, used when the caller gives none.
pub open spec fn default_quality(a: CompressionAlgorithm) -> u8 {
    match a {
        CompressionAlgorithm::StandardJpeg | CompressionAlgorithm::MozJpeg => 85,
        CompressionAlgorithm::WebPLossy => 90,
        CompressionAlgorithm::Avif => 80,
        _ => 100,
    }
}

/// The canonical file extension of the bytes an algorithm produces.
pub open spec fn extension_of(a: CompressionAlgorithm) -> Seq<char> {
    match a {
        CompressionAlgorithm::StandardPng | CompressionAlgorithm::OptiPng
        | CompressionAlgorithm::OxiPng | CompressionAlgorithm::PngQuant => "png"@,
        CompressionAlgorithm::WebPLossy | CompressionAlgorithm::WebPLossless => "webp"@,
        CompressionAlgorithm::Avif => "avif"@,
        _ => "jpg"@,
    }
}

/// A one-line description of an algorithm, for display.
pub open spec fn description_of(a: CompressionAlgorithm) -> Seq<char> {
    match a {
        CompressionAlgorithm::Auto => "Automatically select best algorithm based on image analysis"@,
        CompressionAlgorithm::Simple => "Use lowest acceptable image quality"@,
        CompressionAlgorithm::StandardJpeg => "Standard JPEG compression (fast, good quality)"@,
        CompressionAlgorithm::MozJpeg => "Mozilla JPEG encoder (10-15% better compression)"@,
        CompressionAlgorithm::StandardPng => "Standard PNG compression (lossless)"@,
        CompressionAlgorithm::OptiPng => "Optimized PNG (smaller files, lossless)"@,
        CompressionAlgorithm::OxiPng => "Fast optimized PNG (good balance)"@,
        CompressionAlgorithm::PngQuant => "Lossy PNG (up to 70% smaller, slight quality loss)"@,
        CompressionAlgorithm::WebPLossy => "WebP lossy (25-35% better than JPEG)"@,
        CompressionAlgorithm::WebPLossless => "WebP lossless (better than PNG)"@,
        CompressionAlgorithm::Avif => "AV1 Image Format (best compression, slower)"@,
    }
}

/// The display name of an algorithm.
pub open spec fn label_of(a: CompressionAlgorithm) -> Seq<char> {
    match a {
        CompressionAlgorithm::Auto => "Auto (Smart Selection)"@,
        CompressionAlgorithm::Simple => "Simple (Fast)"@,
        CompressionAlgorithm::StandardJpeg => "JPEG Standard"@,
        CompressionAlgorithm::MozJpeg => "JPEG (MozJPEG)"@,
        CompressionAlgorithm::StandardPng => "PNG Standard"@,
        CompressionAlgorithm::OptiPng => "PNG (OptiPNG)"@,
        CompressionAlgorithm::OxiPng => "PNG (OxiPNG)"@,
        CompressionAlgorithm::PngQuant => "PNG (PNGQuant Lossy)"@,
        CompressionAlgorithm::WebPLossy => "WebP Lossy"@,
        CompressionAlgorithm::WebPLossless => "WebP Lossless"@,
        CompressionAlgorithm::Avif => "AVIF"@,
    }
}

impl CompressionAlgorithm {
    pub fn description(&self) -> (r: &'static str)
        ensures
            r@ == description_of(*self),
    {
        match self {
            CompressionAlgorithm::Auto => "Automatically select best algorithm based on image analysis",
            CompressionAlgorithm::Simple => "Use lowest acceptable image quality",
            CompressionAlgorithm::StandardJpeg => "Standard JPEG compression (fast, good quality)",
            CompressionAlgorithm::MozJpeg => "Mozilla JPEG encoder (10-15% better compression)",
            CompressionAlgorithm::StandardPng => "Standard PNG compression (lossless)",
            CompressionAlgorithm::OptiPng => "Optimized PNG (smaller files, lossless)",
            CompressionAlgorithm::OxiPng => "Fast optimized PNG (good balance)",
            CompressionAlgorithm::PngQuant => "Lossy PNG (up to 70% smaller, slight quality loss)",
            CompressionAlgorithm::WebPLossy => "WebP lossy (25-35% better than JPEG)",
            CompressionAlgorithm::WebPLossless => "WebP lossless (better than PNG)",
            CompressionAlgorithm::Avif => "AV1 Image Format (best compression, slower)",
        }
    }

    pub fn supports_quality(&self) -> (r: bool)
        ensures
            r == takes_quality(*self),
    {
        match self {
            CompressionAlgorithm::StandardJpeg | CompressionAlgorithm::MozJpeg
            | CompressionAlgorithm::WebPLossy | CompressionAlgorithm::Avif => true,
            _ => false,
        }
    }

    pub fn recommended_quality(&self) -> (r: u8)
        ensures
            r == default_quality(*self),
    {
        match self {
            CompressionAlgorithm::StandardJpeg | CompressionAlgorithm::MozJpeg => 85,
            CompressionAlgorithm::WebPLossy => 90,
            CompressionAlgorithm::Avif => 80,
            _ => 100,
        }
    }

    pub fn file_extension(&self) -> (r: &'static str)
        ensures
            r@ == extension_of(*self),
    {
        match self {
            CompressionAlgorithm::StandardPng | CompressionAlgorithm::OptiPng
            | CompressionAlgorithm::OxiPng | CompressionAlgorithm::PngQuant => "png",
            CompressionAlgorithm::WebPLossy | CompressionAlgorithm::WebPLossless => "webp",
            CompressionAlgorithm::Avif => "avif",
            _ => "jpg",
        }
    }

    /// The display name; the text that a user interface shows for the algorithm.
    pub fn label(&self) -> (r: &'static str)
        ensures
            r@ == label_of(*self),
    {
        match self {
            CompressionAlgorithm::Auto => "Auto (Smart Selection)",
            CompressionAlgorithm::Simple => "Simple (Fast)",
            CompressionAlgorithm::StandardJpeg => "JPEG Standard",
            CompressionAlgorithm::MozJpeg => "JPEG (MozJPEG)",
            CompressionAlgorithm::StandardPng => "PNG Standard",
            CompressionAlgorithm::OptiPng => "PNG (OptiPNG)",
            CompressionAlgorithm::OxiPng => "PNG (OxiPNG)",
            CompressionAlgorithm::PngQuant => "PNG (PNGQuant Lossy)",
            CompressionAlgorithm::WebPLossy => "WebP Lossy",
            CompressionAlgorithm::WebPLossless => "WebP Lossless",
            CompressionAlgorithm::Avif => "AVIF",
        }
    }
}

} // verus!
