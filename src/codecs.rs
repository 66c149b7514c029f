//! The encoders and the resampler of outside crates, each behind one trusted
//! wrapper whose result is named by a specification function.
use vstd::prelude::*;
use crate::raster::PixelLayout;
use image::codecs::jpeg::JpegEncoder;
use image::codecs::png::{CompressionType, FilterType, PngEncoder};
use image::{ColorType, DynamicImage, ImageBuffer, ImageEncoder};
use indexmap::IndexSet;
use oxipng::RowFilter;
use rgb::FromSlice;

verus! {

/// Compression effort of the PNG encoder.
#[derive(Debug, Clone, Copy, PartialEq, Eq, Structural)]
pub enum PngLevel {
    Fast,
    Best,
}

/// Row filter of the PNG encoder.
#[derive(Debug, Clone, Copy, PartialEq, Eq, Structural)]
pub enum PngFilter {
    NoFilter,
    Sub,
    Up,
    Avg,
    Paeth,
    Adaptive,
}

/// Which ancillary chunks the PNG optimizer removes.
#[derive(Debug, Clone, Copy, PartialEq, Eq, Structural)]
pub enum MetadataStrip {
    Keep,
    Safe,
    All,
}

/// The bytes held by an optional buffer.
pub open spec fn bytes_of(r: Option<Vec<u8>>) -> Option<Seq<u8>> {
    match r {
        Some(v) => Some(v@),
        None => None,
    }
}

/// Baseline JPEG of the image crate, or `None` where that encoder fails.
pub uninterp spec fn jpeg_encoding(width: u32, height: u32, layout: PixelLayout, samples: Seq<u8>, quality: u8) -> Option<Seq<u8>>;

/// MozJPEG at its default profile.
pub uninterp spec fn mozjpeg_default_encoding(width: u32, height: u32, rgb: Seq<u8>, quality: u8) -> Option<Seq<u8>>;

/// MozJPEG with the DC scan of all components together and simple progression.
pub uninterp spec fn mozjpeg_web_encoding(width: u32, height: u32, rgb: Seq<u8>, quality: u8) -> Option<Seq<u8>>;

/// PNG of the image crate at a compression level and a row filter.
pub uninterp spec fn png_encoding(width: u32, height: u32, layout: PixelLayout, samples: Seq<u8>, level: PngLevel, filter: PngFilter) -> Option<Seq<u8>>;

/// A PNG stream rewritten by oxipng.
pub uninterp spec fn oxipng_optimized(png: Seq<u8>, strip: MetadataStrip) -> Option<Seq<u8>>;

/// WebP of libwebp, lossy at a quality or lossless.
pub uninterp spec fn webp_encoding(width: u32, height: u32, rgba: Seq<u8>, lossless: bool, quality: u8) -> Option<Seq<u8>>;

/// AVIF of ravif at a quality, encoded on one thread.
pub uninterp spec fn avif_encoding(width: u32, height: u32, rgba: Seq<u8>, quality: u8) -> Option<Seq<u8>>;

/// Samples of an image resampled to a new size with a Lanczos filter.
pub uninterp spec fn lanczos_resized(width: u32, height: u32, layout: PixelLayout, samples: Seq<u8>, new_width: u32, new_height: u32) -> Seq<u8>;

/// Relies on `image::codecs::jpeg::JpegEncoder::new_with_quality` and `encode`:
/// a baseline JPEG of the samples; the quality is clamped to 1..=100 by the encoder.
/// `encode` panics unless the samples fill the raster, hence the `requires`.
#[verifier::external_body]
pub(crate) fn jpeg_encode(width: u32, height: u32, layout: PixelLayout, samples: &Vec<u8>, quality: u8) -> (r: Option<Vec<u8>>)
    requires
        samples@.len() == width * height * crate::raster::channel_count(layout),
    ensures
        bytes_of(r) == jpeg_encoding(width, height, layout, samples@, quality),
{
    let color = match layout {
        PixelLayout::Gray => ColorType::L8,
        PixelLayout::GrayAlpha => ColorType::La8,
        PixelLayout::Rgb => ColorType::Rgb8,
        PixelLayout::Rgba => ColorType::Rgba8,
    };
    let mut out = Vec::new();
    JpegEncoder::new_with_quality(&mut out, quality).encode(samples, width, height, color).ok()?;
    Some(out)
}

/// Relies on `mozjpeg::Compress` (`new`, `set_size`, `set_quality`,
/// `start_compress`, `write_scanlines`, `finish`) at mozjpeg's default profile,
/// which is itself progressive with optimized coding. libjpeg unwinds on an empty
/// image, one over 65500 pixels on a side, or missing scanlines: the `requires`
/// leave those out.
#[verifier::external_body]
pub(crate) fn mozjpeg_encode_default(width: u32, height: u32, rgb: &Vec<u8>, quality: u8) -> (r: Option<Vec<u8>>)
    requires
        1 <= width <= 65500,
        1 <= height <= 65500,
        rgb@.len() == 3 * (width * height),
    ensures
        bytes_of(r) == mozjpeg_default_encoding(width, height, rgb@, quality),
{
    let mut c = mozjpeg::Compress::new(mozjpeg::ColorSpace::JCS_RGB);
    c.set_size(width as usize, height as usize);
    c.set_quality(quality.into());
    let mut started = c.start_compress(Vec::new()).ok()?;
    started.write_scanlines(rgb).ok()?;
    started.finish().ok()
}

/// Relies on `mozjpeg::Compress` as `mozjpeg_encode_default` does, with
/// `set_scan_optimization_mode(AllComponentsTogether)` and `set_progressive_mode`
/// before the quality is set (the former resets the quality to its default).
/// The `requires` are those of `mozjpeg_encode_default`.
#[verifier::external_body]
pub(crate) fn mozjpeg_encode_web(width: u32, height: u32, rgb: &Vec<u8>, quality: u8) -> (r: Option<Vec<u8>>)
    requires
        1 <= width <= 65500,
        1 <= height <= 65500,
        rgb@.len() == 3 * (width * height),
    ensures
        bytes_of(r) == mozjpeg_web_encoding(width, height, rgb@, quality),
{
    let mut c = mozjpeg::Compress::new(mozjpeg::ColorSpace::JCS_RGB);
    c.set_size(width as usize, height as usize);
    c.set_scan_optimization_mode(mozjpeg::ScanMode::AllComponentsTogether);
    c.set_progressive_mode();
    c.set_quality(quality.into());
    let mut started = c.start_compress(Vec::new()).ok()?;
    started.write_scanlines(rgb).ok()?;
    started.finish().ok()
}

/// Relies on `image::codecs::png::PngEncoder::new_with_quality` and `write_image`:
/// a PNG of the samples in their own layout. `write_image` panics unless the
/// samples fill the raster, hence the `requires`.
#[verifier::external_body]
pub(crate) fn png_encode(width: u32, height: u32, layout: PixelLayout, samples: &Vec<u8>, level: PngLevel, filter: PngFilter) -> (r: Option<Vec<u8>>)
    requires
        samples@.len() == width * height * crate::raster::channel_count(layout),
    ensures
        bytes_of(r) == png_encoding(width, height, layout, samples@, level, filter),
{
    let level = match level { PngLevel::Fast => CompressionType::Fast, PngLevel::Best => CompressionType::Best };
    let filter = match filter {
        PngFilter::NoFilter => FilterType::NoFilter, PngFilter::Sub => FilterType::Sub,
        PngFilter::Up => FilterType::Up, PngFilter::Avg => FilterType::Avg,
        PngFilter::Paeth => FilterType::Paeth, PngFilter::Adaptive => FilterType::Adaptive,
    };
    let color = match layout {
        PixelLayout::Gray => ColorType::L8, PixelLayout::GrayAlpha => ColorType::La8,
        PixelLayout::Rgb => ColorType::Rgb8, PixelLayout::Rgba => ColorType::Rgba8,
    };
    let mut out = Vec::new();
    PngEncoder::new_with_quality(&mut out, level, filter).write_image(samples, width, height, color).ok()?;
    Some(out)
}

/// Relies on `oxipng::optimize_from_memory` with `Options::from_preset(3)`, the
/// given chunk stripping, and the five standard row filters.
#[verifier::external_body]
pub(crate) fn oxipng_optimize(png: &Vec<u8>, strip: MetadataStrip) -> (r: Option<Vec<u8>>)
    ensures
        bytes_of(r) == oxipng_optimized(png@, strip),
{
    let mut options = oxipng::Options::from_preset(3);
    options.strip = match strip {
        MetadataStrip::Keep => oxipng::StripChunks::None,
        MetadataStrip::Safe => oxipng::StripChunks::Safe,
        MetadataStrip::All => oxipng::StripChunks::All,
    };
    options.filter = IndexSet::from([RowFilter::None, RowFilter::Sub, RowFilter::Up, RowFilter::Average, RowFilter::Paeth]);
    oxipng::optimize_from_memory(png, &options).ok()
}

/// Relies on `webp::Encoder::from_rgba` and `encode_simple`: libwebp at its
/// default configuration, lossy at `quality` or lossless; `None` where libwebp
/// reports an error (a quality over 100, for one).
#[verifier::external_body]
pub(crate) fn webp_encode(width: u32, height: u32, rgba: &Vec<u8>, lossless: bool, quality: u8) -> (r: Option<Vec<u8>>)
    requires
        1 <= width <= 16383,
        1 <= height <= 16383,
        rgba@.len() == 4 * (width * height),
    ensures
        bytes_of(r) == webp_encoding(width, height, rgba@, lossless, quality),
{
    let memory = webp::Encoder::from_rgba(rgba, width, height).encode_simple(lossless, quality.into()).ok()?;
    Some(memory.to_vec())
}

/// Relies on `ravif::Encoder::new`, `with_quality`, `with_num_threads` and
/// `encode_rgba`: the AVIF file of the pixels at a quality on ravif's own
/// 1..=100 scale (`with_quality` panics outside it, hence the `requires`). With
/// one thread the tile count no longer follows the machine's core count.
#[verifier::external_body]
pub(crate) fn avif_encode(width: u32, height: u32, rgba: &Vec<u8>, quality: u8) -> (r: Option<Vec<u8>>)
    requires
        width >= 1,
        height >= 1,
        1 <= quality <= 100,
        rgba@.len() == 4 * (width * height),
    ensures
        bytes_of(r) == avif_encoding(width, height, rgba@, quality),
{
    let img = imgref::Img::new(rgba.as_rgba(), width as usize, height as usize);
    let encoder = ravif::Encoder::new().with_quality(quality.into()).with_num_threads(Some(1));
    let encoded = encoder.encode_rgba(img).ok()?;
    Some(encoded.avif_file)
}

/// Relies on `image::DynamicImage::resize_exact` with the Lanczos3 filter: the
/// result has exactly the new size, in the same layout. `ImageBuffer::from_raw`
/// accepts samples that fill the raster.
#[verifier::external_body]
pub(crate) fn lanczos_resize(width: u32, height: u32, layout: PixelLayout, samples: &Vec<u8>, new_width: u32, new_height: u32) -> (r: Option<Vec<u8>>)
    requires
        width >= 1,
        height >= 1,
        new_width >= 1,
        new_height >= 1,
        samples@.len() == width * height * crate::raster::channel_count(layout),
    ensures
        bytes_of(r) == Some(lanczos_resized(width, height, layout, samples@, new_width, new_height)),
        r is Some ==> r->Some_0@.len() == new_width * new_height * crate::raster::channel_count(layout),
{
    let b = samples.clone();
    let img = match layout {
        PixelLayout::Gray => DynamicImage::ImageLuma8(ImageBuffer::from_raw(width, height, b)?),
        PixelLayout::GrayAlpha => DynamicImage::ImageLumaA8(ImageBuffer::from_raw(width, height, b)?),
        PixelLayout::Rgb => DynamicImage::ImageRgb8(ImageBuffer::from_raw(width, height, b)?),
        PixelLayout::Rgba => DynamicImage::ImageRgba8(ImageBuffer::from_raw(width, height, b)?),
    };
    Some(img.resize_exact(new_width, new_height, image::imageops::FilterType::Lanczos3).into_bytes())
}

} // verus!
