//! The compression orchestrator: resolves the algorithm, runs the family's
//! encoder directly or through the size search, and packages the result.
use vstd::prelude::*;
use crate::algorithm::{CompressionAlgorithm, OutputFormat};
use crate::analysis::{
    auto_algorithm, image_color_count, image_has_gradients, image_is_translucent, photo_signal,
};
use crate::codecs::{
    avif_encode, avif_encoding, bytes_of, oxipng_optimize, oxipng_optimized, png_encode,
    png_encoding, webp_encode, webp_encoding, MetadataStrip, PngFilter, PngLevel,
};
use crate::raster::{posterize, posterize_factor, posterize_step, posterized, PixelLayout, RasterImage};
use crate::search::{
    encode_at, fits, monotone_search_finds_highest_fitting_quality, quality_encoding, quality_search,
    search_result, search_stops_at_budget_boundary, size_grows_with_quality, QualityCodec,
    SEARCH_HIGH, SEARCH_LOW,
};

verus! {

/// Why a compression did not produce bytes.
#[derive(Debug, Clone, Copy, PartialEq, Eq, Structural)]
pub enum CompressError {
    /// The encoder rejected the image or failed while encoding.
    Encode,
    /// No parameter setting met the byte budget.
    SizeUnreachable,
}

/// What the caller asks of one compression.
#[derive(Debug, Clone, Copy, PartialEq, Eq, Structural)]
pub struct CompressionOptions {
    pub algorithm: CompressionAlgorithm,
    /// 0 to 100; its meaning depends on the encoder family.
    pub quality: Option<u8>,
    /// A byte budget; when set, it takes priority over `quality`.
    pub target_size: Option<u64>,
    pub preserve_metadata: bool,
    pub optimize_for_web: bool,
}

impl Default for CompressionOptions {
    fn default() -> (r: Self)
        ensures
            r == (CompressionOptions {
                algorithm: CompressionAlgorithm::Auto,
                quality: None,
                target_size: None,
                preserve_metadata: false,
                optimize_for_web: true,
            }),
    {
        CompressionOptions {
            algorithm: CompressionAlgorithm::Auto,
            quality: None,
            target_size: None,
            preserve_metadata: false,
            optimize_for_web: true,
        }
    }
}

/// The encoded bytes and what produced them. The compression ratio is
/// `data.len() / raw_size`.
pub struct CompressionResult {
    pub data: Vec<u8>,
    pub format: OutputFormat,
    pub algorithm_used: CompressionAlgorithm,
    pub final_quality: Option<u8>,
    /// The estimated uncompressed size of the input image.
    pub raw_size: u64,
}

/// The compression engine. It holds no state: every call stands alone.
pub struct SmartCompressor;

/// Outcome of one compression: the bytes and the quality used, or the error.
pub type Outcome = Result<(Seq<u8>, Option<u8>), CompressError>;

pub open spec fn quality_or(q: Option<u8>, default: u8) -> u8 {
    match q {
        Some(v) => v,
        None => default,
    }
}

/// The chunk stripping of the PNG optimizer: web output keeps only what affects
/// display; otherwise metadata is kept when asked and all stripped when not.
pub open spec fn strip_for(options: CompressionOptions) -> MetadataStrip {
    if options.optimize_for_web {
        MetadataStrip::Safe
    } else if options.preserve_metadata {
        MetadataStrip::Keep
    } else {
        MetadataStrip::All
    }
}

/// `Auto` is resolved by analysis; any other request stands.
pub open spec fn resolved_algorithm(img: RasterImage, requested: CompressionAlgorithm) -> CompressionAlgorithm {
    if requested == CompressionAlgorithm::Auto {
        auto_algorithm(img)
    } else {
        requested
    }
}

/// The algorithm reported for a resolved one: `Simple` runs the standard JPEG encoder.
pub open spec fn reported_algorithm(a: CompressionAlgorithm) -> CompressionAlgorithm {
    if a == CompressionAlgorithm::Simple {
        CompressionAlgorithm::StandardJpeg
    } else {
        a
    }
}

pub open spec fn format_of(a: CompressionAlgorithm) -> OutputFormat {
    match a {
        CompressionAlgorithm::StandardPng | CompressionAlgorithm::OptiPng
        | CompressionAlgorithm::OxiPng | CompressionAlgorithm::PngQuant => OutputFormat::Png,
        CompressionAlgorithm::WebPLossy | CompressionAlgorithm::WebPLossless => OutputFormat::WebP,
        CompressionAlgorithm::Avif => OutputFormat::Avif,
        _ => OutputFormat::Jpeg,
    }
}

/// A single encoding held against an optional budget: no retry, an oversized
/// result is refused.
pub open spec fn budget_check(encoded: Option<Seq<u8>>, target: Option<u64>) -> Result<Seq<u8>, CompressError> {
    match encoded {
        None => Err(CompressError::Encode),
        Some(d) => match target {
            Some(t) => if d.len() <= t { Ok(d) } else { Err(CompressError::SizeUnreachable) },
            None => Ok(d),
        },
    }
}

pub open spec fn with_quality(r: Result<Seq<u8>, CompressError>, q: Option<u8>) -> Outcome {
    match r {
        Ok(d) => Ok((d, q)),
        Err(e) => Err(e),
    }
}

/// A quality-bearing family: the size search when a budget is set, otherwise one
/// encoding at the requested or default quality.
pub open spec fn quality_path(codec: QualityCodec, w: u32, h: u32, px: Seq<u8>, options: CompressionOptions, default: u8) -> Outcome {
    match options.target_size {
        Some(t) => match search_result(codec, w, h, px, t) {
            Ok((d, q)) => Ok((d, Some(q))),
            Err(e) => Err(e),
        },
        None => {
            let q = quality_or(options.quality, default);
            match quality_encoding(codec, w, h, px, q) {
                Some(d) => Ok((d, Some(q))),
                None => Err(CompressError::Encode),
            }
        },
    }
}

/// The row filters that the filter search tries, in order.
pub open spec fn filter_at(i: int) -> PngFilter {
    if i == 0 {
        PngFilter::NoFilter
    } else if i == 1 {
        PngFilter::Sub
    } else if i == 2 {
        PngFilter::Up
    } else if i == 3 {
        PngFilter::Avg
    } else if i == 4 {
        PngFilter::Paeth
    } else {
        PngFilter::Adaptive
    }
}

/// The smallest of `base` and the best-compression PNGs with the first `k`
/// filters; an earlier candidate wins ties, and a failed encoding is skipped.
pub open spec fn smallest_png(w: u32, h: u32, layout: PixelLayout, samples: Seq<u8>, base: Seq<u8>, k: nat) -> Seq<u8>
    decreases k,
{
    if k == 0 {
        base
    } else {
        let prev = smallest_png(w, h, layout, samples, base, (k - 1) as nat);
        match png_encoding(w, h, layout, samples, PngLevel::Best, filter_at(k - 1)) {
            Some(d) => if d.len() < prev.len() { d } else { prev },
            None => prev,
        }
    }
}

/// PNG at the encoder's defaults, then rewritten by the optimizer.
pub open spec fn oxipng_outcome(w: u32, h: u32, layout: PixelLayout, samples: Seq<u8>, options: CompressionOptions) -> Outcome {
    match png_encoding(w, h, layout, samples, PngLevel::Fast, PngFilter::Adaptive) {
        None => Err(CompressError::Encode),
        Some(p) => with_quality(budget_check(oxipng_optimized(p, strip_for(options)), options.target_size), None),
    }
}

/// The AVIF quality: the requested one or 80, where 0 becomes 1, the lowest
/// point of the encoder's scale.
pub open spec fn avif_quality(q: Option<u8>) -> u8 {
    let v = quality_or(q, 80);
    if v == 0 { 1 } else { v }
}

pub open spec fn has_area(img: RasterImage) -> bool {
    img.width >= 1 && img.height >= 1
}

/// What compressing `img` with the concrete algorithm `a` yields.
pub open spec fn encoded_outcome(img: RasterImage, options: CompressionOptions, a: CompressionAlgorithm) -> Outcome {
    let (w, h) = (img.width, img.height);
    let target = options.target_size;
    if !has_area(img) {
        Err(CompressError::Encode)
    } else {
        match a {
            CompressionAlgorithm::Simple | CompressionAlgorithm::StandardJpeg =>
                quality_path(QualityCodec::Jpeg, w, h, img.rgb_samples(), options, 85),
            CompressionAlgorithm::MozJpeg => if w <= 65500 && h <= 65500 {
                let codec = if options.optimize_for_web {
                    QualityCodec::MozJpegWeb
                } else {
                    QualityCodec::MozJpegDefault
                };
                quality_path(codec, w, h, img.rgb_samples(), options, 85)
            } else {
                Err(CompressError::Encode)
            },
            CompressionAlgorithm::StandardPng => with_quality(
                budget_check(png_encoding(w, h, img.layout, img.samples@, PngLevel::Best, PngFilter::Adaptive), target),
                None,
            ),
            CompressionAlgorithm::OptiPng =>
                match png_encoding(w, h, img.layout, img.samples@, PngLevel::Fast, PngFilter::Adaptive) {
                    None => Err(CompressError::Encode),
                    Some(base) => with_quality(
                        budget_check(Some(smallest_png(w, h, img.layout, img.samples@, base, 6)), target),
                        None,
                    ),
                },
            CompressionAlgorithm::OxiPng => oxipng_outcome(w, h, img.layout, img.samples@, options),
            CompressionAlgorithm::PngQuant => oxipng_outcome(
                w,
                h,
                PixelLayout::Rgba,
                posterized(img.rgba_samples(), posterize_factor(256)),
                options,
            ),
            CompressionAlgorithm::WebPLossy => if w <= 16383 && h <= 16383 {
                quality_path(QualityCodec::WebPLossy, w, h, img.rgba_samples(), options, 90)
            } else {
                Err(CompressError::Encode)
            },
            CompressionAlgorithm::WebPLossless => if w <= 16383 && h <= 16383 {
                with_quality(budget_check(webp_encoding(w, h, img.rgba_samples(), true, 75), target), None)
            } else {
                Err(CompressError::Encode)
            },
            CompressionAlgorithm::Avif => {
                let q = avif_quality(options.quality);
                if q <= 100 {
                    with_quality(budget_check(avif_encoding(w, h, img.rgba_samples(), q), target), Some(q))
                } else {
                    Err(CompressError::Encode)
                }
            },
            CompressionAlgorithm::Auto => Err(CompressError::Encode),
        }
    }
}

/// `r` is the packaged form of `outcome` for algorithm `a` on `img`.
pub open spec fn packages(r: Result<CompressionResult, CompressError>, outcome: Outcome, img: RasterImage, a: CompressionAlgorithm) -> bool {
    match (r, outcome) {
        (Ok(res), Ok((d, q))) => {
            &&& res.data@ == d
            &&& res.final_quality == q
            &&& res.format == format_of(a)
            &&& res.algorithm_used == reported_algorithm(a)
            &&& res.raw_size == img.raw_size()
        },
        (Err(e), Err(se)) => e == se,
        _ => false,
    }
}

/// What `compress` returns for an image and options.
pub open spec fn compress_spec(r: Result<CompressionResult, CompressError>, img: RasterImage, options: CompressionOptions) -> bool {
    let a = resolved_algorithm(img, options.algorithm);
    packages(r, encoded_outcome(img, options, a), img, a)
}

/// Holds one encoding against an optional budget.
pub fn accept_within_budget(encoded: Option<Vec<u8>>, target: Option<u64>) -> (r: Result<Vec<u8>, CompressError>)
    ensures
        match (r, budget_check(bytes_of(encoded), target)) {
            (Ok(d), Ok(sd)) => d@ == sd,
            (Err(e), Err(se)) => e == se,
            _ => false,
        },
{
    match encoded {
        None => Err(CompressError::Encode),
        Some(d) => match target {
            Some(t) => if d.len() as u64 <= t {
                Ok(d)
            } else {
                Err(CompressError::SizeUnreachable)
            },
            None => Ok(d),
        },
    }
}

/// The result of a quality-bearing family: the size search when a budget is
/// set, otherwise one encoding at the requested or default quality.
fn quality_family(
    codec: QualityCodec,
    w: u32,
    h: u32,
    px: &Vec<u8>,
    options: &CompressionOptions,
    default: u8,
) -> (r: Result<(Vec<u8>, Option<u8>), CompressError>)
    requires
        crate::search::codec_accepts(codec, w, h, px@),
    ensures
        same_outcome(r, quality_path(codec, w, h, px@, *options, default)),
{
    match options.target_size {
        Some(t) => match quality_search(codec, w, h, px, t) {
            Ok((d, q)) => Ok((d, Some(q))),
            Err(e) => Err(e),
        },
        None => {
            let q = match options.quality {
                Some(v) => v,
                None => default,
            };
            match encode_at(codec, w, h, px, q) {
                Some(d) => Ok((d, Some(q))),
                None => Err(CompressError::Encode),
            }
        },
    }
}

/// An executable outcome and its specification agree.
pub open spec fn same_outcome(r: Result<(Vec<u8>, Option<u8>), CompressError>, outcome: Outcome) -> bool {
    match (r, outcome) {
        (Ok((d, q)), Ok((sd, sq))) => d@ == sd && q == sq,
        (Err(e), Err(se)) => e == se,
        _ => false,
    }
}

fn single_encoding(encoded: Option<Vec<u8>>, target: Option<u64>, quality: Option<u8>) -> (r: Result<
    (Vec<u8>, Option<u8>),
    CompressError,
>)
    ensures
        same_outcome(r, with_quality(budget_check(bytes_of(encoded), target), quality)),
{
    match accept_within_budget(encoded, target) {
        Ok(d) => Ok((d, quality)),
        Err(e) => Err(e),
    }
}

fn package(
    outcome: Result<(Vec<u8>, Option<u8>), CompressError>,
    image: &RasterImage,
    a: CompressionAlgorithm,
) -> (r: Result<CompressionResult, CompressError>)
    requires
        image.wf(),
    ensures
        forall|o: Outcome| same_outcome(outcome, o) ==> packages(r, o, *image, a),
{
    match outcome {
        Ok((data, final_quality)) => {
            let format = match a {
                CompressionAlgorithm::StandardPng | CompressionAlgorithm::OptiPng
                | CompressionAlgorithm::OxiPng | CompressionAlgorithm::PngQuant => OutputFormat::Png,
                CompressionAlgorithm::WebPLossy | CompressionAlgorithm::WebPLossless => OutputFormat::WebP,
                CompressionAlgorithm::Avif => OutputFormat::Avif,
                _ => OutputFormat::Jpeg,
            };
            let algorithm_used = if a == CompressionAlgorithm::Simple {
                CompressionAlgorithm::StandardJpeg
            } else {
                a
            };
            let raw_size = image.estimate_raw_size();
            Ok(CompressionResult { data, format, algorithm_used, final_quality, raw_size })
        },
        Err(e) => Err(e),
    }
}

fn filter_number(i: usize) -> (r: PngFilter)
    ensures
        r == filter_at(i as int),
{
    if i == 0 {
        PngFilter::NoFilter
    } else if i == 1 {
        PngFilter::Sub
    } else if i == 2 {
        PngFilter::Up
    } else if i == 3 {
        PngFilter::Avg
    } else if i == 4 {
        PngFilter::Paeth
    } else {
        PngFilter::Adaptive
    }
}

fn oxipng_path(
    w: u32,
    h: u32,
    layout: PixelLayout,
    samples: &Vec<u8>,
    options: &CompressionOptions,
) -> (r: Result<(Vec<u8>, Option<u8>), CompressError>)
    requires
        samples@.len() == w * h * crate::raster::channel_count(layout),
    ensures
        same_outcome(r, oxipng_outcome(w, h, layout, samples@, *options)),
{
    match png_encode(w, h, layout, samples, PngLevel::Fast, PngFilter::Adaptive) {
        None => Err(CompressError::Encode),
        Some(png) => {
            let strip = if options.optimize_for_web {
                MetadataStrip::Safe
            } else if options.preserve_metadata {
                MetadataStrip::Keep
            } else {
                MetadataStrip::All
            };
            single_encoding(oxipng_optimize(&png, strip), options.target_size, None)
        },
    }
}

proof fn lemma_rgb_len(img: RasterImage)
    requires
        img.wf(),
    ensures
        img.rgb_samples().len() == img.width * img.height * 3,
        img.rgb_samples().len() == 3 * (img.width * img.height),
        img.rgba_samples().len() == 4 * (img.width * img.height),
        img.rgba_samples().len() == img.width * img.height * crate::raster::channel_count(PixelLayout::Rgba),
{
}

impl SmartCompressor {
    pub fn new() -> (r: Self) {
        SmartCompressor
    }

    /// Compresses an image as the options ask: `Auto` is resolved by analysis,
    /// a byte budget routes through the size search, and the result records the
    /// bytes, their format, the algorithm and quality used, and the raw size.
    pub fn compress(&self, image: &RasterImage, options: CompressionOptions) -> (r: Result<CompressionResult, CompressError>)
        requires
            image.wf(),
        ensures
            compress_spec(r, *image, options),
    {
        if image.width == 0 || image.height == 0 {
            return Err(CompressError::Encode);
        }
        let algorithm = match options.algorithm {
            CompressionAlgorithm::Auto => {
                let analysis = self.analyze_image(image);
                self.select_best_algorithm(&analysis)
            },
            other => other,
        };
        match algorithm {
            CompressionAlgorithm::Auto => Err(CompressError::Encode),
            CompressionAlgorithm::Simple => self.compress_standard_jpeg(image, &options),
            CompressionAlgorithm::StandardJpeg => self.compress_standard_jpeg(image, &options),
            CompressionAlgorithm::MozJpeg => self.compress_mozjpeg(image, &options),
            CompressionAlgorithm::StandardPng => self.compress_standard_png(image, &options),
            CompressionAlgorithm::OptiPng => self.compress_optipng(image, &options),
            CompressionAlgorithm::OxiPng => self.compress_oxipng(image, &options),
            CompressionAlgorithm::PngQuant => self.compress_pngquant(image, &options),
            CompressionAlgorithm::WebPLossy => self.compress_webp_lossy(image, &options),
            CompressionAlgorithm::WebPLossless => self.compress_webp_lossless(image, &options),
            CompressionAlgorithm::Avif => self.compress_avif(image, &options),
        }
    }

    /// Baseline JPEG of the RGB image.
    pub fn compress_standard_jpeg(&self, image: &RasterImage, options: &CompressionOptions) -> (r: Result<CompressionResult, CompressError>)
        requires
            image.wf(),
        ensures
            packages(r, encoded_outcome(*image, *options, CompressionAlgorithm::StandardJpeg), *image, CompressionAlgorithm::StandardJpeg),
    {
        if image.width == 0 || image.height == 0 {
            return Err(CompressError::Encode);
        }
        let rgb = image.to_rgb8();
        proof { lemma_rgb_len(*image); }
        let out = quality_family(QualityCodec::Jpeg, image.width, image.height, &rgb, options, 85);
        package(out, image, CompressionAlgorithm::StandardJpeg)
    }

    /// MozJPEG of the RGB image; for the web, with the DC scan of all components
    /// together and simple progression.
    pub fn compress_mozjpeg(&self, image: &RasterImage, options: &CompressionOptions) -> (r: Result<CompressionResult, CompressError>)
        requires
            image.wf(),
        ensures
            packages(r, encoded_outcome(*image, *options, CompressionAlgorithm::MozJpeg), *image, CompressionAlgorithm::MozJpeg),
    {
        if image.width == 0 || image.height == 0 {
            return Err(CompressError::Encode);
        }
        if image.width > 65500 || image.height > 65500 {
            return Err(CompressError::Encode);
        }
        let rgb = image.to_rgb8();
        proof { lemma_rgb_len(*image); }
        let codec = if options.optimize_for_web {
            QualityCodec::MozJpegWeb
        } else {
            QualityCodec::MozJpegDefault
        };
        let out = quality_family(codec, image.width, image.height, &rgb, options, 85);
        package(out, image, CompressionAlgorithm::MozJpeg)
    }

    /// PNG at best compression with adaptive filtering.
    pub fn compress_standard_png(&self, image: &RasterImage, options: &CompressionOptions) -> (r: Result<CompressionResult, CompressError>)
        requires
            image.wf(),
        ensures
            packages(r, encoded_outcome(*image, *options, CompressionAlgorithm::StandardPng), *image, CompressionAlgorithm::StandardPng),
    {
        if image.width == 0 || image.height == 0 {
            return Err(CompressError::Encode);
        }
        let png = png_encode(image.width, image.height, image.layout, &image.samples, PngLevel::Best, PngFilter::Adaptive);
        let out = single_encoding(png, options.target_size, None);
        package(out, image, CompressionAlgorithm::StandardPng)
    }

    /// The smallest of a default PNG and the best-compression PNGs with each row
    /// filter.
    pub fn compress_optipng(&self, image: &RasterImage, options: &CompressionOptions) -> (r: Result<CompressionResult, CompressError>)
        requires
            image.wf(),
        ensures
            packages(r, encoded_outcome(*image, *options, CompressionAlgorithm::OptiPng), *image, CompressionAlgorithm::OptiPng),
    {
        if image.width == 0 || image.height == 0 {
            return Err(CompressError::Encode);
        }
        let (w, h, layout) = (image.width, image.height, image.layout);
        let base = match png_encode(w, h, layout, &image.samples, PngLevel::Fast, PngFilter::Adaptive) {
            Some(b) => b,
            None => {
                return Err(CompressError::Encode);
            },
        };
        let ghost base_view = base@;
        let mut best = base;
        let mut i: usize = 0;
        while i < 6
            invariant
                image.wf(),
                w == image.width && h == image.height && layout == image.layout,
                i <= 6,
                best@ == smallest_png(w, h, layout, image.samples@, base_view, i as nat),
            decreases 6 - i,
        {
            let candidate = png_encode(w, h, layout, &image.samples, PngLevel::Best, filter_number(i));
            match candidate {
                Some(c) => {
                    if c.len() < best.len() {
                        best = c;
                    }
                },
                None => {},
            }
            i = i + 1;
        }
        let out = single_encoding(Some(best), options.target_size, None);
        package(out, image, CompressionAlgorithm::OptiPng)
    }

    /// A default PNG rewritten by the PNG optimizer.
    pub fn compress_oxipng(&self, image: &RasterImage, options: &CompressionOptions) -> (r: Result<CompressionResult, CompressError>)
        requires
            image.wf(),
        ensures
            packages(r, encoded_outcome(*image, *options, CompressionAlgorithm::OxiPng), *image, CompressionAlgorithm::OxiPng),
    {
        if image.width == 0 || image.height == 0 {
            return Err(CompressError::Encode);
        }
        let out = oxipng_path(image.width, image.height, image.layout, &image.samples, options);
        package(out, image, CompressionAlgorithm::OxiPng)
    }

    /// Posterizes to a 256-colour budget, then takes the PNG optimizer path; the
    /// result is reported under the quantizing algorithm.
    pub fn compress_pngquant(&self, image: &RasterImage, options: &CompressionOptions) -> (r: Result<CompressionResult, CompressError>)
        requires
            image.wf(),
        ensures
            packages(r, encoded_outcome(*image, *options, CompressionAlgorithm::PngQuant), *image, CompressionAlgorithm::PngQuant),
    {
        if image.width == 0 || image.height == 0 {
            return Err(CompressError::Encode);
        }
        let quantized = self.quantize_image(image, 256);
        proof { lemma_rgb_len(*image); }
        let out = oxipng_path(quantized.width, quantized.height, PixelLayout::Rgba, &quantized.samples, options);
        package(out, image, CompressionAlgorithm::PngQuant)
    }

    /// Lossy WebP of the RGBA image.
    pub fn compress_webp_lossy(&self, image: &RasterImage, options: &CompressionOptions) -> (r: Result<CompressionResult, CompressError>)
        requires
            image.wf(),
        ensures
            packages(r, encoded_outcome(*image, *options, CompressionAlgorithm::WebPLossy), *image, CompressionAlgorithm::WebPLossy),
    {
        if image.width == 0 || image.height == 0 {
            return Err(CompressError::Encode);
        }
        if image.width > 16383 || image.height > 16383 {
            return Err(CompressError::Encode);
        }
        let rgba = image.to_rgba8();
        proof { lemma_rgb_len(*image); }
        let out = quality_family(QualityCodec::WebPLossy, image.width, image.height, &rgba, options, 90);
        package(out, image, CompressionAlgorithm::WebPLossy)
    }

    /// Lossless WebP of the RGBA image; quality plays no part.
    pub fn compress_webp_lossless(&self, image: &RasterImage, options: &CompressionOptions) -> (r: Result<CompressionResult, CompressError>)
        requires
            image.wf(),
        ensures
            packages(r, encoded_outcome(*image, *options, CompressionAlgorithm::WebPLossless), *image, CompressionAlgorithm::WebPLossless),
    {
        if image.width == 0 || image.height == 0 {
            return Err(CompressError::Encode);
        }
        if image.width > 16383 || image.height > 16383 {
            return Err(CompressError::Encode);
        }
        let rgba = image.to_rgba8();
        proof { lemma_rgb_len(*image); }
        let encoded = webp_encode(image.width, image.height, &rgba, true, 75);
        let out = single_encoding(encoded, options.target_size, None);
        package(out, image, CompressionAlgorithm::WebPLossless)
    }

    /// AVIF of the RGBA image at the requested quality (80 when none is given);
    /// a quality over 100 is an encode error.
    pub fn compress_avif(&self, image: &RasterImage, options: &CompressionOptions) -> (r: Result<CompressionResult, CompressError>)
        requires
            image.wf(),
        ensures
            packages(r, encoded_outcome(*image, *options, CompressionAlgorithm::Avif), *image, CompressionAlgorithm::Avif),
    {
        if image.width == 0 || image.height == 0 {
            return Err(CompressError::Encode);
        }
        let quality = match options.quality {
            Some(0) => 1,
            Some(q) => q,
            None => 80,
        };
        if quality > 100 {
            return Err(CompressError::Encode);
        }
        let rgba = image.to_rgba8();
        proof { lemma_rgb_len(*image); }
        let encoded = avif_encode(image.width, image.height, &rgba, quality);
        let out = single_encoding(encoded, options.target_size, Some(quality));
        package(out, image, CompressionAlgorithm::Avif)
    }

    /// Uniform posterization to about `max_colors` colours, as an RGBA image.
    pub fn quantize_image(&self, image: &RasterImage, max_colors: usize) -> (r: RasterImage)
        requires
            image.wf(),
        ensures
            r.wf(),
            r.width == image.width && r.height == image.height,
            r.layout == PixelLayout::Rgba,
            r.samples@ == posterized(image.rgba_samples(), posterize_factor(max_colors as nat)),
    {
        let rgba = image.to_rgba8();
        let f = posterize_step(max_colors);
        let samples = posterize(&rgba, f);
        RasterImage { width: image.width, height: image.height, layout: PixelLayout::Rgba, samples }
    }
}

/// `Auto` is never the algorithm that runs: every request resolves to a
/// concrete member.
pub proof fn requests_resolve_to_concrete_algorithms(img: RasterImage, requested: CompressionAlgorithm)
    ensures
        resolved_algorithm(img, requested) != CompressionAlgorithm::Auto,
{
}

proof fn lemma_quality_path_within_budget(codec: QualityCodec, w: u32, h: u32, px: Seq<u8>, options: CompressionOptions, default: u8)
    requires
        options.target_size is Some,
    ensures
        quality_path(codec, w, h, px, options, default) matches Ok((d, _)) ==> d.len() <= options.target_size->Some_0,
{
    search_stops_at_budget_boundary(codec, w, h, px, options.target_size->Some_0);
}

/// With a byte budget, a compression that succeeds never returns more bytes
/// than the budget, whatever the algorithm.
pub proof fn successful_compression_meets_the_budget(img: RasterImage, options: CompressionOptions, a: CompressionAlgorithm)
    requires
        options.target_size is Some,
    ensures
        encoded_outcome(img, options, a) matches Ok((d, _)) ==> d.len() <= options.target_size->Some_0,
{
    let rgb = img.rgb_samples();
    let rgba = img.rgba_samples();
    lemma_quality_path_within_budget(QualityCodec::Jpeg, img.width, img.height, rgb, options, 85);
    lemma_quality_path_within_budget(QualityCodec::MozJpegDefault, img.width, img.height, rgb, options, 85);
    lemma_quality_path_within_budget(QualityCodec::MozJpegWeb, img.width, img.height, rgb, options, 85);
    lemma_quality_path_within_budget(QualityCodec::WebPLossy, img.width, img.height, rgba, options, 90);
}

/// Automatic selection on a translucent image with more than 256 sampled
/// colours compresses to lossy WebP; on an image that is no photograph and has
/// at most 256 sampled colours, to an optimized PNG without a quality.
pub proof fn automatic_selection_outcomes(r: Result<CompressionResult, CompressError>, img: RasterImage, options: CompressionOptions)
    requires
        options.algorithm == CompressionAlgorithm::Auto,
        compress_spec(r, img, options),
    ensures
        image_is_translucent(img) && image_color_count(img) > 256 ==> (r matches Ok(res)
            ==> res.algorithm_used == CompressionAlgorithm::WebPLossy && res.format == OutputFormat::WebP),
        !photo_signal(image_color_count(img), image_has_gradients(img)) && image_color_count(img) <= 256
            ==> (r matches Ok(res) ==> res.algorithm_used == CompressionAlgorithm::OxiPng
            && res.format == OutputFormat::Png && res.final_quality is None),
{
}

proof fn lemma_lowest_quality_over_budget(codec: QualityCodec, w: u32, h: u32, px: Seq<u8>, options: CompressionOptions, default: u8)
    requires
        options.target_size is Some,
        size_grows_with_quality(codec, w, h, px),
        !fits(codec, w, h, px, options.target_size->Some_0, SEARCH_LOW as int),
    ensures
        quality_path(codec, w, h, px, options, default) == Err::<(Seq<u8>, Option<u8>), CompressError>(CompressError::SizeUnreachable),
{
    let t = options.target_size->Some_0;
    search_stops_at_budget_boundary(codec, w, h, px, t);
    monotone_search_finds_highest_fitting_quality(codec, w, h, px, t);
    match crate::search::search_outcome(codec, w, h, px, t) {
        Some(Some((d, q))) => {
            assert(quality_encoding(codec, w, h, px, SEARCH_LOW) is Some);
            assert(quality_encoding(codec, w, h, px, q as int as u8) is Some);
        },
        _ => {},
    }
}

/// A JPEG-family compression with a budget that the lowest searched quality
/// already exceeds reports `SizeUnreachable`, where every quality encodes and
/// size grows with quality (the search's assumption).
pub proof fn jpeg_budget_under_lowest_quality_is_unreachable(img: RasterImage, options: CompressionOptions)
    requires
        has_area(img),
        options.target_size is Some,
        size_grows_with_quality(QualityCodec::Jpeg, img.width, img.height, img.rgb_samples()),
        !fits(QualityCodec::Jpeg, img.width, img.height, img.rgb_samples(), options.target_size->Some_0, SEARCH_LOW as int),
    ensures
        encoded_outcome(img, options, CompressionAlgorithm::StandardJpeg) == Err::<(Seq<u8>, Option<u8>), CompressError>(CompressError::SizeUnreachable),
        encoded_outcome(img, options, CompressionAlgorithm::Simple) == Err::<(Seq<u8>, Option<u8>), CompressError>(CompressError::SizeUnreachable),
{
    lemma_lowest_quality_over_budget(QualityCodec::Jpeg, img.width, img.height, img.rgb_samples(), options, 85);
}

/// Lossless WebP with a budget encodes once: the encoding itself when it fits,
/// `SizeUnreachable` when it does not, never an oversized success.
pub proof fn lossless_webp_budget_is_checked_once(img: RasterImage, options: CompressionOptions)
    requires
        has_area(img),
        img.width <= 16383,
        img.height <= 16383,
        options.target_size is Some,
        webp_encoding(img.width, img.height, img.rgba_samples(), true, 75) is Some,
    ensures
        ({
            let e = webp_encoding(img.width, img.height, img.rgba_samples(), true, 75)->Some_0;
            let outcome = encoded_outcome(img, options, CompressionAlgorithm::WebPLossless);
            &&& e.len() <= options.target_size->Some_0 ==> outcome == Ok::<(Seq<u8>, Option<u8>), CompressError>((e, None))
            &&& e.len() > options.target_size->Some_0 ==> outcome == Err::<(Seq<u8>, Option<u8>), CompressError>(CompressError::SizeUnreachable)
        }),
{
}

} // verus!
