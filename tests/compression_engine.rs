use image::ImageEncoder;
use image_resizer::compressor::{CompressError, CompressionOptions};
use image_resizer::simple::{compress_to_size, save_to_buffer};
use image_resizer::{CompressionAlgorithm, OutputFormat, PixelLayout, RasterImage, SmartCompressor};

fn image_of(width: u32, height: u32, layout: PixelLayout, mut sample: impl FnMut(u32, u32, u32) -> u8) -> RasterImage {
    let channels = match layout {
        PixelLayout::Gray => 1,
        PixelLayout::GrayAlpha => 2,
        PixelLayout::Rgb => 3,
        PixelLayout::Rgba => 4,
    };
    let mut samples = Vec::new();
    for y in 0..height {
        for x in 0..width {
            for c in 0..channels {
                samples.push(sample(x, y, c));
            }
        }
    }
    RasterImage::new(width, height, layout, samples).unwrap()
}

fn smooth(width: u32, height: u32) -> RasterImage {
    image_of(width, height, PixelLayout::Rgb, |x, y, c| ((x * 3 + y * 2 + c * 40) % 256) as u8)
}

fn noise(width: u32, height: u32) -> RasterImage {
    let mut seed: u32 = 99;
    image_of(width, height, PixelLayout::Rgb, move |_, _, _| {
        seed = seed.wrapping_mul(1664525).wrapping_add(1013904223);
        (seed >> 24) as u8
    })
}

fn options(algorithm: CompressionAlgorithm, quality: Option<u8>, target_size: Option<u64>) -> CompressionOptions {
    CompressionOptions { algorithm, quality, target_size, preserve_metadata: false, optimize_for_web: true }
}

fn decoded_size(bytes: &[u8]) -> (u32, u32) {
    let img = image::load_from_memory(bytes).unwrap();
    (img.width(), img.height())
}

#[test]
fn default_options() {
    let o = CompressionOptions::default();
    assert_eq!(o.algorithm, CompressionAlgorithm::Auto);
    assert_eq!(o.quality, None);
    assert_eq!(o.target_size, None);
    assert!(!o.preserve_metadata);
    assert!(o.optimize_for_web);
}

#[test]
fn each_family_writes_its_own_format() {
    let c = SmartCompressor::new();
    let img = smooth(24, 16);
    let cases = [
        (CompressionAlgorithm::Simple, OutputFormat::Jpeg, CompressionAlgorithm::StandardJpeg),
        (CompressionAlgorithm::StandardJpeg, OutputFormat::Jpeg, CompressionAlgorithm::StandardJpeg),
        (CompressionAlgorithm::MozJpeg, OutputFormat::Jpeg, CompressionAlgorithm::MozJpeg),
        (CompressionAlgorithm::StandardPng, OutputFormat::Png, CompressionAlgorithm::StandardPng),
        (CompressionAlgorithm::OptiPng, OutputFormat::Png, CompressionAlgorithm::OptiPng),
        (CompressionAlgorithm::OxiPng, OutputFormat::Png, CompressionAlgorithm::OxiPng),
        (CompressionAlgorithm::PngQuant, OutputFormat::Png, CompressionAlgorithm::PngQuant),
        (CompressionAlgorithm::WebPLossy, OutputFormat::WebP, CompressionAlgorithm::WebPLossy),
        (CompressionAlgorithm::WebPLossless, OutputFormat::WebP, CompressionAlgorithm::WebPLossless),
        (CompressionAlgorithm::Avif, OutputFormat::Avif, CompressionAlgorithm::Avif),
    ];
    for (requested, format, used) in cases {
        let r = c.compress(&img, options(requested, None, None)).unwrap();
        assert_eq!(r.format, format);
        assert_eq!(r.algorithm_used, used);
        assert_eq!(r.raw_size, 24 * 16 * 3);
        match format {
            OutputFormat::Jpeg => assert_eq!(&r.data[..2], &[0xFF, 0xD8]),
            OutputFormat::Png => assert_eq!(&r.data[..4], &[0x89, b'P', b'N', b'G']),
            OutputFormat::WebP => {
                assert_eq!(&r.data[..4], b"RIFF");
                assert_eq!(&r.data[8..12], b"WEBP");
            },
            OutputFormat::Avif => assert_eq!(&r.data[4..8], b"ftyp"),
        }
    }
}

#[test]
fn final_quality_defaults_per_family() {
    let c = SmartCompressor::new();
    let img = smooth(16, 16);
    let q = |a| c.compress(&img, options(a, None, None)).unwrap().final_quality;
    assert_eq!(q(CompressionAlgorithm::StandardJpeg), Some(85));
    assert_eq!(q(CompressionAlgorithm::MozJpeg), Some(85));
    assert_eq!(q(CompressionAlgorithm::WebPLossy), Some(90));
    assert_eq!(q(CompressionAlgorithm::Avif), Some(80));
    assert_eq!(q(CompressionAlgorithm::OxiPng), None);
    assert_eq!(q(CompressionAlgorithm::WebPLossless), None);
    let r = c.compress(&img, options(CompressionAlgorithm::WebPLossy, Some(40), None)).unwrap();
    assert_eq!(r.final_quality, Some(40));
}

#[test]
fn decoded_output_keeps_the_dimensions() {
    let c = SmartCompressor::new();
    let img = smooth(37, 21);
    for a in [
        CompressionAlgorithm::StandardJpeg,
        CompressionAlgorithm::MozJpeg,
        CompressionAlgorithm::StandardPng,
        CompressionAlgorithm::OptiPng,
        CompressionAlgorithm::OxiPng,
        CompressionAlgorithm::PngQuant,
        CompressionAlgorithm::WebPLossy,
        CompressionAlgorithm::WebPLossless,
    ] {
        let r = c.compress(&img, options(a, None, None)).unwrap();
        assert_eq!(decoded_size(&r.data), (37, 21), "{:?}", a);
    }
    let mut plain = options(CompressionAlgorithm::MozJpeg, Some(70), None);
    plain.optimize_for_web = false;
    let r = c.compress(&img, plain).unwrap();
    assert_eq!(decoded_size(&r.data), (37, 21));
}

#[test]
fn lossless_outputs_decode_to_the_same_pixels() {
    let c = SmartCompressor::new();
    let img = smooth(19, 11);
    for a in [CompressionAlgorithm::StandardPng, CompressionAlgorithm::OptiPng, CompressionAlgorithm::OxiPng] {
        let r = c.compress(&img, options(a, None, None)).unwrap();
        let back = image::load_from_memory(&r.data).unwrap().to_rgb8().into_raw();
        assert_eq!(back, img.samples, "{:?}", a);
    }
}

#[test]
fn jpeg_size_does_not_shrink_as_quality_grows() {
    let c = SmartCompressor::new();
    let img = noise(96, 96);
    for a in [CompressionAlgorithm::StandardJpeg, CompressionAlgorithm::MozJpeg, CompressionAlgorithm::WebPLossy] {
        let sizes: Vec<usize> = [10u8, 30, 50, 70, 95]
            .iter()
            .map(|q| c.compress(&img, options(a, Some(*q), None)).unwrap().data.len())
            .collect();
        for pair in sizes.windows(2) {
            assert!(pair[0] <= pair[1], "{:?}: {:?}", a, sizes);
        }
    }
}

#[test]
fn target_size_finds_the_highest_quality_within_budget() {
    let c = SmartCompressor::new();
    let img = noise(64, 64);
    let size_at = |q: u8| c.compress(&img, options(CompressionAlgorithm::StandardJpeg, Some(q), None)).unwrap().data.len() as u64;
    let target = size_at(50);
    let r = c.compress(&img, options(CompressionAlgorithm::StandardJpeg, None, Some(target))).unwrap();
    let q = r.final_quality.unwrap();
    assert!((10..=95).contains(&q));
    assert!(r.data.len() as u64 <= target);
    assert_eq!(r.data.len() as u64, size_at(q));
    assert!(q == 95 || size_at(q + 1) > target);
    assert!(q >= 50);
}

#[test]
fn jpeg_budget_below_quality_ten_is_unreachable() {
    let c = SmartCompressor::new();
    let img = noise(600, 600);
    let at_ten = c.compress(&img, options(CompressionAlgorithm::StandardJpeg, Some(10), None)).unwrap();
    assert!(at_ten.data.len() > 20_000);
    let r = c.compress(&img, options(CompressionAlgorithm::StandardJpeg, None, Some(20_000)));
    assert_eq!(r.err(), Some(CompressError::SizeUnreachable));
}

#[test]
fn lossless_webp_with_a_budget_encodes_once() {
    let c = SmartCompressor::new();
    let img = smooth(40, 40);
    let free = c.compress(&img, options(CompressionAlgorithm::WebPLossless, None, None)).unwrap();
    let roomy = c
        .compress(&img, options(CompressionAlgorithm::WebPLossless, Some(20), Some(free.data.len() as u64)))
        .unwrap();
    assert_eq!(roomy.data, free.data);
    let tight = c.compress(&img, options(CompressionAlgorithm::WebPLossless, None, Some(free.data.len() as u64 - 1)));
    assert_eq!(tight.err(), Some(CompressError::SizeUnreachable));
}

#[test]
fn png_and_avif_budgets_are_checked_once() {
    let c = SmartCompressor::new();
    let img = smooth(16, 16);
    for a in [CompressionAlgorithm::StandardPng, CompressionAlgorithm::OxiPng, CompressionAlgorithm::Avif] {
        let r = c.compress(&img, options(a, None, Some(10)));
        assert_eq!(r.err(), Some(CompressError::SizeUnreachable), "{:?}", a);
    }
}

#[test]
fn filter_search_is_no_larger_than_standard_png() {
    let c = SmartCompressor::new();
    let img = noise(32, 32);
    let standard = c.compress(&img, options(CompressionAlgorithm::StandardPng, None, None)).unwrap();
    let searched = c.compress(&img, options(CompressionAlgorithm::OptiPng, None, None)).unwrap();
    assert!(searched.data.len() <= standard.data.len());
}

#[test]
fn quantized_png_holds_multiples_of_sixteen() {
    let c = SmartCompressor::new();
    let img = noise(20, 20);
    let r = c.compress(&img, options(CompressionAlgorithm::PngQuant, None, None)).unwrap();
    let back = image::load_from_memory(&r.data).unwrap().to_rgba8().into_raw();
    assert_eq!(back.len(), 20 * 20 * 4);
    for (i, v) in back.iter().enumerate() {
        if i % 4 == 3 {
            assert_eq!(*v, 255);
        } else {
            assert_eq!(v % 16, 0);
        }
    }
    assert_eq!(r.raw_size, 20 * 20 * 3);
}

#[test]
fn quantize_image_posterizes_colours_and_keeps_alpha() {
    let c = SmartCompressor::new();
    let img = RasterImage::new(2, 1, PixelLayout::Rgba, vec![17, 255, 31, 7, 0, 15, 16, 200]).unwrap();
    let q = c.quantize_image(&img, 256);
    assert_eq!(q.layout, PixelLayout::Rgba);
    assert_eq!(q.samples, vec![16, 240, 16, 7, 0, 0, 16, 200]);
    assert_eq!(image_resizer::raster::posterize_step(256), 16);
    assert_eq!(image_resizer::raster::posterize_step(0), 255);
    assert_eq!(image_resizer::raster::posterize_step(2), 181);
    assert_eq!(image_resizer::raster::posterize_step(65536), 1);
    assert_eq!(image_resizer::raster::posterize_step(1_000_000), 1);
}

#[test]
fn empty_image_is_an_encode_error() {
    let c = SmartCompressor::new();
    let img = RasterImage::new(0, 5, PixelLayout::Rgb, Vec::new()).unwrap();
    for a in [CompressionAlgorithm::Auto, CompressionAlgorithm::StandardJpeg, CompressionAlgorithm::OxiPng] {
        assert_eq!(c.compress(&img, options(a, None, None)).err(), Some(CompressError::Encode));
    }
}

#[test]
fn lossy_webp_quality_over_one_hundred_fails() {
    let c = SmartCompressor::new();
    let img = smooth(8, 8);
    let r = c.compress(&img, options(CompressionAlgorithm::WebPLossy, Some(150), None));
    assert_eq!(r.err(), Some(CompressError::Encode));
}

#[test]
fn auto_resolves_by_analysis() {
    let c = SmartCompressor::new();
    let flat = image_of(50, 50, PixelLayout::Rgba, |x, _, ch| if ch == 3 { 255 } else if x < 25 { 200 } else { 10 });
    let r = c.compress(&flat, options(CompressionAlgorithm::Auto, None, None)).unwrap();
    assert_eq!(r.algorithm_used, CompressionAlgorithm::OxiPng);
    assert_eq!(r.format, OutputFormat::Png);
    let corner = image_of(100, 100, PixelLayout::Rgba, |x, y, ch| {
        let k = (y * 100 + x) % 300;
        match ch {
            0 => (k % 256) as u8,
            1 => (k / 256) as u8,
            2 => 3,
            _ => if x == 0 && y == 0 { 0 } else { 255 },
        }
    });
    let r = c.compress(&corner, options(CompressionAlgorithm::Auto, None, None)).unwrap();
    assert_eq!(r.algorithm_used, CompressionAlgorithm::WebPLossy);
    assert_eq!(r.format, OutputFormat::WebP);
}

#[test]
fn raw_size_follows_the_layout() {
    let gray = image_of(10, 10, PixelLayout::Gray, |x, _, _| x as u8);
    let gray_alpha = image_of(10, 10, PixelLayout::GrayAlpha, |x, _, _| x as u8);
    assert_eq!(gray.estimate_raw_size(), 100);
    assert_eq!(gray_alpha.estimate_raw_size(), 200);
    assert_eq!(smooth(10, 10).estimate_raw_size(), 300);
    assert_eq!(image_of(10, 10, PixelLayout::Rgba, |_, _, _| 0).estimate_raw_size(), 400);
    let r = SmartCompressor::new()
        .compress(&gray, options(CompressionAlgorithm::OxiPng, None, None))
        .unwrap();
    assert_eq!(r.raw_size, 100);
}

#[test]
fn layouts_convert_to_rgba_and_rgb() {
    let gray_alpha = RasterImage::new(2, 1, PixelLayout::GrayAlpha, vec![10, 20, 30, 40]).unwrap();
    assert_eq!(gray_alpha.to_rgba8(), vec![10, 10, 10, 20, 30, 30, 30, 40]);
    assert_eq!(gray_alpha.to_rgb8(), vec![10, 10, 10, 30, 30, 30]);
    let rgba = RasterImage::new(1, 1, PixelLayout::Rgba, vec![1, 2, 3, 4]).unwrap();
    assert_eq!(rgba.to_rgb8(), vec![1, 2, 3]);
    assert!(RasterImage::new(2, 2, PixelLayout::Rgb, vec![0; 11]).is_none());
}

#[test]
fn quick_path_takes_the_first_quality_within_budget() {
    let img = smooth(64, 64);
    let at_95 = save_to_buffer(&img, 95).unwrap();
    assert_eq!(compress_to_size(&img, 1_000_000, false).unwrap(), at_95);
    assert_eq!(compress_to_size(&img, u64::MAX, false).unwrap(), at_95);
    let noisy = noise(200, 200);
    assert_eq!(compress_to_size(&noisy, 1, false).err(), Some(CompressError::SizeUnreachable));
}

#[test]
fn quick_path_downscales_when_allowed() {
    let img = noise(120, 90);
    let at_20 = save_to_buffer(&img, 20).unwrap().len() as u64;
    let target_kb = at_20 / 1024 - 1;
    assert_eq!(compress_to_size(&img, target_kb, false).err(), Some(CompressError::SizeUnreachable));
    // The same steps, done here with the image crate directly.
    let mut expected = None;
    let mut current = image::DynamicImage::ImageRgb8(image::RgbImage::from_raw(120, 90, img.samples.clone()).unwrap());
    for _ in 0..6 {
        let (w, h) = (current.width() * 9 / 10, current.height() * 9 / 10);
        current = current.resize_exact(w, h, image::imageops::FilterType::Lanczos3);
        let mut out = Vec::new();
        image::codecs::jpeg::JpegEncoder::new_with_quality(&mut out, 75)
            .encode(current.as_bytes(), w, h, image::ColorType::Rgb8)
            .unwrap();
        if out.len() as u64 <= target_kb * 1024 {
            expected = Some(out);
            break;
        }
    }
    match expected {
        Some(bytes) => {
            let got = compress_to_size(&img, target_kb, true).unwrap();
            assert_eq!(got, bytes);
            let (w, h) = decoded_size(&got);
            assert!(w < 120 && h < 90);
        },
        None => assert_eq!(compress_to_size(&img, target_kb, true).err(), Some(CompressError::SizeUnreachable)),
    }
}

#[test]
fn png_optimizer_rewrites_the_default_stream() {
    let c = SmartCompressor::new();
    let img = smooth(64, 64);
    let mut fast = Vec::new();
    image::codecs::png::PngEncoder::new(&mut fast)
        .write_image(&img.samples, 64, 64, image::ColorType::Rgb8)
        .unwrap();
    let r = c.compress(&img, options(CompressionAlgorithm::OxiPng, None, None)).unwrap();
    assert_ne!(r.data, fast);
    assert!(r.data.len() < fast.len());
}

#[test]
fn avif_quality_reaches_the_encoder() {
    let c = SmartCompressor::new();
    let img = noise(24, 24);
    let low = c.compress(&img, options(CompressionAlgorithm::Avif, Some(20), None)).unwrap();
    let high = c.compress(&img, options(CompressionAlgorithm::Avif, Some(95), None)).unwrap();
    assert_eq!(low.final_quality, Some(20));
    assert_eq!(high.final_quality, Some(95));
    assert_ne!(low.data, high.data);
    assert!(low.data.len() < high.data.len());
    let again = c.compress(&img, options(CompressionAlgorithm::Avif, Some(20), None)).unwrap();
    assert_eq!(again.data, low.data);
}

#[test]
fn avif_quality_outside_its_scale() {
    let c = SmartCompressor::new();
    let img = smooth(8, 8);
    let zero = c.compress(&img, options(CompressionAlgorithm::Avif, Some(0), None)).unwrap();
    assert_eq!(zero.final_quality, Some(1));
    let over = c.compress(&img, options(CompressionAlgorithm::Avif, Some(101), None));
    assert_eq!(over.err(), Some(CompressError::Encode));
}

#[test]
fn adapters_reject_an_empty_image() {
    let c = SmartCompressor::new();
    let img = RasterImage::new(4, 0, PixelLayout::Rgba, Vec::new()).unwrap();
    let o = options(CompressionAlgorithm::Auto, None, None);
    assert_eq!(c.compress_standard_jpeg(&img, &o).err(), Some(CompressError::Encode));
    assert_eq!(c.compress_mozjpeg(&img, &o).err(), Some(CompressError::Encode));
    assert_eq!(c.compress_standard_png(&img, &o).err(), Some(CompressError::Encode));
    assert_eq!(c.compress_optipng(&img, &o).err(), Some(CompressError::Encode));
    assert_eq!(c.compress_oxipng(&img, &o).err(), Some(CompressError::Encode));
    assert_eq!(c.compress_pngquant(&img, &o).err(), Some(CompressError::Encode));
    assert_eq!(c.compress_webp_lossy(&img, &o).err(), Some(CompressError::Encode));
    assert_eq!(c.compress_webp_lossless(&img, &o).err(), Some(CompressError::Encode));
    assert_eq!(c.compress_avif(&img, &o).err(), Some(CompressError::Encode));
}
