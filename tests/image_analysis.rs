use image_resizer::analysis::{
    analyze_complexity, count_unique_colors, get_dominant_colors, has_alpha_channel, SAMPLE_BUDGET,
};
use image_resizer::{CompressionAlgorithm, ImageAnalysis, PixelLayout, RasterImage, SmartCompressor};

fn rgba_image(width: u32, height: u32, mut pixel: impl FnMut(u32, u32) -> [u8; 4]) -> RasterImage {
    let mut samples = Vec::new();
    for y in 0..height {
        for x in 0..width {
            samples.extend_from_slice(&pixel(x, y));
        }
    }
    RasterImage::new(width, height, PixelLayout::Rgba, samples).unwrap()
}

fn analysis(t: bool, count: usize, photo: bool) -> ImageAnalysis {
    ImageAnalysis {
        has_transparency: t,
        color_count: count,
        has_gradients: photo,
        is_photograph: photo,
        dominant_colors: Vec::new(),
    }
}

#[test]
fn opaque_images_have_no_transparency() {
    let c = SmartCompressor::new();
    let img = rgba_image(20, 10, |x, y| [(x * 12) as u8, (y * 20) as u8, 7, 255]);
    assert!(!c.analyze_image(&img).has_transparency);
    let rgb = RasterImage::new(2, 2, PixelLayout::Rgb, vec![1; 12]).unwrap();
    assert!(!c.analyze_image(&rgb).has_transparency);
}

#[test]
fn one_translucent_pixel_counts_as_transparency() {
    let c = SmartCompressor::new();
    let img = rgba_image(20, 10, |x, y| [1, 2, 3, if x == 19 && y == 9 { 254 } else { 255 }]);
    assert!(c.analyze_image(&img).has_transparency);
    let rgba = img.to_rgba8();
    assert!(has_alpha_channel(&rgba, 200));
    assert!(!has_alpha_channel(&rgba[..4 * 199].to_vec(), 199));
}

#[test]
fn color_count_is_capped_by_the_budget() {
    // 200 x 200 pixels, all distinct: every fourth pixel is sampled, 10 000 of them.
    let img = rgba_image(200, 200, |x, y| [x as u8, y as u8, ((x + y) % 7) as u8, 255]);
    let a = SmartCompressor::new().analyze_image(&img);
    assert_eq!(a.color_count, SAMPLE_BUDGET);
    assert!(a.color_count <= 10000);
}

#[test]
fn color_count_is_exact_under_the_budget() {
    let img = rgba_image(30, 10, |x, _| [x as u8, 0, 0, 255]);
    let rgba = img.to_rgba8();
    assert_eq!(count_unique_colors(&rgba, 300, 10000), 30);
    // A stride of 25 over thirty columns meets only six of them.
    assert_eq!(count_unique_colors(&rgba, 300, 12), 6);
    // With a budget of 100 the stride is 3: columns 0, 3, ..., 27 in each row.
    assert_eq!(count_unique_colors(&rgba, 300, 100), 10);
}

#[test]
fn color_count_stops_at_a_small_budget() {
    let img = rgba_image(300, 1, |x, _| [x as u8, (x >> 8) as u8, 0, 255]);
    assert_eq!(count_unique_colors(&img.to_rgba8(), 300, 12), 12);
}

#[test]
fn dominant_colors_are_the_five_most_frequent_in_order() {
    // Colour k (k = 1..=7) covers k * 10 pixels.
    let mut samples = Vec::new();
    for k in 1..=7u8 {
        for _ in 0..(k as usize * 10) {
            samples.extend_from_slice(&[k, 10 * k, 0, 255]);
        }
    }
    let n = samples.len() / 4;
    let top = get_dominant_colors(&samples, n, 5);
    assert_eq!(top, vec![[7, 70, 0], [6, 60, 0], [5, 50, 0], [4, 40, 0], [3, 30, 0]]);
    let img = RasterImage::new(n as u32, 1, PixelLayout::Rgba, samples).unwrap();
    let a = SmartCompressor::new().analyze_image(&img);
    assert!(a.dominant_colors.len() <= 5);
    assert_eq!(a.dominant_colors[0], [7, 70, 0]);
}

#[test]
fn dominant_colors_of_a_few_colours_list_them_all() {
    let samples = vec![9, 9, 9, 255, 1, 1, 1, 0, 9, 9, 9, 255];
    let top = get_dominant_colors(&samples, 3, 5);
    assert_eq!(top, vec![[9, 9, 9], [1, 1, 1]]);
    assert!(get_dominant_colors(&Vec::new(), 0, 5).is_empty());
}

#[test]
fn flat_image_has_no_gradients() {
    let img = rgba_image(40, 40, |_, _| [50, 60, 70, 255]);
    assert!(!analyze_complexity(&img.to_rgba8(), 40, 40));
}

#[test]
fn striped_image_has_gradients() {
    let img = rgba_image(40, 40, |x, _| if x % 2 == 0 { [0, 0, 0, 255] } else { [255, 255, 255, 255] });
    assert!(analyze_complexity(&img.to_rgba8(), 40, 40));
    // A step of 10 in one channel is not beyond the threshold; 11 is.
    let soft = rgba_image(9, 9, |x, _| [(x % 2 * 10) as u8, 0, 0, 255]);
    assert!(!analyze_complexity(&soft.to_rgba8(), 9, 9));
    let hard = rgba_image(9, 9, |x, _| [(x % 2 * 11) as u8, 0, 0, 255]);
    assert!(analyze_complexity(&hard.to_rgba8(), 9, 9));
}

#[test]
fn selector_gives_the_same_answer_twice() {
    let c = SmartCompressor::new();
    let a = analysis(true, 300, false);
    assert_eq!(c.select_best_algorithm(&a), c.select_best_algorithm(&a));
}

#[test]
fn selector_rules_in_order() {
    let c = SmartCompressor::new();
    assert_eq!(c.select_best_algorithm(&analysis(false, 5000, true)), CompressionAlgorithm::MozJpeg);
    assert_eq!(c.select_best_algorithm(&analysis(true, 257, false)), CompressionAlgorithm::WebPLossy);
    assert_eq!(c.select_best_algorithm(&analysis(true, 256, false)), CompressionAlgorithm::OxiPng);
    assert_eq!(c.select_best_algorithm(&analysis(false, 256, false)), CompressionAlgorithm::OxiPng);
    assert_eq!(c.select_best_algorithm(&analysis(true, 5000, true)), CompressionAlgorithm::WebPLossy);
    assert_eq!(c.select_best_algorithm(&analysis(false, 257, false)), CompressionAlgorithm::WebPLossy);
}

#[test]
fn transparent_corner_with_300_colours_selects_lossy_webp() {
    let img = rgba_image(100, 100, |x, y| {
        let k = (y * 100 + x) % 300;
        let alpha = if x == 0 && y == 0 { 0 } else { 255 };
        [(k % 256) as u8, (k / 256) as u8, 3, alpha]
    });
    let c = SmartCompressor::new();
    let a = c.analyze_image(&img);
    assert!(a.has_transparency);
    assert_eq!(a.color_count, 300);
    assert!(!a.is_photograph);
    assert_eq!(c.select_best_algorithm(&a), CompressionAlgorithm::WebPLossy);
}

#[test]
fn flat_two_colour_image_selects_png() {
    let img = rgba_image(50, 50, |x, _| if x < 25 { [200, 0, 0, 255] } else { [0, 0, 200, 255] });
    let c = SmartCompressor::new();
    let a = c.analyze_image(&img);
    assert!(!a.has_transparency);
    assert_eq!(a.color_count, 2);
    assert!(!a.is_photograph);
    assert_eq!(c.select_best_algorithm(&a), CompressionAlgorithm::OxiPng);
}

#[test]
fn noisy_photo_like_image_selects_jpeg() {
    let mut seed: u32 = 12345;
    let img = rgba_image(128, 128, |_, _| {
        seed = seed.wrapping_mul(1103515245).wrapping_add(12345);
        let v = seed >> 8;
        [v as u8, (v >> 8) as u8, (v >> 16) as u8, 255]
    });
    let c = SmartCompressor::new();
    let a = c.analyze_image(&img);
    assert!(a.color_count > 1000);
    assert!(a.has_gradients);
    assert!(a.is_photograph);
    assert_eq!(c.select_best_algorithm(&a), CompressionAlgorithm::MozJpeg);
}
