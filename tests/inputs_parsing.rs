use image_resizer::inputs::{is_image_file, is_listed_extension, parse_dimensions};

#[test]
fn dimensions_parse_when_both_are_numbers() {
    assert_eq!(parse_dimensions("800", "600"), Some((800, 600)));
    assert_eq!(parse_dimensions("+5", "007"), Some((5, 7)));
    assert_eq!(parse_dimensions("4294967295", "1"), Some((4294967295, 1)));
}

#[test]
fn dimensions_reject_other_text() {
    assert_eq!(parse_dimensions("", "600"), None);
    assert_eq!(parse_dimensions(" 800", "600"), None);
    assert_eq!(parse_dimensions("800", "-1"), None);
    assert_eq!(parse_dimensions("abc", "1"), None);
    assert_eq!(parse_dimensions("4294967296", "1"), None);
    assert_eq!(parse_dimensions("+", "1"), None);
}

#[test]
fn image_extensions_ignore_case() {
    assert!(is_image_file(Some("JPG")));
    assert!(is_image_file(Some("Jpeg")));
    assert!(is_image_file(Some("webp")));
    assert!(is_image_file(Some("AVIF")));
    assert!(!is_image_file(Some("txt")));
    assert!(!is_image_file(Some("tiff")));
    assert!(!is_image_file(None));
}

#[test]
fn quick_path_extensions_leave_out_avif() {
    assert!(image_resizer::simple::is_image_file(Some("PNG")));
    assert!(image_resizer::simple::is_image_file(Some("gif")));
    assert!(!image_resizer::simple::is_image_file(Some("avif")));
    assert!(!image_resizer::simple::is_image_file(None));
}

#[test]
fn listed_extension_needs_lower_case() {
    assert!(is_listed_extension("bmp", false));
    assert!(!is_listed_extension("BMP", false));
    assert!(is_listed_extension("avif", true));
    assert!(!is_listed_extension("avif", false));
}
