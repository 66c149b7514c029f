use image_resizer::CompressionAlgorithm;

#[test]
fn quality_support_matches_families() {
    assert!(CompressionAlgorithm::StandardJpeg.supports_quality());
    assert!(CompressionAlgorithm::MozJpeg.supports_quality());
    assert!(CompressionAlgorithm::WebPLossy.supports_quality());
    assert!(CompressionAlgorithm::Avif.supports_quality());
    assert!(!CompressionAlgorithm::OxiPng.supports_quality());
    assert!(!CompressionAlgorithm::WebPLossless.supports_quality());
    assert!(!CompressionAlgorithm::Auto.supports_quality());
}

#[test]
fn recommended_qualities() {
    assert_eq!(CompressionAlgorithm::StandardJpeg.recommended_quality(), 85);
    assert_eq!(CompressionAlgorithm::MozJpeg.recommended_quality(), 85);
    assert_eq!(CompressionAlgorithm::WebPLossy.recommended_quality(), 90);
    assert_eq!(CompressionAlgorithm::Avif.recommended_quality(), 80);
    assert_eq!(CompressionAlgorithm::PngQuant.recommended_quality(), 100);
}

#[test]
fn file_extensions() {
    assert_eq!(CompressionAlgorithm::Auto.file_extension(), "jpg");
    assert_eq!(CompressionAlgorithm::Simple.file_extension(), "jpg");
    assert_eq!(CompressionAlgorithm::MozJpeg.file_extension(), "jpg");
    assert_eq!(CompressionAlgorithm::OptiPng.file_extension(), "png");
    assert_eq!(CompressionAlgorithm::PngQuant.file_extension(), "png");
    assert_eq!(CompressionAlgorithm::WebPLossless.file_extension(), "webp");
    assert_eq!(CompressionAlgorithm::Avif.file_extension(), "avif");
}

#[test]
fn descriptions_and_labels() {
    assert_eq!(
        CompressionAlgorithm::Auto.description(),
        "Automatically select best algorithm based on image analysis"
    );
    assert_eq!(CompressionAlgorithm::Avif.description(), "AV1 Image Format (best compression, slower)");
    assert_eq!(CompressionAlgorithm::PngQuant.label(), "PNG (PNGQuant Lossy)");
    assert_eq!(CompressionAlgorithm::Simple.label(), "Simple (Fast)");
}

#[test]
fn default_algorithm_is_simple() {
    assert_eq!(CompressionAlgorithm::default(), CompressionAlgorithm::Simple);
}
