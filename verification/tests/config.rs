use mt4y::config::{
    clamp_quality, CompressionConfig, DEFAULT_IMAGE_OUTPUT, DEFAULT_QUALITY,
    DEFAULT_THUMBNAIL_SECOND, DEFAULT_VIDEO_OUTPUT, MAX_QUALITY, SHARPEN_SIGMA_TENTHS,
    SHARPEN_THRESHOLD,
};
use mt4y::error::ValidationError;

#[test]
fn the_defaults() {
    assert_eq!(DEFAULT_QUALITY, 70);
    assert_eq!(MAX_QUALITY, 100);
    assert_eq!(DEFAULT_THUMBNAIL_SECOND, 1);
    assert_eq!(DEFAULT_IMAGE_OUTPUT, "output.jpg");
    assert_eq!(DEFAULT_VIDEO_OUTPUT, "output.mp4");
    assert_eq!(SHARPEN_SIGMA_TENTHS, 5);
    assert_eq!(SHARPEN_THRESHOLD, 10);
}

#[test]
fn nothing_asked_for_means_source_dimensions_and_quality_70() {
    let config = CompressionConfig::new(None, None, None).unwrap();
    assert_eq!(config, CompressionConfig { width: None, height: None, quality: 70 });
    assert_eq!(config.target(640, 480), (640, 480));
}

#[test]
fn what_is_asked_for_is_the_target() {
    let config = CompressionConfig::new(Some(320), Some(200), Some(85)).unwrap();
    assert_eq!(config, CompressionConfig { width: Some(320), height: Some(200), quality: 85 });
    assert_eq!(config.target(640, 480), (320, 200));
    let wide = CompressionConfig::new(Some(320), None, None).unwrap();
    assert_eq!(wide.target(640, 480), (320, 480));
    let tall = CompressionConfig::new(None, Some(200), None).unwrap();
    assert_eq!(tall.target(640, 480), (640, 200));
}

#[test]
fn quality_is_moved_into_range() {
    assert_eq!(clamp_quality(-1), 0);
    assert_eq!(clamp_quality(0), 0);
    assert_eq!(clamp_quality(70), 70);
    assert_eq!(clamp_quality(100), 100);
    assert_eq!(clamp_quality(101), 100);
    assert_eq!(clamp_quality(i64::MAX), 100);
    assert_eq!(clamp_quality(i64::MIN), 0);
    assert_eq!(CompressionConfig::new(None, None, Some(250)).unwrap().quality, 100);
    assert_eq!(CompressionConfig::new(None, None, Some(-3)).unwrap().quality, 0);
}

#[test]
fn dimensions_must_be_positive() {
    assert_eq!(CompressionConfig::new(Some(0), None, None), Err(ValidationError::EmptyDimension));
    assert_eq!(CompressionConfig::new(None, Some(0), None), Err(ValidationError::EmptyDimension));
    assert_eq!(CompressionConfig::new(Some(-4), None, None), Err(ValidationError::EmptyDimension));
}

#[test]
fn dimensions_must_fit() {
    assert_eq!(
        CompressionConfig::new(Some(u32::MAX as i64 + 1), None, None),
        Err(ValidationError::DimensionTooLarge)
    );
    assert_eq!(
        CompressionConfig::new(Some(u32::MAX as i64), None, None).unwrap().width,
        Some(u32::MAX)
    );
}

#[test]
fn the_width_is_checked_before_the_height() {
    assert_eq!(
        CompressionConfig::new(Some(i64::MAX), Some(0), None),
        Err(ValidationError::DimensionTooLarge)
    );
    assert_eq!(
        CompressionConfig::new(Some(0), Some(i64::MAX), None),
        Err(ValidationError::EmptyDimension)
    );
}

#[test]
fn the_target_of_the_target_is_the_target() {
    for config in [
        CompressionConfig::new(None, None, None).unwrap(),
        CompressionConfig::new(Some(320), None, None).unwrap(),
        CompressionConfig::new(None, Some(200), None).unwrap(),
        CompressionConfig::new(Some(320), Some(200), None).unwrap(),
    ] {
        let (width, height) = config.target(640, 480);
        assert_eq!(config.target(width, height), (width, height));
    }
}
