use mt4y::config::{CompressionConfig, SHARPEN_SIGMA_TENTHS, SHARPEN_THRESHOLD};
use mt4y::encode::encode;
use mt4y::error::{DecodeError, EncodeError, PipelineError, ValidationError};
use mt4y::grid::PixelGrid;
use mt4y::pipeline::{Action, CompressionResult, Event, Pipeline, Stage};
use mt4y::segment::{MetadataSegment, RawSegment};

fn picture(width: u32, height: u32) -> PixelGrid {
    let mut data = Vec::new();
    for y in 0..height {
        for x in 0..width {
            data.push((x * 7 % 256) as u8);
            data.push((y * 11 % 256) as u8);
            data.push(((x * y) % 256) as u8);
        }
    }
    PixelGrid::new(width, height, data).unwrap()
}

fn input_with_segments(width: u32, height: u32) -> Vec<u8> {
    let segments = vec![
        MetadataSegment::from_raw(RawSegment { code: 0xE1, payload: b"Exif\0\0first".to_vec() })
            .unwrap(),
        MetadataSegment::from_raw(RawSegment { code: 0xE2, payload: b"ICC_PROFILE\0".to_vec() })
            .unwrap(),
        MetadataSegment::from_raw(RawSegment { code: 0xFE, payload: b"a comment".to_vec() })
            .unwrap(),
    ];
    encode(&picture(width, height), &segments, 95).unwrap()
}

fn code_of(marker: mozjpeg::Marker) -> u8 {
    match marker {
        mozjpeg::Marker::COM => 0xFE,
        mozjpeg::Marker::APP(n) => 0xE0 + n,
    }
}

fn records_of(bytes: &[u8]) -> Vec<(u8, Vec<u8>)> {
    let decoder = mozjpeg::Decompress::with_markers(mozjpeg::ALL_MARKERS).from_mem(bytes).unwrap();
    decoder.markers().map(|m| (code_of(m.marker), m.data.to_vec())).collect()
}

fn pixels_of(bytes: &[u8]) -> (usize, usize, Vec<[u8; 3]>) {
    let decoder = mozjpeg::Decompress::new_mem(bytes).unwrap();
    let mut started = decoder.rgb().unwrap();
    let (width, height) = (started.width(), started.height());
    let pixels = started.read_scanlines().unwrap();
    assert!(started.finish_decompress());
    (width, height, pixels)
}

fn sharpen(grid: PixelGrid) -> Vec<u8> {
    let (width, height) = (grid.width(), grid.height());
    let image = image::RgbImage::from_raw(width, height, grid.into_data()).unwrap();
    let sigma = f32::from(SHARPEN_SIGMA_TENTHS) / 10.0;
    image::imageops::unsharpen(&image, sigma, SHARPEN_THRESHOLD).into_raw()
}

fn run(input: Vec<u8>, config: CompressionConfig) -> Result<CompressionResult, PipelineError> {
    let mut pipeline = Pipeline::new(config);
    assert_eq!(pipeline.stage(), Stage::ReadInput);
    let bytes = match pipeline.step(Event::InputRead(input)) {
        Action::Extract(bytes) => bytes,
        Action::Abort(e) => return Err(e),
        _ => panic!("the input is followed by the extraction"),
    };
    assert_eq!(pipeline.stage(), Stage::Extract);
    let records = records_of(&bytes)
        .into_iter()
        .map(|(code, payload)| RawSegment { code, payload })
        .collect();
    match pipeline.step(Event::Extracted(records)) {
        Action::Decode => {}
        Action::Abort(e) => return Err(e),
        _ => panic!("the extraction is followed by the decoding"),
    }
    assert_eq!(pipeline.stage(), Stage::Decode);
    let (width, height, pixels) = pixels_of(&bytes);
    let resized = match pipeline.step(Event::Decoded { width, height, pixels }) {
        Action::Sharpen(grid) => grid,
        Action::Abort(e) => return Err(e),
        _ => panic!("the decoding is followed by the sharpening"),
    };
    assert_eq!(pipeline.stage(), Stage::Resample);
    assert_eq!((resized.width(), resized.height()), pipeline.target());
    match pipeline.step(Event::Sharpened(sharpen(resized))) {
        Action::Write(result) => {
            assert_eq!(pipeline.stage(), Stage::Done);
            Ok(result)
        }
        Action::Abort(e) => {
            assert_eq!(pipeline.stage(), Stage::Failed);
            Err(e)
        }
        _ => panic!("the sharpening is followed by the output"),
    }
}

fn config(width: Option<i64>, height: Option<i64>, quality: Option<i64>) -> CompressionConfig {
    CompressionConfig::new(width, height, quality).unwrap()
}

#[test]
fn the_output_has_the_dimensions_asked_for() {
    let input = input_with_segments(24, 16);
    for (w, h) in [(12, 8), (24, 16), (7, 31), (48, 5)] {
        let result = run(input.clone(), config(Some(w), Some(h), None)).unwrap();
        assert_eq!((result.width as i64, result.height as i64), (w, h));
        let (width, height, _) = pixels_of(&result.bytes);
        assert_eq!((width as i64, height as i64), (w, h));
    }
}

#[test]
fn the_output_has_the_source_dimensions_where_none_are_asked_for() {
    let input = input_with_segments(24, 16);
    let result = run(input.clone(), config(None, None, None)).unwrap();
    assert_eq!((result.width, result.height), (24, 16));
    let (width, height, _) = pixels_of(&result.bytes);
    assert_eq!((width, height), (24, 16));
    let result = run(input.clone(), config(Some(10), None, None)).unwrap();
    assert_eq!((result.width, result.height), (10, 16));
    let result = run(input, config(None, Some(9), None)).unwrap();
    assert_eq!((result.width, result.height), (24, 9));
}

#[test]
fn a_resize_to_the_source_dimensions_still_runs() {
    let input = input_with_segments(20, 10);
    let result = run(input, config(Some(20), Some(10), Some(80))).unwrap();
    assert_eq!((result.width, result.height), (20, 10));
    let (width, height, pixels) = pixels_of(&result.bytes);
    assert_eq!((width, height, pixels.len()), (20, 10, 200));
}

#[test]
fn every_segment_of_the_input_is_in_the_output() {
    let input = input_with_segments(24, 16);
    let extracted = records_of(&input);
    assert_eq!(extracted.len(), 4);
    for (w, h, q) in [(None, None, None), (Some(5), Some(5), Some(10)), (Some(40), None, Some(100))]
    {
        let result = run(input.clone(), config(w, h, q)).unwrap();
        let written = records_of(&result.bytes);
        // The codec opens every stream with a header segment of its own; the
        // segments of the input follow it, all of them and in their order.
        assert_eq!(written.len(), extracted.len() + 1);
        assert_eq!(&written[1..], extracted.as_slice());
    }
}

#[test]
fn input_that_is_no_jpeg_is_a_decode_error() {
    let mut pipeline = Pipeline::new(config(None, None, None));
    let action = pipeline.step(Event::InputRead(b"GIF89a not a jpeg at all".to_vec()));
    assert!(matches!(action, Action::Abort(PipelineError::Decode(DecodeError::NotJpeg))));
    assert_eq!(pipeline.stage(), Stage::Failed);
    assert!(matches!(
        run(Vec::new(), config(None, None, None)),
        Err(PipelineError::Decode(DecodeError::NotJpeg))
    ));
    assert!(matches!(
        run(vec![0xFF], config(None, None, None)),
        Err(PipelineError::Decode(DecodeError::NotJpeg))
    ));
}

#[test]
fn a_failed_run_stays_failed() {
    let mut pipeline = Pipeline::new(config(None, None, None));
    pipeline.step(Event::InputRead(vec![0, 1, 2]));
    let action = pipeline.step(Event::InputRead(vec![0xFF, 0xD8]));
    assert!(matches!(action, Action::Abort(PipelineError::OutOfOrder)));
    assert_eq!(pipeline.stage(), Stage::Failed);
}

#[test]
fn the_input_is_handed_back_for_extraction() {
    let input = input_with_segments(8, 8);
    let mut pipeline = Pipeline::new(config(None, None, None));
    match pipeline.step(Event::InputRead(input.clone())) {
        Action::Extract(bytes) => assert_eq!(bytes, input),
        _ => panic!("the input is followed by the extraction"),
    }
}

#[test]
fn a_failure_of_the_outside_work_ends_the_run() {
    let mut pipeline = Pipeline::new(config(None, None, None));
    pipeline.step(Event::InputRead(vec![0xFF, 0xD8, 0x00]));
    let action = pipeline.step(Event::Failed(PipelineError::Decode(DecodeError::Codec)));
    assert!(matches!(action, Action::Abort(PipelineError::Decode(DecodeError::Codec))));
    assert_eq!(pipeline.stage(), Stage::Failed);
    let mut pipeline = Pipeline::new(config(None, None, None));
    let action = pipeline.step(Event::Failed(PipelineError::Io));
    assert!(matches!(action, Action::Abort(PipelineError::Io)));
}

#[test]
fn an_event_out_of_order_ends_the_run() {
    let mut pipeline = Pipeline::new(config(None, None, None));
    let action = pipeline.step(Event::Sharpened(vec![0; 12]));
    assert!(matches!(action, Action::Abort(PipelineError::OutOfOrder)));
    assert_eq!(pipeline.stage(), Stage::Failed);
    let mut pipeline = Pipeline::new(config(None, None, None));
    pipeline.step(Event::InputRead(vec![0xFF, 0xD8]));
    let action = pipeline.step(Event::Decoded { width: 1, height: 1, pixels: vec![[0, 0, 0]] });
    assert!(matches!(action, Action::Abort(PipelineError::OutOfOrder)));
}

#[test]
fn a_record_that_is_no_segment_ends_the_run() {
    let mut pipeline = Pipeline::new(config(None, None, None));
    pipeline.step(Event::InputRead(vec![0xFF, 0xD8]));
    let action = pipeline
        .step(Event::Extracted(vec![RawSegment { code: 0xC4, payload: b"tables".to_vec() }]));
    assert!(matches!(action, Action::Abort(PipelineError::Decode(DecodeError::UnknownMarker))));
}

#[test]
fn pixels_that_do_not_fill_the_dimensions_end_the_run() {
    let mut pipeline = Pipeline::new(config(None, None, None));
    pipeline.step(Event::InputRead(vec![0xFF, 0xD8]));
    pipeline.step(Event::Extracted(Vec::new()));
    let action = pipeline.step(Event::Decoded { width: 4, height: 4, pixels: vec![[0, 0, 0]; 15] });
    assert!(matches!(action, Action::Abort(PipelineError::Decode(DecodeError::PixelCount))));
}

#[test]
fn an_image_without_pixels_ends_the_run() {
    let mut pipeline = Pipeline::new(config(None, None, None));
    pipeline.step(Event::InputRead(vec![0xFF, 0xD8]));
    pipeline.step(Event::Extracted(Vec::new()));
    let action = pipeline.step(Event::Decoded { width: 0, height: 0, pixels: Vec::new() });
    assert!(matches!(
        action,
        Action::Abort(PipelineError::Validation(ValidationError::EmptyDimension))
    ));
}

#[test]
fn samples_that_do_not_fill_the_target_end_the_run() {
    let mut pipeline = Pipeline::new(config(Some(2), Some(2), None));
    pipeline.step(Event::InputRead(vec![0xFF, 0xD8]));
    pipeline.step(Event::Extracted(Vec::new()));
    pipeline.step(Event::Decoded { width: 1, height: 1, pixels: vec![[9, 9, 9]] });
    assert_eq!(pipeline.target(), (2, 2));
    let action = pipeline.step(Event::Sharpened(vec![0; 11]));
    assert!(matches!(
        action,
        Action::Abort(PipelineError::Validation(ValidationError::BufferMismatch))
    ));
}

#[test]
fn a_target_beyond_the_frame_ends_the_run() {
    let mut pipeline = Pipeline::new(config(Some(65501), Some(1), None));
    pipeline.step(Event::InputRead(vec![0xFF, 0xD8]));
    pipeline.step(Event::Extracted(Vec::new()));
    let action = pipeline.step(Event::Decoded { width: 1, height: 1, pixels: vec![[9, 9, 9]] });
    assert!(matches!(
        action,
        Action::Abort(PipelineError::Validation(ValidationError::DimensionTooLarge))
    ));
    assert_eq!(pipeline.stage(), Stage::Failed);
}

#[test]
fn a_target_at_the_edge_of_the_frame_is_written() {
    let mut pipeline = Pipeline::new(config(Some(65500), Some(1), None));
    pipeline.step(Event::InputRead(vec![0xFF, 0xD8]));
    pipeline.step(Event::Extracted(Vec::new()));
    let resized = match pipeline.step(Event::Decoded { width: 2, height: 1, pixels: vec![[9, 9, 9], [200, 10, 10]] }) {
        Action::Sharpen(grid) => grid,
        _ => panic!("the decoding is followed by the sharpening"),
    };
    assert_eq!((resized.width(), resized.height()), (65500, 1));
    match pipeline.step(Event::Sharpened(resized.into_data())) {
        Action::Write(result) => assert_eq!((result.width, result.height), (65500, 1)),
        _ => panic!("the sharpening is followed by the output"),
    }
}

#[test]
fn a_quality_above_the_range_ends_the_run() {
    let mut pipeline =
        Pipeline::new(CompressionConfig { width: None, height: None, quality: 180 });
    pipeline.step(Event::InputRead(vec![0xFF, 0xD8]));
    pipeline.step(Event::Extracted(Vec::new()));
    pipeline.step(Event::Decoded { width: 1, height: 1, pixels: vec![[9, 9, 9]] });
    let action = pipeline.step(Event::Sharpened(vec![9, 9, 9]));
    assert!(matches!(
        action,
        Action::Abort(PipelineError::Encode(EncodeError::QualityOutOfRange))
    ));
}

#[test]
fn the_pipeline_keeps_the_segments_it_was_given() {
    let mut pipeline = Pipeline::new(config(None, None, Some(55)));
    assert_eq!(pipeline.config().quality, 55);
    pipeline.step(Event::InputRead(vec![0xFF, 0xD8]));
    pipeline.step(Event::Extracted(vec![
        RawSegment { code: 0xFE, payload: b"one".to_vec() },
        RawSegment { code: 0xE0, payload: b"two".to_vec() },
    ]));
    let kept = pipeline.segments();
    assert_eq!(kept.len(), 2);
    assert_eq!(kept[0].payload().as_slice(), b"one");
    assert_eq!(kept[1].payload().as_slice(), b"two");
}
