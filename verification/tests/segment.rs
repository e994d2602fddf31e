use mt4y::error::DecodeError;
use mt4y::segment::{collect, MarkerKind, MetadataSegment, RawSegment, MAX_PAYLOAD};

fn raw(code: u8, payload: &[u8]) -> RawSegment {
    RawSegment { code, payload: payload.to_vec() }
}

#[test]
fn marker_codes() {
    assert_eq!(MarkerKind::Comment.code(), 0xFE);
    assert_eq!(MarkerKind::App(0).code(), 0xE0);
    assert_eq!(MarkerKind::App(1).code(), 0xE1);
    assert_eq!(MarkerKind::App(15).code(), 0xEF);
    assert_eq!(MarkerKind::from_code(0xFE), Some(MarkerKind::Comment));
    assert_eq!(MarkerKind::from_code(0xE2), Some(MarkerKind::App(2)));
    assert_eq!(MarkerKind::from_code(0xDF), None);
    assert_eq!(MarkerKind::from_code(0xF0), None);
    assert_eq!(MarkerKind::from_code(0xD8), None);
}

#[test]
fn every_code_that_announces_metadata_comes_back() {
    let mut kinds = 0;
    for code in 0..=255u8 {
        if let Some(kind) = MarkerKind::from_code(code) {
            assert!(kind.is_valid());
            assert_eq!(kind.code(), code);
            kinds += 1;
        }
    }
    assert_eq!(kinds, 17);
    for n in 0..=15u8 {
        assert_eq!(MarkerKind::from_code(MarkerKind::App(n).code()), Some(MarkerKind::App(n)));
    }
    assert!(!MarkerKind::App(16).is_valid());
}

#[test]
fn a_record_becomes_a_segment() {
    let segment = MetadataSegment::from_raw(raw(0xE1, b"Exif\0\0abc")).unwrap();
    assert_eq!(segment.kind(), MarkerKind::App(1));
    assert_eq!(segment.payload().as_slice(), b"Exif\0\0abc");
}

#[test]
fn a_record_with_an_unknown_marker_is_refused() {
    assert!(matches!(MetadataSegment::from_raw(raw(0xC0, b"x")), Err(DecodeError::UnknownMarker)));
}

#[test]
fn a_record_that_is_too_long_is_refused() {
    let long = vec![0u8; MAX_PAYLOAD + 1];
    assert!(matches!(
        MetadataSegment::from_raw(RawSegment { code: 0xFE, payload: long }),
        Err(DecodeError::SegmentTooLong)
    ));
    let longest = vec![7u8; MAX_PAYLOAD];
    let kept = MetadataSegment::from_raw(RawSegment { code: 0xFE, payload: longest }).unwrap();
    assert_eq!(kept.payload().len(), 65533);
}

#[test]
fn the_marker_is_checked_before_the_length() {
    let long = vec![0u8; MAX_PAYLOAD + 1];
    assert!(matches!(
        MetadataSegment::from_raw(RawSegment { code: 0x00, payload: long }),
        Err(DecodeError::UnknownMarker)
    ));
}

#[test]
fn records_are_collected_in_order() {
    let segments =
        collect(vec![raw(0xE1, b"first"), raw(0xE2, b"second"), raw(0xFE, b"third")]).unwrap();
    assert_eq!(segments.len(), 3);
    assert_eq!(segments[0].kind(), MarkerKind::App(1));
    assert_eq!(segments[0].payload().as_slice(), b"first");
    assert_eq!(segments[1].kind(), MarkerKind::App(2));
    assert_eq!(segments[1].payload().as_slice(), b"second");
    assert_eq!(segments[2].kind(), MarkerKind::Comment);
    assert_eq!(segments[2].payload().as_slice(), b"third");
}

#[test]
fn no_records_make_no_segments() {
    assert_eq!(collect(Vec::new()).unwrap().len(), 0);
}

#[test]
fn the_first_bad_record_decides_the_error() {
    let long = vec![0u8; MAX_PAYLOAD + 1];
    let result = collect(vec![
        raw(0xE1, b"fine"),
        RawSegment { code: 0xFE, payload: long },
        raw(0x01, b"unknown"),
    ]);
    assert!(matches!(result, Err(DecodeError::SegmentTooLong)));
    let result = collect(vec![raw(0x01, b"unknown"), raw(0xE1, b"fine")]);
    assert!(matches!(result, Err(DecodeError::UnknownMarker)));
}
