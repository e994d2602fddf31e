use mt4y::report::{finish_report, start_report};

#[test]
fn the_message_before_a_compression() {
    assert_eq!(
        start_report("photo.jpg", 640, 480, 512),
        "===Start compression===\nPath: photo.jpg\nSize: 640x480\nFileSize: 512 B"
    );
}

#[test]
fn the_message_after_a_compression() {
    assert_eq!(
        finish_report("output.jpg", 320, 200, 1_500),
        "\n===Finish compression===\nPath: output.jpg\nSize: 320x200\nFileSize: 1.50 KB"
    );
}

#[test]
fn sizes_take_the_decimal_unit_that_suits_them() {
    assert!(start_report("a", 1, 1, 2_340_000).ends_with("FileSize: 2.34 MB"));
    assert!(start_report("a", 1, 1, 0).ends_with("FileSize: 0 B"));
    assert!(start_report("a", 1, 1, 1_000).ends_with("FileSize: 1000 B"));
    assert!(start_report("a", 1, 1, 1_001).ends_with("FileSize: 1.00 KB"));
}
