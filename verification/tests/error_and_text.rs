use img2avif::error::ConversionError;
use img2avif::text::{starts_with_dot, str_equal};

#[test]
fn error_messages() {
    let cases = [
        (ConversionError::Io("denied".to_string()), "I/O error: denied"),
        (ConversionError::ImageDecode("x".to_string()), "Image decode error: x"),
        (ConversionError::AvifEncode("x".to_string()), "AVIF encode error: x"),
        (ConversionError::InputNotFound("a".to_string()), "Input file not found: a"),
        (ConversionError::UnsupportedFormat("b".to_string()), "Unsupported format: b"),
        (ConversionError::InvalidParameter("c".to_string()), "Invalid parameter: c"),
        (ConversionError::RawDecode("d".to_string()), "Raw image decode error: d"),
        (ConversionError::NoImagesFound("e".to_string()), "No valid images found in directory: e"),
    ];
    for (e, m) in cases {
        assert_eq!(e.message(), m);
    }
}

#[test]
fn string_helpers() {
    assert!(str_equal("héllo", "héllo"));
    assert!(!str_equal("hello", "hellO"));
    assert!(!str_equal("abc", "abcd"));
    assert!(str_equal("", ""));
    assert!(starts_with_dot(".hidden"));
    assert!(!starts_with_dot("visible"));
    assert!(!starts_with_dot(""));
}
