use svg_to_png::convert::{convert, ConversionError};

fn simple_svg() -> Vec<u8> {
    r#"<?xml version="1.0" encoding="UTF-8"?>
<svg xmlns="http://www.w3.org/2000/svg" width="100" height="100">
    <rect x="10" y="10" width="80" height="80" fill="blue"/>
</svg>"#
        .as_bytes()
        .to_vec()
}

fn text_svg() -> Vec<u8> {
    r#"<?xml version="1.0" encoding="UTF-8"?>
<svg xmlns="http://www.w3.org/2000/svg" width="200" height="100">
    <text x="10" y="50" font-family="Arial" font-size="20" fill="black">Hello World</text>
</svg>"#
        .as_bytes()
        .to_vec()
}

const PNG_SIGNATURE: [u8; 8] = [137, 80, 78, 71, 13, 10, 26, 10];

#[test]
fn test_convert_valid_svg() {
    let result = convert(&simple_svg());
    assert!(result.is_ok(), "Conversion should succeed");
    let png = result.unwrap();
    assert!(!png.is_empty(), "PNG output should not be empty");
    assert_eq!(&png[..8], &PNG_SIGNATURE, "output should be a PNG stream");
}

#[test]
fn test_convert_svg_with_text() {
    let result = convert(&text_svg());
    assert!(result.is_ok(), "Conversion with text should succeed");
    assert!(!result.unwrap().is_empty(), "PNG output should not be empty");
}

#[test]
fn test_convert_invalid_svg() {
    let result = convert(&b"not a valid svg".to_vec());
    assert!(result.is_err(), "Conversion should fail for invalid SVG");
    assert!(
        matches!(result, Err(ConversionError::Parse(_))),
        "the failure should be a parse failure"
    );
}

#[test]
fn test_convert_empty_input() {
    let result = convert(&Vec::new());
    assert!(matches!(result, Err(ConversionError::Parse(_))));
}

#[test]
fn test_convert_keeps_declared_size() {
    // The IHDR chunk of a PNG stream holds width and height as big-endian
    // 32-bit values at offsets 16 and 20.
    let png = convert(&simple_svg()).unwrap();
    assert_eq!(&png[16..20], &[0, 0, 0, 100], "width should be 100");
    assert_eq!(&png[20..24], &[0, 0, 0, 100], "height should be 100");
}

#[test]
fn test_convert_oversized_document_fails_allocation() {
    // 600000000 pixels a row cannot be allocated: four bytes a pixel
    // overflows the rasterizer's row arithmetic, so no surface exists.
    let svg = r#"<svg xmlns="http://www.w3.org/2000/svg" width="600000000" height="600000000"><rect width="1" height="1"/></svg>"#
        .as_bytes()
        .to_vec();
    let result = convert(&svg);
    assert!(matches!(result, Err(ConversionError::Allocation)));
}
