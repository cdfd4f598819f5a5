use teapots::color::{hex_to_rgb, HexColorError, Rgb};

#[test]
fn test_parse_green() {
    let c = hex_to_rgb("#00FF00").unwrap();
    assert_eq!(c, Rgb { r: 0, g: 255, b: 0 });
    // The platform shell divides by 255 for its shader uniform.
    assert_eq!(c.r as f32 / 255.0, 0.0);
    assert_eq!(c.g as f32 / 255.0, 1.0);
    assert_eq!(c.b as f32 / 255.0, 0.0);
}

#[test]
fn test_parse_default_red() {
    let c = hex_to_rgb("#FF0000").unwrap();
    assert_eq!(c, Rgb { r: 255, g: 0, b: 0 });
}

#[test]
fn test_parse_lowercase_digits() {
    let c = hex_to_rgb("#a1b2c3").unwrap();
    assert_eq!(c, Rgb { r: 0xA1, g: 0xB2, b: 0xC3 });
}

#[test]
fn test_missing_hash_is_format_error() {
    assert_eq!(hex_to_rgb("00FF00"), Err(HexColorError::MissingHash));
}

#[test]
fn test_empty_string_is_format_error() {
    assert_eq!(hex_to_rgb(""), Err(HexColorError::MissingHash));
}

#[test]
fn test_short_string_is_length_error() {
    assert_eq!(hex_to_rgb("#FFF"), Err(HexColorError::WrongLength));
}

#[test]
fn test_long_string_is_length_error() {
    assert_eq!(hex_to_rgb("#FF00FF00"), Err(HexColorError::WrongLength));
}

#[test]
fn test_non_hex_digit_is_value_error() {
    assert_eq!(hex_to_rgb("#ZZZZZZ"), Err(HexColorError::BadDigit));
}

#[test]
fn test_one_bad_digit_is_value_error() {
    assert_eq!(hex_to_rgb("#00FG00"), Err(HexColorError::BadDigit));
}
