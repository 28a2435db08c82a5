use imgtext::color::Color;
use imgtext::color::ParseError;

#[test]
fn parse_accepts_plain_hex() {
    let c = Color::parse("123456").unwrap();
    assert_eq!(c, Color { r: 0x12, g: 0x34, b: 0x56 });
}

#[test]
fn parse_accepts_hash_prefixed_hex() {
    let c = Color::parse("#ff00a0").unwrap();
    assert_eq!(c, Color { r: 0xFF, g: 0x00, b: 0xA0 });
}

#[test]
fn parse_accepts_mixed_case() {
    let c = Color::parse("#AbCdEf").unwrap();
    assert_eq!(c, Color { r: 0xAB, g: 0xCD, b: 0xEF });
}

#[test]
fn parse_rejects_malformed_text() {
    assert!(matches!(Color::parse(""), Err(ParseError::InvalidFormat)));
    assert!(matches!(Color::parse("#"), Err(ParseError::InvalidFormat)));
    assert!(matches!(Color::parse("#12345"), Err(ParseError::InvalidFormat)));
    assert!(matches!(Color::parse("1234567"), Err(ParseError::InvalidFormat)));
    assert!(matches!(Color::parse("#12345G"), Err(ParseError::InvalidFormat)));
    assert!(matches!(Color::parse("##123456"), Err(ParseError::InvalidFormat)));
    assert!(matches!(Color::parse("12 456"), Err(ParseError::InvalidFormat)));
}

#[test]
fn format_is_lowercase_zero_padded() {
    let c = Color { r: 0x05, g: 0xAB, b: 0x00 };
    assert_eq!(c.format(), "#05ab00");
}

#[test]
fn format_parse_round_trips_to_normal_form() {
    assert_eq!(Color::parse("#AbCdEf").unwrap().format(), "#abcdef");
    assert_eq!(Color::parse("123456").unwrap().format(), "#123456");
    assert_eq!(Color::parse("FFFFFF").unwrap().format(), "#ffffff");
    assert_eq!(Color::parse("#000000").unwrap().format(), "#000000");
}

#[test]
fn parse_format_is_lossless_for_colors() {
    let c = Color { r: 17, g: 250, b: 3 };
    assert_eq!(Color::parse(&c.format()).unwrap(), c);
}

#[test]
fn inverse_of_extremes_and_sample() {
    let white = Color::parse("#FFFFFF").unwrap();
    assert_eq!(white.inverse().format(), "#000000");
    let black = Color::parse("#000000").unwrap();
    assert_eq!(black.inverse().format(), "#ffffff");
    let sample = Color::parse("#123456").unwrap();
    assert_eq!(sample.inverse().format(), "#edcba9");
}

#[test]
fn inverse_is_an_involution() {
    for c in [
        Color { r: 0, g: 0, b: 0 },
        Color { r: 255, g: 255, b: 255 },
        Color { r: 18, g: 52, b: 86 },
        Color { r: 127, g: 128, b: 1 },
    ] {
        assert_eq!(c.inverse().inverse(), c);
    }
}
