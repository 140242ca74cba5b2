//! Configuration value types and the hex color parser.

use gorm::config::Color;
use gorm::config::ColorParseError;
use gorm::config::Colors;
use gorm::config::Config;
use gorm::config::FontFamily;
use gorm::config::Input;
use gorm::config::MillisDuration;

#[test]
fn color_channels_round_trip() {
    let c = Color::new(1, 2, 3);
    assert_eq!(c.r, 1);
    assert_eq!(c.g, 2);
    assert_eq!(c.b, 3);
}

#[test]
fn color_as_u8_appends_full_alpha() {
    let c = Color::new(10, 20, 30);
    assert_eq!(c.as_u8(), [10, 20, 30, 255]);
}

#[test]
fn color_as_u16_scales_by_257() {
    let c = Color::new(0, 1, 255);
    assert_eq!(c.as_u16(), [0, 257, 65535]);
}

#[test]
fn parse_valid_hex_color() {
    assert_eq!(Color::parse("#ff00ff"), Ok(Color::new(255, 0, 255)));
    assert_eq!(Color::parse("#18A0b3"), Ok(Color::new(0x18, 0xa0, 0xb3)));
    assert_eq!(Color::parse("#000000"), Ok(Color::new(0, 0, 0)));
}

#[test]
fn parse_rejects_missing_hash() {
    assert_eq!(Color::parse("ff00ff"), Err(ColorParseError::MissingHash));
    assert_eq!(Color::parse(""), Err(ColorParseError::MissingHash));
}

#[test]
fn parse_rejects_wrong_digit_count() {
    assert_eq!(Color::parse("#fff"), Err(ColorParseError::WrongDigitCount(3)));
    assert_eq!(Color::parse("#ff00ff0"), Err(ColorParseError::WrongDigitCount(7)));
    assert_eq!(Color::parse("#"), Err(ColorParseError::WrongDigitCount(0)));
}

#[test]
fn parse_rejects_non_hex_digits() {
    assert_eq!(Color::parse("#ff00fg"), Err(ColorParseError::NonHexDigit));
    assert_eq!(Color::parse("#+fffff"), Err(ColorParseError::NonHexDigit));
}

#[test]
fn default_colors_match_theme() {
    let colors = Colors::default();
    assert_eq!(colors.foreground, Color::new(255, 255, 255));
    assert_eq!(colors.background, Color::new(24, 24, 24));
    assert_eq!(colors.highlight, Color::new(117, 42, 42));
    assert_eq!(colors.alt_foreground, Color::new(191, 191, 191));
    assert_eq!(colors.alt_background, Color::new(40, 40, 40));
    assert_eq!(colors.error, Color::new(172, 66, 66));
}

#[test]
fn default_input_thresholds() {
    let input = Input::default();
    assert_eq!(input.max_tap_distance, 400);
    assert_eq!(input.max_multi_tap.as_millis(), 300);
    assert_eq!(input.long_press.as_millis(), 300);
    assert_eq!(input.velocity_interval, 30);
}

#[test]
fn millis_duration_round_trip() {
    let d = MillisDuration::from_millis(1234);
    assert_eq!(d.as_millis(), 1234);
}

#[test]
fn font_family_keeps_name() {
    let family = FontFamily::from(String::from("monospace"));
    assert_eq!(family.as_str(), "monospace");
}

#[test]
fn default_config_composes_defaults() {
    let config = Config::default();
    assert_eq!(config.colors, Colors::default());
    assert_eq!(config.input, Input::default());
}
