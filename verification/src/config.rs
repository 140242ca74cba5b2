//! Configuration values the core reads.
//!
//! The configuration file itself is parsed outside this crate; here live the
//! plain value types: colors, font family names, millisecond durations and the
//! touch-input thresholds, together with the hex-color parser.

use vstd::prelude::*;
use vstd::slice::slice_index_get;
use vstd::string::StringSliceAdditionalSpecFns;

verus! {

/// RGB color.
#[derive(Copy, Clone, Debug, PartialEq, Eq, Structural)]
pub struct Color {
    pub r: u8,
    pub g: u8,
    pub b: u8,
}

/// Why a hex color string was rejected.
#[derive(Copy, Clone, Debug, PartialEq, Eq, Structural)]
pub enum ColorParseError {
    /// The string does not start with `#`.
    MissingHash,
    /// The string has the wrong number of digits after `#`; carries that count.
    WrongDigitCount(usize),
    /// A character after `#` is not a hexadecimal digit.
    NonHexDigit,
}

/// True when the byte is an ASCII hexadecimal digit.
pub open spec fn is_hex_digit(b: u8) -> bool {
    (48 <= b <= 57) || (97 <= b <= 102) || (65 <= b <= 70)
}

/// The value of an ASCII hexadecimal digit.
pub open spec fn hex_value(b: u8) -> u8
    recommends
        is_hex_digit(b),
{
    if 48 <= b <= 57 {
        (b - 48) as u8
    } else if 97 <= b <= 102 {
        (b - 87) as u8
    } else if 65 <= b <= 70 {
        (b - 55) as u8
    } else {
        0
    }
}

/// Decodes one ASCII hexadecimal digit.
fn hex_digit(b: u8) -> (r: Option<u8>)
    ensures
        r is Some <==> is_hex_digit(b),
        r matches Some(v) ==> v == hex_value(b) && v < 16,
{
    if 48 <= b && b <= 57 {
        Some(b - 48)
    } else if 97 <= b && b <= 102 {
        Some(b - 87)
    } else if 65 <= b && b <= 70 {
        Some(b - 55)
    } else {
        None
    }
}

/// True when `bytes` spells a well-formed hex color: `#` followed by exactly
/// six hexadecimal digits.
pub open spec fn valid_hex_color(bytes: Seq<u8>) -> bool {
    &&& bytes.len() == 7
    &&& bytes[0] == 35
    &&& forall|i: int| 1 <= i < 7 ==> is_hex_digit(#[trigger] bytes[i])
}

/// The color channel encoded by two hexadecimal digit bytes.
pub open spec fn hex_channel(hi: u8, lo: u8) -> u8
    recommends
        is_hex_digit(hi),
        is_hex_digit(lo),
{
    (hex_value(hi) * 16 + hex_value(lo)) as u8
}

impl Color {
    /// Builds a color from its three channels.
    pub fn new(r: u8, g: u8, b: u8) -> (c: Self)
        ensures
            c.r == r,
            c.g == g,
            c.b == b,
    {
        Color { r, g, b }
    }

    /// The color as RGBA bytes with full opacity.
    pub fn as_u8(&self) -> (v: [u8; 4])
        ensures
            v@ == seq![self.r, self.g, self.b, 255u8],
    {
        let v = [self.r, self.g, self.b, 255];
        proof {
            assert(v@ =~= seq![self.r, self.g, self.b, 255u8]);
        }
        v
    }

    /// The color as 16-bit channels, each channel scaled by `65535 / 255`.
    pub fn as_u16(&self) -> (v: [u16; 3])
        ensures
            v@ == seq![(self.r * 257) as u16, (self.g * 257) as u16, (self.b * 257) as u16],
    {
        let factor: u16 = 65535 / 255;
        let v = [self.r as u16 * factor, self.g as u16 * factor, self.b as u16 * factor];
        proof {
            assert(v@ =~= seq![
                (self.r * 257) as u16,
                (self.g * 257) as u16,
                (self.b * 257) as u16,
            ]);
        }
        v
    }

    /// Parses a color written as `#rrggbb`.
    ///
    /// Returns the color exactly when the string is `#` followed by six hex
    /// digits; otherwise reports what was wrong with it.
    pub fn parse(s: &str) -> (r: Result<Color, ColorParseError>)
        ensures
            r is Ok <==> valid_hex_color(s.spec_bytes()),
            r matches Ok(c) ==> {
                let bytes = s.spec_bytes();
                &&& c.r == hex_channel(bytes[1], bytes[2])
                &&& c.g == hex_channel(bytes[3], bytes[4])
                &&& c.b == hex_channel(bytes[5], bytes[6])
            },
            r == Err::<Color, ColorParseError>(ColorParseError::MissingHash) <==> (
            s.spec_bytes().len() == 0 || s.spec_bytes()[0] != 35),
            (s.spec_bytes().len() > 0 && s.spec_bytes()[0] == 35 && s.spec_bytes().len() != 7)
                ==> r == Err::<Color, ColorParseError>(ColorParseError::WrongDigitCount(
                ((s.spec_bytes().len() - 1) as usize),
            )),
            r matches Err(ColorParseError::WrongDigitCount(n)) ==> (s.spec_bytes().len() > 0
                && s.spec_bytes()[0] == 35 && s.spec_bytes().len() != 7 && n == s.spec_bytes().len()
                - 1),
            r == Err::<Color, ColorParseError>(ColorParseError::NonHexDigit) <==> (
            s.spec_bytes().len() == 7 && s.spec_bytes()[0] == 35 && exists|i: int|
                1 <= i < 7 && !is_hex_digit(#[trigger] s.spec_bytes()[i])),
    {
        let bytes = s.as_bytes();
        if bytes.len() == 0 || *slice_index_get(bytes, 0) != 35 {
            return Err(ColorParseError::MissingHash);
        }
        if bytes.len() != 7 {
            return Err(ColorParseError::WrongDigitCount(bytes.len() - 1));
        }
        let d1 = hex_digit(*slice_index_get(bytes, 1));
        let d2 = hex_digit(*slice_index_get(bytes, 2));
        let d3 = hex_digit(*slice_index_get(bytes, 3));
        let d4 = hex_digit(*slice_index_get(bytes, 4));
        let d5 = hex_digit(*slice_index_get(bytes, 5));
        let d6 = hex_digit(*slice_index_get(bytes, 6));
        match (d1, d2, d3, d4, d5, d6) {
            (Some(h1), Some(h2), Some(h3), Some(h4), Some(h5), Some(h6)) => Ok(Color {
                r: h1 * 16 + h2,
                g: h3 * 16 + h4,
                b: h5 * 16 + h6,
            }),
            _ => Err(ColorParseError::NonHexDigit),
        }
    }
}

/// The full color scheme.
#[derive(Copy, Clone, Debug, PartialEq, Eq, Structural)]
pub struct Colors {
    /// Primary foreground color.
    pub foreground: Color,
    /// Primary background color.
    pub background: Color,
    /// Primary accent color.
    pub highlight: Color,
    /// Alternative foreground color.
    pub alt_foreground: Color,
    /// Alternative background color.
    pub alt_background: Color,
    /// Error color.
    pub error: Color,
}

/// The built-in color scheme.
pub open spec fn default_colors() -> Colors {
    Colors {
        foreground: Color { r: 255, g: 255, b: 255 },
        background: Color { r: 24, g: 24, b: 24 },
        highlight: Color { r: 117, g: 42, b: 42 },
        alt_foreground: Color { r: 191, g: 191, b: 191 },
        alt_background: Color { r: 40, g: 40, b: 40 },
        error: Color { r: 172, g: 66, b: 66 },
    }
}

impl Default for Colors {
    /// The built-in color scheme.
    fn default() -> (c: Self)
        ensures
            c == default_colors(),
            c.foreground == (Color { r: 255u8, g: 255u8, b: 255u8 }),
            c.background == (Color { r: 24u8, g: 24u8, b: 24u8 }),
            c.highlight == (Color { r: 117u8, g: 42u8, b: 42u8 }),
            c.alt_foreground == (Color { r: 191u8, g: 191u8, b: 191u8 }),
            c.alt_background == (Color { r: 40u8, g: 40u8, b: 40u8 }),
            c.error == (Color { r: 172u8, g: 66u8, b: 66u8 }),
    {
        Colors {
            foreground: Color::new(255, 255, 255),
            background: Color::new(24, 24, 24),
            highlight: Color::new(117, 42, 42),
            alt_foreground: Color::new(191, 191, 191),
            alt_background: Color::new(40, 40, 40),
            error: Color::new(172, 66, 66),
        }
    }
}

/// A duration with millisecond precision.
#[derive(Copy, Clone, Debug, PartialEq, Eq, Structural)]
pub struct MillisDuration {
    millis: u64,
}

impl MillisDuration {
    /// The duration in milliseconds.
    pub closed spec fn spec_millis(&self) -> u64 {
        self.millis
    }

    /// Builds a duration from a number of milliseconds.
    pub fn from_millis(millis: u64) -> (d: Self)
        ensures
            d.spec_millis() == millis,
    {
        MillisDuration { millis }
    }

    /// The duration in milliseconds.
    pub fn as_millis(&self) -> (r: u64)
        ensures
            r == self.spec_millis(),
    {
        self.millis
    }
}

/// Touch-input thresholds.
#[derive(Copy, Clone, Debug, PartialEq, Eq, Structural)]
pub struct Input {
    /// Square of the maximum distance, in pixels squared, before touch input
    /// is considered a drag.
    pub max_tap_distance: i64,
    /// Maximum interval between taps to be considered a double/triple-tap.
    pub max_multi_tap: MillisDuration,
    /// Minimum time before a tap is considered a long-press.
    pub long_press: MillisDuration,
    /// Milliseconds per velocity tick.
    pub velocity_interval: u16,
}

/// The built-in input thresholds.
pub closed spec fn default_input() -> Input {
    Input {
        max_tap_distance: 400,
        max_multi_tap: MillisDuration { millis: 300 },
        long_press: MillisDuration { millis: 300 },
        velocity_interval: 30,
    }
}

impl Default for Input {
    /// The built-in input thresholds.
    fn default() -> (i: Self)
        ensures
            i == default_input(),
            i.max_tap_distance == 400,
            i.max_multi_tap.spec_millis() == 300,
            i.long_press.spec_millis() == 300,
            i.velocity_interval == 30,
    {
        Input {
            max_tap_distance: 400,
            max_multi_tap: MillisDuration::from_millis(300),
            long_press: MillisDuration::from_millis(300),
            velocity_interval: 30,
        }
    }
}

/// A font family name.
#[derive(Clone, Debug)]
pub struct FontFamily {
    family: String,
}

impl FontFamily {
    /// The family name as a character sequence.
    pub closed spec fn spec_name(&self) -> Seq<char> {
        self.family@
    }

    /// Builds a family from its name.
    pub fn from(family: String) -> (r: Self)
        ensures
            r.spec_name() == family@,
    {
        FontFamily { family }
    }

    /// The family name.
    pub fn as_str(&self) -> (r: &str)
        ensures
            r@ == self.spec_name(),
    {
        self.family.as_str()
    }
}

/// The configuration snapshot the core consumes.
///
/// The configuration is replaced as a whole on reload; holders read through
/// the current value and never patch single fields.
#[derive(Copy, Clone, Debug, PartialEq, Eq, Structural)]
pub struct Config {
    /// Color scheme.
    pub colors: Colors,
    /// Touch-input thresholds.
    pub input: Input,
}

impl Default for Config {
    /// The built-in configuration.
    fn default() -> (c: Self)
        ensures
            c.colors == default_colors(),
            c.input == default_input(),
    {
        Config { colors: Colors::default(), input: Input::default() }
    }
}

} // verus!
