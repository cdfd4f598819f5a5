//! Startup color option: parsing of `#RRGGBB` hex strings.
//!
//! The parsed channels are 8-bit values; the platform shell divides them by
//! 255 when it builds its floating-point shader uniform.

use vstd::prelude::*;

verus! {

/// An 8-bit-per-channel RGB color.
#[derive(Clone, Copy, PartialEq, Eq, Structural, Debug)]
pub struct Rgb {
    pub r: u8,
    pub g: u8,
    pub b: u8,
}

/// Why a hex color string was rejected.
#[derive(Clone, Copy, PartialEq, Eq, Structural, Debug)]
pub enum HexColorError {
    /// The string does not begin with `#`.
    MissingHash,
    /// The string begins with `#` but is not exactly 7 characters long.
    WrongLength,
    /// A character after the `#` is not a hexadecimal digit.
    BadDigit,
}

/// `c` is an ASCII hexadecimal digit.
pub open spec fn is_hex_digit(c: char) -> bool {
    ('0' <= c && c <= '9') || ('a' <= c && c <= 'f') || ('A' <= c && c <= 'F')
}

/// The value of the hexadecimal digit `c` (0 where `c` is no digit).
pub open spec fn hex_digit_value(c: char) -> int {
    if '0' <= c && c <= '9' {
        c as int - '0' as int
    } else if 'a' <= c && c <= 'f' {
        c as int - 'a' as int + 10
    } else if 'A' <= c && c <= 'F' {
        c as int - 'A' as int + 10
    } else {
        0
    }
}

/// The byte written by the two hexadecimal digits `hi`, `lo`.
pub open spec fn hex_byte_value(hi: char, lo: char) -> int {
    16 * hex_digit_value(hi) + hex_digit_value(lo)
}

/// The string is a well-formed `#RRGGBB` color.
pub open spec fn is_hex_color(s: Seq<char>) -> bool {
    &&& s.len() == 7
    &&& s[0] == '#'
    &&& forall|i: int| 1 <= i < 7 ==> is_hex_digit(#[trigger] s[i])
}

/// The color a well-formed `#RRGGBB` string denotes.
pub open spec fn hex_color_value(s: Seq<char>) -> Rgb {
    Rgb {
        r: hex_byte_value(s[1], s[2]) as u8,
        g: hex_byte_value(s[3], s[4]) as u8,
        b: hex_byte_value(s[5], s[6]) as u8,
    }
}

/// The value of one hexadecimal digit character, or `None` for any other
/// character.
fn parse_hex_digit(c: char) -> (r: Option<u8>)
    ensures
        r is Some <==> is_hex_digit(c),
        r is Some ==> r->0 == hex_digit_value(c) && r->0 < 16,
{
    let u = c as u32;
    if u >= '0' as u32 && u <= '9' as u32 {
        Some((u - '0' as u32) as u8)
    } else if u >= 'a' as u32 && u <= 'f' as u32 {
        Some((u - 'a' as u32 + 10) as u8)
    } else if u >= 'A' as u32 && u <= 'F' as u32 {
        Some((u - 'A' as u32 + 10) as u8)
    } else {
        None
    }
}

/// The byte named by the digit characters at positions `i` and `i + 1`,
/// or `None` if either is no hexadecimal digit.
fn parse_hex_byte(s: &str, i: usize) -> (r: Option<u8>)
    requires
        i < usize::MAX,
        i + 1 < s@.len(),
    ensures
        r is Some <==> is_hex_digit(s@[i as int]) && is_hex_digit(s@[i + 1]),
        r is Some ==> r->0 == hex_byte_value(s@[i as int], s@[i + 1]),
{
    let hi = match parse_hex_digit(s.get_char(i)) {
        Some(v) => v,
        None => {
            return None;
        },
    };
    let lo = match parse_hex_digit(s.get_char(i + 1)) {
        Some(v) => v,
        None => {
            return None;
        },
    };
    Some(16 * hi + lo)
}

/// Parses a `#RRGGBB` color string into its three 8-bit channels.
///
/// The `#` prefix is checked first, then the length, then the digits, so
/// a string without the prefix is a [`HexColorError::MissingHash`] whatever
/// its length.
pub fn hex_to_rgb(s: &str) -> (r: Result<Rgb, HexColorError>)
    ensures
        r is Ok <==> is_hex_color(s@),
        r is Ok ==> r->Ok_0 == hex_color_value(s@),
        r is Err ==> r->Err_0 == hex_color_error(s@),
{
    let n = s.unicode_len();
    if n == 0 || s.get_char(0) != '#' {
        return Err(HexColorError::MissingHash);
    }
    if n != 7 {
        return Err(HexColorError::WrongLength);
    }
    let red = match parse_hex_byte(s, 1) {
        Some(v) => v,
        None => {
            return Err(HexColorError::BadDigit);
        },
    };
    let green = match parse_hex_byte(s, 3) {
        Some(v) => v,
        None => {
            return Err(HexColorError::BadDigit);
        },
    };
    let blue = match parse_hex_byte(s, 5) {
        Some(v) => v,
        None => {
            return Err(HexColorError::BadDigit);
        },
    };
    Ok(Rgb { r: red, g: green, b: blue })
}

/// The error `hex_to_rgb` reports for a rejected string (meaningful only
/// where `is_hex_color` fails).
pub open spec fn hex_color_error(s: Seq<char>) -> HexColorError {
    if s.len() == 0 || s[0] != '#' {
        HexColorError::MissingHash
    } else if s.len() != 7 {
        HexColorError::WrongLength
    } else {
        HexColorError::BadDigit
    }
}

} // verus!
