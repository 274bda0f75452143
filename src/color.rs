//! Colours, hexadecimal colour text and darkening.
use vstd::prelude::*;

verus! {

/// A colour with alpha, red, green and blue channels.
#[derive(Clone, Copy, Debug, PartialEq, Eq, Structural)]
pub struct Color {
    pub a: u8,
    pub r: u8,
    pub g: u8,
    pub b: u8,
}

impl Color {
    /// An opaque colour.
    pub fn from_rgb(r: u8, g: u8, b: u8) -> (c: Color)
        ensures
            c == (Color { a: 255, r, g, b }),
    {
        Color { a: 255, r, g, b }
    }

    pub fn from_argb(a: u8, r: u8, g: u8, b: u8) -> (c: Color)
        ensures
            c == (Color { a, r, g, b }),
    {
        Color { a, r, g, b }
    }
}


/// Whether `c` is an ASCII hexadecimal digit, in either case.
pub open spec fn is_hex_digit(c: char) -> bool {
    ('0' <= c && c <= '9') || ('a' <= c && c <= 'f') || ('A' <= c && c <= 'F')
}

/// The value of a hexadecimal digit.
pub open spec fn hex_digit_value(c: char) -> int {
    if '0' <= c && c <= '9' {
        c as int - '0' as int
    } else if 'a' <= c && c <= 'f' {
        c as int - 'a' as int + 10
    } else {
        c as int - 'A' as int + 10
    }
}

/// The byte written by the two hexadecimal digits at `i` and `i + 1`.
pub open spec fn hex_byte(s: Seq<char>, i: int) -> u8 {
    (hex_digit_value(s[i]) * 16 + hex_digit_value(s[i + 1])) as u8
}

/// The colour written as `RRGGBB` (opaque) or `AARRGGBB`, if `hex` is one of those.
pub open spec fn hex_color(hex: Seq<char>) -> Option<Color> {
    if (hex.len() == 6 || hex.len() == 8) && (forall|i: int|
        0 <= i < hex.len() ==> #[trigger] is_hex_digit(hex[i])) {
        if hex.len() == 6 {
            Some(Color { a: 255, r: hex_byte(hex, 0), g: hex_byte(hex, 2), b: hex_byte(hex, 4) })
        } else {
            Some(
                Color {
                    a: hex_byte(hex, 0),
                    r: hex_byte(hex, 2),
                    g: hex_byte(hex, 4),
                    b: hex_byte(hex, 6),
                },
            )
        }
    } else {
        None
    }
}

/// The upper-case hexadecimal digit of `d`, for `d < 16`.
pub open spec fn upper_hex_digit(d: int) -> char {
    if d < 10 {
        ('0' as int + d) as char
    } else {
        ('A' as int + d - 10) as char
    }
}

/// `b` as two upper-case hexadecimal digits.
pub open spec fn byte_text(b: u8) -> Seq<char> {
    seq![upper_hex_digit(b as int / 16), upper_hex_digit(b as int % 16)]
}

/// The `#RRGGBB` text of a colour; alpha is not written.
pub open spec fn hex_text(c: Color) -> Seq<char> {
    seq!['#'] + byte_text(c.r) + byte_text(c.g) + byte_text(c.b)
}

/// The value of a hexadecimal digit, if `c` is one.
fn digit_value(c: char) -> (r: Option<u8>)
    ensures
        r is Some <==> is_hex_digit(c),
        r is Some ==> r->0 as int == hex_digit_value(c) && r->0 < 16,
{
    if '0' <= c && c <= '9' {
        Some((c as u32 - '0' as u32) as u8)
    } else if 'a' <= c && c <= 'f' {
        Some((c as u32 - 'a' as u32 + 10) as u8)
    } else if 'A' <= c && c <= 'F' {
        Some((c as u32 - 'A' as u32 + 10) as u8)
    } else {
        None
    }
}

/// Reads `#`-less hexadecimal colour text: six digits for an opaque colour,
/// eight for one with alpha first. Anything else is `None`.
pub fn parse_hex(hex: &[char]) -> (r: Option<Color>)
    ensures
        r == hex_color(hex@),
{
    if hex.len() != 6 && hex.len() != 8 {
        return None;
    }
    let mut bytes: Vec<u8> = Vec::new();
    let mut i: usize = 0;
    while i < hex.len()
        invariant
            hex@.len() == 6 || hex@.len() == 8,
            i % 2 == 0,
            i <= hex@.len(),
            bytes@.len() == i / 2,
            forall|j: int| 0 <= j < i ==> #[trigger] is_hex_digit(hex@[j]),
            forall|k: int| 0 <= k < bytes@.len() ==> bytes@[k] == hex_byte(hex@, 2 * k),
        decreases hex@.len() - i,
    {
        let hi = digit_value(hex[i]);
        let lo = digit_value(hex[i + 1]);
        match (hi, lo) {
            (Some(h), Some(l)) => {
                bytes.push(h * 16 + l);
            },
            _ => {
                return None;
            },
        }
        i = i + 2;
    }
    if hex.len() == 6 {
        Some(Color { a: 255, r: bytes[0], g: bytes[1], b: bytes[2] })
    } else {
        Some(Color { a: bytes[0], r: bytes[1], g: bytes[2], b: bytes[3] })
    }
}

/// The upper-case hexadecimal digit of `d`.
fn upper_digit(d: u8) -> (c: char)
    requires
        d < 16,
    ensures
        c == upper_hex_digit(d as int),
{
    if d < 10 {
        (d + 48) as char
    } else {
        (d + 55) as char
    }
}

/// The `#RRGGBB` text of a colour, with upper-case digits; alpha is dropped.
pub fn color_to_hex(color: Color) -> (r: Vec<char>)
    ensures
        r@ == hex_text(color),
{
    let mut out: Vec<char> = Vec::new();
    out.push('#');
    out.push(upper_digit(color.r / 16));
    out.push(upper_digit(color.r % 16));
    out.push(upper_digit(color.g / 16));
    out.push(upper_digit(color.g % 16));
    out.push(upper_digit(color.b / 16));
    out.push(upper_digit(color.b % 16));
    assert(out@ =~= hex_text(color));
    out
}

/// One channel darkened by `factor` percent: `c * (1 - f)`, or, for a negative
/// factor, lightened towards 255 by `c + (255 - c) * (-f)`; then rounded half
/// away from zero and clamped to `0..=255`.
pub open spec fn adjust_channel(c: u8, factor: int) -> u8 {
    let hundredths: int = if factor >= 0 {
        c * (100 - factor)
    } else {
        c * 100 + (255 - c) * (-factor)
    };
    if hundredths < 0 {
        0
    } else if (hundredths + 50) / 100 > 255 {
        255
    } else {
        ((hundredths + 50) / 100) as u8
    }
}

/// The opaque colour whose channels are those of `c` adjusted by `factor` percent.
pub open spec fn darkened(c: Color, factor: int) -> Color {
    Color {
        a: 255,
        r: adjust_channel(c.r, factor),
        g: adjust_channel(c.g, factor),
        b: adjust_channel(c.b, factor),
    }
}

fn adjust(component: u8, factor: i32) -> (r: u8)
    ensures
        r == adjust_channel(component, factor as int),
{
    let c = component as i64;
    let f = factor as i64;
    let hundredths: i64 = if f >= 0 {
        assert(c * (100 - f) <= 255 * 100) by (nonlinear_arith)
            requires
                0 <= c <= 255,
                0 <= f <= i32::MAX,
        ;
        assert(c * (100 - f) >= -255 * 0x8000_0000) by (nonlinear_arith)
            requires
                0 <= c <= 255,
                0 <= f <= i32::MAX,
        ;
        c * (100 - f)
    } else {
        assert(0 <= (255 - c) * (-f) <= 255 * 0x8000_0000) by (nonlinear_arith)
            requires
                0 <= c <= 255,
                i32::MIN <= f < 0,
        ;
        c * 100 + (255 - c) * (-f)
    };
    if hundredths < 0 {
        0
    } else if (hundredths + 50) / 100 > 255 {
        255
    } else {
        ((hundredths + 50) / 100) as u8
    }
}

/// Darkens a colour by `factor` percent (a negative factor lightens it).
/// The result is opaque.
pub fn darken_color(color: Color, factor: i32) -> (r: Color)
    ensures
        r == darkened(color, factor as int),
{
    Color::from_rgb(adjust(color.r, factor), adjust(color.g, factor), adjust(color.b, factor))
}

} // verus!
