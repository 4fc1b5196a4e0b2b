//! Colours of the rendered board.
use vstd::prelude::*;
use crate::cell::Case;
use vstd::utf8::encode_utf8;

verus! {

/// An opaque RGB colour.
#[derive(Clone, Copy, Debug, PartialEq, Eq, Structural)]
pub struct Color {
    pub r: u8,
    pub g: u8,
    pub b: u8,
}

/// Value of an ASCII hexadecimal digit, either case.
pub open spec fn hex_value(c: u8) -> Option<u8> {
    if 48 <= c <= 57 {
        Some((c - 48) as u8)
    } else if 97 <= c <= 102 {
        Some((c - 87) as u8)
    } else if 65 <= c <= 70 {
        Some((c - 55) as u8)
    } else {
        None
    }
}

/// The byte written by the two hexadecimal digits `hi` and `lo`.
pub open spec fn hex_pair(hi: u8, lo: u8) -> Option<u8> {
    match (hex_value(hi), hex_value(lo)) {
        (Some(h), Some(l)) => Some((h * 16 + l) as u8),
        _ => None,
    }
}

/// The colour written as `#RRGGBB`, if `s` is such a text.
pub open spec fn color_of(s: Seq<u8>) -> Option<Color> {
    if s.len() != 7 || s[0] != 35 {
        None
    } else {
        match (hex_pair(s[1], s[2]), hex_pair(s[3], s[4]), hex_pair(s[5], s[6])) {
            (Some(r), Some(g), Some(b)) => Some(Color { r, g, b }),
            _ => None,
        }
    }
}

fn hex_digit(c: u8) -> (r: Option<u8>)
    ensures
        r == hex_value(c),
{
    if 48 <= c && c <= 57 {
        Some(c - 48)
    } else if 97 <= c && c <= 102 {
        Some(c - 87)
    } else if 65 <= c && c <= 70 {
        Some(c - 55)
    } else {
        None
    }
}

fn hex_byte(hi: u8, lo: u8) -> (r: Option<u8>)
    ensures
        r == hex_pair(hi, lo),
{
    match (hex_digit(hi), hex_digit(lo)) {
        (Some(h), Some(l)) => Some(h * 16 + l),
        _ => None,
    }
}

/// Reads a colour written `#RRGGBB`.
pub fn parse_color(s: &str) -> (r: Option<Color>)
    ensures
        r == color_of(encode_utf8(s@)),
{
    let b = s.as_bytes();
    if b.len() != 7 || b[0] != 35 {
        return None;
    }
    match (hex_byte(b[1], b[2]), hex_byte(b[3], b[4]), hex_byte(b[5], b[6])) {
        (Some(r), Some(g), Some(bl)) => Some(Color { r, g, b: bl }),
        _ => None,
    }
}

/// How a sampled pixel reads: black is an empty cell, our colour (opaque) is
/// one of our pieces, anything else is the opponent's.
pub open spec fn pixel_case(p: (u8, u8, u8, u8), c: Color) -> Case {
    if p == (0u8, 0u8, 0u8, 255u8) {
        Case::Void
    } else if p == (c.r, c.g, c.b, 255u8) {
        Case::Player
    } else {
        Case::Opponent
    }
}

/// Classifies one RGBA pixel.
pub fn classify_pixel(p: (u8, u8, u8, u8), c: Color) -> (r: Case)
    ensures
        r == pixel_case(p, c),
{
    if p.0 == 0 && p.1 == 0 && p.2 == 0 && p.3 == 255 {
        Case::Void
    } else if p.0 == c.r && p.1 == c.g && p.2 == c.b && p.3 == 255 {
        Case::Player
    } else {
        Case::Opponent
    }
}

} // verus!
