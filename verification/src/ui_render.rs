//! Simple text rendering for overlays and default screen
//!
//! Text is drawn with an 8x8 bitmap font into an ARGB framebuffer of
//! `width * height` pixels laid out row by row.
use vstd::prelude::*;
use vstd::arithmetic::div_mod::{lemma_fundamental_div_mod, lemma_fundamental_div_mod_converse};
use vstd::arithmetic::mul::{lemma_mul_is_commutative, lemma_mul_inequality};

use crate::settings::{InputConfig, KeyMapping, Settings};
use crate::text::{append_decimal, chars_of, decimal, sat_sub, str_eq};
use vstd::string::*;

verus! {

/// Width of a glyph cell in pixels.
pub const FONT_WIDTH: usize = 8;

/// Height of a glyph cell in pixels.
pub const FONT_HEIGHT: usize = 8;

/// The 8x8 bitmap of `c`, one byte per row (bit 7 is the leftmost pixel);
/// characters outside the font are blank.
pub open spec fn glyph(c: char) -> Seq<u8> {
    match c {
        ' ' => seq![0x00u8, 0x00, 0x00, 0x00, 0x00, 0x00, 0x00, 0x00],
        '!' => seq![0x18u8, 0x18, 0x18, 0x18, 0x00, 0x00, 0x18, 0x00],
        '(' => seq![0x0Cu8, 0x18, 0x30, 0x30, 0x30, 0x18, 0x0C, 0x00],
        ')' => seq![0x30u8, 0x18, 0x0C, 0x0C, 0x0C, 0x18, 0x30, 0x00],
        '+' => seq![0x00u8, 0x18, 0x18, 0x7E, 0x18, 0x18, 0x00, 0x00],
        ',' => seq![0x00u8, 0x00, 0x00, 0x00, 0x00, 0x18, 0x18, 0x30],
        '-' => seq![0x00u8, 0x00, 0x00, 0x7E, 0x00, 0x00, 0x00, 0x00],
        '.' => seq![0x00u8, 0x00, 0x00, 0x00, 0x00, 0x18, 0x18, 0x00],
        '/' => seq![0x00u8, 0x03, 0x06, 0x0C, 0x18, 0x30, 0x60, 0x00],
        '0' => seq![0x3Cu8, 0x66, 0x6E, 0x7E, 0x76, 0x66, 0x3C, 0x00],
        '1' => seq![0x18u8, 0x38, 0x18, 0x18, 0x18, 0x18, 0x7E, 0x00],
        '2' => seq![0x3Cu8, 0x66, 0x06, 0x0C, 0x18, 0x30, 0x7E, 0x00],
        '3' => seq![0x3Cu8, 0x66, 0x06, 0x1C, 0x06, 0x66, 0x3C, 0x00],
        '4' => seq![0x0Cu8, 0x1C, 0x3C, 0x6C, 0x7E, 0x0C, 0x0C, 0x00],
        '5' => seq![0x7Eu8, 0x60, 0x7C, 0x06, 0x06, 0x66, 0x3C, 0x00],
        '6' => seq![0x1Cu8, 0x30, 0x60, 0x7C, 0x66, 0x66, 0x3C, 0x00],
        '7' => seq![0x7Eu8, 0x06, 0x0C, 0x18, 0x30, 0x30, 0x30, 0x00],
        '8' => seq![0x3Cu8, 0x66, 0x66, 0x3C, 0x66, 0x66, 0x3C, 0x00],
        '9' => seq![0x3Cu8, 0x66, 0x66, 0x3E, 0x06, 0x0C, 0x38, 0x00],
        ':' => seq![0x00u8, 0x18, 0x18, 0x00, 0x00, 0x18, 0x18, 0x00],
        '<' => seq![0x06u8, 0x0C, 0x18, 0x30, 0x18, 0x0C, 0x06, 0x00],
        '=' => seq![0x00u8, 0x00, 0x7E, 0x00, 0x7E, 0x00, 0x00, 0x00],
        '>' => seq![0x60u8, 0x30, 0x18, 0x0C, 0x18, 0x30, 0x60, 0x00],
        'A' => seq![0x3Cu8, 0x66, 0x66, 0x7E, 0x66, 0x66, 0x66, 0x00],
        'B' => seq![0x7Cu8, 0x66, 0x66, 0x7C, 0x66, 0x66, 0x7C, 0x00],
        'C' => seq![0x3Cu8, 0x66, 0x60, 0x60, 0x60, 0x66, 0x3C, 0x00],
        'D' => seq![0x78u8, 0x6C, 0x66, 0x66, 0x66, 0x6C, 0x78, 0x00],
        'E' => seq![0x7Eu8, 0x60, 0x60, 0x7C, 0x60, 0x60, 0x7E, 0x00],
        'F' => seq![0x7Eu8, 0x60, 0x60, 0x7C, 0x60, 0x60, 0x60, 0x00],
        'G' => seq![0x3Cu8, 0x66, 0x60, 0x6E, 0x66, 0x66, 0x3C, 0x00],
        'H' => seq![0x66u8, 0x66, 0x66, 0x7E, 0x66, 0x66, 0x66, 0x00],
        'I' => seq![0x7Eu8, 0x18, 0x18, 0x18, 0x18, 0x18, 0x7E, 0x00],
        'J' => seq![0x3Eu8, 0x0C, 0x0C, 0x0C, 0x0C, 0x6C, 0x38, 0x00],
        'K' => seq![0x66u8, 0x6C, 0x78, 0x70, 0x78, 0x6C, 0x66, 0x00],
        'L' => seq![0x60u8, 0x60, 0x60, 0x60, 0x60, 0x60, 0x7E, 0x00],
        'M' => seq![0x63u8, 0x77, 0x7F, 0x6B, 0x63, 0x63, 0x63, 0x00],
        'N' => seq![0x66u8, 0x76, 0x7E, 0x6E, 0x66, 0x66, 0x66, 0x00],
        'O' => seq![0x3Cu8, 0x66, 0x66, 0x66, 0x66, 0x66, 0x3C, 0x00],
        'P' => seq![0x7Cu8, 0x66, 0x66, 0x7C, 0x60, 0x60, 0x60, 0x00],
        'Q' => seq![0x3Cu8, 0x66, 0x66, 0x66, 0x6A, 0x6C, 0x36, 0x00],
        'R' => seq![0x7Cu8, 0x66, 0x66, 0x7C, 0x6C, 0x66, 0x66, 0x00],
        'S' => seq![0x3Cu8, 0x66, 0x60, 0x3C, 0x06, 0x66, 0x3C, 0x00],
        'T' => seq![0x7Eu8, 0x18, 0x18, 0x18, 0x18, 0x18, 0x18, 0x00],
        'U' => seq![0x66u8, 0x66, 0x66, 0x66, 0x66, 0x66, 0x3C, 0x00],
        'V' => seq![0x66u8, 0x66, 0x66, 0x66, 0x66, 0x3C, 0x18, 0x00],
        'W' => seq![0x63u8, 0x63, 0x63, 0x6B, 0x7F, 0x77, 0x63, 0x00],
        'X' => seq![0x66u8, 0x66, 0x3C, 0x18, 0x3C, 0x66, 0x66, 0x00],
        'Y' => seq![0x66u8, 0x66, 0x66, 0x3C, 0x18, 0x18, 0x18, 0x00],
        'Z' => seq![0x7Eu8, 0x06, 0x0C, 0x18, 0x30, 0x60, 0x7E, 0x00],
        'a' => seq![0x00u8, 0x00, 0x3C, 0x06, 0x3E, 0x66, 0x3E, 0x00],
        'b' => seq![0x60u8, 0x60, 0x7C, 0x66, 0x66, 0x66, 0x7C, 0x00],
        'c' => seq![0x00u8, 0x00, 0x3C, 0x66, 0x60, 0x66, 0x3C, 0x00],
        'd' => seq![0x06u8, 0x06, 0x3E, 0x66, 0x66, 0x66, 0x3E, 0x00],
        'e' => seq![0x00u8, 0x00, 0x3C, 0x66, 0x7E, 0x60, 0x3C, 0x00],
        'f' => seq![0x1Cu8, 0x30, 0x30, 0x7C, 0x30, 0x30, 0x30, 0x00],
        'g' => seq![0x00u8, 0x00, 0x3E, 0x66, 0x66, 0x3E, 0x06, 0x3C],
        'h' => seq![0x60u8, 0x60, 0x7C, 0x66, 0x66, 0x66, 0x66, 0x00],
        'i' => seq![0x18u8, 0x00, 0x38, 0x18, 0x18, 0x18, 0x3C, 0x00],
        'j' => seq![0x0Cu8, 0x00, 0x1C, 0x0C, 0x0C, 0x0C, 0x6C, 0x38],
        'k' => seq![0x60u8, 0x60, 0x66, 0x6C, 0x78, 0x6C, 0x66, 0x00],
        'l' => seq![0x38u8, 0x18, 0x18, 0x18, 0x18, 0x18, 0x3C, 0x00],
        'm' => seq![0x00u8, 0x00, 0x66, 0x7F, 0x6B, 0x6B, 0x63, 0x00],
        'n' => seq![0x00u8, 0x00, 0x7C, 0x66, 0x66, 0x66, 0x66, 0x00],
        'o' => seq![0x00u8, 0x00, 0x3C, 0x66, 0x66, 0x66, 0x3C, 0x00],
        'p' => seq![0x00u8, 0x00, 0x7C, 0x66, 0x66, 0x7C, 0x60, 0x60],
        'q' => seq![0x00u8, 0x00, 0x3E, 0x66, 0x66, 0x3E, 0x06, 0x06],
        'r' => seq![0x00u8, 0x00, 0x6C, 0x76, 0x60, 0x60, 0x60, 0x00],
        's' => seq![0x00u8, 0x00, 0x3E, 0x60, 0x3C, 0x06, 0x7C, 0x00],
        't' => seq![0x30u8, 0x30, 0x7C, 0x30, 0x30, 0x30, 0x1C, 0x00],
        'u' => seq![0x00u8, 0x00, 0x66, 0x66, 0x66, 0x66, 0x3E, 0x00],
        'v' => seq![0x00u8, 0x00, 0x66, 0x66, 0x66, 0x3C, 0x18, 0x00],
        'w' => seq![0x00u8, 0x00, 0x63, 0x6B, 0x6B, 0x7F, 0x36, 0x00],
        'x' => seq![0x00u8, 0x00, 0x66, 0x3C, 0x18, 0x3C, 0x66, 0x00],
        'y' => seq![0x00u8, 0x00, 0x66, 0x66, 0x66, 0x3E, 0x06, 0x3C],
        'z' => seq![0x00u8, 0x00, 0x7E, 0x0C, 0x18, 0x30, 0x7E, 0x00],
        _ => seq![0x00u8, 0x00, 0x00, 0x00, 0x00, 0x00, 0x00, 0x00],
    }
}

/// Simple 8x8 bitmap font (subset of ASCII printable characters)
/// Each character is represented as 8 bytes (one per row)
fn get_char_bitmap(c: char) -> (r: [u8; 8])
    ensures
        r@ == glyph(c),
{
    let r: [u8; 8] = match c {
        ' ' => [0x00, 0x00, 0x00, 0x00, 0x00, 0x00, 0x00, 0x00],
        '!' => [0x18, 0x18, 0x18, 0x18, 0x00, 0x00, 0x18, 0x00],
        '(' => [0x0C, 0x18, 0x30, 0x30, 0x30, 0x18, 0x0C, 0x00],
        ')' => [0x30, 0x18, 0x0C, 0x0C, 0x0C, 0x18, 0x30, 0x00],
        '+' => [0x00, 0x18, 0x18, 0x7E, 0x18, 0x18, 0x00, 0x00],
        ',' => [0x00, 0x00, 0x00, 0x00, 0x00, 0x18, 0x18, 0x30],
        '-' => [0x00, 0x00, 0x00, 0x7E, 0x00, 0x00, 0x00, 0x00],
        '.' => [0x00, 0x00, 0x00, 0x00, 0x00, 0x18, 0x18, 0x00],
        '/' => [0x00, 0x03, 0x06, 0x0C, 0x18, 0x30, 0x60, 0x00],
        '0' => [0x3C, 0x66, 0x6E, 0x7E, 0x76, 0x66, 0x3C, 0x00],
        '1' => [0x18, 0x38, 0x18, 0x18, 0x18, 0x18, 0x7E, 0x00],
        '2' => [0x3C, 0x66, 0x06, 0x0C, 0x18, 0x30, 0x7E, 0x00],
        '3' => [0x3C, 0x66, 0x06, 0x1C, 0x06, 0x66, 0x3C, 0x00],
        '4' => [0x0C, 0x1C, 0x3C, 0x6C, 0x7E, 0x0C, 0x0C, 0x00],
        '5' => [0x7E, 0x60, 0x7C, 0x06, 0x06, 0x66, 0x3C, 0x00],
        '6' => [0x1C, 0x30, 0x60, 0x7C, 0x66, 0x66, 0x3C, 0x00],
        '7' => [0x7E, 0x06, 0x0C, 0x18, 0x30, 0x30, 0x30, 0x00],
        '8' => [0x3C, 0x66, 0x66, 0x3C, 0x66, 0x66, 0x3C, 0x00],
        '9' => [0x3C, 0x66, 0x66, 0x3E, 0x06, 0x0C, 0x38, 0x00],
        ':' => [0x00, 0x18, 0x18, 0x00, 0x00, 0x18, 0x18, 0x00],
        '<' => [0x06, 0x0C, 0x18, 0x30, 0x18, 0x0C, 0x06, 0x00],
        '=' => [0x00, 0x00, 0x7E, 0x00, 0x7E, 0x00, 0x00, 0x00],
        '>' => [0x60, 0x30, 0x18, 0x0C, 0x18, 0x30, 0x60, 0x00],
        'A' => [0x3C, 0x66, 0x66, 0x7E, 0x66, 0x66, 0x66, 0x00],
        'B' => [0x7C, 0x66, 0x66, 0x7C, 0x66, 0x66, 0x7C, 0x00],
        'C' => [0x3C, 0x66, 0x60, 0x60, 0x60, 0x66, 0x3C, 0x00],
        'D' => [0x78, 0x6C, 0x66, 0x66, 0x66, 0x6C, 0x78, 0x00],
        'E' => [0x7E, 0x60, 0x60, 0x7C, 0x60, 0x60, 0x7E, 0x00],
        'F' => [0x7E, 0x60, 0x60, 0x7C, 0x60, 0x60, 0x60, 0x00],
        'G' => [0x3C, 0x66, 0x60, 0x6E, 0x66, 0x66, 0x3C, 0x00],
        'H' => [0x66, 0x66, 0x66, 0x7E, 0x66, 0x66, 0x66, 0x00],
        'I' => [0x7E, 0x18, 0x18, 0x18, 0x18, 0x18, 0x7E, 0x00],
        'J' => [0x3E, 0x0C, 0x0C, 0x0C, 0x0C, 0x6C, 0x38, 0x00],
        'K' => [0x66, 0x6C, 0x78, 0x70, 0x78, 0x6C, 0x66, 0x00],
        'L' => [0x60, 0x60, 0x60, 0x60, 0x60, 0x60, 0x7E, 0x00],
        'M' => [0x63, 0x77, 0x7F, 0x6B, 0x63, 0x63, 0x63, 0x00],
        'N' => [0x66, 0x76, 0x7E, 0x6E, 0x66, 0x66, 0x66, 0x00],
        'O' => [0x3C, 0x66, 0x66, 0x66, 0x66, 0x66, 0x3C, 0x00],
        'P' => [0x7C, 0x66, 0x66, 0x7C, 0x60, 0x60, 0x60, 0x00],
        'Q' => [0x3C, 0x66, 0x66, 0x66, 0x6A, 0x6C, 0x36, 0x00],
        'R' => [0x7C, 0x66, 0x66, 0x7C, 0x6C, 0x66, 0x66, 0x00],
        'S' => [0x3C, 0x66, 0x60, 0x3C, 0x06, 0x66, 0x3C, 0x00],
        'T' => [0x7E, 0x18, 0x18, 0x18, 0x18, 0x18, 0x18, 0x00],
        'U' => [0x66, 0x66, 0x66, 0x66, 0x66, 0x66, 0x3C, 0x00],
        'V' => [0x66, 0x66, 0x66, 0x66, 0x66, 0x3C, 0x18, 0x00],
        'W' => [0x63, 0x63, 0x63, 0x6B, 0x7F, 0x77, 0x63, 0x00],
        'X' => [0x66, 0x66, 0x3C, 0x18, 0x3C, 0x66, 0x66, 0x00],
        'Y' => [0x66, 0x66, 0x66, 0x3C, 0x18, 0x18, 0x18, 0x00],
        'Z' => [0x7E, 0x06, 0x0C, 0x18, 0x30, 0x60, 0x7E, 0x00],
        'a' => [0x00, 0x00, 0x3C, 0x06, 0x3E, 0x66, 0x3E, 0x00],
        'b' => [0x60, 0x60, 0x7C, 0x66, 0x66, 0x66, 0x7C, 0x00],
        'c' => [0x00, 0x00, 0x3C, 0x66, 0x60, 0x66, 0x3C, 0x00],
        'd' => [0x06, 0x06, 0x3E, 0x66, 0x66, 0x66, 0x3E, 0x00],
        'e' => [0x00, 0x00, 0x3C, 0x66, 0x7E, 0x60, 0x3C, 0x00],
        'f' => [0x1C, 0x30, 0x30, 0x7C, 0x30, 0x30, 0x30, 0x00],
        'g' => [0x00, 0x00, 0x3E, 0x66, 0x66, 0x3E, 0x06, 0x3C],
        'h' => [0x60, 0x60, 0x7C, 0x66, 0x66, 0x66, 0x66, 0x00],
        'i' => [0x18, 0x00, 0x38, 0x18, 0x18, 0x18, 0x3C, 0x00],
        'j' => [0x0C, 0x00, 0x1C, 0x0C, 0x0C, 0x0C, 0x6C, 0x38],
        'k' => [0x60, 0x60, 0x66, 0x6C, 0x78, 0x6C, 0x66, 0x00],
        'l' => [0x38, 0x18, 0x18, 0x18, 0x18, 0x18, 0x3C, 0x00],
        'm' => [0x00, 0x00, 0x66, 0x7F, 0x6B, 0x6B, 0x63, 0x00],
        'n' => [0x00, 0x00, 0x7C, 0x66, 0x66, 0x66, 0x66, 0x00],
        'o' => [0x00, 0x00, 0x3C, 0x66, 0x66, 0x66, 0x3C, 0x00],
        'p' => [0x00, 0x00, 0x7C, 0x66, 0x66, 0x7C, 0x60, 0x60],
        'q' => [0x00, 0x00, 0x3E, 0x66, 0x66, 0x3E, 0x06, 0x06],
        'r' => [0x00, 0x00, 0x6C, 0x76, 0x60, 0x60, 0x60, 0x00],
        's' => [0x00, 0x00, 0x3E, 0x60, 0x3C, 0x06, 0x7C, 0x00],
        't' => [0x30, 0x30, 0x7C, 0x30, 0x30, 0x30, 0x1C, 0x00],
        'u' => [0x00, 0x00, 0x66, 0x66, 0x66, 0x66, 0x3E, 0x00],
        'v' => [0x00, 0x00, 0x66, 0x66, 0x66, 0x3C, 0x18, 0x00],
        'w' => [0x00, 0x00, 0x63, 0x6B, 0x6B, 0x7F, 0x36, 0x00],
        'x' => [0x00, 0x00, 0x66, 0x3C, 0x18, 0x3C, 0x66, 0x00],
        'y' => [0x00, 0x00, 0x66, 0x66, 0x66, 0x3E, 0x06, 0x3C],
        'z' => [0x00, 0x00, 0x7E, 0x0C, 0x18, 0x30, 0x7E, 0x00],
        _ => [0x00, 0x00, 0x00, 0x00, 0x00, 0x00, 0x00, 0x00],
    };
    assert(r@ =~= glyph(c));
    r
}

/// Column `col` (0 = leftmost) of the glyph row `bits` is lit.
pub open spec fn bit_lit(bits: u8, col: int) -> bool {
    (bits >> ((7 - col) as u8)) & 1u8 == 1u8
}

/// Pixel `p` of a `width`-wide buffer of `len` pixels lies in the 8x8 cell whose
/// top-left corner is (`x`, `y`), on screen (column < `width`, row < `height`),
/// and the glyph `g` lights it.
pub open spec fn glyph_pixel(
    len: int,
    width: int,
    height: int,
    g: Seq<u8>,
    x: int,
    y: int,
    p: int,
) -> bool {
    &&& width > 0
    &&& 0 <= p < len
    &&& y <= p / width < y + 8
    &&& p / width < height
    &&& x <= p % width < x + 8
    &&& bit_lit(g[p / width - y], p % width - x)
}

/// `buf` with the glyph `g` drawn in `color` at (`x`, `y`).
pub open spec fn draw_glyph(
    buf: Seq<u32>,
    width: int,
    height: int,
    g: Seq<u8>,
    x: int,
    y: int,
    color: u32,
) -> Seq<u32> {
    Seq::new(
        buf.len(),
        |p: int|
            if glyph_pixel(buf.len() as int, width, height, g, x, y, p) {
                color
            } else {
                buf[p]
            },
    )
}

/// `buf` with `text` drawn from (`x`, `y`): each character but '\n' takes the next
/// cell to the right, and drawing stops after the cell that reaches the right edge.
pub open spec fn draw_text_spec(
    buf: Seq<u32>,
    width: int,
    height: int,
    text: Seq<char>,
    x: int,
    y: int,
    color: u32,
) -> Seq<u32>
    decreases text.len(),
{
    if text.len() == 0 {
        buf
    } else if text[0] == '\n' {
        draw_text_spec(buf, width, height, text.drop_first(), x, y, color)
    } else {
        let drawn = draw_glyph(buf, width, height, glyph(text[0]), x, y, color);
        if x + 8 >= width {
            drawn
        } else {
            draw_text_spec(drawn, width, height, text.drop_first(), x + 8, y, color)
        }
    }
}

/// `buf` with `lines[i..]` drawn, line `j` at (`x`, `y0 + j * spacing`), stopping at
/// the first line whose cell would reach below `height`.
pub open spec fn draw_lines_spec(
    buf: Seq<u32>,
    width: int,
    height: int,
    lines: Seq<Seq<char>>,
    x: int,
    y0: int,
    spacing: int,
    color: u32,
    i: int,
) -> Seq<u32>
    decreases lines.len() - i,
{
    if i < 0 || i >= lines.len() {
        buf
    } else if y0 + i * spacing + 8 > height {
        buf
    } else {
        draw_lines_spec(
            draw_text_spec(buf, width, height, lines[i], x, y0 + i * spacing, color),
            width,
            height,
            lines,
            x,
            y0,
            spacing,
            color,
            i + 1,
        )
    }
}

/// The views of a list of string slices.
pub open spec fn str_views(lines: Seq<&str>) -> Seq<Seq<char>> {
    lines.map_values(|s: &str| s@)
}

/// A buffer of `n` pixels all of `color`.
pub open spec fn filled(n: int, color: u32) -> Seq<u32> {
    Seq::new(n as nat, |i: int| color)
}

/// The pixel of cell (row, col) of the glyph at (x, y) is the only pixel with
/// that cell position.
proof fn lemma_cell_pixel(p: int, width: int, x: int, y: int, row: int, col: int)
    requires
        width > 0,
        0 <= p,
        0 <= row,
        0 <= col < 8,
        0 <= x,
        0 <= y,
        x + col < width,
    ensures
        p == (y + row) * width + x + col <==> (p / width == y + row && p % width == x + col),
{
    lemma_fundamental_div_mod(p, width);
    lemma_mul_is_commutative(width, p / width);
    if p == (y + row) * width + x + col {
        lemma_fundamental_div_mod_converse(p, width, y + row, x + col);
    }
}

/// Pixel `p` lies in a cell of the glyph before cell number `k` (row-major).
spec fn glyph_pixel_before(
    len: int,
    width: int,
    height: int,
    g: Seq<u8>,
    x: int,
    y: int,
    p: int,
    k: int,
) -> bool {
    &&& glyph_pixel(len, width, height, g, x, y, p)
    &&& (p / width - y) * 8 + (p % width - x) < k
}

/// Draw one glyph cell.
fn draw_glyph_exec(
    buffer: &mut [u32],
    width: usize,
    height: usize,
    bitmap: &[u8; 8],
    x: usize,
    y: usize,
    color: u32,
)
    requires
        x <= usize::MAX - 8,
        y <= usize::MAX - 8,
        width * height <= usize::MAX,
    ensures
        final(buffer)@ == draw_glyph(
            old(buffer)@,
            width as int,
            height as int,
            bitmap@,
            x as int,
            y as int,
            color,
        ),
{
    let ghost old_buf = buffer@;
    let ghost len = buffer@.len() as int;
    let ghost g = bitmap@;
    let mut row: usize = 0;
    while row < 8
        invariant
            row <= 8,
            buffer@.len() == len,
            x <= usize::MAX - 8,
            y <= usize::MAX - 8,
            width * height <= usize::MAX,
            g == bitmap@,
            forall|p: int|
                0 <= p < len ==> #[trigger] buffer@[p] == if glyph_pixel_before(
                    len,
                    width as int,
                    height as int,
                    g,
                    x as int,
                    y as int,
                    p,
                    row * 8,
                ) {
                    color
                } else {
                    old_buf[p]
                },
        decreases 8 - row,
    {
        let mut col: usize = 0;
        while col < 8
            invariant
                row < 8,
                col <= 8,
                buffer@.len() == len,
                x <= usize::MAX - 8,
                y <= usize::MAX - 8,
                width * height <= usize::MAX,
                g == bitmap@,
                forall|p: int|
                    0 <= p < len ==> #[trigger] buffer@[p] == if glyph_pixel_before(
                        len,
                        width as int,
                        height as int,
                        g,
                        x as int,
                        y as int,
                        p,
                        row * 8 + col,
                    ) {
                        color
                    } else {
                        old_buf[p]
                    },
            decreases 8 - col,
        {
            let ghost k = row * 8 + col;
            let ghost prev = buffer@;
            if y + row >= height || x + col >= width {
                assert forall|p: int| 0 <= p < len implies glyph_pixel_before(
                    len,
                    width as int,
                    height as int,
                    g,
                    x as int,
                    y as int,
                    p,
                    k + 1,
                ) == glyph_pixel_before(
                    len,
                    width as int,
                    height as int,
                    g,
                    x as int,
                    y as int,
                    p,
                    k,
                ) by {
                    if width > 0 && glyph_pixel(len, width as int, height as int, g, x as int, y as int, p)
                        && (p / width as int - y) * 8 + (p % width as int - x) == k {
                        assert(p / width as int == y + row);
                        assert(p % width as int == x + col);
                    }
                }
            } else {
                let bit = (bitmap[row] >> ((7 - col) as u8)) & 1;
                assert(((y + row) as int) * (width as int) + x + col < (height as int) * (
                width as int)) by (nonlinear_arith)
                    requires
                        y + row < height,
                        x + col < width,
                ;
                proof {
                    lemma_mul_is_commutative(height as int, width as int);
                }
                let idx = (y + row) * width + x + col;
                if bit == 1 && idx < buffer.len() {
                    buffer[idx] = color;
                }
                assert forall|p: int| 0 <= p < len implies #[trigger] buffer@[p] == if glyph_pixel_before(
                    len,
                    width as int,
                    height as int,
                    g,
                    x as int,
                    y as int,
                    p,
                    k + 1,
                ) {
                    color
                } else {
                    old_buf[p]
                } by {
                    lemma_cell_pixel(p, width as int, x as int, y as int, row as int, col as int);
                    if p == idx {
                        assert(p / width as int == y + row);
                        assert(p % width as int == x + col);
                    } else {
                        assert(buffer@[p] == prev[p]);
                        if width > 0 && glyph_pixel(len, width as int, height as int, g, x as int, y as int, p)
                            && (p / width as int - y) * 8 + (p % width as int - x) == k {
                            assert(p / width as int == y + row);
                            assert(p % width as int == x + col);
                        }
                    }
                }
            }
            col += 1;
        }
        row += 1;
    }
    assert(buffer@ =~= draw_glyph(old_buf, width as int, height as int, g, x as int, y as int, color)) by {
        assert forall|p: int| 0 <= p < len implies glyph_pixel_before(
            len,
            width as int,
            height as int,
            g,
            x as int,
            y as int,
            p,
            64,
        ) == glyph_pixel(len, width as int, height as int, g, x as int, y as int, p) by {}
    }
}

/// Draw a string on a framebuffer
#[allow(clippy::too_many_arguments)]
pub fn draw_text(
    buffer: &mut [u32],
    width: usize,
    height: usize,
    text: &str,
    x: usize,
    y: usize,
    color: u32,
)
    requires
        text@.len() > 0 ==> {
            &&& x <= usize::MAX - 8
            &&& y <= usize::MAX - 8
            &&& width <= usize::MAX - 8
            &&& width * height <= usize::MAX
        },
    ensures
        final(buffer)@ == draw_text_spec(
            old(buffer)@,
            width as int,
            height as int,
            text@,
            x as int,
            y as int,
            color,
        ),
{
    let ghost goal = draw_text_spec(
        old(buffer)@,
        width as int,
        height as int,
        text@,
        x as int,
        y as int,
        color,
    );
    let chars = chars_of(text);
    if chars.len() == 0 {
        return;
    }
    let mut cursor_x = x;
    let mut i: usize = 0;
    assert(text@.skip(0) =~= text@);
    while i < chars.len()
        invariant
            i <= chars.len(),
            chars@ == text@,
            goal == draw_text_spec(
                old(buffer)@,
                width as int,
                height as int,
                text@,
                x as int,
                y as int,
                color,
            ),
            cursor_x == x || cursor_x < width,
            x <= usize::MAX - 8,
            y <= usize::MAX - 8,
            width <= usize::MAX - 8,
            width * height <= usize::MAX,
            goal == draw_text_spec(
                buffer@,
                width as int,
                height as int,
                text@.skip(i as int),
                cursor_x as int,
                y as int,
                color,
            ),
        decreases chars.len() - i,
    {
        let c = chars[i];
        assert(text@.skip(i as int)[0] == c);
        assert(text@.skip(i as int).drop_first() =~= text@.skip(i + 1));
        if c == '\n' {
            i += 1;
            continue;
        }
        let bitmap = get_char_bitmap(c);
        let ghost before = buffer@;
        assert(goal == if cursor_x + 8 >= width {
            draw_glyph(before, width as int, height as int, glyph(c), cursor_x as int, y as int, color)
        } else {
            draw_text_spec(
                draw_glyph(before, width as int, height as int, glyph(c), cursor_x as int, y as int, color),
                width as int,
                height as int,
                text@.skip(i + 1),
                cursor_x + 8,
                y as int,
                color,
            )
        });
        draw_glyph_exec(buffer, width, height, &bitmap, cursor_x, y, color);
        if cursor_x + 8 >= width {
            return;
        }
        cursor_x += 8;
        i += 1;
    }
}

/// Draw multiple lines of text
#[allow(clippy::too_many_arguments)]
pub fn draw_text_lines(
    buffer: &mut [u32],
    width: usize,
    height: usize,
    lines: &[&str],
    start_x: usize,
    start_y: usize,
    line_spacing: usize,
    color: u32,
)
    requires
        start_x <= usize::MAX - 8,
        width <= usize::MAX - 8,
        height <= usize::MAX - 8,
        width * height <= usize::MAX,
        start_y + lines@.len() * line_spacing + 8 <= usize::MAX,
    ensures
        final(buffer)@ == draw_lines_spec(
            old(buffer)@,
            width as int,
            height as int,
            str_views(lines@),
            start_x as int,
            start_y as int,
            line_spacing as int,
            color,
            0,
        ),
{
    let ghost views = str_views(lines@);
    let ghost goal = draw_lines_spec(
        old(buffer)@,
        width as int,
        height as int,
        views,
        start_x as int,
        start_y as int,
        line_spacing as int,
        color,
        0,
    );
    let mut i: usize = 0;
    while i < lines.len()
        invariant
            i <= lines.len(),
            views == str_views(lines@),
            goal == draw_lines_spec(
                old(buffer)@,
                width as int,
                height as int,
                views,
                start_x as int,
                start_y as int,
                line_spacing as int,
                color,
                0,
            ),
            start_x <= usize::MAX - 8,
            width <= usize::MAX - 8,
            height <= usize::MAX - 8,
            width * height <= usize::MAX,
            start_y + lines@.len() * line_spacing + 8 <= usize::MAX,
            goal == draw_lines_spec(
                buffer@,
                width as int,
                height as int,
                views,
                start_x as int,
                start_y as int,
                line_spacing as int,
                color,
                i as int,
            ),
        decreases lines.len() - i,
    {
        proof {
            lemma_mul_inequality(i as int, lines@.len() as int, line_spacing as int);
        }
        let y = start_y + i * line_spacing;
        assert(views.len() == lines@.len());
        assert(views[i as int] == lines@[i as int]@);
        if y + 8 > height {
            assert(goal == buffer@);
            return;
        }
        draw_text(buffer, width, height, lines[i], start_x, y, color);
        i += 1;
    }
}

/// Pixel `p` of a `width`-wide buffer lies on screen (row < `height`) in the
/// rectangle of columns `x0..x0 + w` and rows `y0..y0 + h`.
pub open spec fn in_rect(p: int, width: int, height: int, x0: int, y0: int, w: int, h: int) -> bool {
    &&& width > 0
    &&& x0 <= p % width < x0 + w
    &&& y0 <= p / width < y0 + h
    &&& p / width < height
}

/// `buf` with the on-screen part of a rectangle filled with `color`.
pub open spec fn fill_rect_spec(
    buf: Seq<u32>,
    width: int,
    height: int,
    x0: int,
    y0: int,
    w: int,
    h: int,
    color: u32,
) -> Seq<u32> {
    Seq::new(
        buf.len(),
        |p: int|
            if in_rect(p, width, height, x0, y0, w, h) {
                color
            } else {
                buf[p]
            },
    )
}

/// `p == y * width + x` for a column `x < width` pins down the row and column of `p`.
proof fn lemma_row_col(p: int, width: int, x: int, y: int)
    requires
        width > 0,
        0 <= x < width,
        0 <= y,
    ensures
        (p == y * width + x) <==> (p >= 0 && p / width == y && p % width == x),
{
    if p == y * width + x {
        lemma_fundamental_div_mod_converse(p, width, y, x);
        assert(p >= 0) by (nonlinear_arith)
            requires
                p == y * width + x,
                width > 0,
                0 <= x,
                0 <= y,
        ;
    }
    if p >= 0 && p / width == y && p % width == x {
        lemma_fundamental_div_mod(p, width);
        lemma_mul_is_commutative(width, p / width);
    }
}

/// While filling row `y` from the left: pixel `p` is in a row done before, or in
/// row `y` left of column `x`.
pub open spec fn rect_progress(
    p: int,
    width: int,
    height: int,
    x0: int,
    y0: int,
    w: int,
    y: int,
    x: int,
) -> bool {
    ||| in_rect(p, width, height, x0, y0, w, y - y0)
    ||| (width > 0 && p / width == y && x0 <= p % width < x && y < height)
}

/// Fill the on-screen part of a rectangle (the pixels that the buffer holds).
#[allow(clippy::too_many_arguments)]
pub fn fill_rect(
    buffer: &mut [u32],
    width: usize,
    height: usize,
    x0: usize,
    y0: usize,
    w: usize,
    h: usize,
    color: u32,
)
    requires
        width * height <= usize::MAX,
        x0 + w <= usize::MAX,
        y0 + h <= usize::MAX,
    ensures
        final(buffer)@ == fill_rect_spec(
            old(buffer)@,
            width as int,
            height as int,
            x0 as int,
            y0 as int,
            w as int,
            h as int,
            color,
        ),
{
    let ghost b0 = buffer@;
    let ghost len = b0.len() as int;
    if width == 0 {
        assert(buffer@ =~= fill_rect_spec(b0, 0, height as int, x0 as int, y0 as int, w as int, h as int, color));
        return;
    }
    let mut y = y0;
    while y < y0 + h
        invariant
            y0 <= y <= y0 + h,
            width > 0,
            width * height <= usize::MAX,
            x0 + w <= usize::MAX,
            y0 + h <= usize::MAX,
            buffer@.len() == len,
            buffer@ == fill_rect_spec(b0, width as int, height as int, x0 as int, y0 as int, w as int, (y - y0) as int, color),
        decreases y0 + h - y,
    {
        let mut x = x0;
        while x < x0 + w
            invariant
                y0 <= y < y0 + h,
                x0 <= x <= x0 + w,
                width > 0,
                width * height <= usize::MAX,
                x0 + w <= usize::MAX,
                y0 + h <= usize::MAX,
                buffer@.len() == len,
                forall|p: int|
                    0 <= p < len ==> #[trigger] buffer@[p] == if rect_progress(
                        p,
                        width as int,
                        height as int,
                        x0 as int,
                        y0 as int,
                        w as int,
                        y as int,
                        x as int,
                    ) {
                        color
                    } else {
                        b0[p]
                    },
            decreases x0 + w - x,
        {
            if y < height && x < width {
                assert(y * width + x < width * height) by (nonlinear_arith)
                    requires
                        y < height,
                        x < width,
                ;
                let idx = y * width + x;
                if idx < buffer.len() {
                    let ghost before = buffer@;
                    buffer[idx] = color;
                    proof {
                        assert forall|p: int| 0 <= p < len implies #[trigger] buffer@[p] == if rect_progress(
                            p,
                            width as int,
                            height as int,
                            x0 as int,
                            y0 as int,
                            w as int,
                            y as int,
                            x + 1,
                        ) {
                            color
                        } else {
                            b0[p]
                        } by {
                            lemma_row_col(p, width as int, x as int, y as int);
                        }
                    }
                } else {
                    proof {
                        assert forall|p: int| 0 <= p < len implies #[trigger] buffer@[p] == if rect_progress(
                            p,
                            width as int,
                            height as int,
                            x0 as int,
                            y0 as int,
                            w as int,
                            y as int,
                            x + 1,
                        ) {
                            color
                        } else {
                            b0[p]
                        } by {
                            lemma_row_col(p, width as int, x as int, y as int);
                        }
                    }
                }
            }
            x += 1;
        }
        proof {
            assert forall|p: int| 0 <= p < len implies #[trigger] buffer@[p] == fill_rect_spec(
                b0,
                width as int,
                height as int,
                x0 as int,
                y0 as int,
                w as int,
                (y + 1 - y0) as int,
                color,
            )[p] by {
                lemma_fundamental_div_mod(p, width as int);
            }
        }
        y += 1;
        assert(buffer@ =~= fill_rect_spec(b0, width as int, height as int, x0 as int, y0 as int, w as int, (y - y0) as int, color));
    }
}

/// `buf` with the first `n` of `lines` drawn, line `j` at (`x`, `y0 + j * spacing`).
pub open spec fn draw_column_spec(
    buf: Seq<u32>,
    width: int,
    height: int,
    lines: Seq<Seq<char>>,
    x: int,
    y0: int,
    spacing: int,
    color: u32,
    n: int,
) -> Seq<u32>
    decreases n,
{
    if n <= 0 {
        buf
    } else {
        draw_text_spec(
            draw_column_spec(buf, width, height, lines, x, y0, spacing, color, n - 1),
            width,
            height,
            lines[n - 1],
            x,
            y0 + (n - 1) * spacing,
            color,
        )
    }
}

/// Draw the first `n` of `lines`, line `j` at (`x`, `y0 + j * spacing`).
#[allow(clippy::too_many_arguments)]
pub fn draw_column(
    buffer: &mut [u32],
    width: usize,
    height: usize,
    lines: &[&str],
    x: usize,
    y0: usize,
    spacing: usize,
    color: u32,
    n: usize,
)
    requires
        n <= lines@.len(),
        x <= usize::MAX - 8,
        width <= usize::MAX - 8,
        width * height <= usize::MAX,
        y0 + n * spacing + 8 <= usize::MAX,
    ensures
        final(buffer)@ == draw_column_spec(
            old(buffer)@,
            width as int,
            height as int,
            str_views(lines@),
            x as int,
            y0 as int,
            spacing as int,
            color,
            n as int,
        ),
{
    let ghost views = str_views(lines@);
    let mut i: usize = 0;
    while i < n
        invariant
            i <= n,
            n <= lines@.len(),
            views == str_views(lines@),
            x <= usize::MAX - 8,
            width <= usize::MAX - 8,
            width * height <= usize::MAX,
            y0 + n * spacing + 8 <= usize::MAX,
            buffer@ == draw_column_spec(
                old(buffer)@,
                width as int,
                height as int,
                views,
                x as int,
                y0 as int,
                spacing as int,
                color,
                i as int,
            ),
        decreases n - i,
    {
        proof {
            lemma_mul_inequality(i as int, n as int, spacing as int);
        }
        let y = y0 + i * spacing;
        assert(views[i as int] == lines@[i as int]@);
        draw_text(buffer, width, height, lines[i], x, y, color);
        i += 1;
    }
}

/// The 8-bit channel of `x` at bit offset `shift` (24: alpha, 16: red, 8: green,
/// 0: blue).
pub open spec fn channel(x: u32, shift: u32) -> u32 {
    (x >> shift) & 0xFF
}

/// A channel of an overlay of alpha `a` over a base channel: the weighted mean,
/// rounded down.
pub open spec fn mix(over: u32, base: u32, a: u32) -> int {
    (over * a + base * (255 - a)) / 255
}

/// `p` is the overlay pixel `o` blended over the base pixel `b`: the base where
/// the overlay is fully transparent, else an opaque pixel whose colour channels
/// mix the two by the overlay's alpha.
pub open spec fn blended(b: u32, o: u32, p: u32) -> bool {
    if channel(o, 24) == 0 {
        p == b
    } else {
        &&& channel(p, 24) == 0xFF
        &&& channel(p, 16) == mix(channel(o, 16), channel(b, 16), channel(o, 24))
        &&& channel(p, 8) == mix(channel(o, 8), channel(b, 8), channel(o, 24))
        &&& channel(p, 0) == mix(channel(o, 0), channel(b, 0), channel(o, 24))
    }
}

proof fn lemma_mix_byte(over: u32, base: u32, a: u32)
    requires
        over <= 255,
        base <= 255,
        a <= 255,
    ensures
        0 <= mix(over, base, a) <= 255,
        a == 255 ==> mix(over, base, a) == over,
{
    assert(0 <= over * a + base * (255 - a) <= 255 * 255) by (nonlinear_arith)
        requires
            over <= 255,
            base <= 255,
            a <= 255,
    ;
    if a == 255 {
        assert(over * 255 + base * 0 == over * 255) by (nonlinear_arith);
    }
}

proof fn lemma_pack(r: u32, g: u32, b: u32)
    by (bit_vector)
    requires
        r <= 255,
        g <= 255,
        b <= 255,
    ensures
        ((0xFF00_0000u32 | (r << 16u32) | (g << 8u32) | b) >> 24u32) & 0xFF == 0xFF,
        ((0xFF00_0000u32 | (r << 16u32) | (g << 8u32) | b) >> 16u32) & 0xFF == r,
        ((0xFF00_0000u32 | (r << 16u32) | (g << 8u32) | b) >> 8u32) & 0xFF == g,
        ((0xFF00_0000u32 | (r << 16u32) | (g << 8u32) | b) >> 0u32) & 0xFF == b,
{
}

proof fn lemma_channels_small(x: u32)
    by (bit_vector)
    ensures
        (x >> 24u32) & 0xFF <= 255,
        (x >> 16u32) & 0xFF <= 255,
        (x >> 8u32) & 0xFF <= 255,
        (x >> 0u32) & 0xFF <= 255,
        x & 0xFF == (x >> 0u32) & 0xFF,
        0xFF00_0000u32 | (x & 0x00FF_FFFF) == 0xFF00_0000u32 | (((x >> 16u32) & 0xFF) << 16u32) | (((x
            >> 8u32) & 0xFF) << 8u32) | (x & 0xFF),
{
}

/// An opaque overlay pixel shows as itself (made fully opaque), and a transparent
/// one leaves the base pixel as it was.
pub proof fn lemma_blend_extremes(b: u32, o: u32, p: u32)
    requires
        blended(b, o, p),
    ensures
        channel(o, 24) == 0 ==> p == b,
        channel(o, 24) == 255 ==> channel(p, 24) == 0xFF && channel(p, 16) == channel(o, 16)
            && channel(p, 8) == channel(o, 8) && channel(p, 0) == channel(o, 0),
{
    lemma_channels_small(b);
    lemma_channels_small(o);
    if channel(o, 24) == 255 {
        lemma_mix_byte(channel(o, 16), channel(b, 16), 255);
        lemma_mix_byte(channel(o, 8), channel(b, 8), 255);
        lemma_mix_byte(channel(o, 0), channel(b, 0), 255);
    }
}

/// Blend an overlay over a base image, pixel by pixel (alpha in the top byte of
/// each overlay pixel).
pub fn blend_over(base: &[u32], overlay: &[u32]) -> (out: Vec<u32>)
    requires
        base@.len() == overlay@.len(),
    ensures
        out@.len() == base@.len(),
        forall|i: int| 0 <= i < out@.len() ==> blended(base@[i], overlay@[i], #[trigger] out@[i]),
{
    let mut out: Vec<u32> = Vec::with_capacity(base.len());
    let mut i: usize = 0;
    while i < base.len()
        invariant
            i <= base@.len(),
            base@.len() == overlay@.len(),
            out@.len() == i,
            forall|k: int| 0 <= k < i ==> blended(base@[k], overlay@[k], #[trigger] out@[k]),
        decreases base@.len() - i,
    {
        let b = base[i];
        let o = overlay[i];
        proof {
            lemma_channels_small(b);
            lemma_channels_small(o);
        }
        let a = (o >> 24) & 0xFF;
        let p: u32 = if a == 0 {
            b
        } else if a == 255 {
            proof {
                lemma_mix_byte((o >> 16) & 0xFF, (b >> 16) & 0xFF, a);
                lemma_mix_byte((o >> 8) & 0xFF, (b >> 8) & 0xFF, a);
                lemma_mix_byte(o & 0xFF, b & 0xFF, a);
                lemma_pack((o >> 16) & 0xFF, (o >> 8) & 0xFF, o & 0xFF);
            }
            0xFF00_0000 | (o & 0x00FF_FFFF)
        } else {
            let inv = 255 - a;
            let br = (b >> 16) & 0xFF;
            let bg = (b >> 8) & 0xFF;
            let bb = b & 0xFF;
            let or = (o >> 16) & 0xFF;
            let og = (o >> 8) & 0xFF;
            let ob = o & 0xFF;
            proof {
                lemma_mix_byte(or, br, a);
                lemma_mix_byte(og, bg, a);
                lemma_mix_byte(ob, bb, a);
                assert(or * a + br * inv <= 255 * 255) by (nonlinear_arith)
                    requires
                        or <= 255,
                        br <= 255,
                        a <= 255,
                        inv == 255 - a,
                ;
                assert(og * a + bg * inv <= 255 * 255) by (nonlinear_arith)
                    requires
                        og <= 255,
                        bg <= 255,
                        a <= 255,
                        inv == 255 - a,
                ;
                assert(ob * a + bb * inv <= 255 * 255) by (nonlinear_arith)
                    requires
                        ob <= 255,
                        bb <= 255,
                        a <= 255,
                        inv == 255 - a,
                ;
            }
            let r = (or * a + br * inv) / 255;
            let g = (og * a + bg * inv) / 255;
            let bl = (ob * a + bb * inv) / 255;
            proof {
                lemma_pack(r, g, bl);
            }
            0xFF00_0000 | (r << 16) | (g << 8) | bl
        };
        out.push(p);
        i += 1;
    }
    out
}

/// Sizes for which a full-screen overlay can be allocated and drawn on.
pub open spec fn overlay_size_ok(width: int, height: int) -> bool {
    &&& width * height <= usize::MAX
    &&& width <= usize::MAX - 8
    &&& height <= usize::MAX - 8
}

/// A new buffer of `n` pixels, all `color`.
pub fn new_buffer(n: usize, color: u32) -> (b: Vec<u32>)
    ensures
        b@ == filled(n as int, color),
{
    let b = vec![color; n];
    assert(b@ =~= filled(n as int, color));
    b
}

/// The splash screen: title, subtitle and the two instruction lines, each centred.
pub open spec fn default_screen(width: int, height: int) -> Seq<u32> {
    let logo_y = height / 3;
    let inst_y = height * 2 / 3;
    let b0 = filled(width * height, 0xFF1A1A2E);
    let b1 = draw_text_spec(b0, width, height, "HEMULATOR"@, (width - 72) / 2, logo_y, 0xFF16F2B3);
    let b2 = draw_text_spec(
        b1,
        width,
        height,
        "Multi-System Emulator"@,
        (width - 168) / 2,
        logo_y + 24,
        0xFF16F2B3,
    );
    let b3 = draw_text_spec(
        b2,
        width,
        height,
        "Press F3 to open a ROM"@,
        (width - 176) / 2,
        inst_y,
        0xFFF0F0F0,
    );
    draw_text_spec(b3, width, height, "Press F1 for help"@, (width - 136) / 2, inst_y + 12, 0xFFF0F0F0)
}

/// Create the default splash screen
pub fn create_default_screen(width: usize, height: usize) -> (buffer: Vec<u32>)
    requires
        width >= 176,
        height * 2 <= usize::MAX,
        overlay_size_ok(width as int, height as int),
    ensures
        buffer@ == default_screen(width as int, height as int),
{
    let mut buffer = new_buffer(width * height, 0xFF1A1A2E);
    let logo_y = height / 3;
    let hemulator_x = (width - 9 * FONT_WIDTH) / 2;
    draw_text(buffer.as_mut_slice(), width, height, "HEMULATOR", hemulator_x, logo_y, 0xFF16F2B3);
    let subtitle_x = (width - 21 * FONT_WIDTH) / 2;
    draw_text(
        buffer.as_mut_slice(),
        width,
        height,
        "Multi-System Emulator",
        subtitle_x,
        logo_y + (FONT_HEIGHT + 4) * 2,
        0xFF16F2B3,
    );
    let inst_y = height * 2 / 3;
    let inst1_x = (width - 22 * FONT_WIDTH) / 2;
    draw_text(
        buffer.as_mut_slice(),
        width,
        height,
        "Press F3 to open a ROM",
        inst1_x,
        inst_y,
        0xFFF0F0F0,
    );
    let inst2_x = (width - 17 * FONT_WIDTH) / 2;
    draw_text(
        buffer.as_mut_slice(),
        width,
        height,
        "Press F1 for help",
        inst2_x,
        inst_y + FONT_HEIGHT + 4,
        0xFFF0F0F0,
    );
    buffer
}

/// The splash screen with the project-loading instruction and, where `status` is
/// not empty, the status message centred near the bottom.
pub open spec fn splash_screen(width: int, height: int, status: &str) -> Seq<u32> {
    let logo_y = height / 3;
    let inst_y = height * 2 / 3;
    let b0 = filled(width * height, 0xFF1A1A2E);
    let b1 = draw_text_spec(b0, width, height, "HEMULATOR"@, (width - 72) / 2, logo_y, 0xFF16F2B3);
    let b2 = draw_text_spec(
        b1,
        width,
        height,
        "Multi-System Emulator"@,
        (width - 168) / 2,
        logo_y + 24,
        0xFF16F2B3,
    );
    let b3 = draw_text_spec(
        b2,
        width,
        height,
        "Press F3 to open a ROM"@,
        (width - 176) / 2,
        inst_y,
        0xFFF0F0F0,
    );
    let b4 = draw_text_spec(
        b3,
        width,
        height,
        "Press F7 to load project"@,
        (width - 192) / 2,
        inst_y + 12,
        0xFFF0F0F0,
    );
    let b5 = draw_text_spec(
        b4,
        width,
        height,
        "Press F1 for help"@,
        (width - 136) / 2,
        inst_y + 24,
        0xFFF0F0F0,
    );
    if status@.len() == 0 {
        b5
    } else {
        draw_text_spec(
            b5,
            width,
            height,
            status@,
            sat_sub(width, (status.spec_bytes().len() * 8) as int) / 2,
            sat_sub(height, 18),
            0xFF16F2B3,
        )
    }
}

/// Create splash screen with status message
pub fn create_splash_screen_with_status(
    width: usize,
    height: usize,
    status_message: &str,
) -> (buffer: Vec<u32>)
    requires
        width >= 192,
        height * 2 <= usize::MAX,
        status_message.spec_bytes().len() * 8 <= usize::MAX,
        overlay_size_ok(width as int, height as int),
    ensures
        buffer@ == splash_screen(width as int, height as int, status_message),
{
    let mut buffer = new_buffer(width * height, 0xFF1A1A2E);
    let logo_y = height / 3;
    let hemulator_x = (width - 9 * FONT_WIDTH) / 2;
    draw_text(buffer.as_mut_slice(), width, height, "HEMULATOR", hemulator_x, logo_y, 0xFF16F2B3);
    let subtitle_x = (width - 21 * FONT_WIDTH) / 2;
    draw_text(
        buffer.as_mut_slice(),
        width,
        height,
        "Multi-System Emulator",
        subtitle_x,
        logo_y + (FONT_HEIGHT + 4) * 2,
        0xFF16F2B3,
    );
    let inst_y = height * 2 / 3;
    let inst1_x = (width - 22 * FONT_WIDTH) / 2;
    draw_text(
        buffer.as_mut_slice(),
        width,
        height,
        "Press F3 to open a ROM",
        inst1_x,
        inst_y,
        0xFFF0F0F0,
    );
    let inst2_x = (width - 24 * FONT_WIDTH) / 2;
    draw_text(
        buffer.as_mut_slice(),
        width,
        height,
        "Press F7 to load project",
        inst2_x,
        inst_y + FONT_HEIGHT + 4,
        0xFFF0F0F0,
    );
    let inst3_x = (width - 17 * FONT_WIDTH) / 2;
    draw_text(
        buffer.as_mut_slice(),
        width,
        height,
        "Press F1 for help",
        inst3_x,
        inst_y + (FONT_HEIGHT + 4) * 2,
        0xFFF0F0F0,
    );
    if !status_message.is_empty() {
        let status_y = height.saturating_sub(FONT_HEIGHT + 10);
        let status_x = (width.saturating_sub(status_message.len() * FONT_WIDTH)) / 2;
        draw_text(
            buffer.as_mut_slice(),
            width,
            height,
            status_message,
            status_x,
            status_y,
            0xFF16F2B3,
        );
    }
    buffer
}

/// The speed choices as listed: key, name and factor.
pub open spec fn speed_labels() -> Seq<Seq<char>> {
    seq![
        "0 - Pause (0x)"@,
        "1 - Slow Motion (0.25x)"@,
        "2 - Half Speed (0.5x)"@,
        "3 - Normal (1x)"@,
        "4 - Fast Forward (2x)"@,
        "5 - Turbo (10x)"@,
    ]
}

/// The speed choices, the one at `current` marked with '>'.
pub open spec fn speed_lines(current: Option<usize>) -> Seq<Seq<char>> {
    Seq::new(
        6,
        |i: int|
            seq![
                if current == Some(i as usize) {
                    '>'
                } else {
                    ' '
                },
                ' ',
            ] + speed_labels()[i],
    )
}

/// The speed choice lines, the one at `current` marked with '>'.
pub fn speed_lines_exec(current: Option<usize>) -> (lines: Vec<String>)
    ensures
        lines@.map_values(|l: String| l@) == speed_lines(current),
{
    let labels: [&str; 6] = [
        "0 - Pause (0x)",
        "1 - Slow Motion (0.25x)",
        "2 - Half Speed (0.5x)",
        "3 - Normal (1x)",
        "4 - Fast Forward (2x)",
        "5 - Turbo (10x)",
    ];
    assert(str_views(labels@) =~= speed_labels());
    let mut lines: Vec<String> = Vec::new();
    let mut i: usize = 0;
    while i < 6
        invariant
            i <= 6,
            str_views(labels@) == speed_labels(),
            lines@.len() == i,
            forall|k: int| 0 <= k < i ==> #[trigger] lines@[k]@ == speed_lines(current)[k],
        decreases 6 - i,
    {
        let mut line = String::new();
        line.push(if current == Some(i) {
            '>'
        } else {
            ' '
        });
        line.push(' ');
        line.append(labels[i]);
        assert(str_views(labels@)[i as int] == labels@[i as int]@);
        assert(line@ =~= speed_lines(current)[i as int]);
        lines.push(line);
        i += 1;
    }
    assert(lines@.map_values(|l: String| l@) =~= speed_lines(current));
    lines
}

/// The lines of the speed selector overlay.
pub open spec fn speed_overlay_lines(current: Option<usize>) -> Seq<Seq<char>> {
    seq!["EMULATION SPEED - Select (0-5)"@, ""@] + speed_lines(current) + seq![
        ""@,
        "Press 0-5 to select, ESC to cancel"@,
    ]
}

/// Create the speed selector overlay; `current` is the choice that matches the
/// current speed, if one does.
pub fn create_speed_selector_overlay(width: usize, height: usize, current: Option<usize>) -> (buffer:
    Vec<u32>)
    requires
        overlay_size_ok(width as int, height as int),
    ensures
        buffer@ == draw_lines_spec(
            filled(width * height, 0xC0000000),
            width as int,
            height as int,
            speed_overlay_lines(current),
            sat_sub(width as int, 280) / 2,
            height as int / 3,
            10,
            0xFFFFFFFF,
            0,
        ),
{
    let mut buffer = new_buffer(width * height, 0xC0000000);
    let speed = speed_lines_exec(current);
    let mut all_lines: Vec<&str> = Vec::new();
    all_lines.push("EMULATION SPEED - Select (0-5)");
    all_lines.push("");
    assert(speed@.len() == 6) by {
        assert(speed@.map_values(|l: String| l@).len() == 6);
    }
    let mut i: usize = 0;
    while i < speed.len()
        invariant
            i <= speed@.len(),
            speed@.len() == 6,
            speed@.map_values(|l: String| l@) == speed_lines(current),
            str_views(all_lines@) == seq!["EMULATION SPEED - Select (0-5)"@, ""@] + speed_lines(
                current,
            ).take(i as int),
        decreases speed@.len() - i,
    {
        let line: &str = speed[i].as_str();
        assert(speed@.map_values(|l: String| l@)[i as int] == speed@[i as int]@);
        assert(line@ == speed_lines(current)[i as int]);
        let ghost before = str_views(all_lines@);
        all_lines.push(line);
        assert(str_views(all_lines@) =~= before.push(line@));
        i += 1;
        assert(str_views(all_lines@) =~= seq!["EMULATION SPEED - Select (0-5)"@, ""@] + speed_lines(
            current,
        ).take(i as int));
    }
    all_lines.push("");
    all_lines.push("Press 0-5 to select, ESC to cancel");
    assert(speed_lines(current).take(6) =~= speed_lines(current));
    assert(str_views(all_lines@) =~= speed_overlay_lines(current));
    let start_x = (width.saturating_sub(35 * FONT_WIDTH)) / 2;
    let start_y = height / 3;
    draw_text_lines(
        buffer.as_mut_slice(),
        width,
        height,
        all_lines.as_slice(),
        start_x,
        start_y,
        FONT_HEIGHT + 2,
        0xFFFFFFFF,
    );
    buffer
}

/// The lines of the system selector.
pub open spec fn system_selector_lines() -> Seq<Seq<char>> {
    seq![
        "SYSTEM SELECTOR"@,
        ""@,
        "  1 - NES (Nintendo Entertainment System)"@,
        "  2 - Game Boy"@,
        "  3 - Atari 2600"@,
        "  4 - PC (IBM PC/XT)"@,
        "  5 - SNES (Super Nintendo)"@,
        "  6 - N64 (Nintendo 64)"@,
        ""@,
        "Press 1-6 to select, ESC to cancel"@,
    ]
}

/// Create system selector overlay
pub fn create_system_selector_overlay(width: usize, height: usize) -> (buffer: Vec<u32>)
    requires
        overlay_size_ok(width as int, height as int),
    ensures
        buffer@ == draw_lines_spec(
            filled(width * height, 0xC0000000),
            width as int,
            height as int,
            system_selector_lines(),
            sat_sub(width as int, 360) / 2,
            height as int / 3,
            10,
            0xFFFFFFFF,
            0,
        ),
{
    let mut buffer = new_buffer(width * height, 0xC0000000);
    let all_lines: [&str; 10] = [
        "SYSTEM SELECTOR",
        "",
        "  1 - NES (Nintendo Entertainment System)",
        "  2 - Game Boy",
        "  3 - Atari 2600",
        "  4 - PC (IBM PC/XT)",
        "  5 - SNES (Super Nintendo)",
        "  6 - N64 (Nintendo 64)",
        "",
        "Press 1-6 to select, ESC to cancel",
    ];
    assert(str_views(all_lines@) =~= system_selector_lines());
    let start_x = (width.saturating_sub(45 * FONT_WIDTH)) / 2;
    let start_y = height / 3;
    draw_text_lines(
        buffer.as_mut_slice(),
        width,
        height,
        &all_lines,
        start_x,
        start_y,
        FONT_HEIGHT + 2,
        0xFFFFFFFF,
    );
    buffer
}

/// The lines of the save/load slot selector: in LOAD mode, slots without a save
/// are marked "(empty)".
pub open spec fn slot_selector_lines(mode: Seq<char>, has_saves: Seq<bool>) -> Seq<Seq<char>> {
    let load = mode == "LOAD"@;
    seq![
        if mode == "SAVE"@ {
            "SAVE STATE - Select Slot (1-5)"@
        } else {
            "LOAD STATE - Select Slot (1-5)"@
        },
        ""@,
        if load && !has_saves[0] {
            "  1 - Slot 1 (empty)"@
        } else {
            "  1 - Slot 1"@
        },
        if load && !has_saves[1] {
            "  2 - Slot 2 (empty)"@
        } else {
            "  2 - Slot 2"@
        },
        if load && !has_saves[2] {
            "  3 - Slot 3 (empty)"@
        } else {
            "  3 - Slot 3"@
        },
        if load && !has_saves[3] {
            "  4 - Slot 4 (empty)"@
        } else {
            "  4 - Slot 4"@
        },
        if load && !has_saves[4] {
            "  5 - Slot 5 (empty)"@
        } else {
            "  5 - Slot 5"@
        },
        ""@,
        "Press 1-5 to select, ESC to cancel"@,
    ]
}

/// Create a slot selection overlay for save/load
pub fn create_slot_selector_overlay(
    width: usize,
    height: usize,
    mode: &str,
    has_saves: &[bool; 5],
) -> (buffer: Vec<u32>)
    requires
        overlay_size_ok(width as int, height as int),
    ensures
        buffer@ == draw_lines_spec(
            filled(width * height, 0xC0000000),
            width as int,
            height as int,
            slot_selector_lines(mode@, has_saves@),
            sat_sub(width as int, 240) / 2,
            height as int / 3,
            10,
            0xFFFFFFFF,
            0,
        ),
{
    let mut buffer = new_buffer(width * height, 0xC0000000);
    let save = str_eq(mode, "SAVE");
    let load = str_eq(mode, "LOAD");
    let title = if save {
        "SAVE STATE - Select Slot (1-5)"
    } else {
        "LOAD STATE - Select Slot (1-5)"
    };
    let slot1 = if load && !has_saves[0] {
        "  1 - Slot 1 (empty)"
    } else {
        "  1 - Slot 1"
    };
    let slot2 = if load && !has_saves[1] {
        "  2 - Slot 2 (empty)"
    } else {
        "  2 - Slot 2"
    };
    let slot3 = if load && !has_saves[2] {
        "  3 - Slot 3 (empty)"
    } else {
        "  3 - Slot 3"
    };
    let slot4 = if load && !has_saves[3] {
        "  4 - Slot 4 (empty)"
    } else {
        "  4 - Slot 4"
    };
    let slot5 = if load && !has_saves[4] {
        "  5 - Slot 5 (empty)"
    } else {
        "  5 - Slot 5"
    };
    let all_lines: [&str; 9] = [
        title,
        "",
        slot1,
        slot2,
        slot3,
        slot4,
        slot5,
        "",
        "Press 1-5 to select, ESC to cancel",
    ];
    assert(str_views(all_lines@) =~= slot_selector_lines(mode@, has_saves@));
    let start_x = (width.saturating_sub(30 * FONT_WIDTH)) / 2;
    let start_y = height / 3;
    draw_text_lines(
        buffer.as_mut_slice(),
        width,
        height,
        &all_lines,
        start_x,
        start_y,
        FONT_HEIGHT + 2,
        0xFFFFFFFF,
    );
    buffer
}

/// "  " followed by the key name and `suffix` (a help line for one button).
pub open spec fn key_help_line(key: Seq<char>, suffix: Seq<char>) -> Seq<char> {
    "  "@ + key + suffix
}

/// The D-pad help line of a mapping: its four direction keys, then " - D-pad".
pub open spec fn dpad_help_line(m: KeyMapping) -> Seq<char> {
    "  "@ + m.up@ + " "@ + m.down@ + " "@ + m.left@ + " "@ + m.right@ + " - D-pad"@
}

pub fn key_help_line_exec(key: &String, suffix: &str) -> (s: String)
    ensures
        s@ == key_help_line(key@, suffix@),
{
    let mut s = String::from_str("  ");
    s.append(key.as_str());
    s.append(suffix);
    s
}

pub fn dpad_help_line_exec(m: &KeyMapping) -> (s: String)
    ensures
        s@ == dpad_help_line(*m),
{
    let mut s = String::from_str("  ");
    s.append(m.up.as_str());
    s.append(" ");
    s.append(m.down.as_str());
    s.append(" ");
    s.append(m.left.as_str());
    s.append(" ");
    s.append(m.right.as_str());
    s.append(" - D-pad");
    s
}

/// The first lines of the help overlay: player 1's buttons.
pub open spec fn help_overlay_head(input: InputConfig) -> Seq<Seq<char>> {
    let p1 = input.player1;
    seq![
        "HEMULATOR - Help"@,
        ""@,
        "Player 1 Controller:"@,
        key_help_line(p1.a@, " - A"@),
        key_help_line(p1.b@, " - B"@),
        key_help_line(p1.select@, " - Select"@),
        key_help_line(p1.start@, " - Start"@),
        dpad_help_line(p1),
    ]
}

/// Player 2's lines of the help overlay, present where player 2's A button is mapped.
pub open spec fn help_overlay_player2(input: InputConfig) -> Seq<Seq<char>> {
    let p2 = input.player2;
    if p2.a@.len() != 0 {
        seq![
            ""@,
            "Player 2 Controller:"@,
            key_help_line(p2.a@, " - A"@),
            key_help_line(p2.b@, " - B"@),
            dpad_help_line(p2),
        ]
    } else {
        Seq::empty()
    }
}

/// The closing lines of the help overlay: the function keys.
pub open spec fn help_overlay_tail() -> Seq<Seq<char>> {
    seq![
        ""@,
        "HOST KEY: Hold Right Alt for emulator controls"@,
        ""@,
        "Function Keys (with Right Alt):"@,
        "  F1  - Help"@,
        "  F2  - Speed"@,
        "  F3  - Mount points"@,
        "  F4  - Screenshot"@,
        "  F5  - Save state"@,
        "  F6  - Load state"@,
        "  F7  - Load project"@,
        "  F8  - Save project"@,
        "  F10 - Debug info"@,
        "  F11 - CRT filter"@,
        "  F12 - Reset"@,
        "  ESC - Exit emulator"@,
        ""@,
        "Without Right Ctrl: All keys pass to DOS"@,
        "(ESC works in DOS, BIOS, etc.)"@,
        ""@,
        "Press F1 to close"@,
    ]
}

/// The lines of the help overlay: player 1's buttons, player 2's where player 2's
/// A button is mapped, then the function keys.
pub open spec fn help_overlay_lines(input: InputConfig) -> Seq<Seq<char>> {
    help_overlay_head(input) + help_overlay_player2(input) + help_overlay_tail()
}

/// Create a help overlay
pub fn create_help_overlay(width: usize, height: usize, settings: &Settings) -> (buffer: Vec<u32>)
    requires
        overlay_size_ok(width as int, height as int),
    ensures
        buffer@ == draw_lines_spec(
            filled(width * height, 0xC0000000),
            width as int,
            height as int,
            help_overlay_lines(settings.input),
            10,
            10,
            9,
            0xFFFFFFFF,
            0,
        ),
{
    let mut buffer = new_buffer(width * height, 0xC0000000);
    let p1 = &settings.input.player1;
    let p2 = &settings.input.player2;
    let p1_a = key_help_line_exec(&p1.a, " - A");
    let p1_b = key_help_line_exec(&p1.b, " - B");
    let p1_select = key_help_line_exec(&p1.select, " - Select");
    let p1_start = key_help_line_exec(&p1.start, " - Start");
    let p1_dpad = dpad_help_line_exec(p1);
    let p2_mapped = !p2.a.as_str().is_empty();
    let p2_a = key_help_line_exec(&p2.a, " - A");
    let p2_b = key_help_line_exec(&p2.b, " - B");
    let p2_dpad = dpad_help_line_exec(p2);
    let mut help_lines: Vec<&str> = Vec::new();
    help_lines.push("HEMULATOR - Help");
    help_lines.push("");
    help_lines.push("Player 1 Controller:");
    help_lines.push(p1_a.as_str());
    help_lines.push(p1_b.as_str());
    help_lines.push(p1_select.as_str());
    help_lines.push(p1_start.as_str());
    help_lines.push(p1_dpad.as_str());
    let ghost head = str_views(help_lines@);
    assert(head =~= help_overlay_head(settings.input));
    if p2_mapped {
        help_lines.push("");
        help_lines.push("Player 2 Controller:");
        help_lines.push(p2_a.as_str());
        help_lines.push(p2_b.as_str());
        help_lines.push(p2_dpad.as_str());
    }
    let ghost with_p2 = str_views(help_lines@);
    assert(with_p2 =~= help_overlay_head(settings.input) + help_overlay_player2(settings.input));
    let tail: [&str; 21] = [
        "",
        "HOST KEY: Hold Right Alt for emulator controls",
        "",
        "Function Keys (with Right Alt):",
        "  F1  - Help",
        "  F2  - Speed",
        "  F3  - Mount points",
        "  F4  - Screenshot",
        "  F5  - Save state",
        "  F6  - Load state",
        "  F7  - Load project",
        "  F8  - Save project",
        "  F10 - Debug info",
        "  F11 - CRT filter",
        "  F12 - Reset",
        "  ESC - Exit emulator",
        "",
        "Without Right Ctrl: All keys pass to DOS",
        "(ESC works in DOS, BIOS, etc.)",
        "",
        "Press F1 to close",
    ];
    let mut k: usize = 0;
    while k < 21
        invariant
            k <= 21,
            help_lines@.len() == with_p2.len() + k,
            forall|j: int| 0 <= j < with_p2.len() ==> #[trigger] help_lines@[j]@ == with_p2[j],
            forall|j: int| 0 <= j < k ==> #[trigger] help_lines@[with_p2.len() + j]@ == tail@[j]@,
        decreases 21 - k,
    {
        help_lines.push(tail[k]);
        k += 1;
    }
    assert(str_views(tail@) =~= help_overlay_tail());
    assert forall|i: int|
        with_p2.len() <= i < help_lines@.len() implies #[trigger] str_views(help_lines@)[i]
        == str_views(tail@)[i - with_p2.len()] by {
        assert(help_lines@[with_p2.len() + (i - with_p2.len())]@ == tail@[i - with_p2.len()]@);
    }
    assert(str_views(help_lines@) =~= with_p2 + str_views(tail@));
    draw_text_lines(
        buffer.as_mut_slice(),
        width,
        height,
        help_lines.as_slice(),
        10,
        10,
        FONT_HEIGHT + 1,
        0xFFFFFFFF,
    );
    buffer
}

/// A mount point of a system: where a cartridge, BIOS or disk image is attached.
#[derive(Debug, Clone)]
pub struct MountPointInfo {
    pub id: String,
    pub name: String,
    pub extensions: Vec<String>,
    pub required: bool,
}

/// Every required mount point has media: `mounted[i]` tells whether mount point
/// `i` has.
pub open spec fn required_mounts_present(mount_points: Seq<MountPointInfo>, mounted: Seq<bool>) -> bool {
    forall|i: int| 0 <= i < mount_points.len() && #[trigger] mount_points[i].required ==> mounted[i]
}

/// Check if all required mount points have media loaded (`mounted[i]` for mount
/// point `i`).
pub fn has_required_mounts(mount_points: &[MountPointInfo], mounted: &[bool]) -> (b: bool)
    requires
        mounted@.len() == mount_points@.len(),
    ensures
        b == required_mounts_present(mount_points@, mounted@),
{
    let mut i: usize = 0;
    while i < mount_points.len()
        invariant
            i <= mount_points@.len(),
            mounted@.len() == mount_points@.len(),
            forall|k: int| 0 <= k < i && #[trigger] mount_points@[k].required ==> mounted@[k],
        decreases mount_points@.len() - i,
    {
        if mount_points[i].required && !mounted[i] {
            return false;
        }
        i += 1;
    }
    true
}

/// "  " followed by the 1-based number `i + 1`, " - " and the mount point's name.
pub open spec fn mount_point_line(i: int, name: Seq<char>) -> Seq<char> {
    "  "@ + decimal((i + 1) as nat) + " - "@ + name
}

/// The lines of the mount point selector: a title, one numbered line per mount point,
/// and the instructions.
pub open spec fn mount_point_lines(mount_points: Seq<MountPointInfo>) -> Seq<Seq<char>> {
    seq!["SELECT MOUNT POINT"@, ""@] + Seq::new(
        mount_points.len(),
        |i: int| mount_point_line(i, mount_points[i].name@),
    ) + seq![""@, "Press number to select, ESC to cancel"@]
}

/// Create a mount point selection overlay
pub fn create_mount_point_selector(
    width: usize,
    height: usize,
    mount_points: &[MountPointInfo],
) -> (buffer: Vec<u32>)
    requires
        overlay_size_ok(width as int, height as int),
        height / 3 + (mount_points@.len() + 4) * 9 + 8 <= usize::MAX,
    ensures
        buffer@ == draw_lines_spec(
            filled(width * height, 0xC0000000),
            width as int,
            height as int,
            mount_point_lines(mount_points@),
            sat_sub(width as int, 240) / 2,
            height as int / 3,
            9,
            0xFFFFFFFF,
            0,
        ),
{
    let mut buffer = new_buffer(width * height, 0xC0000000);
    let mut lines_storage: Vec<String> = Vec::new();
    let mut i: usize = 0;
    while i < mount_points.len()
        invariant
            i <= mount_points@.len(),
            lines_storage@.len() == i,
            forall|j: int|
                0 <= j < i ==> #[trigger] lines_storage@[j]@ == mount_point_line(
                    j,
                    mount_points@[j].name@,
                ),
        decreases mount_points.len() - i,
    {
        let mut line = String::from_str("  ");
        append_decimal(&mut line, i + 1);
        line.append(" - ");
        line.append(mount_points[i].name.as_str());
        lines_storage.push(line);
        i += 1;
    }
    let mut display_lines: Vec<&str> = Vec::new();
    display_lines.push("SELECT MOUNT POINT");
    display_lines.push("");
    let mut j: usize = 0;
    while j < lines_storage.len()
        invariant
            j <= lines_storage@.len(),
            lines_storage@.len() == mount_points@.len(),
            display_lines@.len() == 2 + j,
            display_lines@[0]@ == "SELECT MOUNT POINT"@,
            display_lines@[1]@ == ""@,
            forall|k: int|
                0 <= k < j ==> #[trigger] display_lines@[2 + k]@ == lines_storage@[k]@,
        decreases lines_storage.len() - j,
    {
        display_lines.push(lines_storage[j].as_str());
        j += 1;
    }
    display_lines.push("");
    display_lines.push("Press number to select, ESC to cancel");
    assert forall|i: int|
        2 <= i < 2 + mount_points@.len() implies #[trigger] str_views(display_lines@)[i]
        == mount_point_line(i - 2, mount_points@[i - 2].name@) by {
        assert(display_lines@[2 + (i - 2)]@ == lines_storage@[i - 2]@);
    }
    assert(str_views(display_lines@) =~= mount_point_lines(mount_points@));
    let start_x = (width.saturating_sub(30 * FONT_WIDTH)) / 2;
    let start_y = height / 3;
    draw_text_lines(
        buffer.as_mut_slice(),
        width,
        height,
        display_lines.as_slice(),
        start_x,
        start_y,
        FONT_HEIGHT + 1,
        0xFFFFFFFF,
    );
    buffer
}

/// The number of characters of `text` that take a cell (all but '\n').
pub open spec fn glyph_count(text: Seq<char>) -> int
    decreases text.len(),
{
    if text.len() == 0 {
        0
    } else {
        (if text[0] == '\n' {
            0int
        } else {
            1int
        }) + glyph_count(text.drop_first())
    }
}

/// Drawing text keeps the buffer's length and changes a pixel only to the text's
/// colour, and only within the text's cells: on screen (row below `height`), in
/// the 8 rows from `y`, and in the columns from `x` that its characters take.
pub proof fn lemma_draw_text_local(
    buf: Seq<u32>,
    width: int,
    height: int,
    text: Seq<char>,
    x: int,
    y: int,
    color: u32,
    p: int,
)
    requires
        0 <= p < buf.len(),
    ensures
        draw_text_spec(buf, width, height, text, x, y, color).len() == buf.len(),
        draw_text_spec(buf, width, height, text, x, y, color)[p] != buf[p] ==> {
            &&& draw_text_spec(buf, width, height, text, x, y, color)[p] == color
            &&& width > 0
            &&& y <= p / width < y + 8
            &&& p / width < height
            &&& x <= p % width < x + 8 * glyph_count(text)
        },
    decreases text.len(),
{
    if text.len() > 0 {
        if text[0] == '\n' {
            lemma_draw_text_local(buf, width, height, text.drop_first(), x, y, color, p);
        } else {
            let drawn = draw_glyph(buf, width, height, glyph(text[0]), x, y, color);
            lemma_glyph_count_nonneg(text.drop_first());
            if x + 8 < width {
                lemma_draw_text_local(drawn, width, height, text.drop_first(), x + 8, y, color, p);
            }
        }
    }
}

proof fn lemma_glyph_count_nonneg(text: Seq<char>)
    ensures
        glyph_count(text) >= 0,
    decreases text.len(),
{
    if text.len() > 0 {
        lemma_glyph_count_nonneg(text.drop_first());
    }
}

/// The index of the first line, from `i` on, that does not fit above the bottom
/// edge (a line at row `r` fits when `r + 8 <= height`), or `n` if all fit.
pub open spec fn first_unfit(n: int, y0: int, spacing: int, height: int, i: int) -> int
    decreases n - i,
{
    if i >= n || y0 + i * spacing + 8 > height {
        i
    } else {
        first_unfit(n, y0, spacing, height, i + 1)
    }
}

proof fn lemma_lines_as_column_from(
    buf: Seq<u32>,
    width: int,
    height: int,
    lines: Seq<Seq<char>>,
    x: int,
    y0: int,
    spacing: int,
    color: u32,
    i: int,
)
    requires
        0 <= i,
    ensures
        draw_lines_spec(
            draw_column_spec(buf, width, height, lines, x, y0, spacing, color, i),
            width,
            height,
            lines,
            x,
            y0,
            spacing,
            color,
            i,
        ) == draw_column_spec(
            buf,
            width,
            height,
            lines,
            x,
            y0,
            spacing,
            color,
            first_unfit(lines.len() as int, y0, spacing, height, i),
        ),
    decreases lines.len() - i,
{
    if i < lines.len() && y0 + i * spacing + 8 <= height {
        lemma_lines_as_column_from(buf, width, height, lines, x, y0, spacing, color, i + 1);
    }
}

/// Drawing lines draws them one by one, each with `draw_text` at
/// (`x`, `y0 + i * spacing`), from the first while they fit above the bottom edge:
/// the first line that does not fit and all after it are left out.
pub proof fn lemma_lines_are_text_column(
    buf: Seq<u32>,
    width: int,
    height: int,
    lines: Seq<Seq<char>>,
    x: int,
    y0: int,
    spacing: int,
    color: u32,
)
    ensures
        draw_lines_spec(buf, width, height, lines, x, y0, spacing, color, 0) == draw_column_spec(
            buf,
            width,
            height,
            lines,
            x,
            y0,
            spacing,
            color,
            first_unfit(lines.len() as int, y0, spacing, height, 0),
        ),
{
    lemma_lines_as_column_from(buf, width, height, lines, x, y0, spacing, color, 0);
}

/// Outside LOAD mode the slot overlay does not depend on which slots hold saves:
/// the "(empty)" marks are shown only when loading.
pub proof fn lemma_slot_overlay_ignores_saves_unless_loading(
    mode: Seq<char>,
    saves1: Seq<bool>,
    saves2: Seq<bool>,
)
    requires
        mode != "LOAD"@,
    ensures
        slot_selector_lines(mode, saves1) == slot_selector_lines(mode, saves2),
{
}

/// While player 2 is unmapped, the help overlay reads only player 1's mapping:
/// two inputs with the same player 1 give the same lines.
pub proof fn lemma_help_overlay_reads_player1(input1: InputConfig, input2: InputConfig)
    requires
        input1.player1 == input2.player1,
        input1.player2.a@.len() == 0,
        input2.player2.a@.len() == 0,
    ensures
        help_overlay_lines(input1) == help_overlay_lines(input2),
{
    assert(help_overlay_player2(input1) =~= help_overlay_player2(input2));
}

} // verus!
