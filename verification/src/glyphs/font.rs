//! The font: packed bitmaps for the characters the sign can draw.
//!
//! Codepoints below 128 are answered by the primary table, where a zero
//! word means the character has no glyph; codepoints above it by the
//! small overflow table. Each word packs `width - 1` in its top four bits
//! and the mask in its low bits, rows top to bottom, the leftmost column
//! of a row in the row's most significant bit.

use vstd::prelude::*;
use super::glyph::Glyph;

verus! {

/// Lowest codepoint the primary table does not answer.
pub const PRIMARY_TABLE_END: u32 = 128;

pub const GLYPH_SPACE: u64 = 2u64 << 60;

pub const GLYPH_BANG: u64 = 0b1_1_1_1_1_0_1;

pub const GLYPH_HYPHEN: u64 = (2u64 << 60) | 0b000_000_000_111_000_000_000;

pub const GLYPH_PERIOD: u64 = (1u64 << 60) | 0b00_00_00_00_00_11_11;

pub const GLYPH_COLON: u64 = 0b0_1_0_0_1_0_0;

pub const GLYPH_QUESTION: u64 = (4u64 << 60) | 0b01110_10001_00001_00110_00100_00000_00100;

pub const GLYPH_0: u64 = (4u64 << 60) | 0b01110_10001_10011_10101_11001_10001_01110;

pub const GLYPH_1: u64 = (2u64 << 60) | 0b010_110_010_010_010_010_111;

pub const GLYPH_2: u64 = (4u64 << 60) | 0b01110_10001_00001_00110_01000_10000_11111;

pub const GLYPH_3: u64 = (4u64 << 60) | 0b11111_00010_00100_00010_00001_10001_01110;

pub const GLYPH_4: u64 = (4u64 << 60) | 0b00010_00110_01010_10010_11111_00010_00010;

pub const GLYPH_5: u64 = (4u64 << 60) | 0b11111_10000_11110_00001_00001_10001_01110;

pub const GLYPH_6: u64 = (4u64 << 60) | 0b00110_01000_10000_11110_10001_10001_01110;

pub const GLYPH_7: u64 = (4u64 << 60) | 0b11111_00001_00010_00100_01000_01000_01000;

pub const GLYPH_8: u64 = (4u64 << 60) | 0b01110_10001_10001_01110_10001_10001_01110;

pub const GLYPH_9: u64 = (4u64 << 60) | 0b01110_10001_10001_01111_00001_00010_01100;

pub const GLYPH_A: u64 = (4u64 << 60) | 0b01110_10001_10001_11111_10001_10001_10001;

pub const GLYPH_B: u64 = (4u64 << 60) | 0b11110_10001_10001_11110_10001_10001_11110;

pub const GLYPH_C: u64 = (4u64 << 60) | 0b01110_10001_10000_10000_10000_10001_01110;

pub const GLYPH_D: u64 = (4u64 << 60) | 0b11110_10001_10001_10001_10001_10001_11110;

pub const GLYPH_E: u64 = (4u64 << 60) | 0b11111_10000_10000_11110_10000_10000_11111;

pub const GLYPH_F: u64 = (4u64 << 60) | 0b11111_10000_10000_11110_10000_10000_10000;

pub const GLYPH_G: u64 = (4u64 << 60) | 0b01110_10001_10000_10111_10001_10001_01111;

pub const GLYPH_H: u64 = (4u64 << 60) | 0b10001_10001_10001_11111_10001_10001_10001;

pub const GLYPH_I: u64 = (2u64 << 60) | 0b111_010_010_010_010_010_111;

pub const GLYPH_J: u64 = (4u64 << 60) | 0b00111_00010_00010_00010_00010_10010_01100;

pub const GLYPH_K: u64 = (4u64 << 60) | 0b10001_10010_10100_11000_10100_10010_10001;

pub const GLYPH_L: u64 = (4u64 << 60) | 0b10000_10000_10000_10000_10000_10000_11111;

pub const GLYPH_M: u64 = (4u64 << 60) | 0b10001_11011_10101_10101_10001_10001_10001;

pub const GLYPH_N: u64 = (4u64 << 60) | 0b10001_10001_11001_10101_10011_10001_10001;

pub const GLYPH_O: u64 = (4u64 << 60) | 0b01110_10001_10001_10001_10001_10001_01110;

pub const GLYPH_P: u64 = (4u64 << 60) | 0b11110_10001_10001_11110_10000_10000_10000;

pub const GLYPH_Q: u64 = (4u64 << 60) | 0b01110_10001_10001_10001_10101_10010_01101;

pub const GLYPH_R: u64 = (4u64 << 60) | 0b11110_10001_10001_11110_10100_10010_10001;

pub const GLYPH_S: u64 = (4u64 << 60) | 0b01111_10000_10000_01110_00001_00001_11110;

pub const GLYPH_T: u64 = (4u64 << 60) | 0b11111_00100_00100_00100_00100_00100_00100;

pub const GLYPH_U: u64 = (4u64 << 60) | 0b10001_10001_10001_10001_10001_10001_01110;

pub const GLYPH_V: u64 = (4u64 << 60) | 0b10001_10001_10001_10001_10001_01010_00100;

pub const GLYPH_W: u64 = (4u64 << 60) | 0b10001_10001_10001_10101_10101_10101_01010;

pub const GLYPH_X: u64 = (4u64 << 60) | 0b10001_10001_01010_00100_01010_10001_10001;

pub const GLYPH_Y: u64 = (4u64 << 60) | 0b10001_10001_01010_00100_00100_00100_00100;

pub const GLYPH_Z: u64 = (4u64 << 60) | 0b11111_00001_00010_00100_01000_10000_11111;

pub const GLYPH_LOWER_A: u64 = (4u64 << 60) | 0b00000_00000_01110_00001_01111_10001_01111;

pub const GLYPH_LOWER_B: u64 = (4u64 << 60) | 0b10000_10000_11110_10001_10001_10001_11110;

pub const GLYPH_LOWER_C: u64 = (4u64 << 60) | 0b00000_00000_01111_10000_10000_10000_01111;

pub const GLYPH_LOWER_D: u64 = (4u64 << 60) | 0b00001_00001_01111_10001_10001_10001_01111;

pub const GLYPH_LOWER_E: u64 = (4u64 << 60) | 0b00000_00000_01110_10001_11111_10000_01110;

pub const GLYPH_LOWER_F: u64 = (4u64 << 60) | 0b00110_01000_11100_01000_01000_01000_01000;

pub const GLYPH_LOWER_G: u64 = (4u64 << 60) | 0b00000_00000_01111_10001_01111_00001_01110;

pub const GLYPH_LOWER_H: u64 = (4u64 << 60) | 0b10000_10000_11110_10001_10001_10001_10001;

pub const GLYPH_LOWER_I: u64 = 0b1_0_1_1_1_1_1;

pub const GLYPH_LOWER_J: u64 = (2u64 << 60) | 0b001_000_001_001_001_101_010;

pub const GLYPH_LOWER_K: u64 = (3u64 << 60) | 0b1000_1000_1001_1010_1100_1010_1001;

pub const GLYPH_LOWER_L: u64 = (2u64 << 60) | 0b110_010_010_010_010_010_111;

pub const GLYPH_LOWER_M: u64 = (4u64 << 60) | 0b00000_00000_11010_10101_10101_10101_10101;

pub const GLYPH_LOWER_N: u64 = (4u64 << 60) | 0b00000_00000_11110_10001_10001_10001_10001;

pub const GLYPH_LOWER_O: u64 = (4u64 << 60) | 0b00000_00000_01110_10001_10001_10001_01110;

pub const GLYPH_LOWER_P: u64 = (4u64 << 60) | 0b00000_00000_11110_10001_11110_10000_10000;

pub const GLYPH_LOWER_Q: u64 = (4u64 << 60) | 0b00000_00000_01111_10001_01111_00001_00001;

pub const GLYPH_LOWER_R: u64 = (4u64 << 60) | 0b00000_00000_10110_11001_10000_10000_10000;

pub const GLYPH_LOWER_S: u64 = (4u64 << 60) | 0b00000_00000_01111_10000_01110_00001_11110;

pub const GLYPH_LOWER_T: u64 = (4u64 << 60) | 0b01000_01000_11100_01000_01000_01001_00110;

pub const GLYPH_LOWER_U: u64 = (4u64 << 60) | 0b00000_00000_10001_10001_10001_10011_01101;

pub const GLYPH_LOWER_V: u64 = (4u64 << 60) | 0b00000_00000_10001_10001_10001_01010_00100;

pub const GLYPH_LOWER_W: u64 = (4u64 << 60) | 0b00000_00000_10001_10001_10101_10101_01010;

pub const GLYPH_LOWER_X: u64 = (4u64 << 60) | 0b00000_00000_10001_01010_00100_01010_10001;

pub const GLYPH_LOWER_Y: u64 = (4u64 << 60) | 0b00000_00000_10001_10001_01111_00001_01110;

pub const GLYPH_LOWER_Z: u64 = (4u64 << 60) | 0b00000_00000_11111_00010_00100_01000_11111;

pub const GLYPH_FOX: u64 = 0b0110000000000000100010011011001111101101011111111100111000001000;

/// The packed word for a codepoint below 128; zero when the font has no
/// glyph for it.
pub open spec fn spec_primary_glyph_data(c: char) -> u64 {
    if c == ' ' {
        GLYPH_SPACE
    } else if c == '!' {
        GLYPH_BANG
    } else if c == '-' {
        GLYPH_HYPHEN
    } else if c == '.' {
        GLYPH_PERIOD
    } else if c == ':' {
        GLYPH_COLON
    } else if c == '?' {
        GLYPH_QUESTION
    } else if c == '0' {
        GLYPH_0
    } else if c == '1' {
        GLYPH_1
    } else if c == '2' {
        GLYPH_2
    } else if c == '3' {
        GLYPH_3
    } else if c == '4' {
        GLYPH_4
    } else if c == '5' {
        GLYPH_5
    } else if c == '6' {
        GLYPH_6
    } else if c == '7' {
        GLYPH_7
    } else if c == '8' {
        GLYPH_8
    } else if c == '9' {
        GLYPH_9
    } else if c == 'A' {
        GLYPH_A
    } else if c == 'B' {
        GLYPH_B
    } else if c == 'C' {
        GLYPH_C
    } else if c == 'D' {
        GLYPH_D
    } else if c == 'E' {
        GLYPH_E
    } else if c == 'F' {
        GLYPH_F
    } else if c == 'G' {
        GLYPH_G
    } else if c == 'H' {
        GLYPH_H
    } else if c == 'I' {
        GLYPH_I
    } else if c == 'J' {
        GLYPH_J
    } else if c == 'K' {
        GLYPH_K
    } else if c == 'L' {
        GLYPH_L
    } else if c == 'M' {
        GLYPH_M
    } else if c == 'N' {
        GLYPH_N
    } else if c == 'O' {
        GLYPH_O
    } else if c == 'P' {
        GLYPH_P
    } else if c == 'Q' {
        GLYPH_Q
    } else if c == 'R' {
        GLYPH_R
    } else if c == 'S' {
        GLYPH_S
    } else if c == 'T' {
        GLYPH_T
    } else if c == 'U' {
        GLYPH_U
    } else if c == 'V' {
        GLYPH_V
    } else if c == 'W' {
        GLYPH_W
    } else if c == 'X' {
        GLYPH_X
    } else if c == 'Y' {
        GLYPH_Y
    } else if c == 'Z' {
        GLYPH_Z
    } else if c == 'a' {
        GLYPH_LOWER_A
    } else if c == 'b' {
        GLYPH_LOWER_B
    } else if c == 'c' {
        GLYPH_LOWER_C
    } else if c == 'd' {
        GLYPH_LOWER_D
    } else if c == 'e' {
        GLYPH_LOWER_E
    } else if c == 'f' {
        GLYPH_LOWER_F
    } else if c == 'g' {
        GLYPH_LOWER_G
    } else if c == 'h' {
        GLYPH_LOWER_H
    } else if c == 'i' {
        GLYPH_LOWER_I
    } else if c == 'j' {
        GLYPH_LOWER_J
    } else if c == 'k' {
        GLYPH_LOWER_K
    } else if c == 'l' {
        GLYPH_LOWER_L
    } else if c == 'm' {
        GLYPH_LOWER_M
    } else if c == 'n' {
        GLYPH_LOWER_N
    } else if c == 'o' {
        GLYPH_LOWER_O
    } else if c == 'p' {
        GLYPH_LOWER_P
    } else if c == 'q' {
        GLYPH_LOWER_Q
    } else if c == 'r' {
        GLYPH_LOWER_R
    } else if c == 's' {
        GLYPH_LOWER_S
    } else if c == 't' {
        GLYPH_LOWER_T
    } else if c == 'u' {
        GLYPH_LOWER_U
    } else if c == 'v' {
        GLYPH_LOWER_V
    } else if c == 'w' {
        GLYPH_LOWER_W
    } else if c == 'x' {
        GLYPH_LOWER_X
    } else if c == 'y' {
        GLYPH_LOWER_Y
    } else if c == 'z' {
        GLYPH_LOWER_Z
    } else {
        0
    }
}

/// The packed word for a codepoint the primary table does not reach;
/// zero when the font has no glyph for it.
pub open spec fn spec_extra_glyph_data(c: char) -> u64 {
    if c == '\u{1f98a}' {
        GLYPH_FOX
    } else {
        0
    }
}

/// Looks a codepoint below 128 up in the primary table.
pub fn primary_glyph_data(c: char) -> (d: u64)
    ensures
        d == spec_primary_glyph_data(c),
{
    match c {
        ' ' => GLYPH_SPACE,
        '!' => GLYPH_BANG,
        '-' => GLYPH_HYPHEN,
        '.' => GLYPH_PERIOD,
        ':' => GLYPH_COLON,
        '?' => GLYPH_QUESTION,
        '0' => GLYPH_0,
        '1' => GLYPH_1,
        '2' => GLYPH_2,
        '3' => GLYPH_3,
        '4' => GLYPH_4,
        '5' => GLYPH_5,
        '6' => GLYPH_6,
        '7' => GLYPH_7,
        '8' => GLYPH_8,
        '9' => GLYPH_9,
        'A' => GLYPH_A,
        'B' => GLYPH_B,
        'C' => GLYPH_C,
        'D' => GLYPH_D,
        'E' => GLYPH_E,
        'F' => GLYPH_F,
        'G' => GLYPH_G,
        'H' => GLYPH_H,
        'I' => GLYPH_I,
        'J' => GLYPH_J,
        'K' => GLYPH_K,
        'L' => GLYPH_L,
        'M' => GLYPH_M,
        'N' => GLYPH_N,
        'O' => GLYPH_O,
        'P' => GLYPH_P,
        'Q' => GLYPH_Q,
        'R' => GLYPH_R,
        'S' => GLYPH_S,
        'T' => GLYPH_T,
        'U' => GLYPH_U,
        'V' => GLYPH_V,
        'W' => GLYPH_W,
        'X' => GLYPH_X,
        'Y' => GLYPH_Y,
        'Z' => GLYPH_Z,
        'a' => GLYPH_LOWER_A,
        'b' => GLYPH_LOWER_B,
        'c' => GLYPH_LOWER_C,
        'd' => GLYPH_LOWER_D,
        'e' => GLYPH_LOWER_E,
        'f' => GLYPH_LOWER_F,
        'g' => GLYPH_LOWER_G,
        'h' => GLYPH_LOWER_H,
        'i' => GLYPH_LOWER_I,
        'j' => GLYPH_LOWER_J,
        'k' => GLYPH_LOWER_K,
        'l' => GLYPH_LOWER_L,
        'm' => GLYPH_LOWER_M,
        'n' => GLYPH_LOWER_N,
        'o' => GLYPH_LOWER_O,
        'p' => GLYPH_LOWER_P,
        'q' => GLYPH_LOWER_Q,
        'r' => GLYPH_LOWER_R,
        's' => GLYPH_LOWER_S,
        't' => GLYPH_LOWER_T,
        'u' => GLYPH_LOWER_U,
        'v' => GLYPH_LOWER_V,
        'w' => GLYPH_LOWER_W,
        'x' => GLYPH_LOWER_X,
        'y' => GLYPH_LOWER_Y,
        'z' => GLYPH_LOWER_Z,
        _ => 0,
    }
}

/// Looks a codepoint up in the overflow table.
pub fn extra_glyph_data(c: char) -> (d: u64)
    ensures
        d == spec_extra_glyph_data(c),
{
    match c {
        '\u{1f98a}' => GLYPH_FOX,
        _ => 0,
    }
}

/// The overflow glyphs beyond the primary table, as codepoint-glyph pairs.
pub fn chars() -> (v: Vec<(char, Glyph)>)
    ensures
        v@.len() == 1,
        v@[0].0 == '\u{1f98a}',
        v@[0].1 == (Glyph { data: spec_extra_glyph_data('\u{1f98a}') }),
{
    let mut v: Vec<(char, Glyph)> = Vec::new();
    v.push(('\u{1f98a}', Glyph { data: GLYPH_FOX }));
    v
}

} // verus!
