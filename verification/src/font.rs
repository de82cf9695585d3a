//! Seven-segment fonts: a table from 7-bit character codes to segment masks.
//!
//! Bit `i` of a mask says whether segment `i` is lit, in the order top,
//! upper right, lower right, bottom, lower left, upper left, middle.
//! Bit 7 is not used by a seven-segment digit.

use vstd::prelude::*;

verus! {

/// Number of segments of one digit.
pub const SEGMENT_COUNT: usize = 7;

/// Number of character codes a font covers.
pub const FONT_SIZE: usize = 128;

/// One segment mask for each of the 128 ASCII codes.
pub type SevenSegmentFont = [u8; 128];

pub const DEFAULT_FONT: SevenSegmentFont = [
    0x00, 0x00, 0x00, 0x00, 0x00, 0x00, 0x00, 0x00,
    0x00, 0x00, 0x00, 0x00, 0x00, 0x00, 0x00, 0x00,
    0x00, 0x00, 0x00, 0x00, 0x00, 0x00, 0x00, 0x00,
    0x00, 0x00, 0x00, 0x00, 0x00, 0x00, 0x00, 0x00,
    0x00, 0x00, 0x22, 0x00, 0x00, 0x00, 0x00, 0x02,
    0x39, 0x0F, 0x00, 0x00, 0x0C, 0x40, 0x04, 0x52,
    0x3F, 0x06, 0x5B, 0x4F, 0x66, 0x6D, 0x7D, 0x27,
    0x7F, 0x6F, 0x00, 0x00, 0x39, 0x48, 0x0F, 0x53,
    0x7B, 0x77, 0x7C, 0x39, 0x5E, 0x79, 0x71, 0x3D,
    0x76, 0x30, 0x1E, 0x76, 0x38, 0x2B, 0x37, 0x3F,
    0x73, 0x67, 0x77, 0x6D, 0x07, 0x3E, 0x3E, 0x7E,
    0x76, 0x6E, 0x5B, 0x39, 0x64, 0x0F, 0x23, 0x08,
    0x20, 0x5F, 0x7C, 0x58, 0x5E, 0x7B, 0x71, 0x6F,
    0x74, 0x10, 0x0E, 0x76, 0x06, 0x55, 0x54, 0x5C,
    0x73, 0x67, 0x50, 0x6D, 0x78, 0x1C, 0x1C, 0x7E,
    0x76, 0x6E, 0x5B, 0x46, 0x30, 0x70, 0x40, 0x00,
];

/// The mask a font gives to a character: the table entry for an ASCII
/// character, and the blank mask for every other character.
pub open spec fn glyph_bits(font: SevenSegmentFont, c: char) -> u8 {
    if (c as u32) < 128 {
        font[c as u32 as int]
    } else {
        0u8
    }
}

/// Whether bit `segment` of `bits` is set.
pub open spec fn segment_lit(bits: u8, segment: int) -> bool {
    (bits >> (segment as u8)) & 1u8 != 0u8
}

/// The codes for which the default font holds a glyph: the space, the
/// digits, the Latin letters and the punctuation it can approximate.
pub open spec fn default_font_defines(code: u8) -> bool {
    ||| code == 0x20
    ||| code == 0x22
    ||| 0x27 <= code <= 0x29
    ||| 0x2C <= code <= 0x39
    ||| 0x3C <= code <= 0x7E
}

/// The entry of `font` for `code_point`, which must be a 7-bit code;
/// other characters are mapped by [`glyph_for_char`].
pub fn lookup(font: &SevenSegmentFont, code_point: u8) -> (bits: u8)
    requires
        code_point < 128,
    ensures
        bits == font[code_point as int],
{
    font[code_point as usize]
}

/// The mask to show for `c`: its table entry if it is ASCII, blank if not.
pub fn glyph_for_char(font: &SevenSegmentFont, c: char) -> (bits: u8)
    ensures
        bits == glyph_bits(*font, c),
{
    let code: u32 = c as u32;
    if code < 128 {
        lookup(font, code as u8)
    } else {
        0x00
    }
}

/// Tests bit `segment` of a mask.
pub fn segment_is_on(bits: u8, segment: usize) -> (on: bool)
    requires
        segment < SEGMENT_COUNT,
    ensures
        on == segment_lit(bits, segment as int),
{
    ((bits >> (segment as u8)) & 0x01) != 0x00
}

/// The blank mask lights no segment.
pub proof fn lemma_blank_mask_is_dark(segment: int)
    requires
        0 <= segment < 7,
    ensures
        !segment_lit(0, segment),
{
    let k = segment as u8;
    assert((0u8 >> k) & 1u8 == 0u8) by (bit_vector)
        requires
            k < 7,
    ;
}

/// The mask `0x7F` lights all seven segments.
pub proof fn lemma_full_mask_is_lit(segment: int)
    requires
        0 <= segment < 7,
    ensures
        segment_lit(0x7F, segment),
{
    let k = segment as u8;
    assert((0x7Fu8 >> k) & 1u8 != 0u8) by (bit_vector)
        requires
            k < 7,
    ;
}

/// A code the default font does not define shows as a blank digit.
pub proof fn lemma_default_font_undefined_is_blank(code: u8)
    requires
        code < 128,
        !default_font_defines(code),
    ensures
        DEFAULT_FONT[code as int] == 0,
{
}

/// The space is the only code the default font defines as blank.
pub proof fn lemma_default_font_defined_is_visible(code: u8)
    requires
        code < 128,
        default_font_defines(code),
        code != 0x20,
    ensures
        DEFAULT_FONT[code as int] != 0,
{
}

/// No glyph of the default font uses bit 7.
pub proof fn lemma_default_font_uses_seven_bits(code: u8)
    requires
        code < 128,
    ensures
        DEFAULT_FONT[code as int] < 0x80,
{
}

} // verus!
