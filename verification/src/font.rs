//! The built-in glyph set for the hexadecimal digits.

use vstd::prelude::*;

verus! {

/// Bytes of the whole glyph set.
pub const FONTSET_SIZE: usize = 80;

/// The glyph set as it lies in memory from address 0: sixteen glyphs of five
/// rows each, in the order of the digits.
pub const CHIP8_FONTSET: [u8; 80] = [
    0xF0, 0x90, 0x90, 0x90, 0xF0,
    0x20, 0x60, 0x20, 0x20, 0x70,
    0xF0, 0x10, 0xF0, 0x80, 0xF0,
    0xF0, 0x10, 0xF0, 0x10, 0xF0,
    0x90, 0x90, 0xF0, 0x10, 0x10,
    0xF0, 0x80, 0xF0, 0x10, 0xF0,
    0xF0, 0x80, 0xF0, 0x90, 0xF0,
    0xF0, 0x10, 0x20, 0x40, 0x40,
    0xF0, 0x90, 0xF0, 0x90, 0xF0,
    0xF0, 0x90, 0xF0, 0x10, 0xF0,
    0xF0, 0x90, 0xF0, 0x90, 0x90,
    0xE0, 0x90, 0xE0, 0x90, 0xE0,
    0xF0, 0x80, 0x80, 0x80, 0xF0,
    0xE0, 0x90, 0x90, 0x90, 0xE0,
    0xF0, 0x80, 0xF0, 0x80, 0xF0,
    0xF0, 0x80, 0xF0, 0x80, 0x80,
];

/// The bitmap of hexadecimal digit `digit`: five rows from the top, each with
/// its four pixels in the high bits, leftmost pixel highest.
pub open spec fn glyph(digit: int) -> Seq<u8> {
    if digit == 0x0 {
        seq![0xF0u8, 0x90u8, 0x90u8, 0x90u8, 0xF0u8]
    } else if digit == 0x1 {
        seq![0x20u8, 0x60u8, 0x20u8, 0x20u8, 0x70u8]
    } else if digit == 0x2 {
        seq![0xF0u8, 0x10u8, 0xF0u8, 0x80u8, 0xF0u8]
    } else if digit == 0x3 {
        seq![0xF0u8, 0x10u8, 0xF0u8, 0x10u8, 0xF0u8]
    } else if digit == 0x4 {
        seq![0x90u8, 0x90u8, 0xF0u8, 0x10u8, 0x10u8]
    } else if digit == 0x5 {
        seq![0xF0u8, 0x80u8, 0xF0u8, 0x10u8, 0xF0u8]
    } else if digit == 0x6 {
        seq![0xF0u8, 0x80u8, 0xF0u8, 0x90u8, 0xF0u8]
    } else if digit == 0x7 {
        seq![0xF0u8, 0x10u8, 0x20u8, 0x40u8, 0x40u8]
    } else if digit == 0x8 {
        seq![0xF0u8, 0x90u8, 0xF0u8, 0x90u8, 0xF0u8]
    } else if digit == 0x9 {
        seq![0xF0u8, 0x90u8, 0xF0u8, 0x10u8, 0xF0u8]
    } else if digit == 0xA {
        seq![0xF0u8, 0x90u8, 0xF0u8, 0x90u8, 0x90u8]
    } else if digit == 0xB {
        seq![0xE0u8, 0x90u8, 0xE0u8, 0x90u8, 0xE0u8]
    } else if digit == 0xC {
        seq![0xF0u8, 0x80u8, 0x80u8, 0x80u8, 0xF0u8]
    } else if digit == 0xD {
        seq![0xE0u8, 0x90u8, 0x90u8, 0x90u8, 0xE0u8]
    } else if digit == 0xE {
        seq![0xF0u8, 0x80u8, 0xF0u8, 0x80u8, 0xF0u8]
    } else {
        seq![0xF0u8, 0x80u8, 0xF0u8, 0x80u8, 0x80u8]
    }
}

/// The byte that the glyph set holds at offset `offset`: row `offset % 5` of
/// the glyph of digit `offset / 5`.
pub open spec fn font_byte(offset: int) -> u8 {
    glyph(offset / 5)[offset % 5]
}

/// The glyph set in memory order holds, glyph by glyph, the bitmaps of the
/// sixteen digits.
pub proof fn lemma_fontset_holds_glyphs()
    ensures
        CHIP8_FONTSET@.len() == 80,
        forall|digit: int, row: int|
            0 <= digit < 16 && 0 <= row < 5 ==> CHIP8_FONTSET@[5 * digit + row] == #[trigger] glyph(
                digit,
            )[row],
        forall|offset: int|
            0 <= offset < 80 ==> CHIP8_FONTSET@[offset] == #[trigger] font_byte(offset),
{
}

} // verus!
