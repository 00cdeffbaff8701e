use vstd::prelude::*;

verus! {

/// Address of the first glyph byte.
pub const FONT_START: u16 = 0x050;

/// Bytes per glyph.
pub const FONT_GLYPH_BYTES: u16 = 5;

/// Bytes in the whole font: sixteen glyphs.
pub const FONT_BYTES: usize = 80;

/// The hexadecimal digit glyphs `0` to `F`, five rows each, one byte per row
/// with the leftmost pixel in the top bit.
pub const FONTSET: [u8; 80] = [
    0xF0, 0x90, 0x90, 0x90, 0xF0,
    0x20, 0x60, 0x20, 0x20, 0x70,
    0xF0, 0x10, 0xF0, 0x80, 0xF0,
    0xF0, 0x10, 0xF0, 0x10, 0xF0,
    0x90, 0x90, 0xF0, 0x10, 0x10,
    0xF0, 0x80, 0xF0, 0x10, 0xF0,
    0xF0, 0x80, 0xF0, 0x90, 0xF0,
    0xF0, 0x10, 0x20, 0x40, 0x40,
    0xF0, 0x90, 0xF0, 0x90, 0xF0,
    0xF0, 0x90, 0xF0, 0x10, 0xF0,
    0xF0, 0x90, 0xF0, 0x90, 0x90,
    0xE0, 0x90, 0xE0, 0x90, 0xE0,
    0xF0, 0x80, 0x80, 0x80, 0xF0,
    0xE0, 0x90, 0x90, 0x90, 0xE0,
    0xF0, 0x80, 0xF0, 0x80, 0xF0,
    0xF0, 0x80, 0xF0, 0x80, 0x80,
];

/// The font as a sequence of bytes.
pub open spec fn font() -> Seq<u8> {
    FONTSET@
}

/// Address of the glyph for a hexadecimal digit.
pub open spec fn glyph_address(digit: int) -> int {
    FONT_START + FONT_GLYPH_BYTES * digit
}

} // verus!
