//! The built-in code-page glyph table.
//!
//! Every 8-bit character code maps to an 8-byte bitmap, one byte per row
//! (row 0 on top), bit 7 being the leftmost pixel of the row. Code point 0
//! is the reserved blank sentinel: the compositor substitutes it for every
//! out-of-range neighbour, so it must stay all-zero. Code points without
//! artwork also render blank.

use vstd::prelude::*;

verus! {

/// Row bitmaps of the code points with artwork, 0x20 through 0x7F: 8
/// consecutive bytes per code point, row 0 first.
pub const GLYPHS: [u8; 768] = [
    0x00, 0x00, 0x00, 0x00, 0x00, 0x00, 0x00, 0x00, // 0x20 ' '
    0x30, 0x78, 0x78, 0x30, 0x30, 0x00, 0x30, 0x00, // 0x21 '!'
    0x6C, 0x6C, 0x6C, 0x00, 0x00, 0x00, 0x00, 0x00, // 0x22 '"'
    0x6C, 0x6C, 0xFE, 0x6C, 0xFE, 0x6C, 0x6C, 0x00, // 0x23 '#'
    0x30, 0x7C, 0xC0, 0x78, 0x0C, 0xF8, 0x30, 0x00, // 0x24 '$'
    0x00, 0xC6, 0xCC, 0x18, 0x30, 0x66, 0xC6, 0x00, // 0x25 '%'
    0x38, 0x6C, 0x38, 0x76, 0xDC, 0xCC, 0x76, 0x00, // 0x26 '&'
    0x60, 0x60, 0xC0, 0x00, 0x00, 0x00, 0x00, 0x00, // 0x27 '\''
    0x18, 0x30, 0x60, 0x60, 0x60, 0x30, 0x18, 0x00, // 0x28 '('
    0x60, 0x30, 0x18, 0x18, 0x18, 0x30, 0x60, 0x00, // 0x29 ')'
    0x00, 0x66, 0x3C, 0xFF, 0x3C, 0x66, 0x00, 0x00, // 0x2A '*'
    0x00, 0x30, 0x30, 0xFC, 0x30, 0x30, 0x00, 0x00, // 0x2B '+'
    0x00, 0x00, 0x00, 0x00, 0x00, 0x30, 0x30, 0x60, // 0x2C ','
    0x00, 0x00, 0x00, 0xFC, 0x00, 0x00, 0x00, 0x00, // 0x2D '-'
    0x00, 0x00, 0x00, 0x00, 0x00, 0x30, 0x30, 0x00, // 0x2E '.'
    0x06, 0x0C, 0x18, 0x30, 0x60, 0xC0, 0x80, 0x00, // 0x2F '/'
    0x7C, 0xC6, 0xCE, 0xDE, 0xF6, 0xE6, 0x7C, 0x00, // 0x30 '0'
    0x30, 0x70, 0x30, 0x30, 0x30, 0x30, 0xFC, 0x00, // 0x31 '1'
    0x78, 0xCC, 0x0C, 0x38, 0x60, 0xCC, 0xFC, 0x00, // 0x32 '2'
    0x78, 0xCC, 0x0C, 0x38, 0x0C, 0xCC, 0x78, 0x00, // 0x33 '3'
    0x1C, 0x3C, 0x6C, 0xCC, 0xFE, 0x0C, 0x1E, 0x00, // 0x34 '4'
    0xFC, 0xC0, 0xF8, 0x0C, 0x0C, 0xCC, 0x78, 0x00, // 0x35 '5'
    0x38, 0x60, 0xC0, 0xF8, 0xCC, 0xCC, 0x78, 0x00, // 0x36 '6'
    0xFC, 0xCC, 0x0C, 0x18, 0x30, 0x30, 0x30, 0x00, // 0x37 '7'
    0x78, 0xCC, 0xCC, 0x78, 0xCC, 0xCC, 0x78, 0x00, // 0x38 '8'
    0x78, 0xCC, 0xCC, 0x7C, 0x0C, 0x18, 0x70, 0x00, // 0x39 '9'
    0x00, 0x30, 0x30, 0x00, 0x00, 0x30, 0x30, 0x00, // 0x3A ':'
    0x00, 0x30, 0x30, 0x00, 0x00, 0x30, 0x30, 0x60, // 0x3B ';'
    0x18, 0x30, 0x60, 0xC0, 0x60, 0x30, 0x18, 0x00, // 0x3C '<'
    0x00, 0x00, 0xFC, 0x00, 0x00, 0xFC, 0x00, 0x00, // 0x3D '='
    0x60, 0x30, 0x18, 0x0C, 0x18, 0x30, 0x60, 0x00, // 0x3E '>'
    0x78, 0xCC, 0x0C, 0x18, 0x30, 0x00, 0x30, 0x00, // 0x3F '?'
    0x7C, 0xC6, 0xDE, 0xDE, 0xDE, 0xC0, 0x78, 0x00, // 0x40 '@'
    0x30, 0x78, 0xCC, 0xCC, 0xFC, 0xCC, 0xCC, 0x00, // 0x41 'A'
    0xFC, 0x66, 0x66, 0x7C, 0x66, 0x66, 0xFC, 0x00, // 0x42 'B'
    0x3C, 0x66, 0xC0, 0xC0, 0xC0, 0x66, 0x3C, 0x00, // 0x43 'C'
    0xF8, 0x6C, 0x66, 0x66, 0x66, 0x6C, 0xF8, 0x00, // 0x44 'D'
    0xFE, 0x62, 0x68, 0x78, 0x68, 0x62, 0xFE, 0x00, // 0x45 'E'
    0xFE, 0x62, 0x68, 0x78, 0x68, 0x60, 0xF0, 0x00, // 0x46 'F'
    0x3C, 0x66, 0xC0, 0xC0, 0xCE, 0x66, 0x3E, 0x00, // 0x47 'G'
    0xCC, 0xCC, 0xCC, 0xFC, 0xCC, 0xCC, 0xCC, 0x00, // 0x48 'H'
    0x78, 0x30, 0x30, 0x30, 0x30, 0x30, 0x78, 0x00, // 0x49 'I'
    0x1E, 0x0C, 0x0C, 0x0C, 0xCC, 0xCC, 0x78, 0x00, // 0x4A 'J'
    0xE6, 0x66, 0x6C, 0x78, 0x6C, 0x66, 0xE6, 0x00, // 0x4B 'K'
    0xF0, 0x60, 0x60, 0x60, 0x62, 0x66, 0xFE, 0x00, // 0x4C 'L'
    0xC6, 0xEE, 0xFE, 0xFE, 0xD6, 0xC6, 0xC6, 0x00, // 0x4D 'M'
    0xC6, 0xE6, 0xF6, 0xDE, 0xCE, 0xC6, 0xC6, 0x00, // 0x4E 'N'
    0x38, 0x6C, 0xC6, 0xC6, 0xC6, 0x6C, 0x38, 0x00, // 0x4F 'O'
    0xFC, 0x66, 0x66, 0x7C, 0x60, 0x60, 0xF0, 0x00, // 0x50 'P'
    0x78, 0xCC, 0xCC, 0xCC, 0xDC, 0x78, 0x1C, 0x00, // 0x51 'Q'
    0xFC, 0x66, 0x66, 0x7C, 0x6C, 0x66, 0xE6, 0x00, // 0x52 'R'
    0x78, 0xCC, 0xE0, 0x70, 0x1C, 0xCC, 0x78, 0x00, // 0x53 'S'
    0xFC, 0xB4, 0x30, 0x30, 0x30, 0x30, 0x78, 0x00, // 0x54 'T'
    0xCC, 0xCC, 0xCC, 0xCC, 0xCC, 0xCC, 0xFC, 0x00, // 0x55 'U'
    0xCC, 0xCC, 0xCC, 0xCC, 0xCC, 0x78, 0x30, 0x00, // 0x56 'V'
    0xC6, 0xC6, 0xC6, 0xD6, 0xFE, 0xEE, 0xC6, 0x00, // 0x57 'W'
    0xC6, 0xC6, 0x6C, 0x38, 0x38, 0x6C, 0xC6, 0x00, // 0x58 'X'
    0xCC, 0xCC, 0xCC, 0x78, 0x30, 0x30, 0x78, 0x00, // 0x59 'Y'
    0xFE, 0xC6, 0x8C, 0x18, 0x32, 0x66, 0xFE, 0x00, // 0x5A 'Z'
    0x78, 0x60, 0x60, 0x60, 0x60, 0x60, 0x78, 0x00, // 0x5B '['
    0xC0, 0x60, 0x30, 0x18, 0x0C, 0x06, 0x02, 0x00, // 0x5C '\\'
    0x78, 0x18, 0x18, 0x18, 0x18, 0x18, 0x78, 0x00, // 0x5D ']'
    0x10, 0x38, 0x6C, 0xC6, 0x00, 0x00, 0x00, 0x00, // 0x5E '^'
    0x00, 0x00, 0x00, 0x00, 0x00, 0x00, 0x00, 0xFF, // 0x5F '_'
    0x30, 0x30, 0x18, 0x00, 0x00, 0x00, 0x00, 0x00, // 0x60 '`'
    0x00, 0x00, 0x78, 0x0C, 0x7C, 0xCC, 0x76, 0x00, // 0x61 'a'
    0xE0, 0x60, 0x60, 0x7C, 0x66, 0x66, 0xDC, 0x00, // 0x62 'b'
    0x00, 0x00, 0x78, 0xCC, 0xC0, 0xCC, 0x78, 0x00, // 0x63 'c'
    0x1C, 0x0C, 0x0C, 0x7C, 0xCC, 0xCC, 0x76, 0x00, // 0x64 'd'
    0x00, 0x00, 0x78, 0xCC, 0xFC, 0xC0, 0x78, 0x00, // 0x65 'e'
    0x38, 0x6C, 0x60, 0xF0, 0x60, 0x60, 0xF0, 0x00, // 0x66 'f'
    0x00, 0x00, 0x76, 0xCC, 0xCC, 0x7C, 0x0C, 0xF8, // 0x67 'g'
    0xE0, 0x60, 0x6C, 0x76, 0x66, 0x66, 0xE6, 0x00, // 0x68 'h'
    0x30, 0x00, 0x70, 0x30, 0x30, 0x30, 0x78, 0x00, // 0x69 'i'
    0x0C, 0x00, 0x0C, 0x0C, 0x0C, 0xCC, 0xCC, 0x78, // 0x6A 'j'
    0xE0, 0x60, 0x66, 0x6C, 0x78, 0x6C, 0xE6, 0x00, // 0x6B 'k'
    0x70, 0x30, 0x30, 0x30, 0x30, 0x30, 0x78, 0x00, // 0x6C 'l'
    0x00, 0x00, 0xCC, 0xFE, 0xFE, 0xD6, 0xC6, 0x00, // 0x6D 'm'
    0x00, 0x00, 0xF8, 0xCC, 0xCC, 0xCC, 0xCC, 0x00, // 0x6E 'n'
    0x00, 0x00, 0x78, 0xCC, 0xCC, 0xCC, 0x78, 0x00, // 0x6F 'o'
    0x00, 0x00, 0xDC, 0x66, 0x66, 0x7C, 0x60, 0xF0, // 0x70 'p'
    0x00, 0x00, 0x76, 0xCC, 0xCC, 0x7C, 0x0C, 0x1E, // 0x71 'q'
    0x00, 0x00, 0xDC, 0x76, 0x66, 0x60, 0xF0, 0x00, // 0x72 'r'
    0x00, 0x00, 0x7C, 0xC0, 0x78, 0x0C, 0xF8, 0x00, // 0x73 's'
    0x10, 0x30, 0x7C, 0x30, 0x30, 0x34, 0x18, 0x00, // 0x74 't'
    0x00, 0x00, 0xCC, 0xCC, 0xCC, 0xCC, 0x76, 0x00, // 0x75 'u'
    0x00, 0x00, 0xCC, 0xCC, 0xCC, 0x78, 0x30, 0x00, // 0x76 'v'
    0x00, 0x00, 0xC6, 0xD6, 0xFE, 0xFE, 0x6C, 0x00, // 0x77 'w'
    0x00, 0x00, 0xC6, 0x6C, 0x38, 0x6C, 0xC6, 0x00, // 0x78 'x'
    0x00, 0x00, 0xCC, 0xCC, 0xCC, 0x7C, 0x0C, 0xF8, // 0x79 'y'
    0x00, 0x00, 0xFC, 0x98, 0x30, 0x64, 0xFC, 0x00, // 0x7A 'z'
    0x1C, 0x30, 0x30, 0xE0, 0x30, 0x30, 0x1C, 0x00, // 0x7B '{'
    0x18, 0x18, 0x18, 0x00, 0x18, 0x18, 0x18, 0x00, // 0x7C '|'
    0xE0, 0x30, 0x30, 0x1C, 0x30, 0x30, 0xE0, 0x00, // 0x7D '}'
    0x76, 0xDC, 0x00, 0x00, 0x00, 0x00, 0x00, 0x00, // 0x7E '~'
    0x00, 0x10, 0x38, 0x6C, 0xC6, 0xC6, 0xFE, 0x00, // 0x7F
];

/// Row `row` of the glyph for code point `c`; blank outside the range with
/// artwork.
pub closed spec fn glyph_row_spec(c: u8, row: int) -> u8
    recommends
        0 <= row < 8,
{
    if 0x20 <= c < 0x80 {
        GLYPHS@[(c - 0x20) * 8 + row]
    } else {
        0
    }
}

/// Fetch one row of one glyph from the table.
pub fn glyph_row(c: u8, row: u8) -> (b: u8)
    requires
        row < 8,
    ensures
        b == glyph_row_spec(c, row as int),
{
    if 0x20 <= c && c < 0x80 {
        GLYPHS[(c - 0x20) as usize * 8 + row as usize]
    } else {
        0
    }
}

/// The code point 0 glyph is the all-zero blank sentinel.
pub proof fn lemma_blank_glyph(row: int)
    requires
        0 <= row < 8,
    ensures
        glyph_row_spec(0, row) == 0,
{
}

} // verus!
