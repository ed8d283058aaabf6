//! The arbitrary-offset text compositor, as a pure function.
//!
//! A text of 8-bit code points is placed on the chain with its left edge at a
//! signed pixel offset. The offset splits into a whole-character shift (floor
//! division by 8) and a bit shift in `0..8`; every module/row byte is then a
//! blend of at most two neighbouring glyphs' row bytes. The spec functions
//! here give that byte for every module and row; `writeTextAtOffset`'s
//! contract says the bus traffic is exactly eight line transactions of these
//! bytes.

use vstd::prelude::*;

use crate::font::glyph_row_spec;
use crate::frames::line_bytes;

verus! {

/// Row `row` of the glyph for the character at `i`, or of the blank sentinel
/// when `i` lies outside the text.
pub open spec fn glyph_at(text: Seq<u8>, i: int, row: int) -> u8 {
    if 0 <= i < text.len() {
        glyph_row_spec(text[i], row)
    } else {
        0
    }
}

/// One row byte shifted by `s` pixels within its module, the vacated bits
/// filled from a neighbour's row byte: for `s > 0` the previous character's
/// trailing pixels slide in (`left`), for `s < 0` the next character's
/// leading pixels (`right`), and `s == 0` leaves the byte untouched.
pub open spec fn blend_byte(left: u8, mid: u8, right: u8, s: int) -> u8
    recommends
        -8 < s < 8,
{
    if s == 0 {
        mid
    } else if s > 0 {
        (mid << s as u8) | (left >> (8 - s) as u8)
    } else {
        (mid >> (-s) as u8) | (right << (8 + s) as u8)
    }
}

/// The byte that the module at bus slot `slot` (slot 0 is clocked first and
/// lands on the furthest module) shows in row `row`, when the text's left
/// edge sits at pixel `x` of a chain of `n` modules.
pub open spec fn module_byte(text: Seq<u8>, x: int, n: int, slot: int, row: int) -> u8 {
    let shift_chars = x / 8;
    let shift_bits = x % 8;
    let ci = n - 1 - slot - shift_chars;
    if 0 <= ci <= text.len() {
        blend_byte(
            glyph_at(text, ci - 1, row),
            glyph_at(text, ci, row),
            glyph_at(text, ci + 1, row),
            shift_bits,
        )
    } else {
        0
    }
}

/// The payload of one row's line transaction: the blended byte of every bus
/// slot.
pub open spec fn text_row_payload(text: Seq<u8>, x: int, n: int, row: int) -> Seq<u8> {
    Seq::new(n as nat, |slot: int| module_byte(text, x, n, slot, row))
}

/// The byte traffic of the first `rows` line transactions of a text write:
/// row `r` goes to register `r + 1`.
pub open spec fn text_bytes_upto(text: Seq<u8>, x: int, n: int, rows: int) -> Seq<u8>
    decreases rows,
{
    if rows <= 0 {
        Seq::empty()
    } else {
        text_bytes_upto(text, x, n, rows - 1) + line_bytes(
            rows as u8,
            text_row_payload(text, x, n, rows - 1),
        )
    }
}

/// The whole byte traffic of a text write: one line transaction per row.
pub open spec fn text_bytes(text: Seq<u8>, x: int, n: int) -> Seq<u8> {
    text_bytes_upto(text, x, n, 8)
}

/// At pixel offset 0 the compositor reproduces the glyph rows unblended, in
/// device-index-reversed order: bus slot `slot` carries the glyph of
/// character `n - 1 - slot`.
pub proof fn lemma_aligned_reproduces_glyphs(text: Seq<u8>, n: int, slot: int, row: int)
    ensures
        module_byte(text, 0, n, slot, row) == glyph_at(text, n - 1 - slot, row),
{
}

/// Moving the text by one whole module width shifts every module's content to
/// its neighbour: the byte at bus slot `slot` under offset `x + 8` equals the
/// byte at slot `slot + 1` under offset `x`.
pub proof fn lemma_whole_module_shift(text: Seq<u8>, x: int, n: int, slot: int, row: int)
    ensures
        module_byte(text, x + 8, n, slot, row) == module_byte(text, x, n, slot + 1, row),
{
    assert((x + 8) / 8 == x / 8 + 1 && (x + 8) % 8 == x % 8) by {
        vstd::arithmetic::div_mod::lemma_fundamental_div_mod(x, 8);
        vstd::arithmetic::div_mod::lemma_fundamental_div_mod_converse(
            x + 8,
            8,
            x / 8 + 1,
            x % 8,
        );
    };
}

/// A text scrolled right past the chain renders nothing: once the character
/// shift reaches the text length plus the chain length, every module of every
/// row shows 0.
pub proof fn lemma_scrolled_past_is_blank(text: Seq<u8>, x: int, n: int, slot: int, row: int)
    requires
        x / 8 >= text.len() + n,
        0 <= slot,
    ensures
        module_byte(text, x, n, slot, row) == 0,
{
}

} // verus!
