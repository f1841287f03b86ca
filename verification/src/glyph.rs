//! What the representation column draws for a byte: an ASCII glyph, or the
//! fill of a magnitude bar.

use vstd::prelude::*;
use crate::editor::Repr;

verus! {

/// The glyph that stands for every byte without a visible ASCII character.
pub const PLACEHOLDER: char = '.';

/// The byte value at which a magnitude bar fills its cell.
pub const BAR_FULL: u8 = 255;

/// Whether a byte is a visible ASCII character: `!` up to `~`.
pub open spec fn is_graphic(byte: u8) -> bool {
    0x21 <= byte <= 0x7E
}

/// The glyph of a byte in ASCII mode: the character itself where it is
/// visible, the placeholder where it is not.
pub open spec fn ascii_glyph_of(byte: u8) -> char {
    if is_graphic(byte) {
        byte as char
    } else {
        PLACEHOLDER
    }
}

/// Gives the glyph of a byte in ASCII mode.
pub fn ascii_glyph(byte: u8) -> (glyph: char)
    ensures
        glyph == ascii_glyph_of(byte),
{
    if 0x21 <= byte && byte <= 0x7E {
        byte as char
    } else {
        PLACEHOLDER
    }
}

/// The fill of a magnitude bar as an exact fraction: `filled` parts of
/// `full`, measured from the bottom of the cell.
#[derive(Debug, Clone, Copy, PartialEq, Eq, Structural)]
pub struct BarFraction {
    pub filled: u8,
    pub full: u8,
}

/// The fill of the bar of a byte: the byte's value out of 255, a straight
/// line from the empty cell at 0 to the full cell at 255.
pub open spec fn bar_fraction_of(byte: u8) -> BarFraction {
    BarFraction { filled: byte, full: BAR_FULL }
}

/// Gives the fill of the bar of a byte.
pub fn bar_fraction(byte: u8) -> (fraction: BarFraction)
    ensures
        fraction == bar_fraction_of(byte),
{
    BarFraction { filled: byte, full: BAR_FULL }
}

/// The filled height of the bar of a byte in a cell of `cell_height` units:
/// the byte's share of 255 of that height, rounded down to whole units.
pub open spec fn bar_height_of(byte: u8, cell_height: nat) -> nat {
    (byte as nat * cell_height) / 255
}

/// Gives the filled height of the bar of a byte in a cell of `cell_height`
/// units.
pub fn bar_height(byte: u8, cell_height: u32) -> (height: u32)
    ensures
        height == bar_height_of(byte, cell_height as nat),
        height <= cell_height,
{
    proof {
        bar_height_is_linear(byte, cell_height as nat);
        assert(byte as nat * cell_height as nat <= 255 * 0xffff_ffff) by (nonlinear_arith)
            requires
                byte <= 255,
                cell_height <= 0xffff_ffff,
        ;
    }
    let scaled: u64 = byte as u64 * cell_height as u64;
    (scaled / 255) as u32
}

/// The bar grows in a straight line: empty at 0, the whole cell at 255,
/// never more than the cell, and never lower for a larger byte.
pub proof fn bar_height_is_linear(byte: u8, cell_height: nat)
    ensures
        bar_height_of(0, cell_height) == 0,
        bar_height_of(255, cell_height) == cell_height,
        bar_height_of(byte, cell_height) <= cell_height,
        forall|other: u8| byte <= other ==> bar_height_of(byte, cell_height) <= bar_height_of(
            other,
            cell_height,
        ),
{
    assert((0nat * cell_height) / 255 == 0) by (nonlinear_arith);
    assert((255nat * cell_height) / 255 == cell_height) by (nonlinear_arith);
    assert((byte as nat * cell_height) / 255 <= cell_height) by (nonlinear_arith)
        requires
            byte <= 255,
    ;
    assert forall|other: u8| byte <= other implies bar_height_of(byte, cell_height)
        <= bar_height_of(other, cell_height) by {
        assert((byte as nat * cell_height) / 255 <= (other as nat * cell_height) / 255)
            by (nonlinear_arith)
            requires
                byte <= other,
        ;
    }
}

/// What the representation column draws in one cell.
#[derive(Debug, Clone, Copy, PartialEq, Eq, Structural)]
pub enum CellMark {
    /// One character.
    Glyph(char),
    /// A bar filled from the bottom.
    Bar(BarFraction),
}

/// The mark of a byte under a representation mode.
pub open spec fn mark_of(repr: Repr, byte: u8) -> CellMark {
    match repr {
        Repr::Ascii => CellMark::Glyph(ascii_glyph_of(byte)),
        Repr::Mapbars => CellMark::Bar(bar_fraction_of(byte)),
    }
}

/// Gives the mark of a byte under a representation mode.
pub fn cell_mark(repr: Repr, byte: u8) -> (mark: CellMark)
    ensures
        mark == mark_of(repr, byte),
{
    match repr {
        Repr::Ascii => CellMark::Glyph(ascii_glyph(byte)),
        Repr::Mapbars => CellMark::Bar(bar_fraction(byte)),
    }
}

} // verus!
