//! Tile codes: the closed vocabulary of brightness values a grid cell can
//! hold, and the map between level-asset glyphs and tile codes.

use vstd::prelude::*;

verus! {

/// Cell with nothing in it; also the safe default for out-of-range probes.
pub const EMPTY_PIXEL: u8 = 0;
/// Decorative marker; visible but with no collision effect.
pub const MARKER_PIXEL: u8 = 1;
/// Solid ground; the player can never occupy such a cell.
pub const GROUND_PIXEL: u8 = 4;
/// Level flag; walking into it completes the level.
pub const FLAG_PIXEL: u8 = 6;
/// Brightness used for the player marker when composing a frame.
pub const PLAYER_PIXEL: u8 = 9;

/// Asset glyph for a ground cell: the byte `#`.
pub const GLYPH_GROUND: u8 = 35;
/// Asset glyph for an empty cell: the byte `.`.
pub const GLYPH_EMPTY: u8 = 46;
/// Asset glyph for the flag: the byte `F`.
pub const GLYPH_FLAG: u8 = 70;
/// Asset glyph for a marker: the byte `m`.
pub const GLYPH_MARKER: u8 = 109;

/// True for the four bytes a level asset may use for a cell.
pub open spec fn is_glyph(b: u8) -> bool {
    b == GLYPH_GROUND || b == GLYPH_EMPTY || b == GLYPH_FLAG || b == GLYPH_MARKER
}

/// Tile code a recognized glyph stands for.
pub open spec fn code_of_glyph(b: u8) -> u8 {
    if b == GLYPH_GROUND {
        GROUND_PIXEL
    } else if b == GLYPH_FLAG {
        FLAG_PIXEL
    } else if b == GLYPH_MARKER {
        MARKER_PIXEL
    } else {
        EMPTY_PIXEL
    }
}

/// Glyph that re-emits a stored tile code.
pub open spec fn glyph_of_code(c: u8) -> u8 {
    if c == GROUND_PIXEL {
        GLYPH_GROUND
    } else if c == FLAG_PIXEL {
        GLYPH_FLAG
    } else if c == MARKER_PIXEL {
        GLYPH_MARKER
    } else {
        GLYPH_EMPTY
    }
}

/// True for the tile codes a parsed level can contain.
pub open spec fn is_tile_code(c: u8) -> bool {
    c == EMPTY_PIXEL || c == MARKER_PIXEL || c == GROUND_PIXEL || c == FLAG_PIXEL
}

} // verus!
