//! Levels: an immutable 80-column by 5-row grid of tile codes, a parser
//! that builds one from a byte stream, a serializer that re-emits the
//! glyphs, and the window composer that copies a 5x5 slice of the grid
//! into a screen buffer.
//!
//! The grid is stored row-major, top row first, so the cell seen at
//! screen coordinate `(x, y)` with `y == 0` at the bottom lives at index
//! `(4 - y) * 80 + x`.

use vstd::prelude::*;

use crate::tile::code_of_glyph;
use crate::tile::glyph_of_code;
use crate::tile::is_glyph;
use crate::tile::is_tile_code;
use crate::tile::EMPTY_PIXEL;
use crate::tile::FLAG_PIXEL;
use crate::tile::GLYPH_EMPTY;
use crate::tile::GLYPH_FLAG;
use crate::tile::GLYPH_GROUND;
use crate::tile::GLYPH_MARKER;
use crate::tile::GROUND_PIXEL;
use crate::tile::MARKER_PIXEL;
use crate::tile::PLAYER_PIXEL;

verus! {

/// Columns of a level grid.
pub const LEVEL_WIDTH: usize = 80;

/// Rows of a level grid, which equal the rows of the display.
pub const LEVEL_HEIGHT: usize = 5;

/// Cells of a level grid.
pub const LEVEL_CELLS: usize = 400;

/// Cells of the 5x5 screen buffer.
pub const SCREEN_CELLS: usize = 25;

/// Tile code of the cell at `(x, y)` of a 400-cell grid, with `y == 0`
/// the bottom row; any coordinate outside `[0,80) x [0,5)` reads as
/// `EMPTY_PIXEL` rather than failing, so physics may probe freely.
pub open spec fn tile(g: Seq<u8>, x: int, y: int) -> u8 {
    if 0 <= x < 80 && 0 <= y < 5 {
        g[(4 - y) * 80 + x]
    } else {
        EMPTY_PIXEL
    }
}

/// True of a grid every cell of which is one of the four tile codes;
/// grids built by the parser always are.
pub open spec fn canonical(g: Seq<u8>) -> bool {
    forall|i: int| 0 <= i < g.len() ==> is_tile_code(#[trigger] g[i])
}

/// The recognized glyphs of a byte stream, in order, each mapped to its
/// tile code; everything else (newlines, spaces, comments) is dropped.
pub open spec fn kept_codes(s: Seq<u8>) -> Seq<u8>
    decreases s.len(),
{
    if s.len() == 0 {
        Seq::empty()
    } else {
        let rest = kept_codes(s.drop_last());
        if is_glyph(s.last()) {
            rest.push(code_of_glyph(s.last()))
        } else {
            rest
        }
    }
}

/// The 400-cell grid a byte stream parses to: the first 400 recognized
/// glyphs in order, any shortfall left `EMPTY_PIXEL`.
pub open spec fn grid_of(s: Seq<u8>) -> Seq<u8> {
    Seq::new(400, |i: int| if i < kept_codes(s).len() { kept_codes(s)[i] } else { EMPTY_PIXEL })
}

/// The serialized form of a grid: one glyph per stored tile code.
pub open spec fn emitted_glyphs(g: Seq<u8>) -> Seq<u8> {
    Seq::new(g.len(), |i: int| glyph_of_code(g[i]))
}

/// An immutable tile grid. `new` and the parser are the only ways to
/// build one, so every `Level` holds exactly 400 cells.
pub struct Level {
    cells: Vec<u8>,
}

impl View for Level {
    type V = Seq<u8>;

    closed spec fn view(&self) -> Seq<u8> {
        self.cells@
    }
}

impl Level {
    /// Structural validity: the grid holds exactly 80 * 5 cells.
    pub open spec fn wf(self) -> bool {
        self@.len() == 400
    }

    /// Wraps a ready-made grid.
    pub fn new(cells: Vec<u8>) -> (r: Level)
        requires
            cells@.len() == 400,
        ensures
            r.wf(),
            r@ == cells@,
    {
        Level { cells }
    }

    /// Tile code at `(x, y)`, `y == 0` the bottom row; out-of-range
    /// coordinates read as `EMPTY_PIXEL`.
    pub fn get_byte_at(&self, x: u8, y: u8) -> (r: u8)
        requires
            self.wf(),
        ensures
            r == tile(self@, x as int, y as int),
    {
        if x >= 80 || y > 4 {
            return 0;
        }
        let row: usize = 4 - y as usize;
        self.cells[row * 80 + x as usize]
    }

    /// Parses a byte stream into a level: recognized glyphs are kept in
    /// first-seen order and written row-major, top row first; everything
    /// else is ignored; glyphs beyond the 400th are silently dropped and
    /// a shortfall leaves the remaining cells empty.
    pub fn parse_bytes(bytes: &[u8]) -> (r: Level)
        ensures
            r.wf(),
            r@ == grid_of(bytes@),
            canonical(r@),
    {
        let mut cells: Vec<u8> = Vec::new();
        let mut k: usize = 0;
        while k < 400
            invariant
                cells@.len() == k,
                k <= 400,
                forall|i: int| 0 <= i < k ==> cells@[i] == EMPTY_PIXEL,
            decreases 400 - k,
        {
            cells.push(EMPTY_PIXEL);
            k += 1;
        }
        let n = bytes.len();
        let mut idx: usize = 0;
        let mut j: usize = 0;
        while j < n
            invariant
                n == bytes@.len(),
                j <= n,
                idx <= j,
                cells@.len() == 400,
                idx == kept_codes(bytes@.take(j as int)).len(),
                forall|i: int|
                    0 <= i < 400 ==> cells@[i] == (if i < idx {
                        kept_codes(bytes@.take(j as int))[i]
                    } else {
                        EMPTY_PIXEL
                    }),
            decreases n - j,
        {
            let b = bytes[j];
            proof {
                assert(bytes@.take(j + 1).drop_last() =~= bytes@.take(j as int));
                assert(bytes@.take(j + 1).last() == bytes@[j as int]);
            }
            if b == GLYPH_GROUND || b == GLYPH_EMPTY || b == GLYPH_FLAG || b == GLYPH_MARKER {
                if idx < 400 {
                    let code: u8 = if b == GLYPH_GROUND {
                        GROUND_PIXEL
                    } else if b == GLYPH_FLAG {
                        FLAG_PIXEL
                    } else if b == GLYPH_MARKER {
                        MARKER_PIXEL
                    } else {
                        EMPTY_PIXEL
                    };
                    cells[idx] = code;
                }
                idx += 1;
            }
            j += 1;
        }
        proof {
            assert(bytes@.take(n as int) =~= bytes@);
            assert(cells@ =~= grid_of(bytes@));
            lemma_kept_codes_canonical(bytes@);
        }
        Level { cells }
    }

    /// Composes the visible frame for a player at `(x, y)` into `data`:
    /// copies the five-column window of the grid around `x`, then
    /// overwrites the player's own cell with `PLAYER_PIXEL` when it lies
    /// inside the display; a player beyond the grid or above the display
    /// is simply not drawn.
    pub fn copy_into(&self, x: u8, y: u8, data: &mut Screen)
        requires
            self.wf(),
            old(data).wf(),
        ensures
            final(data).wf(),
            final(data)@ == window(self@, x as int, y as int, old(data)@),
    {
        if x > 80 {
            return ;
        }
        let start: usize = if x < 2 {
            0
        } else if x as usize - 2 > 75 {
            75
        } else {
            x as usize - 2
        };
        let ghost copied = Seq::new(
            25,
            |i: int| self@[(i / 5) * 80 + start as int + (i % 5)],
        );
        let mut row: usize = 0;
        while row < 5
            invariant
                self.wf(),
                data@.len() == 25,
                row <= 5,
                start <= 75,
                copied == Seq::new(25, |i: int| self@[(i / 5) * 80 + start as int + (i % 5)]),
                forall|i: int| 0 <= i < row * 5 ==> data@[i] == copied[i],
            decreases 5 - row,
        {
            let mut col: usize = 0;
            while col < 5
                invariant
                    self.wf(),
                    data@.len() == 25,
                    row < 5,
                    col <= 5,
                    start <= 75,
                    copied == Seq::new(25, |i: int| self@[(i / 5) * 80 + start as int + (i % 5)]),
                    forall|i: int| 0 <= i < row * 5 + col ==> data@[i] == copied[i],
                decreases 5 - col,
            {
                data.cells[row * 5 + col] = self.cells[row * 80 + start + col];
                proof {
                    vstd::arithmetic::div_mod::lemma_fundamental_div_mod_converse_div(
                        row * 5 + col,
                        5,
                        row as int,
                        col as int,
                    );
                    vstd::arithmetic::div_mod::lemma_fundamental_div_mod_converse_mod(
                        row * 5 + col,
                        5,
                        row as int,
                        col as int,
                    );
                    assert(data@[row * 5 + col] == copied[row * 5 + col]);
                }
                col += 1;
            }
            row += 1;
        }
        proof {
            assert(data@ =~= copied);
        }
        if y > 4 {
            return ;
        }
        let col = x as usize - start;
        if col <= 4 {
            data.cells[(4 - y as usize) * 5 + col] = PLAYER_PIXEL;
        }
        proof {
            assert(data@ =~= window(self@, x as int, y as int, old(data)@));
        }
    }

    /// Serialized form of the grid: the 400 glyphs that, parsed again,
    /// rebuild this very level.
    pub fn to_bytes(&self) -> (r: Vec<u8>)
        requires
            self.wf(),
        ensures
            r@ == emitted_glyphs(self@),
    {
        let mut out: Vec<u8> = Vec::new();
        let mut i: usize = 0;
        while i < 400
            invariant
                self.wf(),
                out@.len() == i,
                i <= 400,
                forall|k: int| 0 <= k < i ==> out@[k] == glyph_of_code(self@[k]),
            decreases 400 - i,
        {
            let c = self.cells[i];
            let g: u8 = if c == GROUND_PIXEL {
                GLYPH_GROUND
            } else if c == FLAG_PIXEL {
                GLYPH_FLAG
            } else if c == MARKER_PIXEL {
                GLYPH_MARKER
            } else {
                GLYPH_EMPTY
            };
            out.push(g);
            i += 1;
        }
        proof {
            assert(out@ =~= emitted_glyphs(self@));
        }
        out
    }
}

/// A blank 5x5 screen buffer, every cell empty.
pub open spec fn blank_screen() -> Seq<u8> {
    Seq::new(25, |i: int| EMPTY_PIXEL)
}

/// Leftmost grid column of the visible window around player column `x`:
/// `x - 2`, clamped so that five columns always fit in the grid.
pub open spec fn window_start(x: int) -> int {
    if x < 2 {
        0
    } else if x - 2 > 75 {
        75
    } else {
        x - 2
    }
}

/// The 5x5 frame composed for a player at `(x, y)` over grid `g`: a
/// five-column slice of the grid starting at `window_start(x)`, with the
/// player's cell overwritten by `PLAYER_PIXEL` when it falls inside the
/// window. A player column beyond the grid (`x > 80`) leaves `base`
/// untouched, and a player row above the display (`y > 4`) or a player
/// column right of the window skips only the overwrite.
pub open spec fn window(g: Seq<u8>, x: int, y: int, base: Seq<u8>) -> Seq<u8> {
    if x > 80 {
        base
    } else {
        let start = window_start(x);
        let copied = Seq::new(25, |i: int| g[(i / 5) * 80 + start + (i % 5)]);
        if !(0 <= y <= 4) {
            copied
        } else {
            let col = x - start;
            if col <= 4 {
                copied.update((4 - y) * 5 + col, PLAYER_PIXEL)
            } else {
                copied
            }
        }
    }
}

/// A mutable 5x5 buffer of brightness codes, row-major, top row first:
/// what one render tick composes and the display then shows.
pub struct Screen {
    cells: Vec<u8>,
}

impl View for Screen {
    type V = Seq<u8>;

    closed spec fn view(&self) -> Seq<u8> {
        self.cells@
    }
}

impl Screen {
    /// Structural validity: the buffer holds exactly 5 * 5 cells.
    pub open spec fn wf(self) -> bool {
        self@.len() == 25
    }

    /// A blank screen.
    pub fn new() -> (r: Screen)
        ensures
            r.wf(),
            r@ == blank_screen(),
    {
        let mut cells: Vec<u8> = Vec::new();
        let mut k: usize = 0;
        while k < 25
            invariant
                cells@.len() == k,
                k <= 25,
                forall|i: int| 0 <= i < k ==> cells@[i] == EMPTY_PIXEL,
            decreases 25 - k,
        {
            cells.push(EMPTY_PIXEL);
            k += 1;
        }
        proof {
            assert(cells@ =~= blank_screen());
        }
        Screen { cells }
    }

    /// Brightness at `(row, col)`, row 0 the top of the display.
    pub fn get(&self, row: usize, col: usize) -> (r: u8)
        requires
            self.wf(),
            row < 5,
            col < 5,
        ensures
            r == self@[row * 5 + col],
    {
        self.cells[row * 5 + col]
    }
}

/// The fixed frame shown once the game is won: a lit block over a
/// flag-colored mast.
pub open spec fn win_screen_spec() -> Seq<u8> {
    seq![
        9u8, 9u8, 9u8, 0u8, 0u8,
        9u8, 9u8, 9u8, 0u8, 0u8,
        9u8, 9u8, 9u8, 0u8, 0u8,
        0u8, 0u8, 6u8, 0u8, 0u8,
        0u8, 0u8, 6u8, 0u8, 0u8,
    ]
}

/// Builds the win-screen frame.
pub fn win_screen() -> (r: Screen)
    ensures
        r.wf(),
        r@ == win_screen_spec(),
{
    let mut cells: Vec<u8> = Vec::new();
    let mut row: usize = 0;
    while row < 3
        invariant
            row <= 3,
            cells@.len() == row * 5,
            forall|i: int|
                0 <= i < row * 5 ==> cells@[i] == (if i % 5 < 3 {
                    9u8
                } else {
                    0u8
                }),
        decreases 3 - row,
    {
        cells.push(9);
        cells.push(9);
        cells.push(9);
        cells.push(0);
        cells.push(0);
        proof {
            assert forall|i: int| 0 <= i < (row + 1) * 5 implies cells@[i] == (if i % 5 < 3 {
                9u8
            } else {
                0u8
            }) by {
                if row * 5 <= i {
                    vstd::arithmetic::div_mod::lemma_fundamental_div_mod_converse_mod(
                        i,
                        5,
                        row as int,
                        i - row * 5,
                    );
                }
            }
        }
        row += 1;
    }
    let mut mast: usize = 0;
    while mast < 2
        invariant
            mast <= 2,
            cells@.len() == 15 + mast * 5,
            forall|i: int|
                0 <= i < 15 ==> cells@[i] == (if i % 5 < 3 {
                    9u8
                } else {
                    0u8
                }),
            forall|i: int|
                15 <= i < 15 + mast * 5 ==> cells@[i] == (if (i - 15) % 5 == 2 {
                    6u8
                } else {
                    0u8
                }),
        decreases 2 - mast,
    {
        cells.push(0);
        cells.push(0);
        cells.push(6);
        cells.push(0);
        cells.push(0);
        proof {
            assert forall|i: int| 15 <= i < 15 + (mast + 1) * 5 implies cells@[i] == (if (i - 15) % 5
                == 2 {
                6u8
            } else {
                0u8
            }) by {
                if 15 + mast * 5 <= i {
                    vstd::arithmetic::div_mod::lemma_fundamental_div_mod_converse_mod(
                        i - 15,
                        5,
                        mast as int,
                        i - 15 - mast * 5,
                    );
                }
            }
        }
        mast += 1;
    }
    proof {
        assert(cells@ =~= win_screen_spec());
    }
    Screen { cells }
}

/// Every code the parser keeps is one of the four tile codes.
pub proof fn lemma_kept_codes_canonical(s: Seq<u8>)
    ensures
        forall|i: int| 0 <= i < kept_codes(s).len() ==> is_tile_code(#[trigger] kept_codes(s)[i]),
    decreases s.len(),
{
    if s.len() > 0 {
        lemma_kept_codes_canonical(s.drop_last());
        assert(is_tile_code(code_of_glyph(s.last())));
        assert forall|i: int| 0 <= i < kept_codes(s).len() implies is_tile_code(
            #[trigger] kept_codes(s)[i],
        ) by {
            if i < kept_codes(s.drop_last()).len() {
                assert(kept_codes(s)[i] == kept_codes(s.drop_last())[i]);
            }
        }
    }
}

} // verus!
