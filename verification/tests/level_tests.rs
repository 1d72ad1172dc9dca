use pixel_platformer::level::Level;
use pixel_platformer::level::Screen;
use pixel_platformer::level::win_screen;

const EMPTY: u8 = 0;
const MARKER: u8 = 1;
const GROUND: u8 = 4;
const FLAG: u8 = 6;
const PLAYER: u8 = 9;

/// Builds a 400-cell grid, bottom-up coordinates, from (x, y, code) triples.
fn grid_with(cells: &[(usize, usize, u8)]) -> Vec<u8> {
    let mut v = vec![0u8; 400];
    for &(x, y, c) in cells {
        v[(4 - y) * 80 + x] = c;
    }
    v
}

#[test]
fn tile_out_of_range_is_empty() {
    let lv = Level::parse_bytes(b"####");
    assert_eq!(lv.get_byte_at(80, 0), EMPTY);
    assert_eq!(lv.get_byte_at(81, 0), EMPTY);
    assert_eq!(lv.get_byte_at(0, 5), EMPTY);
    assert_eq!(lv.get_byte_at(100, 3), EMPTY);
    assert_eq!(lv.get_byte_at(255, 255), EMPTY);
    assert_eq!(lv.get_byte_at(0, 4), GROUND);
}

#[test]
fn new_keeps_cells() {
    let lv = Level::new(grid_with(&[(0, 4, FLAG), (3, 2, GROUND), (79, 0, MARKER)]));
    assert_eq!(lv.get_byte_at(0, 4), FLAG);
    assert_eq!(lv.get_byte_at(3, 2), GROUND);
    assert_eq!(lv.get_byte_at(79, 0), MARKER);
    assert_eq!(lv.get_byte_at(1, 1), EMPTY);
}

#[test]
fn parse_empty_input_gives_blank_level() {
    let lv = Level::parse_bytes(b"");
    for x in 0..80u8 {
        for y in 0..5u8 {
            assert_eq!(lv.get_byte_at(x, y), EMPTY);
        }
    }
}

#[test]
fn parse_fills_row_major_top_first() {
    // First 80 glyphs form the top row (y == 4), the next 80 the row below.
    let mut bytes = Vec::new();
    bytes.extend_from_slice(&[b'#'; 80]);
    bytes.push(b'F');
    let lv = Level::parse_bytes(&bytes);
    for x in 0..80u8 {
        assert_eq!(lv.get_byte_at(x, 4), GROUND);
    }
    assert_eq!(lv.get_byte_at(0, 3), FLAG);
    assert_eq!(lv.get_byte_at(1, 3), EMPTY);
}

#[test]
fn parse_ignores_unrecognized_bytes() {
    let lv = Level::parse_bytes(b"# # \n\t!m?.F x");
    assert_eq!(lv.get_byte_at(0, 4), GROUND);
    assert_eq!(lv.get_byte_at(1, 4), GROUND);
    assert_eq!(lv.get_byte_at(2, 4), MARKER);
    assert_eq!(lv.get_byte_at(3, 4), EMPTY);
    assert_eq!(lv.get_byte_at(4, 4), FLAG);
    assert_eq!(lv.get_byte_at(5, 4), EMPTY);
}

#[test]
fn parse_drops_glyphs_beyond_capacity() {
    // 400 dots fill the grid; a 401st glyph must be dropped silently.
    let mut bytes = vec![b'.'; 400];
    bytes.push(b'#');
    let lv = Level::parse_bytes(&bytes);
    for x in 0..80u8 {
        for y in 0..5u8 {
            assert_eq!(lv.get_byte_at(x, y), EMPTY);
        }
    }
    // The 400th glyph itself still lands, at the bottom-right cell.
    let mut bytes2 = vec![b'.'; 399];
    bytes2.push(b'#');
    bytes2.push(b'F');
    let lv2 = Level::parse_bytes(&bytes2);
    assert_eq!(lv2.get_byte_at(79, 0), GROUND);
    assert_eq!(lv2.get_byte_at(0, 4), EMPTY);
}

#[test]
fn parse_example_row() {
    // "##.F.#" then 394 dots: the six glyphs fill the start of the
    // first stored row, which is the one read back at y == 4.
    let mut bytes = b"##.F.#".to_vec();
    bytes.extend_from_slice(&vec![b'.'; 394]);
    let lv = Level::parse_bytes(&bytes);
    let expected = [GROUND, GROUND, EMPTY, FLAG, EMPTY, GROUND];
    for (x, &c) in expected.iter().enumerate() {
        assert_eq!(lv.get_byte_at(x as u8, 4), c);
    }
    for x in 6..80u8 {
        assert_eq!(lv.get_byte_at(x, 4), EMPTY);
    }
    for y in 0..4u8 {
        for x in 0..80u8 {
            assert_eq!(lv.get_byte_at(x, y), EMPTY);
        }
    }
}

#[test]
fn serialize_then_parse_is_identity() {
    let mut bytes = b"##mF..# noise \n".to_vec();
    bytes.extend_from_slice(&vec![b'#'; 100]);
    bytes.extend_from_slice(&vec![b'm'; 3]);
    let lv = Level::parse_bytes(&bytes);
    let emitted = lv.to_bytes();
    assert_eq!(emitted.len(), 400);
    let reparsed = Level::parse_bytes(&emitted);
    for x in 0..80u8 {
        for y in 0..5u8 {
            assert_eq!(reparsed.get_byte_at(x, y), lv.get_byte_at(x, y));
        }
    }
}

#[test]
fn serialize_emits_the_four_glyphs() {
    let lv = Level::new(grid_with(&[(0, 4, GROUND), (1, 4, FLAG), (2, 4, MARKER)]));
    let emitted = lv.to_bytes();
    assert_eq!(emitted[0], b'#');
    assert_eq!(emitted[1], b'F');
    assert_eq!(emitted[2], b'm');
    assert_eq!(emitted[3], b'.');
}

#[test]
fn window_copies_five_columns_around_player() {
    // Ground along the bottom, a marker at (6, 3): player at (5, 2)
    // sees columns 3..8.
    let mut cells = Vec::new();
    for x in 0..80 {
        cells.push((x, 0usize, GROUND));
    }
    cells.push((6, 3, MARKER));
    let lv = Level::new(grid_with(&cells));
    let mut s = Screen::new();
    lv.copy_into(5, 2, &mut s);
    // Bottom screen row (row 4) is all ground.
    for col in 0..5 {
        assert_eq!(s.get(4, col), GROUND);
    }
    // The marker at level (6, 3) appears at screen row 1, column 3.
    assert_eq!(s.get(1, 3), MARKER);
    // The player cell: level (5, 2) -> screen row 2, column 2.
    assert_eq!(s.get(2, 2), PLAYER);
    // An untouched cell stays empty.
    assert_eq!(s.get(0, 0), EMPTY);
}

#[test]
fn window_clamps_at_left_edge() {
    let lv = Level::new(grid_with(&[(0, 0, GROUND), (4, 4, FLAG)]));
    let mut s = Screen::new();
    lv.copy_into(0, 1, &mut s);
    // The window starts at column 0, not centered.
    assert_eq!(s.get(4, 0), GROUND);
    assert_eq!(s.get(0, 4), FLAG);
    // The player at (0, 1) -> screen row 3, column 0.
    assert_eq!(s.get(3, 0), PLAYER);
}

#[test]
fn window_skips_player_above_display() {
    let lv = Level::new(grid_with(&[(0, 0, GROUND)]));
    let mut s = Screen::new();
    lv.copy_into(0, 9, &mut s);
    assert_eq!(s.get(4, 0), GROUND);
    for row in 0..5 {
        for col in 0..5 {
            assert_ne!(s.get(row, col), PLAYER);
        }
    }
}

#[test]
fn window_beyond_grid_leaves_buffer_untouched() {
    let lv = Level::new(grid_with(&[(79, 0, GROUND)]));
    let mut s = Screen::new();
    lv.copy_into(200, 2, &mut s);
    for row in 0..5 {
        for col in 0..5 {
            assert_eq!(s.get(row, col), EMPTY);
        }
    }
}

#[test]
fn window_clamps_at_right_edge() {
    let lv = Level::new(grid_with(&[(75, 0, GROUND), (79, 4, FLAG)]));
    let mut s = Screen::new();
    lv.copy_into(79, 1, &mut s);
    // Columns 75..80 are shown.
    assert_eq!(s.get(4, 0), GROUND);
    assert_eq!(s.get(0, 4), FLAG);
    // The player at column 79 -> window column 4, row 3.
    assert_eq!(s.get(3, 4), PLAYER);
}

#[test]
fn win_screen_pattern() {
    let s = win_screen();
    for row in 0..3 {
        for col in 0..5 {
            let want = if col < 3 { 9 } else { 0 };
            assert_eq!(s.get(row, col), want);
        }
    }
    for row in 3..5 {
        for col in 0..5 {
            let want = if col == 2 { 6 } else { 0 };
            assert_eq!(s.get(row, col), want);
        }
    }
}
