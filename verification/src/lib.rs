//! Core logic of a small tile-based platform game shown on a 5x5 light grid.
//!
//! A level is an immutable 80x5 grid of tile codes parsed from a byte
//! stream; the game state tracks the player position, the current level,
//! a jump hang-time counter and the win flag. Everything here is pure
//! logic: the hardware around it (display, timers, buttons) lives outside
//! the library and only hands plain values in and out.

pub mod game;
pub mod laws;
pub mod level;
pub mod tile;

pub use tile::EMPTY_PIXEL;
pub use tile::FLAG_PIXEL;
pub use tile::GROUND_PIXEL;
pub use tile::MARKER_PIXEL;
pub use tile::PLAYER_PIXEL;
