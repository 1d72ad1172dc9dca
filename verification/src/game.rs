//! Game state and physics: player position, current level, the jump
//! hang-time counter and the win flag, together with the transition
//! rules that the gravity tick and the resolved button input apply.
//!
//! Every executable operation is specified against `GameModel`, a
//! mathematical image of the state, and the spec transition functions
//! below say exactly which model the operation leaves behind.

use vstd::prelude::*;

use crate::level::blank_screen;
use crate::level::tile;
use crate::level::win_screen;
use crate::level::win_screen_spec;
use crate::level::window;
use crate::level::Level;
use crate::level::Screen;
use crate::tile::EMPTY_PIXEL;
use crate::tile::FLAG_PIXEL;
use crate::tile::GROUND_PIXEL;

verus! {

/// Gravity ticks of hang time granted by a jump: the counter starts
/// here and climbs back to zero before gravity resumes.
pub const JUMP_HANG_TIME: i8 = -2;

/// Greatest playable row; a vertical move that wraps past it counts as
/// a fatal fall and restarts the game at the first level.
pub const MAX_PLAYER_Y: u8 = 15;

/// Mathematical image of the game state.
#[verifier::ext_equal]
pub ghost struct GameModel {
    /// Player column.
    pub px: int,
    /// Player row, 0 at the bottom of a level.
    pub py: int,
    /// Jump hang-time counter; zero whenever gravity is in force.
    pub jump: int,
    /// Index of the current level.
    pub level: int,
    /// True once the last level has been completed; terminal.
    pub won: bool,
    /// The grids of all levels, in play order.
    pub levels: Seq<Seq<u8>>,
}

/// Byte wraparound: the value of `p + d` in an eight-bit register.
/// Wraparound is load-bearing exactly once: a fall below row zero wraps
/// high and is then caught by the fatal-fall test.
pub open spec fn wrap8(p: int, d: int) -> int {
    if p + d < 0 {
        p + d + 256
    } else if p + d > 255 {
        p + d - 256
    } else {
        p + d
    }
}

/// Validity of a model: at least one level, the current index in range,
/// every grid of exactly 400 cells, the hang-time counter between
/// `JUMP_HANG_TIME` and zero, and the position within a byte.
pub open spec fn wf_model(s: GameModel) -> bool {
    &&& s.levels.len() >= 1
    &&& 0 <= s.level < s.levels.len()
    &&& (forall|i: int| 0 <= i < s.levels.len() ==> (#[trigger] s.levels[i]).len() == 400)
    &&& JUMP_HANG_TIME <= s.jump <= 0
    &&& 0 <= s.px <= 255
    &&& 0 <= s.py <= 255
}

/// Grid of the level the player is in.
pub open spec fn current_grid(s: GameModel) -> Seq<u8> {
    s.levels[s.level]
}

/// State at startup: player at `(0, 1)` in the first level, gravity in
/// force, nothing won.
pub open spec fn init_spec(grids: Seq<Seq<u8>>) -> GameModel {
    GameModel { px: 0, py: 1, jump: 0, level: 0, won: false, levels: grids }
}

/// Completing a level: the player returns to `(0, 1)`; from the last
/// level the win flag is set and the index stays put, from any earlier
/// level the index advances.
pub open spec fn advance_spec(s: GameModel) -> GameModel {
    let s1 = GameModel { px: 0, py: 1, ..s };
    if s.level + 1 == s.levels.len() {
        GameModel { won: true, ..s1 }
    } else {
        GameModel { level: s.level + 1, ..s1 }
    }
}

/// A vertical move by `d`: the row moves with byte wraparound; a result
/// above `MAX_PLAYER_Y` is a fatal fall, restarting at level 0, cell
/// `(0, 1)`; and a destination cell of solid ground puts the row back
/// to where it was before the move.
pub open spec fn move_y_spec(s: GameModel, d: int) -> GameModel {
    let ny = wrap8(s.py, d);
    let s1 = if ny > MAX_PLAYER_Y {
        GameModel { px: 0, py: 1, level: 0, ..s }
    } else {
        GameModel { py: ny, ..s }
    };
    if tile(current_grid(s1), s1.px, s1.py) == GROUND_PIXEL {
        GameModel { py: s.py, ..s1 }
    } else {
        s1
    }
}

/// A horizontal move by `d`: the column moves with byte wraparound;
/// reaching the flag completes the level at once, solid ground puts the
/// column back, anything else stands.
pub open spec fn move_x_spec(s: GameModel, d: int) -> GameModel {
    let s1 = GameModel { px: wrap8(s.px, d), ..s };
    if tile(current_grid(s1), s1.px, s1.py) == FLAG_PIXEL {
        advance_spec(s1)
    } else if tile(current_grid(s1), s1.px, s1.py) == GROUND_PIXEL {
        GameModel { px: s.px, ..s1 }
    } else {
        s1
    }
}

/// One gravity tick: nothing once the game is won; during hang time the
/// counter climbs one step toward zero and the fall is skipped;
/// otherwise the player falls one row.
pub open spec fn tick_spec(s: GameModel) -> GameModel {
    if s.won {
        s
    } else if s.jump == 0 {
        move_y_spec(s, -1)
    } else {
        GameModel { jump: s.jump + 1, ..s }
    }
}

/// One resolved input cycle: nothing once the game is won; both buttons
/// over a supporting (non-empty) cell one row below fire a jump, two
/// rows up with hang time granted; otherwise the left button moves left
/// and the right button moves right, both in the same cycle when both
/// are down without support.
pub open spec fn input_spec(s: GameModel, left: bool, right: bool) -> GameModel {
    if s.won {
        s
    } else if left && right && tile(current_grid(s), s.px, wrap8(s.py, -1)) != EMPTY_PIXEL {
        GameModel { jump: JUMP_HANG_TIME as int, ..move_y_spec(s, 2) }
    } else {
        let s1 = if left {
            move_x_spec(s, -1)
        } else {
            s
        };
        if right {
            move_x_spec(s1, 1)
        } else {
            s1
        }
    }
}

/// The frame a render tick shows: the fixed win screen once the game is
/// won, else the level window around the player.
pub open spec fn frame_spec(s: GameModel) -> Seq<u8> {
    if s.won {
        win_screen_spec()
    } else {
        window(current_grid(s), s.px, s.py, blank_screen())
    }
}

/// The two kinds of event that reach the game state: a gravity tick,
/// or a resolved poll of the two buttons.
pub enum GameEvent {
    Tick,
    Press(bool, bool),
}

/// Effect of one event on the model.
pub open spec fn step_spec(s: GameModel, e: GameEvent) -> GameModel {
    match e {
        GameEvent::Tick => tick_spec(s),
        GameEvent::Press(left, right) => input_spec(s, left, right),
    }
}

/// Effect of a whole sequence of events, first event first.
pub open spec fn run_spec(s: GameModel, es: Seq<GameEvent>) -> GameModel
    decreases es.len(),
{
    if es.len() == 0 {
        s
    } else {
        run_spec(step_spec(s, es[0]), es.drop_first())
    }
}

/// The mutable simulation state. All mutation goes through the physics
/// operations below; the caller (one main loop and one timer handler)
/// serializes access.
pub struct GameState {
    player_x: u8,
    player_y: u8,
    jump_cancel: i8,
    current_level: usize,
    has_won: bool,
    levels: Vec<Level>,
}

impl View for GameState {
    type V = GameModel;

    closed spec fn view(&self) -> GameModel {
        GameModel {
            px: self.player_x as int,
            py: self.player_y as int,
            jump: self.jump_cancel as int,
            level: self.current_level as int,
            won: self.has_won,
            levels: self.levels@.map_values(|l: Level| l@),
        }
    }
}

impl GameState {
    /// Validity of the state: its model is valid.
    pub open spec fn wf(self) -> bool {
        wf_model(self@)
    }

    /// Starts a game over the given levels, player at `(0, 1)` in the
    /// first one.
    pub fn new(levels: Vec<Level>) -> (r: GameState)
        requires
            levels@.len() >= 1,
            forall|i: int| 0 <= i < levels@.len() ==> (#[trigger] levels@[i]).wf(),
        ensures
            r.wf(),
            r@ == init_spec(levels@.map_values(|l: Level| l@)),
    {
        GameState {
            player_x: 0,
            player_y: 1,
            jump_cancel: 0,
            current_level: 0,
            has_won: false,
            levels,
        }
    }

    /// True once the last level has been completed.
    pub fn has_won(&self) -> (r: bool)
        ensures
            r == self@.won,
    {
        self.has_won
    }

    /// Player column.
    pub fn player_x(&self) -> (r: u8)
        ensures
            r as int == self@.px,
    {
        self.player_x
    }

    /// Player row, 0 at the bottom.
    pub fn player_y(&self) -> (r: u8)
        ensures
            r as int == self@.py,
    {
        self.player_y
    }

    /// Jump hang-time counter.
    pub fn jump_cancel(&self) -> (r: i8)
        ensures
            r as int == self@.jump,
    {
        self.jump_cancel
    }

    /// Index of the current level.
    pub fn current_level(&self) -> (r: usize)
        ensures
            r as int == self@.level,
    {
        self.current_level
    }

    /// The level the player is in.
    pub fn get_level(&self) -> (r: &Level)
        requires
            self.wf(),
        ensures
            r@ == current_grid(self@),
            r.wf(),
    {
        &self.levels[self.current_level]
    }

    /// Vertical move: see `move_y_spec`.
    pub fn add_player_y(&mut self, dy: i8)
        requires
            old(self).wf(),
        ensures
            final(self).wf(),
            final(self)@ == move_y_spec(old(self)@, dy as int),
    {
        let old_y = self.player_y;
        self.player_y = self.player_y.wrapping_add_signed(dy);
        if self.player_y > MAX_PLAYER_Y {
            self.current_level = 0;
            self.player_x = 0;
            self.player_y = 1;
        }
        let t = self.get_level().get_byte_at(self.player_x, self.player_y);
        if t == GROUND_PIXEL {
            self.player_y = old_y;
        }
    }

    /// Horizontal move: see `move_x_spec`.
    pub fn add_player_x(&mut self, dx: i8)
        requires
            old(self).wf(),
        ensures
            final(self).wf(),
            final(self)@ == move_x_spec(old(self)@, dx as int),
    {
        let old_x = self.player_x;
        self.player_x = self.player_x.wrapping_add_signed(dx);
        let t = self.get_level().get_byte_at(self.player_x, self.player_y);
        if t == FLAG_PIXEL {
            self.next_level();
            return ;
        }
        let t2 = self.get_level().get_byte_at(self.player_x, self.player_y);
        if t2 == GROUND_PIXEL {
            self.player_x = old_x;
        }
    }

    /// Level completion: see `advance_spec`.
    pub fn next_level(&mut self)
        requires
            old(self).wf(),
        ensures
            final(self).wf(),
            final(self)@ == advance_spec(old(self)@),
    {
        self.player_x = 0;
        self.player_y = 1;
        if self.current_level == self.levels.len() - 1 {
            self.has_won = true;
            return ;
        }
        self.current_level = self.current_level + 1;
    }

    /// One gravity tick: see `tick_spec`.
    pub fn gravity_tick(&mut self)
        requires
            old(self).wf(),
        ensures
            final(self).wf(),
            final(self)@ == tick_spec(old(self)@),
    {
        if self.has_won {
            return ;
        }
        if self.jump_cancel == 0 {
            self.add_player_y(-1);
        } else {
            self.jump_cancel = self.jump_cancel + 1;
        }
    }

    /// One resolved input cycle: see `input_spec`.
    pub fn handle_input(&mut self, left: bool, right: bool)
        requires
            old(self).wf(),
        ensures
            final(self).wf(),
            final(self)@ == input_spec(old(self)@, left, right),
    {
        if self.has_won {
            return ;
        }
        if left && right {
            let below: u8 = self.player_y.wrapping_add_signed(-1);
            let support = self.get_level().get_byte_at(self.player_x, below);
            if support != EMPTY_PIXEL {
                self.add_player_y(2);
                self.jump_cancel = JUMP_HANG_TIME;
                return ;
            }
        }
        if left {
            self.add_player_x(-1);
        }
        if right {
            self.add_player_x(1);
        }
    }

    /// The level window around the player: see `window`.
    pub fn make_image(&self) -> (r: Screen)
        requires
            self.wf(),
        ensures
            r.wf(),
            r@ == window(current_grid(self@), self@.px, self@.py, blank_screen()),
    {
        let mut grid: Screen = Screen::new();
        self.get_level().copy_into(self.player_x, self.player_y, &mut grid);
        grid
    }

    /// The frame to show this render tick: see `frame_spec`.
    pub fn display_image(&self) -> (r: Screen)
        requires
            self.wf(),
        ensures
            r.wf(),
            r@ == frame_spec(self@),
    {
        if self.has_won {
            win_screen()
        } else {
            self.make_image()
        }
    }
}

} // verus!
