//! The guarantees the library makes beyond the individual contracts,
//! each stated over the model and proved once and for all.

use vstd::prelude::*;

use crate::game::advance_spec;
use crate::game::current_grid;
use crate::game::input_spec;
use crate::game::move_x_spec;
use crate::game::move_y_spec;
use crate::game::run_spec;
use crate::game::step_spec;
use crate::game::tick_spec;
use crate::game::wf_model;
use crate::game::wrap8;
use crate::game::GameEvent;
use crate::game::GameModel;
use crate::game::JUMP_HANG_TIME;
use crate::game::MAX_PLAYER_Y;
use crate::level::canonical;
use crate::level::emitted_glyphs;
use crate::level::grid_of;
use crate::level::kept_codes;
use crate::level::tile;
use crate::tile::code_of_glyph;
use crate::tile::glyph_of_code;
use crate::tile::is_glyph;
use crate::tile::is_tile_code;
use crate::tile::EMPTY_PIXEL;
use crate::tile::FLAG_PIXEL;
use crate::tile::GROUND_PIXEL;

verus! {

/// Every tile probe outside `[0,80) x [0,5)` reads as empty, whatever
/// the grid holds.
pub proof fn lemma_tile_out_of_range(g: Seq<u8>, x: int, y: int)
    requires
        !(0 <= x < 80 && 0 <= y < 5),
    ensures
        tile(g, x, y) == EMPTY_PIXEL,
{
}

/// A vertical move never leaves the player inside solid ground, as long
/// as the player was not inside ground before and the move is no fatal
/// fall (a fatal fall restarts at the level-0 spawn cell, about whose
/// surroundings nothing can be promised).
pub proof fn lemma_vertical_move_avoids_ground(s: GameModel, d: int)
    requires
        wf_model(s),
        tile(current_grid(s), s.px, s.py) != GROUND_PIXEL,
        wrap8(s.py, d) <= MAX_PLAYER_Y,
    ensures
        tile(current_grid(move_y_spec(s, d)), move_y_spec(s, d).px, move_y_spec(s, d).py)
            != GROUND_PIXEL,
{
}

/// A horizontal move never leaves the player inside solid ground, as
/// long as the player was not inside ground before and the destination
/// is not the flag (the flag completes the level and respawns the
/// player, about whose new surroundings nothing can be promised).
pub proof fn lemma_horizontal_move_avoids_ground(s: GameModel, d: int)
    requires
        wf_model(s),
        tile(current_grid(s), s.px, s.py) != GROUND_PIXEL,
        tile(current_grid(s), wrap8(s.px, d), s.py) != FLAG_PIXEL,
    ensures
        tile(current_grid(move_x_spec(s, d)), move_x_spec(s, d).px, move_x_spec(s, d).py)
            != GROUND_PIXEL,
{
}

/// Re-parsing the serialized form of any canonical 400-cell grid gives
/// that grid back: parsing is idempotent on well-formed input.
pub proof fn lemma_parse_round_trip(g: Seq<u8>)
    requires
        g.len() == 400,
        canonical(g),
    ensures
        grid_of(emitted_glyphs(g)) == g,
{
    lemma_kept_of_emitted(g);
    assert(grid_of(emitted_glyphs(g)) =~= g);
}

/// Every glyph the serializer emits is recognized, and parses back to
/// the code it came from.
proof fn lemma_kept_of_emitted(g: Seq<u8>)
    requires
        canonical(g),
    ensures
        kept_codes(emitted_glyphs(g)) == g,
    decreases g.len(),
{
    if g.len() == 0 {
        assert(emitted_glyphs(g) =~= Seq::<u8>::empty());
        assert(kept_codes(emitted_glyphs(g)) =~= g);
    } else {
        let e = emitted_glyphs(g);
        assert(e.drop_last() =~= emitted_glyphs(g.drop_last()));
        assert(is_tile_code(g.last()));
        assert(is_glyph(e.last()));
        assert(code_of_glyph(glyph_of_code(g.last())) == g.last());
        lemma_kept_of_emitted(g.drop_last());
        assert(kept_codes(e) =~= g);
    }
}

/// The jump protocol: firing a jump grants `JUMP_HANG_TIME` ticks of
/// hang time; each following gravity tick moves the counter one step
/// toward zero without any fall; once it is back at zero, the next tick
/// applies gravity again.
pub proof fn lemma_jump_protocol(s: GameModel)
    requires
        wf_model(s),
        !s.won,
        s.jump == 0,
        tile(current_grid(s), s.px, wrap8(s.py, -1)) != EMPTY_PIXEL,
    ensures
        ({
            let jumped = input_spec(s, true, true);
            let hang1 = tick_spec(jumped);
            let hang2 = tick_spec(hang1);
            &&& jumped.jump == JUMP_HANG_TIME
            &&& hang1 == GameModel { jump: jumped.jump + 1, ..jumped }
            &&& hang2 == GameModel { jump: 0, ..jumped }
            &&& tick_spec(hang2) == move_y_spec(hang2, -1)
        }),
{
}

/// Advancing from the last level sets the win flag and leaves the index
/// unchanged; advancing from any earlier level increments the index and
/// leaves the flag as it was; either way the player respawns at (0, 1).
pub proof fn lemma_level_advance(s: GameModel)
    requires
        wf_model(s),
    ensures
        advance_spec(s).px == 0,
        advance_spec(s).py == 1,
        s.level + 1 == s.levels.len() ==> advance_spec(s).won && advance_spec(s).level == s.level,
        s.level + 1 < s.levels.len() ==> advance_spec(s).level == s.level + 1 && advance_spec(s).won
            == s.won,
{
}

/// Validity is an invariant: one event of either kind leaves a valid
/// state valid — in particular the level index stays in range and the
/// hang-time counter stays between `JUMP_HANG_TIME` and zero.
pub proof fn lemma_step_preserves_wf(s: GameModel, e: GameEvent)
    requires
        wf_model(s),
    ensures
        wf_model(step_spec(s, e)),
{
}

/// Validity is an invariant of whole event sequences.
pub proof fn lemma_run_preserves_wf(s: GameModel, es: Seq<GameEvent>)
    requires
        wf_model(s),
    ensures
        wf_model(run_spec(s, es)),
    decreases es.len(),
{
    if es.len() > 0 {
        lemma_step_preserves_wf(s, es[0]);
        lemma_run_preserves_wf(step_spec(s, es[0]), es.drop_first());
    }
}

/// Winning is terminal: one further event, of either kind, changes
/// nothing at all.
pub proof fn lemma_win_terminal_step(s: GameModel, e: GameEvent)
    requires
        s.won,
    ensures
        step_spec(s, e) == s,
{
}

/// Winning is terminal: no sequence of further events changes anything.
pub proof fn lemma_win_is_terminal(s: GameModel, es: Seq<GameEvent>)
    requires
        s.won,
    ensures
        run_spec(s, es) == s,
    decreases es.len(),
{
    if es.len() > 0 {
        lemma_win_terminal_step(s, es[0]);
        lemma_win_is_terminal(s, es.drop_first());
    }
}

} // verus!
