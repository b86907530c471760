//! Laws that relate several operations of the engine, proved once and for
//! all over the mathematical model.

use vstd::prelude::*;

use crate::game::{
    all_empty, board_after_move, game_after_move, model_wf, move_accepted, move_rejection,
    other_player, spec_status, wins, Cell, GameModel, GameStatus, Player, TicTacToeError,
};

verus! {

/// The state after a sequence of moves, each applied with the usual
/// transition. (Its callers assume every move of the sequence is accepted,
/// through [`all_accepted_nonterminal`].)
pub open spec fn play(g: GameModel, moves: Seq<(int, int)>) -> GameModel
    decreases moves.len(),
{
    if moves.len() == 0 {
        g
    } else {
        play(game_after_move(g, moves[0].0, moves[0].1), moves.drop_first())
    }
}

/// Every move of the sequence is accepted and leaves the game active.
pub open spec fn all_accepted_nonterminal(g: GameModel, moves: Seq<(int, int)>) -> bool
    decreases moves.len(),
{
    moves.len() == 0 || {
        &&& move_accepted(g, moves[0].0, moves[0].1)
        &&& game_after_move(g, moves[0].0, moves[0].1).is_active
        &&& all_accepted_nonterminal(game_after_move(g, moves[0].0, moves[0].1), moves.drop_first())
    }
}

/// Law: turn alternation, one step. An accepted move that leaves the game
/// active hands the turn to the other player.
pub proof fn lemma_turn_alternation_step(g: GameModel, row: int, col: int)
    requires
        move_accepted(g, row, col),
        game_after_move(g, row, col).is_active,
    ensures
        game_after_move(g, row, col).current_player == other_player(g.current_player),
{
}

/// Law: turn alternation. Along any sequence of accepted non-terminal moves
/// the turn alternates strictly: after an even number of moves it belongs to
/// the player who started the sequence, after an odd number to the other.
/// From a fresh game the starting player is X.
pub proof fn lemma_turn_alternation(g: GameModel, moves: Seq<(int, int)>)
    requires
        all_accepted_nonterminal(g, moves),
    ensures
        play(g, moves).current_player == if moves.len() % 2 == 0 {
            g.current_player
        } else {
            other_player(g.current_player)
        },
    decreases moves.len(),
{
    if moves.len() > 0 {
        let g1 = game_after_move(g, moves[0].0, moves[0].1);
        lemma_turn_alternation(g1, moves.drop_first());
    }
}

/// Law: idempotent rejection. Once a move at `(row, col)` is accepted, a
/// second move there is never accepted again; while the game is still
/// active the repeat is rejected as taken. (When the first move finished
/// the game, the repeat is instead rejected as ended, by
/// [`lemma_terminal_rejects_all`].)
pub proof fn lemma_repeat_move_rejected(g: GameModel, row: int, col: int)
    requires
        model_wf(g),
        move_accepted(g, row, col),
    ensures
        !move_accepted(game_after_move(g, row, col), row, col),
        game_after_move(g, row, col).is_active ==> move_rejection(
            game_after_move(g, row, col),
            row,
            col,
        ) == TicTacToeError::SpaceTaken,
{
}

/// Law: bounds. While the game is active, a move with a coordinate off the
/// board — 3 or more, or negative — is rejected as invalid.
pub proof fn lemma_out_of_bounds_rejected(g: GameModel, row: int, col: int)
    requires
        g.is_active,
        !(0 <= row < 3 && 0 <= col < 3),
    ensures
        !move_accepted(g, row, col),
        move_rejection(g, row, col) == TicTacToeError::InvalidMove,
{
}

/// Law: post-terminal rejection. A finished game rejects every move as
/// ended, whatever the coordinates.
pub proof fn lemma_terminal_rejects_all(g: GameModel, row: int, col: int)
    requires
        !g.is_active,
    ensures
        !move_accepted(g, row, col),
        move_rejection(g, row, col) == TicTacToeError::GameEnded,
{
}

/// A move never completes a line for the opponent: placing `p`'s mark on a
/// board where the other player owns no line leaves the other player without
/// a line.
pub proof fn lemma_no_win_for_opponent(b: Seq<Cell>, p: Player, i: int)
    requires
        b.len() == 9,
        0 <= i < 9,
        !wins(b, other_player(p)),
    ensures
        !wins(b.update(i, Cell::Taken(p)), other_player(p)),
{
}

/// Law: a winning final move is reported as a win, never as a draw, even
/// when it also fills the board. The win check speaks first; board fullness
/// only ever turns a non-winning move into a draw. (The opponent owning no
/// line beforehand holds in every game reached by accepted moves: a game
/// ends the moment a line is completed.)
pub proof fn lemma_win_reported_not_draw(g: GameModel, row: int, col: int)
    requires
        model_wf(g),
        move_accepted(g, row, col),
        !wins(g.board, other_player(g.current_player)),
        wins(board_after_move(g, row, col), g.current_player),
    ensures
        spec_status(game_after_move(g, row, col)) == GameStatus::Won(g.current_player),
{
    lemma_no_win_for_opponent(g.board, g.current_player, row * 3 + col);
}

/// Number of cells of `b` carrying `p`'s mark.
pub open spec fn mark_count(b: Seq<Cell>, p: Player) -> int
    decreases b.len(),
{
    if b.len() == 0 {
        0
    } else {
        mark_count(b.drop_last(), p) + if b.last() == Cell::Taken(p) {
            1int
        } else {
            0int
        }
    }
}

/// Overwriting one cell changes a mark's count by the difference of the two
/// cell values' contributions.
proof fn lemma_mark_count_update(b: Seq<Cell>, p: Player, i: int, v: Cell)
    requires
        0 <= i < b.len(),
    ensures
        mark_count(b.update(i, v), p) == mark_count(b, p) - (if b[i] == Cell::Taken(p) {
            1int
        } else {
            0int
        }) + (if v == Cell::Taken(p) {
            1int
        } else {
            0int
        }),
    decreases b.len(),
{
    let b1 = b.update(i, v);
    if i == b.len() - 1 {
        assert(b1.drop_last() =~= b.drop_last());
    } else {
        assert(b1.drop_last() =~= b.drop_last().update(i, v));
        lemma_mark_count_update(b.drop_last(), p, i, v);
    }
}

/// A board without `p`'s mark counts zero for `p`.
proof fn lemma_mark_count_absent(b: Seq<Cell>, p: Player)
    requires
        forall|i: int| 0 <= i < b.len() ==> b[i] != Cell::Taken(p),
    ensures
        mark_count(b, p) == 0,
    decreases b.len(),
{
    if b.len() > 0 {
        lemma_mark_count_absent(b.drop_last(), p);
    }
}

/// The mark counts a reachable state allows: X moves first, so while the game
/// is active X leads by one exactly when it is O's turn, and a finished game
/// keeps a lead of zero or one.
pub open spec fn marks_balanced(g: GameModel) -> bool {
    if g.is_active {
        mark_count(g.board, Player::X) - mark_count(g.board, Player::O) == (
        if g.current_player == Player::X {
            0int
        } else {
            1int
        })
    } else {
        0 <= mark_count(g.board, Player::X) - mark_count(g.board, Player::O) <= 1
    }
}

/// Law: a fresh game is balanced — an empty board holds no mark at all.
pub proof fn lemma_initial_balanced(g: GameModel)
    requires
        all_empty(g.board),
        g.current_player == Player::X,
        g.is_active,
    ensures
        marks_balanced(g),
{
    lemma_mark_count_absent(g.board, Player::X);
    lemma_mark_count_absent(g.board, Player::O);
}

/// Law: every accepted move keeps the marks balanced, so the number of X
/// marks minus the number of O marks is 0 or 1 in every reachable state.
pub proof fn lemma_move_preserves_balance(g: GameModel, row: int, col: int)
    requires
        model_wf(g),
        marks_balanced(g),
        move_accepted(g, row, col),
    ensures
        marks_balanced(game_after_move(g, row, col)),
{
    lemma_mark_count_update(g.board, Player::X, row * 3 + col, Cell::Taken(g.current_player));
    lemma_mark_count_update(g.board, Player::O, row * 3 + col, Cell::Taken(g.current_player));
}

} // verus!
