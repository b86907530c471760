//! The game state and its transition functions.
//!
//! A [`Game`] is a 3x3 board stored as a flat array of 9 cells (row-major:
//! cell `(row, col)` lives at index `row * 3 + col`), the mark whose turn it
//! is, and an activity flag. The mathematical model of a game is
//! [`GameModel`], reached through the view operator `@`; every contract is
//! stated over that model.

use vstd::prelude::*;

verus! {

broadcast use vstd::array::group_array_axioms;

/// The mark a player places on the board. X always moves first.
#[derive(Clone, Copy, PartialEq, Eq, Structural, Debug)]
pub enum Player {
    X,
    O,
}

/// One cell of the board: empty, or taken by a player's mark.
#[derive(Clone, Copy, PartialEq, Eq, Structural, Debug)]
pub enum Cell {
    Empty,
    Taken(Player),
}

/// Why a move was rejected. Every rejection leaves the game untouched.
#[derive(Clone, Copy, PartialEq, Eq, Structural, Debug)]
pub enum TicTacToeError {
    /// The game has already ended.
    GameEnded,
    /// A coordinate is outside the board.
    InvalidMove,
    /// The target cell is already occupied.
    SpaceTaken,
}

/// The persisted game state.
pub struct Game {
    /// The 9 cells in row-major order: `(row, col)` is at `row * 3 + col`.
    pub board: [Cell; 9],
    /// The mark whose turn it is next.
    pub current_player: Player,
    /// True while the game accepts moves.
    pub is_active: bool,
}

/// The mathematical model of a [`Game`]: the board as a sequence of 9 cells.
pub ghost struct GameModel {
    pub board: Seq<Cell>,
    pub current_player: Player,
    pub is_active: bool,
}

impl View for Game {
    type V = GameModel;

    open spec fn view(&self) -> GameModel {
        GameModel {
            board: self.board@,
            current_player: self.current_player,
            is_active: self.is_active,
        }
    }
}

/// A well-formed model: the board has exactly 9 cells. Every `Game` value
/// satisfies this, its board being a fixed-size array.
pub open spec fn model_wf(g: GameModel) -> bool {
    g.board.len() == 9
}

/// The opposing mark.
pub open spec fn other_player(p: Player) -> Player {
    match p {
        Player::X => Player::O,
        Player::O => Player::X,
    }
}

/// Every cell of the board is empty.
pub open spec fn all_empty(b: Seq<Cell>) -> bool {
    forall|i: int| 0 <= i < b.len() ==> b[i] == Cell::Empty
}

/// The cell at `(row, col)` of a board in row-major order.
pub open spec fn cell_at(b: Seq<Cell>, row: int, col: int) -> Cell {
    b[row * 3 + col]
}

/// All three cells of row `r` carry `p`'s mark.
pub open spec fn row_won(b: Seq<Cell>, p: Player, r: int) -> bool {
    &&& b[r * 3] == Cell::Taken(p)
    &&& b[r * 3 + 1] == Cell::Taken(p)
    &&& b[r * 3 + 2] == Cell::Taken(p)
}

/// All three cells of column `c` carry `p`'s mark.
pub open spec fn col_won(b: Seq<Cell>, p: Player, c: int) -> bool {
    &&& b[c] == Cell::Taken(p)
    &&& b[3 + c] == Cell::Taken(p)
    &&& b[6 + c] == Cell::Taken(p)
}

/// All three cells of the main diagonal carry `p`'s mark.
pub open spec fn main_diag_won(b: Seq<Cell>, p: Player) -> bool {
    b[0] == Cell::Taken(p) && b[4] == Cell::Taken(p) && b[8] == Cell::Taken(p)
}

/// All three cells of the anti-diagonal carry `p`'s mark.
pub open spec fn anti_diag_won(b: Seq<Cell>, p: Player) -> bool {
    b[2] == Cell::Taken(p) && b[4] == Cell::Taken(p) && b[6] == Cell::Taken(p)
}

/// `p` owns one of the 8 winning lines: 3 rows, 3 columns, 2 diagonals.
pub open spec fn wins(b: Seq<Cell>, p: Player) -> bool {
    ||| row_won(b, p, 0)
    ||| row_won(b, p, 1)
    ||| row_won(b, p, 2)
    ||| col_won(b, p, 0)
    ||| col_won(b, p, 1)
    ||| col_won(b, p, 2)
    ||| main_diag_won(b, p)
    ||| anti_diag_won(b, p)
}

/// Every cell of the board is taken.
pub open spec fn board_full(b: Seq<Cell>) -> bool {
    forall|i: int| 0 <= i < b.len() ==> b[i] != Cell::Empty
}

/// A move `(row, col)` is accepted exactly when the game is active, both
/// coordinates are on the board, and the target cell is empty.
pub open spec fn move_accepted(g: GameModel, row: int, col: int) -> bool {
    &&& g.is_active
    &&& 0 <= row < 3
    &&& 0 <= col < 3
    &&& cell_at(g.board, row, col) == Cell::Empty
}

/// The error a rejected move reports: the preconditions are checked in
/// order — activity, bounds, vacancy — and the first failure decides.
pub open spec fn move_rejection(g: GameModel, row: int, col: int) -> TicTacToeError {
    if !g.is_active {
        TicTacToeError::GameEnded
    } else if !(0 <= row < 3 && 0 <= col < 3) {
        TicTacToeError::InvalidMove
    } else {
        TicTacToeError::SpaceTaken
    }
}

/// The board after the current player marks `(row, col)`.
pub open spec fn board_after_move(g: GameModel, row: int, col: int) -> Seq<Cell> {
    g.board.update(row * 3 + col, Cell::Taken(g.current_player))
}

/// The state after an accepted move: the mark is placed; on a win or a full
/// board the game deactivates and the turn is frozen; otherwise the turn
/// passes to the other player.
pub open spec fn game_after_move(g: GameModel, row: int, col: int) -> GameModel {
    let b = board_after_move(g, row, col);
    if wins(b, g.current_player) || board_full(b) {
        GameModel { board: b, current_player: g.current_player, is_active: false }
    } else {
        GameModel { board: b, current_player: other_player(g.current_player), is_active: true }
    }
}

/// Create a fresh game: an empty board, X to move, accepting moves.
pub fn initialize() -> (game: Game)
    ensures
        game@.board.len() == 9,
        all_empty(game@.board),
        game@.current_player == Player::X,
        game@.is_active,
{
    Game { board: [Cell::Empty; 9], current_player: Player::X, is_active: true }
}

/// The opposing mark.
pub fn opponent(p: Player) -> (q: Player)
    ensures
        q == other_player(p),
{
    match p {
        Player::X => Player::O,
        Player::O => Player::X,
    }
}

/// Whether `player` owns a complete row, column or diagonal of `board`.
pub fn check_win(board: &[Cell; 9], player: Player) -> (won: bool)
    ensures
        won == wins(board@, player),
{
    let mark = Cell::Taken(player);
    let mut i: usize = 0;
    while i < 3
        invariant
            i <= 3,
            mark == Cell::Taken(player),
            forall|r: int| 0 <= r < i ==> !row_won(board@, player, r),
            forall|c: int| 0 <= c < i ==> !col_won(board@, player, c),
        decreases 3 - i,
    {
        if board[3 * i] == mark && board[3 * i + 1] == mark && board[3 * i + 2] == mark {
            return true;
        }
        if board[i] == mark && board[3 + i] == mark && board[6 + i] == mark {
            return true;
        }
        i += 1;
    }
    (board[0] == mark && board[4] == mark && board[8] == mark) || (board[2] == mark && board[4]
        == mark && board[6] == mark)
}

/// Whether every cell of `board` is taken.
pub fn is_board_full(board: &[Cell; 9]) -> (full: bool)
    ensures
        full == board_full(board@),
{
    let mut i: usize = 0;
    while i < 9
        invariant
            i <= 9,
            forall|j: int| 0 <= j < i ==> board@[j] != Cell::Empty,
        decreases 9 - i,
    {
        if board[i] == Cell::Empty {
            return false;
        }
        i += 1;
    }
    true
}

/// Validate and apply one move for the player whose turn it is.
///
/// The checks run in order — activity, bounds, vacancy — and the first
/// failure rejects the whole move with the game left exactly as it was. An
/// accepted move places the current player's mark at `(row, col)`, ends the
/// game on a win or a full board (freezing the turn), and otherwise passes
/// the turn.
pub fn make_move(game: &mut Game, row: u8, col: u8) -> (result: Result<(), TicTacToeError>)
    ensures
        move_accepted(old(game)@, row as int, col as int) ==> {
            &&& result == Ok::<(), TicTacToeError>(())
            &&& final(game)@ == game_after_move(old(game)@, row as int, col as int)
        },
        !move_accepted(old(game)@, row as int, col as int) ==> {
            &&& result == Err::<(), TicTacToeError>(
                move_rejection(old(game)@, row as int, col as int),
            )
            &&& final(game)@ == old(game)@
        },
{
    if !game.is_active {
        return Err(TicTacToeError::GameEnded);
    }
    if !(row < 3 && col < 3) {
        return Err(TicTacToeError::InvalidMove);
    }
    let idx: usize = (row as usize) * 3 + (col as usize);
    if game.board[idx] != Cell::Empty {
        return Err(TicTacToeError::SpaceTaken);
    }
    let mover = game.current_player;
    game.board[idx] = Cell::Taken(mover);
    if check_win(&game.board, mover) {
        game.is_active = false;
    } else if is_board_full(&game.board) {
        game.is_active = false;
    } else {
        game.current_player = opponent(mover);
    }
    Ok(())
}

/// The outcome a game reports: still in progress, won by a mark, or drawn.
#[derive(Clone, Copy, PartialEq, Eq, Structural, Debug)]
pub enum GameStatus {
    InProgress,
    Won(Player),
    Drawn,
}

/// The outcome of a game as read off its state: a finished game was won by
/// the mark owning a complete line, and is a draw when no mark owns one.
pub open spec fn spec_status(g: GameModel) -> GameStatus {
    if g.is_active {
        GameStatus::InProgress
    } else if wins(g.board, Player::X) {
        GameStatus::Won(Player::X)
    } else if wins(g.board, Player::O) {
        GameStatus::Won(Player::O)
    } else {
        GameStatus::Drawn
    }
}

impl Game {
    /// Report the game's outcome: the observable form of the win or draw
    /// announcement a finished game makes.
    pub fn status(&self) -> (s: GameStatus)
        ensures
            s == spec_status(self@),
    {
        if self.is_active {
            GameStatus::InProgress
        } else if check_win(&self.board, Player::X) {
            GameStatus::Won(Player::X)
        } else if check_win(&self.board, Player::O) {
            GameStatus::Won(Player::O)
        } else {
            GameStatus::Drawn
        }
    }
}

} // verus!
