use tic_tac_toe::game::{
    check_win, initialize, is_board_full, make_move, opponent, Cell, Game, GameStatus, Player,
    TicTacToeError,
};

/// Apply each move in turn, requiring every one of them to be accepted.
fn play_all(game: &mut Game, moves: &[(u8, u8)]) {
    for &(row, col) in moves {
        assert_eq!(make_move(game, row, col), Ok(()));
    }
}

fn snapshot(game: &Game) -> ([Cell; 9], Player, bool) {
    (game.board, game.current_player, game.is_active)
}

#[test]
fn fresh_game_is_empty_x_to_move() {
    let game = initialize();
    for cell in game.board.iter() {
        assert_eq!(*cell, Cell::Empty);
    }
    assert_eq!(game.current_player, Player::X);
    assert!(game.is_active);
    assert_eq!(game.status(), GameStatus::InProgress);
}

#[test]
fn turns_alternate_from_x() {
    let mut game = initialize();
    let moves = [(0u8, 0u8), (1, 0), (0, 1), (1, 1)];
    let mut expected = Player::X;
    for &(row, col) in moves.iter() {
        assert_eq!(game.current_player, expected);
        assert_eq!(make_move(&mut game, row, col), Ok(()));
        expected = if expected == Player::X { Player::O } else { Player::X };
    }
    assert_eq!(game.current_player, expected);
}

#[test]
fn second_move_same_cell_rejected() {
    let mut game = initialize();
    assert_eq!(make_move(&mut game, 1, 1), Ok(()));
    let before = snapshot(&game);
    assert_eq!(make_move(&mut game, 1, 1), Err(TicTacToeError::SpaceTaken));
    assert_eq!(snapshot(&game), before);
}

#[test]
fn out_of_bounds_rejected() {
    let mut game = initialize();
    let before = snapshot(&game);
    assert_eq!(make_move(&mut game, 3, 0), Err(TicTacToeError::InvalidMove));
    assert_eq!(make_move(&mut game, 0, 3), Err(TicTacToeError::InvalidMove));
    assert_eq!(make_move(&mut game, 3, 3), Err(TicTacToeError::InvalidMove));
    assert_eq!(make_move(&mut game, 255, 0), Err(TicTacToeError::InvalidMove));
    assert_eq!(make_move(&mut game, 0, 255), Err(TicTacToeError::InvalidMove));
    assert_eq!(snapshot(&game), before);
}

#[test]
fn finished_game_rejects_moves() {
    let mut game = initialize();
    // X wins the top row.
    play_all(&mut game, &[(0, 0), (1, 0), (0, 1), (1, 1), (0, 2)]);
    assert!(!game.is_active);
    let before = snapshot(&game);
    assert_eq!(make_move(&mut game, 2, 2), Err(TicTacToeError::GameEnded));
    assert_eq!(snapshot(&game), before);
    // Rejected whatever the coordinates, even out-of-bounds ones.
    assert_eq!(make_move(&mut game, 9, 9), Err(TicTacToeError::GameEnded));
    assert_eq!(snapshot(&game), before);
}

#[test]
fn row_win_detected() {
    let mut game = initialize();
    play_all(&mut game, &[(0, 0), (1, 0), (0, 1), (1, 1), (0, 2)]);
    assert!(!game.is_active);
    assert_eq!(game.current_player, Player::X);
    assert_eq!(game.status(), GameStatus::Won(Player::X));
}

#[test]
fn diagonal_win_detected() {
    let mut game = initialize();
    play_all(&mut game, &[(0, 0), (0, 1), (1, 1), (0, 2), (2, 2)]);
    assert!(!game.is_active);
    assert_eq!(game.status(), GameStatus::Won(Player::X));
}

#[test]
fn column_win_detected() {
    let mut game = initialize();
    play_all(&mut game, &[(0, 1), (0, 0), (1, 1), (1, 0), (2, 1)]);
    assert!(!game.is_active);
    assert_eq!(game.status(), GameStatus::Won(Player::X));
}

#[test]
fn o_can_win_too() {
    let mut game = initialize();
    // X plays scattered cells while O takes the middle row.
    play_all(&mut game, &[(0, 0), (1, 0), (0, 1), (1, 1), (2, 2), (1, 2)]);
    assert!(!game.is_active);
    assert_eq!(game.current_player, Player::O);
    assert_eq!(game.status(), GameStatus::Won(Player::O));
}

#[test]
fn full_board_without_line_is_draw() {
    let mut game = initialize();
    let moves = [
        (0u8, 0u8),
        (0, 1),
        (0, 2),
        (1, 1),
        (1, 0),
        (1, 2),
        (2, 1),
        (2, 0),
        (2, 2),
    ];
    for (n, &(row, col)) in moves.iter().enumerate() {
        assert_eq!(make_move(&mut game, row, col), Ok(()));
        if n + 1 < moves.len() {
            assert!(game.is_active, "no line may complete before the board fills");
        }
    }
    assert!(!game.is_active);
    assert_eq!(game.status(), GameStatus::Drawn);
}

#[test]
fn winning_final_move_reported_as_win() {
    let mut game = initialize();
    // The ninth move both fills the board and completes the right column for
    // X: the game must report a win, not a draw.
    play_all(
        &mut game,
        &[
            (0, 0),
            (0, 1),
            (0, 2),
            (1, 0),
            (2, 1),
            (1, 1),
            (2, 2),
            (2, 0),
            (1, 2),
        ],
    );
    assert!(!game.is_active);
    assert!(is_board_full(&game.board));
    assert_eq!(game.status(), GameStatus::Won(Player::X));
}

#[test]
fn check_win_sees_each_kind_of_line() {
    let x = Cell::Taken(Player::X);
    let o = Cell::Taken(Player::O);
    let e = Cell::Empty;

    let middle_row = [e, e, e, o, o, o, e, e, e];
    assert!(check_win(&middle_row, Player::O));
    assert!(!check_win(&middle_row, Player::X));

    let last_column = [e, e, x, e, e, x, e, e, x];
    assert!(check_win(&last_column, Player::X));

    let main_diagonal = [x, e, e, e, x, e, e, e, x];
    assert!(check_win(&main_diagonal, Player::X));

    let anti_diagonal = [e, e, o, e, o, e, o, e, e];
    assert!(check_win(&anti_diagonal, Player::O));

    let no_line = [x, o, x, x, o, o, o, x, x];
    assert!(!check_win(&no_line, Player::X));
    assert!(!check_win(&no_line, Player::O));
}

#[test]
fn opponent_flips_marks() {
    assert_eq!(opponent(Player::X), Player::O);
    assert_eq!(opponent(Player::O), Player::X);
}

#[test]
fn board_fullness_reported_exactly() {
    let x = Cell::Taken(Player::X);
    let o = Cell::Taken(Player::O);

    assert!(!is_board_full(&[Cell::Empty; 9]));
    assert!(!is_board_full(&[x, o, x, x, o, o, o, x, Cell::Empty]));
    assert!(is_board_full(&[x, o, x, x, o, o, o, x, x]));
}
