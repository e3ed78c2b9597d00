use tictactoe::{check_selection, take_turn, GameState, GameStatus, MoveError};

#[test]
fn selection_rejects_non_numbers() {
    let board: [u8; 9] = [0; 9];
    assert_eq!(check_selection("abc", &board), Err(MoveError::NotANumber));
    assert_eq!(check_selection("", &board), Err(MoveError::NotANumber));
    assert_eq!(check_selection("-1", &board), Err(MoveError::NotANumber));
    assert_eq!(check_selection("256", &board), Err(MoveError::NotANumber));
    assert_eq!(check_selection("4x", &board), Err(MoveError::NotANumber));
}

#[test]
fn selection_rejects_numbers_off_the_board() {
    let board: [u8; 9] = [0; 9];
    assert_eq!(check_selection("0", &board), Err(MoveError::OutOfRange(0)));
    assert_eq!(check_selection("10", &board), Err(MoveError::OutOfRange(10)));
    assert_eq!(check_selection("255", &board), Err(MoveError::OutOfRange(255)));
}

#[test]
fn selection_rejects_taken_tiles() {
    let board: [u8; 9] = [0, 0, 0, 0, 2, 0, 0, 0, 1];
    assert_eq!(check_selection("5", &board), Err(MoveError::AlreadyPlayed(5)));
    assert_eq!(check_selection("9", &board), Err(MoveError::AlreadyPlayed(9)));
}

#[test]
fn selection_accepts_empty_tiles() {
    let board: [u8; 9] = [0, 0, 0, 0, 2, 0, 0, 0, 1];
    assert_eq!(check_selection("1", &board), Ok(0));
    assert_eq!(check_selection("7", &board), Ok(6));
    assert_eq!(check_selection("+3", &board), Ok(2));
    assert_eq!(check_selection("08", &board), Ok(7));
}

#[test]
fn take_turn_trims_and_marks_the_tile() {
    let mut board: [u8; 9] = [0, 0, 0, 0, 2, 0, 0, 0, 1];
    assert_eq!(take_turn(2, &mut board, "  7 \n"), Ok(6));
    assert_eq!(board, [0, 0, 0, 0, 2, 0, 2, 0, 1]);
}

#[test]
fn take_turn_leaves_board_on_refusal() {
    let mut board: [u8; 9] = [0, 0, 0, 0, 2, 0, 0, 0, 1];
    assert_eq!(take_turn(1, &mut board, "5\n"), Err(MoveError::AlreadyPlayed(5)));
    assert_eq!(take_turn(1, &mut board, "ten\n"), Err(MoveError::NotANumber));
    assert_eq!(take_turn(1, &mut board, "10\n"), Err(MoveError::OutOfRange(10)));
    assert_eq!(board, [0, 0, 0, 0, 2, 0, 0, 0, 1]);
}

#[test]
fn new_game_is_empty_with_first_player() {
    let game = GameState::new();
    assert_eq!(game.board(), [0; 9]);
    assert_eq!(game.player(), 1);
    assert_eq!(game.status(), GameStatus::InProgress);
}

#[test]
fn top_row_wins_for_first_player() {
    let mut game = GameState::new();
    assert_eq!(game.play("1\n"), Ok(GameStatus::InProgress));
    assert_eq!(game.play("4\n"), Ok(GameStatus::InProgress));
    assert_eq!(game.play("2\n"), Ok(GameStatus::InProgress));
    assert_eq!(game.play("5\n"), Ok(GameStatus::InProgress));
    assert_eq!(game.play("3\n"), Ok(GameStatus::Won(1)));
    assert_eq!(game.board(), [1, 1, 1, 2, 2, 0, 0, 0, 0]);
    assert_eq!(game.player(), 1);
    assert_eq!(game.status(), GameStatus::Won(1));
}

#[test]
fn full_board_without_line_is_a_draw() {
    let mut game = GameState::new();
    for tile in ["1", "2", "3", "4", "6", "5", "7", "9"] {
        assert_eq!(game.play(tile), Ok(GameStatus::InProgress));
    }
    assert_eq!(game.play("8"), Ok(GameStatus::Draw));
    assert_eq!(game.board(), [1, 2, 1, 2, 2, 1, 1, 1, 2]);
    assert_eq!(game.status(), GameStatus::Draw);
}

#[test]
fn winning_last_move_is_not_a_draw() {
    let mut game = GameState::new();
    for tile in ["1", "3", "2", "4", "5", "6", "7", "8"] {
        assert_eq!(game.play(tile), Ok(GameStatus::InProgress));
    }
    assert_eq!(game.play("9"), Ok(GameStatus::Won(1)));
    assert_eq!(game.board(), [1, 1, 2, 2, 1, 2, 1, 2, 1]);
}

#[test]
fn same_tile_twice_is_refused() {
    let mut game = GameState::new();
    assert_eq!(game.play("5\n"), Ok(GameStatus::InProgress));
    assert_eq!(game.play("5\n"), Err(MoveError::AlreadyPlayed(5)));
    assert_eq!(game.board(), [0, 0, 0, 0, 1, 0, 0, 0, 0]);
    assert_eq!(game.player(), 2);
}

#[test]
fn same_tile_twice_by_the_first_player_is_refused() {
    let mut game = GameState::new();
    assert_eq!(game.play("1\n"), Ok(GameStatus::InProgress));
    assert_eq!(game.play("5\n"), Ok(GameStatus::InProgress));
    assert_eq!(game.play("5\n"), Err(MoveError::AlreadyPlayed(5)));
    assert_eq!(game.board(), [1, 0, 0, 0, 2, 0, 0, 0, 0]);
    assert_eq!(game.player(), 1);
}

#[test]
fn refused_input_keeps_the_turn() {
    let mut game = GameState::new();
    assert_eq!(game.play("zero\n"), Err(MoveError::NotANumber));
    assert_eq!(game.play("0\n"), Err(MoveError::OutOfRange(0)));
    assert_eq!(game.player(), 1);
    assert_eq!(game.board(), [0; 9]);
}
