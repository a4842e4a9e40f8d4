use tictactoe_lib::model::Board;
use tictactoe_lib::model::GameResult;
use tictactoe_lib::model::Game;
use tictactoe_lib::model::Line;
use tictactoe_lib::model::Player;
use tictactoe_lib::model::Position;
use tictactoe_lib::model::BOARD_SIZE;

fn pos(row: usize, column: usize) -> Position {
    Position::new(row, column).unwrap()
}

/// Plays the moves in order, asserting that every one succeeds and that the
/// movers alternate starting with P1, and returns the outcome after the last.
fn run_game(moves: &[(usize, usize)]) -> Option<GameResult> {
    let mut game = Game::new();
    let mut outcome = None;
    for (i, &(r, c)) in moves.iter().enumerate() {
        let expected_mover = if i % 2 == 0 { Player::P1 } else { Player::P2 };
        assert_eq!(game.turn_player(), expected_mover);
        let p = pos(r, c);
        let mover = game.play(p);
        assert_eq!(mover, Some(expected_mover));
        outcome = game.result(p);
    }
    outcome
}

#[test]
fn position_in_range_succeeds() {
    let p = Position::new(0, 0).unwrap();
    assert_eq!(p.row(), 0);
    assert_eq!(p.column(), 0);
    let q = Position::new(2, 1).unwrap();
    assert_eq!(q.row(), 2);
    assert_eq!(q.column(), 1);
}

#[test]
fn position_out_of_range_fails() {
    let e = Position::new(BOARD_SIZE, 0).unwrap_err();
    assert_eq!(e.row, BOARD_SIZE);
    assert_eq!(e.column, 0);
    assert_eq!(e.board_size, BOARD_SIZE);
    assert!(Position::new(0, BOARD_SIZE).is_err());
    assert!(Position::new(usize::MAX, usize::MAX).is_err());
}

#[test]
fn new_game_starts_with_p1_and_no_outcome() {
    let game = Game::new();
    assert_eq!(game.turn_player(), Player::P1);
    assert_eq!(game.result(pos(1, 1)), None);
}

#[test]
fn row_win() {
    let outcome = run_game(&[(0, 0), (1, 0), (0, 1), (1, 1), (0, 2)]);
    assert_eq!(outcome, Some(GameResult::P1Wins));
}

#[test]
fn column_win() {
    let outcome = run_game(&[(0, 2), (0, 0), (1, 2), (1, 0), (2, 2)]);
    assert_eq!(outcome, Some(GameResult::P1Wins));
}

#[test]
fn main_diagonal_win() {
    let outcome = run_game(&[(0, 0), (0, 1), (1, 1), (0, 2), (2, 2)]);
    assert_eq!(outcome, Some(GameResult::P1Wins));
}

#[test]
fn anti_diagonal_win() {
    let outcome = run_game(&[(0, 2), (0, 0), (1, 1), (1, 0), (2, 0)]);
    assert_eq!(outcome, Some(GameResult::P1Wins));
}

#[test]
fn second_player_win() {
    let outcome = run_game(&[(0, 0), (1, 0), (0, 1), (1, 1), (2, 2), (1, 2)]);
    assert_eq!(outcome, Some(GameResult::P2Wins));
}

#[test]
fn draw() {
    let outcome = run_game(&[
        (0, 0),
        (0, 1),
        (0, 2),
        (1, 1),
        (1, 0),
        (1, 2),
        (2, 1),
        (2, 0),
        (2, 2),
    ]);
    assert_eq!(outcome, Some(GameResult::Draw));
}

#[test]
fn game_in_progress_has_no_outcome() {
    let outcome = run_game(&[(0, 0), (1, 1), (0, 1)]);
    assert_eq!(outcome, None);
}

#[test]
fn rejected_move_preserves_state() {
    let mut game = Game::new();
    let p = pos(0, 0);
    assert_eq!(game.play(p), Some(Player::P1));
    assert_eq!(game.turn_player(), Player::P2);
    assert_eq!(game.play(p), None);
    assert_eq!(game.turn_player(), Player::P2);
    // The cell is still occupied by P1: with (1,0),(0,1),(1,1),(0,2) played
    // next, P1 completes the top row only if (0,0) kept P1's mark.
    assert_eq!(game.play(pos(1, 0)), Some(Player::P2));
    assert_eq!(game.play(pos(0, 1)), Some(Player::P1));
    assert_eq!(game.play(pos(1, 1)), Some(Player::P2));
    assert_eq!(game.play(pos(0, 2)), Some(Player::P1));
    assert_eq!(game.result(pos(0, 2)), Some(GameResult::P1Wins));
}

#[test]
fn occupancy_is_monotone_under_retries() {
    let mut game = Game::new();
    assert_eq!(game.play(pos(1, 1)), Some(Player::P1));
    // Every later attempt on the same cell is rejected, by either player.
    assert_eq!(game.play(pos(1, 1)), None);
    assert_eq!(game.play(pos(0, 0)), Some(Player::P2));
    assert_eq!(game.play(pos(1, 1)), None);
    assert_eq!(game.play(pos(2, 2)), Some(Player::P1));
    assert_eq!(game.play(pos(1, 1)), None);
}

#[test]
fn turn_alternates_only_on_success() {
    let mut game = Game::new();
    assert_eq!(game.turn_player(), Player::P1);
    game.play(pos(0, 0));
    assert_eq!(game.turn_player(), Player::P2);
    game.play(pos(0, 0));
    assert_eq!(game.turn_player(), Player::P2);
    game.play(pos(0, 1));
    assert_eq!(game.turn_player(), Player::P1);
}

#[test]
fn player_other_is_involutive() {
    assert_eq!(Player::P1.other(), Player::P2);
    assert_eq!(Player::P2.other(), Player::P1);
    assert_eq!(Player::P1.other().other(), Player::P1);
    assert_eq!(Player::P2.other().other(), Player::P2);
}

#[test]
fn win_result_and_win_player() {
    assert_eq!(Player::P1.win_result(), GameResult::P1Wins);
    assert_eq!(Player::P2.win_result(), GameResult::P2Wins);
    assert_eq!(GameResult::P1Wins.win_player(), Some(Player::P1));
    assert_eq!(GameResult::P2Wins.win_player(), Some(Player::P2));
    assert_eq!(GameResult::Draw.win_player(), None);
}

#[test]
fn line_with_empty_cell_is_not_uniform() {
    let l = Line::new_from_vec(vec![Some(Player::P1), None, Some(Player::P1)]);
    assert_eq!(l.all_same_player(), None);
    let all_empty = Line::new_from_vec(vec![None, None, None]);
    assert_eq!(all_empty.all_same_player(), None);
}

#[test]
fn line_uniformity() {
    let l1 = Line::new_from_vec(vec![Some(Player::P1); 3]);
    assert_eq!(l1.all_same_player(), Some(Player::P1));
    let l2 = Line::new_from_vec(vec![Some(Player::P2); 3]);
    assert_eq!(l2.all_same_player(), Some(Player::P2));
    let mixed = Line::new_from_vec(vec![
        Some(Player::P1),
        Some(Player::P2),
        Some(Player::P1),
    ]);
    assert_eq!(mixed.all_same_player(), None);
}

#[test]
fn board_set_get_and_lines() {
    let mut board = Board::new();
    assert!(!board.is_full());
    assert_eq!(board.get(pos(1, 2)), None);
    board.set(pos(1, 2), Player::P2);
    assert_eq!(board.get(pos(1, 2)), Some(Player::P2));
    board.set(pos(1, 0), Player::P2);
    board.set(pos(1, 1), Player::P2);
    let (row, col, diag, anti) = board.lines_of_pos(pos(1, 1));
    assert_eq!(row.all_same_player(), Some(Player::P2));
    assert_eq!(col.all_same_player(), None);
    assert_eq!(diag.all_same_player(), None);
    assert_eq!(anti.all_same_player(), None);
}

#[test]
fn board_becomes_full() {
    let mut board = Board::new();
    for r in 0..BOARD_SIZE {
        for c in 0..BOARD_SIZE {
            assert!(!board.is_full());
            board.set(pos(r, c), Player::P1);
        }
    }
    assert!(board.is_full());
}

#[test]
fn play_after_terminal_outcome_continues_the_machine() {
    // The engine does not freeze a finished game: a play after the terminal
    // move is well-defined and simply continues the state machine.
    let mut game = Game::new();
    for &(r, c) in &[(0, 0), (1, 0), (0, 1), (1, 1), (0, 2)] {
        game.play(pos(r, c));
    }
    assert_eq!(game.result(pos(0, 2)), Some(GameResult::P1Wins));
    assert_eq!(game.turn_player(), Player::P2);
    assert_eq!(game.play(pos(2, 2)), Some(Player::P2));
}

#[test]
fn double_line_win_on_full_board_reports_the_win() {
    // P1's final move at (2,2) fills the board and completes row 2 and
    // column 2 at once; the outcome is the win, not a draw.
    let outcome = run_game(&[
        (2, 0),
        (0, 0),
        (2, 1),
        (0, 1),
        (0, 2),
        (1, 0),
        (1, 2),
        (1, 1),
        (2, 2),
    ]);
    assert_eq!(outcome, Some(GameResult::P1Wins));
}
