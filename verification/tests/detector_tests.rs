use tic_tac_toe::Board;
use tic_tac_toe::CellState;
use tic_tac_toe::WinState;
use tic_tac_toe::check_game_win;
use tic_tac_toe::reset_board;

#[test]
fn win_detector_is_pure() {
    let mut b = Board::new();
    b.place(0, 0, CellState::X);
    b.place(1, 1, CellState::O);
    b.place(2, 2, CellState::X);
    let first = check_game_win(&b);
    let second = check_game_win(&b);
    assert_eq!(first, second);
}

#[test]
fn fresh_board_is_undecided() {
    let b = Board::new();
    assert_eq!(check_game_win(&b), WinState::Undecided);
}

#[test]
fn reset_board_is_undecided() {
    let mut b = Board::new();
    b.place(0, 0, CellState::X);
    b.place(0, 1, CellState::X);
    b.place(0, 2, CellState::X);
    reset_board(&mut b);
    assert_eq!(b.get(0, 0), CellState::Empty);
    assert_eq!(b.get(0, 2), CellState::Empty);
    assert_eq!(check_game_win(&b), WinState::Undecided);
}

#[test]
fn row0_of_x_wins() {
    let mut b = Board::new();
    b.place(0, 0, CellState::X);
    b.place(0, 1, CellState::X);
    b.place(0, 2, CellState::X);
    assert_eq!(check_game_win(&b), WinState::X);
}

#[test]
fn column2_of_o_wins() {
    let mut b = Board::new();
    b.place(0, 2, CellState::O);
    b.place(1, 2, CellState::O);
    b.place(2, 2, CellState::O);
    assert_eq!(check_game_win(&b), WinState::O);
}

#[test]
fn full_board_without_line_is_tie() {
    let mut b = Board::new();
    b.place(0, 0, CellState::X);
    b.place(0, 1, CellState::O);
    b.place(0, 2, CellState::X);
    b.place(1, 0, CellState::X);
    b.place(1, 1, CellState::O);
    b.place(1, 2, CellState::O);
    b.place(2, 0, CellState::O);
    b.place(2, 1, CellState::X);
    b.place(2, 2, CellState::X);
    assert_eq!(check_game_win(&b), WinState::Tie);
}

#[test]
fn main_diagonal_of_x_wins() {
    let mut b = Board::new();
    b.place(0, 0, CellState::X);
    b.place(1, 1, CellState::X);
    b.place(2, 2, CellState::X);
    assert_eq!(check_game_win(&b), WinState::X);
}

#[test]
fn anti_diagonal_of_o_wins() {
    let mut b = Board::new();
    b.place(0, 2, CellState::O);
    b.place(1, 1, CellState::O);
    b.place(2, 0, CellState::O);
    assert_eq!(check_game_win(&b), WinState::O);
}

#[test]
fn partial_line_does_not_win() {
    let mut b = Board::new();
    b.place(0, 0, CellState::X);
    b.place(0, 1, CellState::X);
    assert_eq!(check_game_win(&b), WinState::Undecided);
}

#[test]
fn mark_labels() {
    assert_eq!(CellState::X.label(), "X");
    assert_eq!(CellState::O.label(), "O");
    assert_eq!(CellState::Empty.label(), "Empty");
}
