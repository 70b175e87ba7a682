use vstd::prelude::*;

use crate::board::Board;
use crate::board::CellState;
use crate::board::cell;
use crate::board::empty_board;

verus! {

/// The terminal outcome of a game: a winning mark, a tie, or undecided.
#[derive(Clone, Copy, PartialEq, Eq, Structural, Debug)]
pub enum WinState {
    X,
    O,
    Tie,
    Undecided,
}

/// The three cells (r0,c0), (r1,c1), (r2,c2) all hold mark `m`.
pub open spec fn line_is(
    b: Seq<CellState>,
    m: CellState,
    r0: int,
    c0: int,
    r1: int,
    c1: int,
    r2: int,
    c2: int,
) -> bool {
    &&& cell(b, r0, c0) == m
    &&& cell(b, r1, c1) == m
    &&& cell(b, r2, c2) == m
}

/// Mark `m` holds one of the eight winning lines: three rows, three
/// columns, the main diagonal, the anti-diagonal.
pub open spec fn wins(b: Seq<CellState>, m: CellState) -> bool {
    ||| line_is(b, m, 0, 0, 0, 1, 0, 2)
    ||| line_is(b, m, 1, 0, 1, 1, 1, 2)
    ||| line_is(b, m, 2, 0, 2, 1, 2, 2)
    ||| line_is(b, m, 0, 0, 1, 0, 2, 0)
    ||| line_is(b, m, 0, 1, 1, 1, 2, 1)
    ||| line_is(b, m, 0, 2, 1, 2, 2, 2)
    ||| line_is(b, m, 0, 0, 1, 1, 2, 2)
    ||| line_is(b, m, 0, 2, 1, 1, 2, 0)
}

/// Every cell of the board holds a player's mark.
pub open spec fn board_full(b: Seq<CellState>) -> bool {
    forall|i: int| 0 <= i < 9 ==> b[i] != CellState::Empty
}

/// The outcome of a board snapshot: a winning line for X, else one for O,
/// else a tie on a full board, else undecided.
pub open spec fn outcome_of(b: Seq<CellState>) -> WinState {
    if wins(b, CellState::X) {
        WinState::X
    } else if wins(b, CellState::O) {
        WinState::O
    } else if board_full(b) {
        WinState::Tie
    } else {
        WinState::Undecided
    }
}

/// The three cells (r0,c0), (r1,c1), (r2,c2) all hold mark `m`.
fn line_matches(
    board: &Board,
    m: CellState,
    r0: usize,
    c0: usize,
    r1: usize,
    c1: usize,
    r2: usize,
    c2: usize,
) -> (r: bool)
    requires
        board.wf(),
        r0 < 3 && c0 < 3 && r1 < 3 && c1 < 3 && r2 < 3 && c2 < 3,
    ensures
        r == line_is(board@, m, r0 as int, c0 as int, r1 as int, c1 as int, r2 as int, c2 as int),
{
    board.get(r0, c0) == m && board.get(r1, c1) == m && board.get(r2, c2) == m
}

/// Mark `m` holds one of the eight winning lines of the board.
fn has_win(board: &Board, m: CellState) -> (r: bool)
    requires
        board.wf(),
    ensures
        r == wins(board@, m),
{
    line_matches(board, m, 0, 0, 0, 1, 0, 2) || line_matches(board, m, 1, 0, 1, 1, 1, 2)
        || line_matches(board, m, 2, 0, 2, 1, 2, 2) || line_matches(board, m, 0, 0, 1, 0, 2, 0)
        || line_matches(board, m, 0, 1, 1, 1, 2, 1) || line_matches(board, m, 0, 2, 1, 2, 2, 2)
        || line_matches(board, m, 0, 0, 1, 1, 2, 2) || line_matches(board, m, 0, 2, 1, 1, 2, 0)
}

/// Every cell of the board holds a player's mark.
fn board_filled(board: &Board) -> (r: bool)
    requires
        board.wf(),
    ensures
        r == board_full(board@),
{
    let mut i: usize = 0;
    while i < 9
        invariant
            board.wf(),
            i <= 9,
            forall|j: int| 0 <= j < i ==> board@[j] != CellState::Empty,
        decreases 9 - i,
    {
        if matches!(board.cells[i], CellState::Empty) {
            return false;
        }
        i = i + 1;
    }
    true
}

/// Evaluates the terminal outcome of a board snapshot: checks the eight
/// winning lines for each mark, then scans for a full-board tie.
pub fn check_game_win(board: &Board) -> (r: WinState)
    requires
        board.wf(),
    ensures
        r == outcome_of(board@),
{
    if has_win(board, CellState::X) {
        return WinState::X;
    }
    if has_win(board, CellState::O) {
        return WinState::O;
    }
    if board_filled(board) {
        return WinState::Tie;
    }
    WinState::Undecided
}

/// The win detector is a pure function of the board: equal snapshots
/// always yield equal outcomes.
pub proof fn lemma_detector_pure(b1: Seq<CellState>, b2: Seq<CellState>)
    requires
        b1 == b2,
    ensures
        outcome_of(b1) == outcome_of(b2),
{
}

/// A board with every cell empty is undecided.
pub proof fn lemma_empty_board_undecided()
    ensures
        outcome_of(empty_board()) == WinState::Undecided,
{
}

/// A board whose first row is all X is an X win.
pub proof fn lemma_row0_x_wins(b: Seq<CellState>)
    requires
        b.len() == 9,
        cell(b, 0, 0) == CellState::X,
        cell(b, 0, 1) == CellState::X,
        cell(b, 0, 2) == CellState::X,
    ensures
        outcome_of(b) == WinState::X,
{
}

/// A board whose last column is all O, with no winning line for X, is an
/// O win.
pub proof fn lemma_col2_o_wins(b: Seq<CellState>)
    requires
        b.len() == 9,
        cell(b, 0, 2) == CellState::O,
        cell(b, 1, 2) == CellState::O,
        cell(b, 2, 2) == CellState::O,
        !wins(b, CellState::X),
    ensures
        outcome_of(b) == WinState::O,
{
}

/// A board whose main diagonal is all X is an X win.
pub proof fn lemma_main_diagonal_x_wins(b: Seq<CellState>)
    requires
        b.len() == 9,
        cell(b, 0, 0) == CellState::X,
        cell(b, 1, 1) == CellState::X,
        cell(b, 2, 2) == CellState::X,
    ensures
        outcome_of(b) == WinState::X,
{
}

/// A board whose anti-diagonal is all O, with no winning line for X, is
/// an O win.
pub proof fn lemma_anti_diagonal_o_wins(b: Seq<CellState>)
    requires
        b.len() == 9,
        cell(b, 0, 2) == CellState::O,
        cell(b, 1, 1) == CellState::O,
        cell(b, 2, 0) == CellState::O,
        !wins(b, CellState::X),
    ensures
        outcome_of(b) == WinState::O,
{
}

/// A full board with no winning line for either mark is a tie.
pub proof fn lemma_full_board_tie(b: Seq<CellState>)
    requires
        b.len() == 9,
        board_full(b),
        !wins(b, CellState::X),
        !wins(b, CellState::O),
    ensures
        outcome_of(b) == WinState::Tie,
{
}

} // verus!
