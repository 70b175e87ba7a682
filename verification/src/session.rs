use vstd::prelude::*;

use crate::board::Board;
use crate::board::CellState;
use crate::board::cell;
use crate::board::cell_index;
use crate::board::empty_board;
use crate::detector::WinState;
use crate::detector::check_game_win;
use crate::detector::lemma_empty_board_undecided;
use crate::detector::outcome_of;
use crate::input::in_rect;
use crate::input::map_pointer_to_cell;
use crate::input::mapped_index;

verus! {

/// The mark of the player who moves after `m`.
pub open spec fn other_mark(m: CellState) -> CellState {
    if m == CellState::X {
        CellState::O
    } else {
        CellState::X
    }
}

/// The whole state the game loop tracks across frames: the board, whose
/// turn it is, and the derived terminal outcome.
#[derive(Debug)]
pub struct GameSession {
    pub board: Board,
    pub current_player: CellState,
    pub game_over: WinState,
}

/// The two sessions hold the same board contents, turn, and outcome.
pub open spec fn same_session(a: GameSession, b: GameSession) -> bool {
    &&& a.board@ == b.board@
    &&& a.current_player == b.current_player
    &&& a.game_over == b.game_over
}

/// How one click on cell (row, col) carries the session from `pre` to
/// `post`: ignored after the game has ended, ignored on an occupied cell,
/// and otherwise the move is applied, the turn flips, and the outcome is
/// recomputed from the new board.
pub open spec fn click_step(pre: GameSession, post: GameSession, row: int, col: int) -> bool {
    if pre.game_over != WinState::Undecided {
        same_session(post, pre)
    } else if cell(pre.board@, row, col) != CellState::Empty {
        same_session(post, pre)
    } else {
        &&& post.board@ == pre.board@.update(cell_index(row, col), pre.current_player)
        &&& post.current_player == other_mark(pre.current_player)
        &&& post.game_over == outcome_of(post.board@)
    }
}

impl GameSession {
    /// A session is well formed when its board holds nine cells, the
    /// player to move is a real mark, and the tracked outcome is the one
    /// the win detector derives from the board.
    pub open spec fn wf(&self) -> bool {
        &&& self.board.wf()
        &&& (self.current_player == CellState::X || self.current_player == CellState::O)
        &&& self.game_over == outcome_of(self.board@)
    }

    /// Starts a new game: empty board, X to move, no outcome yet.
    pub fn new() -> (s: GameSession)
        ensures
            s.wf(),
            s.board@ == empty_board(),
            s.current_player == CellState::X,
            s.game_over == WinState::Undecided,
    {
        let board = Board::new();
        proof {
            lemma_empty_board_undecided();
        }
        GameSession { board, current_player: CellState::X, game_over: WinState::Undecided }
    }

    /// Applies one click on cell (row, col): a no-op once the game has
    /// ended or when the cell is occupied; otherwise places the current
    /// player's mark, flips the turn, and recomputes the outcome.
    pub fn apply_click(&mut self, row: usize, col: usize)
        requires
            old(self).wf(),
            row < 3,
            col < 3,
        ensures
            final(self).wf(),
            click_step(*old(self), *final(self), row as int, col as int),
    {
        if self.game_over != WinState::Undecided {
            return ;
        }
        let target = self.board.get(row, col);
        if target != CellState::Empty {
            return ;
        }
        self.board.place(row, col, self.current_player);
        self.current_player = if self.current_player == CellState::X {
            CellState::O
        } else {
            CellState::X
        };
        self.game_over = check_game_win(&self.board);
    }

    /// Handles one frame's press event at pointer position (px, py)
    /// against the board rectangle at (rx, ry) of the given size: maps
    /// the pointer to a cell and applies the click, or leaves the
    /// session unchanged when the pointer lies outside the rectangle.
    pub fn handle_press(&mut self, px: u32, py: u32, rx: u32, ry: u32, width: u32, height: u32)
        requires
            old(self).wf(),
            width > 0,
            height > 0,
        ensures
            final(self).wf(),
            !in_rect(px as int, py as int, rx as int, ry as int, width as int, height as int)
                ==> same_session(*final(self), *old(self)),
            in_rect(px as int, py as int, rx as int, ry as int, width as int, height as int)
                ==> click_step(
                *old(self),
                *final(self),
                mapped_index(py - ry, height as int),
                mapped_index(px - rx, width as int),
            ),
    {
        let target = map_pointer_to_cell(px, py, rx, ry, width, height);
        match target {
            Some((cell_x, cell_y)) => {
                self.apply_click(cell_y, cell_x);
            },
            None => {},
        }
    }
}

/// A click on an occupied cell never flips the turn and never changes
/// the outcome.
pub proof fn lemma_occupied_click_ignored(pre: GameSession, post: GameSession, row: int, col: int)
    requires
        pre.wf(),
        0 <= row < 3,
        0 <= col < 3,
        cell(pre.board@, row, col) != CellState::Empty,
        click_step(pre, post, row, col),
    ensures
        post.board@ == pre.board@,
        post.current_player == pre.current_player,
        post.game_over == pre.game_over,
{
}

/// Once the outcome is decided, no click mutates the board, the turn, or
/// the outcome: the terminal state is permanent.
pub proof fn lemma_terminal_state_frozen(pre: GameSession, post: GameSession, row: int, col: int)
    requires
        pre.wf(),
        pre.game_over != WinState::Undecided,
        click_step(pre, post, row, col),
    ensures
        post.board@ == pre.board@,
        post.current_player == pre.current_player,
        post.game_over == pre.game_over,
{
}

/// The terminal banner line for an outcome; nothing is drawn while the
/// game is undecided.
pub fn banner_text(winner: &WinState) -> (r: Option<&'static str>)
    ensures
        *winner == WinState::X ==> (r is Some && r->Some_0@ == "X Wins!"@),
        *winner == WinState::O ==> (r is Some && r->Some_0@ == "O Wins!"@),
        *winner == WinState::Tie ==> (r is Some && r->Some_0@ == "Tie!"@),
        *winner == WinState::Undecided ==> r is None,
{
    match winner {
        WinState::X => Some("X Wins!"),
        WinState::O => Some("O Wins!"),
        WinState::Tie => Some("Tie!"),
        WinState::Undecided => None,
    }
}

} // verus!
