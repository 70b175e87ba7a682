use vstd::prelude::*;

verus! {

/// The mark held by one board cell: empty, or one of the two players' marks.
#[derive(Clone, Copy, PartialEq, Eq, Structural, Debug)]
pub enum CellState {
    Empty,
    X,
    O,
}

/// Index of cell (row, col) in the flat row-major grid.
pub open spec fn cell_index(row: int, col: int) -> int {
    row * 3 + col
}

/// The mark at (row, col) of a board snapshot.
pub open spec fn cell(b: Seq<CellState>, row: int, col: int) -> CellState {
    b[cell_index(row, col)]
}

/// The snapshot of a board with all nine cells empty.
pub open spec fn empty_board() -> Seq<CellState> {
    seq![
        CellState::Empty,
        CellState::Empty,
        CellState::Empty,
        CellState::Empty,
        CellState::Empty,
        CellState::Empty,
        CellState::Empty,
        CellState::Empty,
        CellState::Empty,
    ]
}

/// The 3x3 grid of cell marks, stored row-major as nine cells.
#[derive(Debug)]
pub struct Board {
    pub cells: Vec<CellState>,
}

impl View for Board {
    type V = Seq<CellState>;

    open spec fn view(&self) -> Seq<CellState> {
        self.cells@
    }
}

impl Board {
    /// A board is well formed when it holds exactly nine cells.
    pub open spec fn wf(&self) -> bool {
        self.cells@.len() == 9
    }

    /// Creates a board with every cell empty.
    pub fn new() -> (b: Board)
        ensures
            b.wf(),
            b@ == empty_board(),
    {
        let cells: Vec<CellState> = vec![
            CellState::Empty,
            CellState::Empty,
            CellState::Empty,
            CellState::Empty,
            CellState::Empty,
            CellState::Empty,
            CellState::Empty,
            CellState::Empty,
            CellState::Empty,
        ];
        let b = Board { cells };
        proof {
            assert(b@ =~= empty_board());
        }
        b
    }

    /// Reads the mark at (row, col).
    pub fn get(&self, row: usize, col: usize) -> (r: CellState)
        requires
            self.wf(),
            row < 3,
            col < 3,
        ensures
            r == cell(self@, row as int, col as int),
    {
        self.cells[row * 3 + col]
    }

    /// Places mark `m` on the empty cell at (row, col); a cell is written
    /// only once, never overwritten.
    pub fn place(&mut self, row: usize, col: usize, m: CellState)
        requires
            old(self).wf(),
            row < 3,
            col < 3,
            m != CellState::Empty,
            cell(old(self)@, row as int, col as int) == CellState::Empty,
        ensures
            final(self).wf(),
            final(self)@ == old(self)@.update(cell_index(row as int, col as int), m),
    {
        self.cells[row * 3 + col] = m;
    }

}

impl CellState {
    /// The short printable label of a mark.
    pub fn label(&self) -> (r: &'static str)
        ensures
            *self == CellState::X ==> r@ == "X"@,
            *self == CellState::O ==> r@ == "O"@,
            *self == CellState::Empty ==> r@ == "Empty"@,
    {
        match self {
            CellState::X => "X",
            CellState::O => "O",
            CellState::Empty => "Empty",
        }
    }
}

/// Clears every cell back to empty.
pub fn reset_board(board: &mut Board)
    requires
        old(board).wf(),
    ensures
        final(board).wf(),
        final(board)@ == empty_board(),
{
    let mut i: usize = 0;
    while i < 9
        invariant
            board.wf(),
            i <= 9,
            forall|j: int| 0 <= j < i ==> board@[j] == CellState::Empty,
        decreases 9 - i,
    {
        let ghost prev = board@;
        board.cells[i] = CellState::Empty;
        proof {
            assert forall|j: int| 0 <= j < i + 1 implies board@[j] == CellState::Empty by {
                assert(board@ == prev.update(i as int, CellState::Empty));
            }
        }
        i = i + 1;
    }
    proof {
        assert(board@ =~= empty_board());
    }
}

} // verus!
