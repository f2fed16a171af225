//! The square board, its model as a sequence of cells, and the win detector.
use crate::grid::{
    grid_cells, grid_cols, grid_fill, grid_flatten, grid_get, grid_get_col, grid_get_row,
    grid_rows, grid_set, new_grid,
};
use crate::sign::{GameError, TicTacSign};
use das_grid::Grid;
use vstd::prelude::*;

verus! {

/// The number of columns, and of rows, of the board.
pub const BOARD_DIM: usize = 3;

/// The number of cells of the board.
pub open spec fn num_cells() -> int {
    BOARD_DIM as int * BOARD_DIM as int
}

/// Where cell `(col, row)` stands in a board's sequence of cells.
pub open spec fn cell_index(col: int, row: int) -> int {
    col * BOARD_DIM as int + row
}

pub open spec fn in_bounds(col: int, row: int) -> bool {
    0 <= col < BOARD_DIM as int && 0 <= row < BOARD_DIM as int
}

/// The sign at `(col, row)` of a board whose cells are `cells`.
pub open spec fn cell(cells: Seq<TicTacSign>, col: int, row: int) -> TicTacSign {
    cells[cell_index(col, row)]
}

/// No cell is empty.
pub open spec fn full(cells: Seq<TicTacSign>) -> bool {
    forall|i: int| 0 <= i < cells.len() ==> cells[i] != TicTacSign::N
}

/// All cells of row `row` hold `s`.
pub open spec fn row_won(cells: Seq<TicTacSign>, row: int, s: TicTacSign) -> bool {
    forall|c: int| 0 <= c < BOARD_DIM as int ==> cell(cells, c, row) == s
}

/// All cells of column `col` hold `s`.
pub open spec fn col_won(cells: Seq<TicTacSign>, col: int, s: TicTacSign) -> bool {
    forall|r: int| 0 <= r < BOARD_DIM as int ==> cell(cells, col, r) == s
}

/// All cells `(i, i)` hold `s`.
pub open spec fn diag_won(cells: Seq<TicTacSign>, s: TicTacSign) -> bool {
    forall|i: int| 0 <= i < BOARD_DIM as int ==> cell(cells, i, i) == s
}

/// All cells `(BOARD_DIM - 1 - i, i)` hold `s`.
pub open spec fn anti_won(cells: Seq<TicTacSign>, s: TicTacSign) -> bool {
    forall|i: int| 0 <= i < BOARD_DIM as int ==> #[trigger] cell(cells, BOARD_DIM as int - 1 - i, i) == s
}

pub open spec fn on_diag(col: int, row: int) -> bool {
    col == row
}

pub open spec fn on_anti(col: int, row: int) -> bool {
    col + row == BOARD_DIM as int - 1
}

/// The cells of row `row`, by increasing column.
pub open spec fn row_line(row: int) -> Seq<(usize, usize)> {
    Seq::new(BOARD_DIM as nat, |i: int| (i as usize, row as usize))
}

/// The cells of column `col`, by increasing row.
pub open spec fn col_line(col: int) -> Seq<(usize, usize)> {
    Seq::new(BOARD_DIM as nat, |i: int| (col as usize, i as usize))
}

/// The cells `(0, 0), (1, 1), ...`.
pub open spec fn diag_line() -> Seq<(usize, usize)> {
    Seq::new(BOARD_DIM as nat, |i: int| (i as usize, i as usize))
}

/// The cells `(BOARD_DIM - 1, 0), (BOARD_DIM - 2, 1), ..., (0, BOARD_DIM - 1)`.
pub open spec fn anti_line() -> Seq<(usize, usize)> {
    Seq::new(BOARD_DIM as nat, |i: int| ((BOARD_DIM as int - 1 - i) as usize, i as usize))
}

/// The line that the sign at `(col, row)` completes, if any: its row first, then its
/// column, then the main diagonal, then the anti-diagonal, each diagonal only when
/// `(col, row)` lies on it.
pub open spec fn strike_of(cells: Seq<TicTacSign>, col: int, row: int) -> Option<Seq<(usize, usize)>> {
    let s = cell(cells, col, row);
    if row_won(cells, row, s) {
        Some(row_line(row))
    } else if col_won(cells, col, s) {
        Some(col_line(col))
    } else if on_diag(col, row) && diag_won(cells, s) {
        Some(diag_line())
    } else if on_anti(col, row) && anti_won(cells, s) {
        Some(anti_line())
    } else {
        None
    }
}

/// The sign at `(col, row)` if it completes a line, else the empty sign.
pub open spec fn winner_of(cells: Seq<TicTacSign>, col: int, row: int) -> TicTacSign {
    if strike_of(cells, col, row) is Some {
        cell(cells, col, row)
    } else {
        TicTacSign::N
    }
}

/// The strike line as a sequence, if there is one.
pub open spec fn strike_view(strike: Option<Vec<(usize, usize)>>) -> Option<Seq<(usize, usize)>> {
    match strike {
        Some(v) => Some(v@),
        None => None,
    }
}

/// What a move leaves behind: the sign that completed a line (the empty sign if none
/// did) and the cells of that line, in order.
pub struct TicTacWin {
    pub winner: TicTacSign,
    pub strike: Option<Vec<(usize, usize)>>,
}

/// Whether every element of `v` is `s`.
fn all_equal(v: &Vec<TicTacSign>, s: TicTacSign) -> (r: bool)
    ensures
        r == (forall|i: int| 0 <= i < v@.len() ==> v@[i] == s),
{
    let mut i: usize = 0;
    while i < v.len()
        invariant
            i <= v@.len(),
            forall|j: int| 0 <= j < i ==> v@[j] == s,
        decreases v@.len() - i,
    {
        if v[i] != s {
            return false;
        }
        i = i + 1;
    }
    true
}

pub struct Board {
    grid: Grid<TicTacSign>,
}

impl View for Board {
    type V = Seq<TicTacSign>;

    /// The cells, `(col, row)` at `cell_index(col, row)`.
    closed spec fn view(&self) -> Seq<TicTacSign> {
        grid_cells(self.grid)
    }
}

impl Board {
    /// The grid is `BOARD_DIM` by `BOARD_DIM`.
    pub closed spec fn wf(&self) -> bool {
        &&& grid_rows(self.grid) == BOARD_DIM as int
        &&& grid_cols(self.grid) == BOARD_DIM as int
        &&& grid_cells(self.grid).len() == num_cells()
    }

    pub open spec fn at(&self, col: int, row: int) -> TicTacSign {
        cell(self@, col, row)
    }

    proof fn lemma_wf_len(&self)
        requires
            self.wf(),
        ensures
            self@.len() == num_cells(),
    {
    }

    /// A board whose cells are all empty.
    pub fn new() -> (b: Board)
        ensures
            b.wf(),
            b@ == Seq::new(num_cells() as nat, |i: int| TicTacSign::N),
    {
        Board { grid: new_grid(BOARD_DIM as i32, BOARD_DIM as i32, TicTacSign::N) }
    }

    /// The sign at `(col, row)`.
    pub fn get(&self, col: usize, row: usize) -> (r: Result<TicTacSign, GameError>)
        requires
            self.wf(),
        ensures
            in_bounds(col as int, row as int) ==> r == Ok::<TicTacSign, GameError>(
                self.at(col as int, row as int),
            ),
            !in_bounds(col as int, row as int) ==> r == Err::<TicTacSign, GameError>(
                GameError::OutOfBounds,
            ),
    {
        if col >= BOARD_DIM || row >= BOARD_DIM {
            return Err(GameError::OutOfBounds);
        }
        Ok(self.cell_at(col, row))
    }

    /// Overwrites the sign at `(col, row)`, whatever it held.
    pub fn set(&mut self, col: usize, row: usize, sign: TicTacSign) -> (r: Result<(), GameError>)
        requires
            old(self).wf(),
        ensures
            final(self).wf(),
            in_bounds(col as int, row as int) ==> r == Ok::<(), GameError>(()) && final(self)@
                == old(self)@.update(cell_index(col as int, row as int), sign),
            !in_bounds(col as int, row as int) ==> r == Err::<(), GameError>(
                GameError::OutOfBounds,
            ) && final(self)@ == old(self)@,
    {
        if col >= BOARD_DIM || row >= BOARD_DIM {
            return Err(GameError::OutOfBounds);
        }
        grid_set(&mut self.grid, col as i32, row as i32, sign);
        Ok(())
    }

    /// The signs of row `row`, by increasing column.
    pub fn row(&self, row: usize) -> (r: Result<Vec<TicTacSign>, GameError>)
        requires
            self.wf(),
        ensures
            row < BOARD_DIM ==> r is Ok && r->Ok_0@ == Seq::new(
                BOARD_DIM as nat,
                |c: int| self.at(c, row as int),
            ),
            row >= BOARD_DIM ==> r == Err::<Vec<TicTacSign>, GameError>(GameError::OutOfBounds),
    {
        if row >= BOARD_DIM {
            return Err(GameError::OutOfBounds);
        }
        Ok(grid_get_col(&self.grid, row as i32))
    }

    /// The signs of column `col`, by increasing row.
    pub fn column(&self, col: usize) -> (r: Result<Vec<TicTacSign>, GameError>)
        requires
            self.wf(),
        ensures
            col < BOARD_DIM ==> r is Ok && r->Ok_0@ == Seq::new(
                BOARD_DIM as nat,
                |i: int| self.at(col as int, i),
            ),
            col >= BOARD_DIM ==> r == Err::<Vec<TicTacSign>, GameError>(GameError::OutOfBounds),
    {
        if col >= BOARD_DIM {
            return Err(GameError::OutOfBounds);
        }
        Ok(grid_get_row(&self.grid, col as i32))
    }

    /// Whether no cell is empty.
    pub fn is_full(&self) -> (r: bool)
        requires
            self.wf(),
        ensures
            r == full(self@),
    {
        let cells = grid_flatten(&self.grid);
        let mut i: usize = 0;
        while i < cells.len()
            invariant
                cells@ == self@,
                i <= cells@.len(),
                forall|j: int| 0 <= j < i ==> cells@[j] != TicTacSign::N,
            decreases cells@.len() - i,
        {
            if cells[i] == TicTacSign::N {
                return false;
            }
            i = i + 1;
        }
        true
    }

    /// Empties every cell.
    pub fn reset(&mut self)
        requires
            old(self).wf(),
        ensures
            final(self).wf(),
            final(self)@ == Seq::new(num_cells() as nat, |i: int| TicTacSign::N),
    {
        grid_fill(&mut self.grid, TicTacSign::N);
    }

    /// The sign at `(col, row)`, read from the grid.
    fn cell_at(&self, col: usize, row: usize) -> (r: TicTacSign)
        requires
            self.wf(),
            in_bounds(col as int, row as int),
        ensures
            r == self.at(col as int, row as int),
    {
        proof {
            let n = grid_rows(self.grid);
            assert(col as int * n == col as int * BOARD_DIM as int);
        }
        grid_get(&self.grid, col as i32, row as i32)
    }

    /// Whether all cells `(i, i)` hold `s`.
    fn diag_all(&self, s: TicTacSign) -> (r: bool)
        requires
            self.wf(),
        ensures
            r == diag_won(self@, s),
    {
        let mut i: usize = 0;
        while i < BOARD_DIM
            invariant
                self.wf(),
                i <= BOARD_DIM,
                forall|j: int| 0 <= j < i ==> #[trigger] cell(self@, j, j) == s,
            decreases BOARD_DIM - i,
        {
            if self.cell_at(i, i) != s {
                return false;
            }
            i = i + 1;
        }
        true
    }

    /// Whether all cells `(BOARD_DIM - 1 - i, i)` hold `s`.
    fn anti_all(&self, s: TicTacSign) -> (r: bool)
        requires
            self.wf(),
        ensures
            r == anti_won(self@, s),
    {
        let mut i: usize = 0;
        while i < BOARD_DIM
            invariant
                self.wf(),
                i <= BOARD_DIM,
                forall|j: int| 0 <= j < i ==> #[trigger] cell(self@, BOARD_DIM as int - 1 - j, j) == s,
            decreases BOARD_DIM - i,
        {
            if self.cell_at(BOARD_DIM - 1 - i, i) != s {
                return false;
            }
            i = i + 1;
        }
        true
    }

    /// Decides whether the mark just played at `(col, row)` completes a line; checks
    /// the row, then the column, then each diagonal that passes through the cell.
    pub fn which_player_won(&self, col: usize, row: usize) -> (w: TicTacWin)
        requires
            self.wf(),
            in_bounds(col as int, row as int),
            self.at(col as int, row as int) != TicTacSign::N,
        ensures
            w.winner == winner_of(self@, col as int, row as int),
            strike_view(w.strike) == strike_of(self@, col as int, row as int),
    {
        let s = self.cell_at(col, row);
        let row_ok = match self.row(row) {
            Ok(cells) => {
                let ok = all_equal(&cells, s);
                assert(forall|c: int|
                    0 <= c < BOARD_DIM as int ==> cells@[c] == #[trigger] cell(self@, c, row as int));
                ok
            },
            Err(_) => false,
        };
        let col_ok = match self.column(col) {
            Ok(cells) => {
                let ok = all_equal(&cells, s);
                assert(forall|r: int|
                    0 <= r < BOARD_DIM as int ==> cells@[r] == #[trigger] cell(self@, col as int, r));
                ok
            },
            Err(_) => false,
        };
        let diag_ok = col == row && self.diag_all(s);
        let anti_ok = col + row == BOARD_DIM - 1 && self.anti_all(s);
        if !(row_ok || col_ok || diag_ok || anti_ok) {
            return TicTacWin { winner: TicTacSign::N, strike: None };
        }
        let mut line: Vec<(usize, usize)> = Vec::new();
        let mut i: usize = 0;
        while i < BOARD_DIM
            invariant
                i <= BOARD_DIM,
                line@.len() == i,
                forall|j: int|
                    0 <= j < i ==> line@[j] == (if row_ok {
                        row_line(row as int)[j]
                    } else if col_ok {
                        col_line(col as int)[j]
                    } else if diag_ok {
                        diag_line()[j]
                    } else {
                        anti_line()[j]
                    }),
            decreases BOARD_DIM - i,
        {
            let cell = if row_ok {
                (i, row)
            } else if col_ok {
                (col, i)
            } else if diag_ok {
                (i, i)
            } else {
                (BOARD_DIM - 1 - i, i)
            };
            line.push(cell);
            i = i + 1;
        }
        proof {
            let target = if row_ok {
                row_line(row as int)
            } else if col_ok {
                col_line(col as int)
            } else if diag_ok {
                diag_line()
            } else {
                anti_line()
            };
            assert(line@ =~= target);
        }
        TicTacWin { winner: s, strike: Some(line) }
    }
}

/// A board is full exactly when every in-bounds cell reads as a player's mark.
pub proof fn lemma_full_iff_no_empty_cell(b: Board)
    requires
        b.wf(),
    ensures
        full(b@) <==> (forall|col: int, row: int|
            in_bounds(col, row) ==> #[trigger] b.at(col, row) != TicTacSign::N),
{
    b.lemma_wf_len();
    if forall|col: int, row: int| in_bounds(col, row) ==> #[trigger] b.at(col, row) != TicTacSign::N {
        assert forall|i: int| 0 <= i < b@.len() implies b@[i] != TicTacSign::N by {
            let col = i / BOARD_DIM as int;
            let row = i % BOARD_DIM as int;
            assert(i == cell_index(col, row));
            assert(b.at(col, row) != TicTacSign::N);
        }
    }
    if full(b@) {
        assert forall|col: int, row: int| in_bounds(col, row) implies #[trigger] b.at(col, row)
            != TicTacSign::N by {
            assert(0 <= cell_index(col, row) < b@.len());
        }
    }
}

} // verus!
