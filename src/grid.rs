//! The board's cells live in a `das_grid::Grid`. These are the calls into it,
//! each with what it does to the grid's cells.
use crate::sign::TicTacSign;
use das_grid::Grid;
use vstd::prelude::*;

verus! {

#[verifier::external_type_specification]
#[verifier::external_body]
#[verifier::reject_recursive_types(T)]
pub struct ExGrid<T: Copy + Clone>(Grid<T>);

/// The grid's cells in storage order: cell `(x, y)` is at `x * rows + y`.
pub uninterp spec fn grid_cells(g: Grid<TicTacSign>) -> Seq<TicTacSign>;

/// The number of rows the grid was made with.
pub uninterp spec fn grid_rows(g: Grid<TicTacSign>) -> int;

/// The number of columns the grid was made with.
pub uninterp spec fn grid_cols(g: Grid<TicTacSign>) -> int;

/// Relies on `Grid::new`: a `rows * cols` vector that holds `value` everywhere.
#[verifier::external_body]
pub(crate) fn new_grid(rows: i32, cols: i32, value: TicTacSign) -> (g: Grid<TicTacSign>)
    requires
        0 < rows,
        0 < cols,
        rows * cols <= i32::MAX,
    ensures
        grid_rows(g) == rows,
        grid_cols(g) == cols,
        grid_cells(g) == Seq::new((rows * cols) as nat, |i: int| value),
{
    Grid::new(rows, cols, value)
}

/// Relies on `Grid::get`: inside the bounds it returns the cell at `x * rows + y`.
#[verifier::external_body]
pub(crate) fn grid_get(g: &Grid<TicTacSign>, x: i32, y: i32) -> (r: TicTacSign)
    requires
        0 <= x < grid_rows(*g),
        0 <= y < grid_cols(*g),
        x * grid_rows(*g) + y < grid_cells(*g).len(),
    ensures
        r == grid_cells(*g)[x * grid_rows(*g) + y],
{
    *g.get((x, y)).unwrap()
}

/// Relies on `Grid::set`: inside the bounds it overwrites the cell at `x * rows + y`.
#[verifier::external_body]
pub(crate) fn grid_set(g: &mut Grid<TicTacSign>, x: i32, y: i32, value: TicTacSign)
    requires
        0 <= x < grid_rows(*old(g)),
        0 <= y < grid_cols(*old(g)),
        x * grid_rows(*old(g)) + y < grid_cells(*old(g)).len(),
    ensures
        grid_rows(*final(g)) == grid_rows(*old(g)),
        grid_cols(*final(g)) == grid_cols(*old(g)),
        grid_cells(*final(g)) == grid_cells(*old(g)).update(x * grid_rows(*old(g)) + y, value),
{
    g.set((x, y), &value).unwrap()
}

/// Relies on `Grid::get_col`: the cells `(0, y), (1, y), ...`, one for each column.
#[verifier::external_body]
pub(crate) fn grid_get_col(g: &Grid<TicTacSign>, y: i32) -> (r: Vec<TicTacSign>)
    requires
        grid_rows(*g) == grid_cols(*g),
        0 <= y < grid_cols(*g),
        grid_cells(*g).len() == grid_rows(*g) * grid_cols(*g),
    ensures
        r@ == Seq::new(grid_cols(*g) as nat, |i: int| grid_cells(*g)[i * grid_rows(*g) + y]),
{
    g.get_col(y).unwrap()
}

/// Relies on `Grid::get_row`: the cells `(x, 0), (x, 1), ...`, one for each row.
#[verifier::external_body]
pub(crate) fn grid_get_row(g: &Grid<TicTacSign>, x: i32) -> (r: Vec<TicTacSign>)
    requires
        grid_rows(*g) == grid_cols(*g),
        0 <= x < grid_rows(*g),
        grid_cells(*g).len() == grid_rows(*g) * grid_cols(*g),
    ensures
        r@ == Seq::new(grid_rows(*g) as nat, |i: int| grid_cells(*g)[x * grid_rows(*g) + i]),
{
    g.get_row(x).unwrap()
}

/// Relies on `Grid::fill_grid`: every cell takes `value`; the shape stays.
#[verifier::external_body]
pub(crate) fn grid_fill(g: &mut Grid<TicTacSign>, value: TicTacSign)
    ensures
        grid_rows(*final(g)) == grid_rows(*old(g)),
        grid_cols(*final(g)) == grid_cols(*old(g)),
        grid_cells(*final(g)) == Seq::new(grid_cells(*old(g)).len(), |i: int| value),
{
    g.fill_grid(value)
}

/// Relies on `Grid::get_flatten_grid`: a copy of the cells in storage order.
#[verifier::external_body]
pub(crate) fn grid_flatten(g: &Grid<TicTacSign>) -> (r: Vec<TicTacSign>)
    ensures
        r@ == grid_cells(*g),
{
    g.get_flatten_grid()
}

} // verus!
