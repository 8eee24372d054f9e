//! The mathematical model of a square grid of element slots.
//!
//! A grid is a sequence of rows, and each row is a run of slots as described
//! in [`crate::slots`]. A grid is square when every row is as long as the
//! grid has rows. Reads and writes are total: a read with either index
//! outside the grid yields nothing and such a write changes nothing.

use vstd::prelude::*;
use crate::slots::{all_cloned_from, all_empty, clone_is_exact, slot_at, with_slot};

verus! {

/// Every row of the grid is as long as the grid has rows.
pub open spec fn is_square<T>(grid: Seq<Seq<Option<T>>>) -> bool {
    forall|row: int| 0 <= row < grid.len() ==> (#[trigger] grid[row]).len() == grid.len()
}

/// Both indices lie inside a square grid.
pub open spec fn in_grid<T>(grid: Seq<Seq<Option<T>>>, row: int, column: int) -> bool {
    0 <= row < grid.len() && 0 <= column < grid.len()
}

/// The grid of `size` rows by `size` columns in which every slot is empty.
pub open spec fn empty_grid<T>(size: nat) -> Seq<Seq<Option<T>>> {
    Seq::new(size, |row: int| all_empty::<T>(size))
}

/// What a read at (`row`, `column`) yields: the content of the slot when the
/// row lies inside the grid and the column lies inside that row, and nothing
/// otherwise.
pub open spec fn cell_at<T>(grid: Seq<Seq<Option<T>>>, row: int, column: int) -> Option<T> {
    if 0 <= row < grid.len() {
        slot_at(grid[row], column)
    } else {
        None
    }
}

/// The grid after a write of `value` at (`row`, `column`): that slot holds
/// `value` and every other slot is as it was. A write with either index
/// outside the grid changes nothing.
pub open spec fn with_cell<T>(grid: Seq<Seq<Option<T>>>, row: int, column: int, value: T) -> Seq<
    Seq<Option<T>>,
> {
    if 0 <= row < grid.len() && 0 <= column < grid[row].len() {
        grid.update(row, with_slot(grid[row], column, value))
    } else {
        grid
    }
}

/// Every slot of the grid holds a clone of `value`, and none is empty.
pub open spec fn grid_cloned_from<T: Clone>(grid: Seq<Seq<Option<T>>>, value: T) -> bool {
    forall|row: int| 0 <= row < grid.len() ==> all_cloned_from(#[trigger] grid[row], value)
}

/// A fresh grid is square and has the extent it was asked for.
pub proof fn lemma_empty_grid_shape<T>(size: nat)
    ensures
        empty_grid::<T>(size).len() == size,
        is_square(empty_grid::<T>(size)),
{
}

/// A read of a fresh grid yields nothing, at every pair of indices.
pub proof fn lemma_empty_grid_reads_none<T>(size: nat, row: int, column: int)
    ensures
        cell_at(empty_grid::<T>(size), row, column) is None,
{
}

/// A write keeps a square grid square and of the same extent.
pub proof fn lemma_write_cell_keeps_shape<T>(
    grid: Seq<Seq<Option<T>>>,
    row: int,
    column: int,
    value: T,
)
    requires
        is_square(grid),
    ensures
        with_cell(grid, row, column, value).len() == grid.len(),
        is_square(with_cell(grid, row, column, value)),
{
}

/// A read at a pair of indices inside the grid, after a write at that pair,
/// yields the value written.
pub proof fn lemma_read_cell_after_write<T>(grid: Seq<Seq<Option<T>>>, row: int, column: int, value: T)
    requires
        is_square(grid),
        in_grid(grid, row, column),
    ensures
        cell_at(with_cell(grid, row, column, value), row, column) == Some(value),
{
}

/// After a write, a read at any other pair of indices yields what it yielded
/// before the write.
pub proof fn lemma_write_keeps_other_cells<T>(
    grid: Seq<Seq<Option<T>>>,
    row: int,
    column: int,
    value: T,
    other_row: int,
    other_column: int,
)
    requires
        other_row != row || other_column != column,
    ensures
        cell_at(with_cell(grid, row, column, value), other_row, other_column) == cell_at(
            grid,
            other_row,
            other_column,
        ),
{
}

/// A write with the row or the column outside the grid leaves the grid as it
/// was: there is no partial write.
pub proof fn lemma_write_cell_out_of_range<T>(
    grid: Seq<Seq<Option<T>>>,
    row: int,
    column: int,
    value: T,
)
    requires
        is_square(grid),
        !in_grid(grid, row, column),
    ensures
        with_cell(grid, row, column, value) == grid,
{
}

/// A read with the row or the column outside the grid yields nothing, which
/// is what a read of an empty slot inside the grid yields too.
pub proof fn lemma_read_cell_out_of_range<T>(
    grid: Seq<Seq<Option<T>>>,
    row: int,
    column: int,
    inside_row: int,
    inside_column: int,
)
    requires
        is_square(grid),
        !in_grid(grid, row, column),
    ensures
        cell_at(grid, row, column) is None,
        in_grid(grid, inside_row, inside_column) && grid[inside_row][inside_column] is None
            ==> cell_at(grid, inside_row, inside_column) == cell_at(grid, row, column),
{
}

/// A read at a pair of indices inside a grid that was filled from `value`
/// yields a clone of `value`, never nothing. Where `T::clone` is exact, it
/// yields `value` itself.
pub proof fn lemma_read_cell_after_fill<T: Clone>(
    grid: Seq<Seq<Option<T>>>,
    value: T,
    row: int,
    column: int,
)
    requires
        is_square(grid),
        grid_cloned_from(grid, value),
        in_grid(grid, row, column),
    ensures
        cell_at(grid, row, column) is Some,
        cloned(value, cell_at(grid, row, column)->0),
        clone_is_exact::<T>() ==> cell_at(grid, row, column) == Some(value),
{
}

/// The slots of a grid that was filled from `value` do not depend on one
/// another: after a later write at one pair of indices, a read at any other
/// pair inside the grid still yields a clone of `value`.
pub proof fn lemma_filled_cells_are_independent<T: Clone>(
    grid: Seq<Seq<Option<T>>>,
    value: T,
    row: int,
    column: int,
    replacement: T,
    other_row: int,
    other_column: int,
)
    requires
        is_square(grid),
        grid_cloned_from(grid, value),
        in_grid(grid, other_row, other_column),
        other_row != row || other_column != column,
    ensures
        cell_at(with_cell(grid, row, column, replacement), other_row, other_column) is Some,
        cloned(
            value,
            cell_at(with_cell(grid, row, column, replacement), other_row, other_column)->0,
        ),
{
}

} // verus!
