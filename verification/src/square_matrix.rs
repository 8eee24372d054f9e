//! A square matrix with a fixed size.

use vstd::prelude::*;
use crate::grid::{cell_at, empty_grid, grid_cloned_from, is_square, with_cell};
use crate::slots::all_cloned_from;

verus! {

/// A square matrix with a fixed size.
///
/// The matrix owns `size` rows of `size` slots each, rows and columns both
/// numbered from 0. Each slot is empty or holds one value. The extent is
/// chosen when the matrix is built and stays the same for as long as the
/// matrix lives.
///
/// In contracts a matrix is seen as the grid of its slots, `self@`, one run
/// of slots per row.
pub struct SquareMatrix<T> {
    size: usize,
    data: Vec<Vec<Option<T>>>,
}

impl<T> View for SquareMatrix<T> {
    type V = Seq<Seq<Option<T>>>;

    closed spec fn view(&self) -> Seq<Seq<Option<T>>> {
        Seq::new(self.data@.len(), |row: int| self.data@[row]@)
    }
}

impl<T> SquareMatrix<T> {
    /// There is at least one row, `size` counts the rows, and every row has
    /// `size` slots.
    #[verifier::type_invariant]
    spec fn well_formed(self) -> bool {
        &&& self.size >= 1
        &&& self.data@.len() == self.size
        &&& forall|row: int|
            0 <= row < self.data@.len() ==> (#[trigger] self.data@[row])@.len() == self.size
    }
}

impl<T: Clone> SquareMatrix<T> {
    /// Creates a matrix of `size` rows by `size` columns, with every slot
    /// empty.
    ///
    /// A matrix without slots is not allowed: `size` must be at least 1.
    pub fn new(size: usize) -> (matrix: Self)
        requires
            size >= 1,
        ensures
            matrix@.len() == size,
            matrix@ == empty_grid::<T>(size as nat),
    {
        let mut row: Vec<Option<T>> = Vec::new();
        row.resize(size, None);

        let mut data: Vec<Vec<Option<T>>> = Vec::new();
        data.resize(size, row);

        let matrix = Self { size, data };
        assert(matrix@ =~~= empty_grid::<T>(size as nat));
        matrix
    }

    /// Returns the number of rows of the matrix, which is also its number of
    /// columns.
    ///
    /// The contract also tells the caller what every matrix keeps true of
    /// itself: it has at least one row, and its grid is square.
    pub fn size(&self) -> (size: usize)
        ensures
            size == self@.len(),
            size >= 1,
            is_square(self@),
    {
        proof {
            use_type_invariant(self);
        }
        self.size
    }

    /// Returns a reference to the value at (`row`, `column`).
    ///
    /// Returns `None` if the slot is empty, and also if `row` or `column` is
    /// not an index of the matrix: the cases look the same to the caller.
    pub fn get(&self, row: usize, column: usize) -> (found: Option<&T>)
        ensures
            (match found {
                Some(value) => cell_at(self@, row as int, column as int) == Some(*value),
                None => cell_at(self@, row as int, column as int) is None,
            }),
    {
        if let Some(row) = self.data.get(row) {
            if let Some(entry) = row.get(column) {
                return entry.as_ref();
            }
        }
        None
    }

    /// Moves `value` into the slot at (`row`, `column`), replacing what the
    /// slot held.
    ///
    /// If `row` or `column` is not an index of the matrix, nothing is stored
    /// and the matrix stays as it was.
    pub fn set(&mut self, row: usize, column: usize, value: T)
        ensures
            final(self)@ == with_cell(old(self)@, row as int, column as int, value),
    {
        proof {
            use_type_invariant(&*self);
        }
        if row < self.data.len() && column < self.data[row].len() {
            write_cell(&mut self.data, row, column, value);
            assert(self@ =~~= with_cell(old(self)@, row as int, column as int, value));
        }
    }

    /// Stores a clone of `value` in every slot of the matrix, so that no
    /// slot is empty afterwards. `value` itself is left with the caller.
    pub fn set_all_to(&mut self, value: &T)
        ensures
            final(self)@.len() == old(self)@.len(),
            is_square(final(self)@),
            grid_cloned_from(final(self)@, *value),
    {
        proof {
            use_type_invariant(&*self);
        }
        let mut row: usize = 0;
        while row < self.size
            invariant
                self.well_formed(),
                self.size == old(self).size,
                row <= self.size,
                forall|done: int|
                    0 <= done < row ==> all_cloned_from((#[trigger] self.data@[done])@, *value),
            decreases self.size - row,
        {
            let mut column: usize = 0;
            while column < self.size
                invariant
                    self.well_formed(),
                    self.size == old(self).size,
                    row < self.size,
                    column <= self.size,
                    forall|done: int|
                        0 <= done < row ==> all_cloned_from(
                            (#[trigger] self.data@[done])@,
                            *value,
                        ),
                    forall|done: int|
                        0 <= done < column ==> (#[trigger] self.data@[row as int]@[done]) is Some
                            && cloned(*value, self.data@[row as int]@[done]->0),
                decreases self.size - column,
            {
                let copy = value.clone();
                write_cell(&mut self.data, row, column, copy);
                column += 1;
            }
            row += 1;
        }
    }
}

/// Stores `value` in the slot at (`row`, `column`) of `rows` and touches no
/// other slot. It cannot unwind, so the rows keep their lengths whatever
/// happens.
fn write_cell<T>(rows: &mut Vec<Vec<Option<T>>>, row: usize, column: usize, value: T)
    requires
        row < old(rows)@.len(),
        column < old(rows)@[row as int]@.len(),
    ensures
        final(rows)@.len() == old(rows)@.len(),
        final(rows)@[row as int]@ == old(rows)@[row as int]@.update(column as int, Some(value)),
        forall|other: int|
            0 <= other < old(rows)@.len() && other != row ==> final(rows)@[other] == old(
                rows,
            )@[other],
    no_unwind
{
    rows[row][column] = Some(value);
}

} // verus!
