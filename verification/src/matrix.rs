//! The owning storage: a flat buffer, its shape and its layout.

use std::ops::{Index, IndexMut};
use vstd::pervasive::runtime_assert;
use vstd::prelude::*;
use vstd::view::View as _;
use crate::accessor::Accessor;
use crate::fault::Fault;
use crate::grid::{
    lemma_dense_cells, lemma_dense_is_covered, lemma_window_is_covered,
    lemma_window_offset_in_buffer, Grid, Rect,
};
use crate::view::{checked_position, View, ViewMut};

verus! {

/// `value` is a value that `T::default()` may return.
pub open spec fn is_default<T: Default>(value: T) -> bool {
    call_ensures(T::default, (), value)
}

/// A sub-rectangle request: the first cell of the window and its shape.
pub struct ViewParameters {
    start_row: usize,
    start_col: usize,
    nb_rows: usize,
    nb_cols: usize,
}

impl vstd::view::View for ViewParameters {
    type V = Rect;

    closed spec fn view(&self) -> Rect {
        Rect {
            start_row: self.start_row as nat,
            start_col: self.start_col as nat,
            nb_rows: self.nb_rows as nat,
            nb_cols: self.nb_cols as nat,
        }
    }
}

impl ViewParameters {
    /// The request for `nb_rows` rows and `nb_cols` columns that start at the
    /// cell `(start_row, start_col)`.
    pub fn new(start_row: usize, start_col: usize, nb_rows: usize, nb_cols: usize) -> (params: Self)
        ensures
            params@ == (Rect {
                start_row: start_row as nat,
                start_col: start_col as nat,
                nb_rows: nb_rows as nat,
                nb_cols: nb_cols as nat,
            }),
    {
        ViewParameters { start_row, start_col, nb_rows, nb_cols }
    }
}

/// A matrix that owns its elements, stored row after row or column after
/// column in one buffer.
pub struct Matrix<T> {
    nb_rows: usize,
    nb_cols: usize,
    accessor: Accessor,
    data: Vec<T>,
}

impl<T> Matrix<T> where T: Default {
    /// A row-major matrix of `nb_rows` by `nb_cols` default elements. The
    /// number of elements has to be representable.
    pub fn new_row_major(nb_rows: usize, nb_cols: usize) -> (matrix: Self)
        requires
            nb_rows * nb_cols <= usize::MAX,
        ensures
            matrix.wf(),
            matrix.grid().is_row_major(),
            matrix.grid().nb_rows == nb_rows,
            matrix.grid().nb_cols == nb_cols,
            forall|i: int|
                0 <= i < matrix.grid().data.len() ==> is_default(#[trigger] matrix.grid().data[i]),
    {
        let data: Vec<T> = default_buffer(nb_rows * nb_cols);
        Self { nb_rows, nb_cols, accessor: Accessor::new(nb_cols, 1), data }
    }

    /// A column-major matrix of `nb_rows` by `nb_cols` default elements. The
    /// number of elements has to be representable.
    pub fn new_column_major(nb_rows: usize, nb_cols: usize) -> (matrix: Self)
        requires
            nb_rows * nb_cols <= usize::MAX,
        ensures
            matrix.wf(),
            matrix.grid().is_column_major(),
            matrix.grid().nb_rows == nb_rows,
            matrix.grid().nb_cols == nb_cols,
            forall|i: int|
                0 <= i < matrix.grid().data.len() ==> is_default(#[trigger] matrix.grid().data[i]),
    {
        let data: Vec<T> = default_buffer(nb_rows * nb_cols);
        Self { nb_rows, nb_cols, accessor: Accessor::new(1, nb_rows), data }
    }
}

/// A buffer of `len` default elements.
fn default_buffer<T: Default>(len: usize) -> (data: Vec<T>)
    ensures
        data@.len() == len,
        forall|i: int| 0 <= i < len ==> is_default(#[trigger] data@[i]),
{
    let mut data: Vec<T> = Vec::new();
    let mut filled: usize = 0;
    while filled < len
        invariant
            filled <= len,
            data@.len() == filled,
            forall|i: int| 0 <= i < filled ==> is_default(#[trigger] data@[i]),
        decreases len - filled,
    {
        data.push(T::default());
        filled += 1;
    }
    data
}

impl<T> Matrix<T> {
    /// The matrix as a grid: its shape, its layout and its buffer.
    pub closed spec fn grid(&self) -> Grid<T> {
        Grid {
            nb_rows: self.nb_rows as nat,
            nb_cols: self.nb_cols as nat,
            layout: self.accessor@,
            data: self.data@,
        }
    }

    /// The buffer holds exactly the cells of the matrix, in row-major or in
    /// column-major order.
    ///
    /// The constructors establish this and a write to a cell keeps it. A
    /// mutable view hands the buffer out: the matrix is well formed again
    /// when the view ends with a buffer of the length it was given, and every
    /// operation of [`ViewMut`] keeps that length.
    pub open spec fn wf(&self) -> bool {
        self.grid().dense() && self.grid().data.len() <= usize::MAX
    }

    /// Number of rows.
    pub fn nb_rows(&self) -> (nb_rows: usize)
        ensures
            nb_rows == self.grid().nb_rows,
    {
        self.nb_rows
    }

    /// Number of columns.
    pub fn nb_cols(&self) -> (nb_cols: usize)
        ensures
            nb_cols == self.grid().nb_cols,
    {
        self.nb_cols
    }

    /// The element at `(row, col)`, or the fault where the cell is out of
    /// bounds.
    pub fn get(&self, row: usize, col: usize) -> (element: Result<&T, Fault>)
        requires
            self.wf(),
        ensures
            element is Ok <==> self.grid().in_bounds(row as int, col as int),
            element matches Ok(e) ==> *e == self.grid().at(row as int, col as int),
            element matches Err(fault) ==> fault == Fault::OutOfBounds,
    {
        proof {
            lemma_dense_is_covered(self.grid());
        }
        let len: usize = self.data.len();
        match checked_position(self.nb_rows, self.nb_cols, &self.accessor, len, row, col) {
            Some(id) => Ok(&self.data[id]),
            None => Err(Fault::OutOfBounds),
        }
    }

    /// The element at `(row, col)`, to be written in place, or the fault
    /// where the cell is out of bounds. A refused request leaves the matrix
    /// as it was.
    pub fn get_mut(&mut self, row: usize, col: usize) -> (element: Result<&mut T, Fault>)
        requires
            old(self).wf(),
        ensures
            element is Ok <==> old(self).grid().in_bounds(row as int, col as int),
            element matches Ok(e) ==> *e == old(self).grid().at(row as int, col as int),
            element matches Ok(e) ==> final(self).grid() == old(self).grid().put(
                row as int,
                col as int,
                *final(e),
            ),
            element matches Err(fault) ==> fault == Fault::OutOfBounds,
            element is Err ==> final(self).grid() == old(self).grid(),
            final(self).wf(),
    {
        proof {
            lemma_dense_is_covered(self.grid());
        }
        let len: usize = self.data.len();
        match checked_position(self.nb_rows, self.nb_cols, &self.accessor, len, row, col) {
            Some(id) => Ok(&mut self.data[id]),
            None => Err(Fault::OutOfBounds),
        }
    }

    /// A read-only view of the whole matrix: it reads, at every cell, what
    /// the matrix reads there.
    pub fn full_view<'a>(&'a self) -> (view: View<'a, T>)
        ensures
            view.grid() == self.grid(),
            self.wf() ==> view.grid().covered(),
    {
        proof {
            if self.wf() {
                lemma_dense_is_covered(self.grid());
            }
        }
        View::new(self.nb_rows, self.nb_cols, self.accessor, self.data.as_slice())
    }

    /// A read-write view of the whole matrix. When the view is dropped, the
    /// matrix holds what the view's buffer then holds.
    pub fn full_view_mut<'a>(&'a mut self) -> (view: ViewMut<'a, T>)
        ensures
            view.grid() == old(self).grid(),
            old(self).wf() ==> view.grid().covered(),
            final(self).grid() == old(self).grid().with_data(final(view.data)@),
            old(self).wf() && final(view.data)@.len() == view.data@.len() ==> final(self).wf(),
    {
        proof {
            if self.wf() {
                lemma_dense_is_covered(self.grid());
            }
        }
        ViewMut::new(self.nb_rows, self.nb_cols, self.accessor, self.data.as_mut_slice())
    }

    /// A read-only view of the window `params`, which has to lie inside the
    /// matrix.
    ///
    /// The cell `(row, col)` of the view is the cell
    /// `(start_row + row, start_col + col)` of the matrix, as
    /// [`crate::grid::lemma_window_cell`] shows. The position at which an
    /// empty window starts has to be representable; that of any other window
    /// is.
    pub fn view<'a>(&'a self, params: ViewParameters) -> (view: View<'a, T>)
        requires
            self.wf(),
            self.grid().contains(params@),
            params@.nb_rows == 0 || params@.nb_cols == 0 ==> self.grid().window_offset(params@)
                <= usize::MAX,
        ensures
            view.grid() == self.grid().window(params@),
            view.grid().covered(),
    {
        proof {
            lemma_window_is_covered(self.grid(), params@);
            if params@.nb_rows > 0 && params@.nb_cols > 0 {
                lemma_window_offset_in_buffer(self.grid(), params@);
            }
        }
        View::new(
            params.nb_rows,
            params.nb_cols,
            Accessor::new_with_offset(
                self.accessor.stride_row(),
                self.accessor.stride_col(),
                params.start_row,
                params.start_col,
            ),
            self.data.as_slice(),
        )
    }

    /// A read-write view of the window `params`, which has to lie inside the
    /// matrix.
    ///
    /// The cell `(row, col)` of the view is the cell
    /// `(start_row + row, start_col + col)` of the matrix, and a write to the
    /// one is a write to the other, as
    /// [`crate::grid::lemma_put_through_window`] shows. The position at which
    /// an empty window starts has to be representable; that of any other
    /// window is. When the view is dropped, the matrix holds what the view's
    /// buffer then holds.
    pub fn view_mut<'a>(&'a mut self, params: ViewParameters) -> (view: ViewMut<'a, T>)
        requires
            old(self).wf(),
            old(self).grid().contains(params@),
            params@.nb_rows == 0 || params@.nb_cols == 0 ==> old(self).grid().window_offset(params@)
                <= usize::MAX,
        ensures
            view.grid() == old(self).grid().window(params@),
            view.grid().covered(),
            final(self).grid() == old(self).grid().with_data(final(view.data)@),
            final(view.data)@.len() == view.data@.len() ==> final(self).wf(),
    {
        proof {
            lemma_window_is_covered(self.grid(), params@);
            if params@.nb_rows > 0 && params@.nb_cols > 0 {
                lemma_window_offset_in_buffer(self.grid(), params@);
            }
        }
        ViewMut::new(
            params.nb_rows,
            params.nb_cols,
            Accessor::new_with_offset(
                self.accessor.stride_row(),
                self.accessor.stride_col(),
                params.start_row,
                params.start_col,
            ),
            self.data.as_mut_slice(),
        )
    }

    /// As [`Matrix::view`], or the fault where the window does not lie
    /// inside the matrix or starts at a position that is not representable.
    pub fn checked_view<'a>(&'a self, params: ViewParameters) -> (view: Result<View<'a, T>, Fault>)
        requires
            self.wf(),
        ensures
            view is Ok <==> self.grid().contains(params@) && self.grid().window_offset(params@)
                <= usize::MAX,
            view matches Ok(v) ==> v.grid() == self.grid().window(params@) && v.grid().covered(),
            view matches Err(fault) ==> fault == Fault::InvalidView,
    {
        if !self.contains(&params) {
            return Err(Fault::InvalidView);
        }
        proof {
            lemma_window_is_covered(self.grid(), params@);
        }
        match Accessor::checked_new_with_offset(
            self.accessor.stride_row(),
            self.accessor.stride_col(),
            params.start_row,
            params.start_col,
        ) {
            Some(accessor) => Ok(
                View::new(params.nb_rows, params.nb_cols, accessor, self.data.as_slice()),
            ),
            None => Err(Fault::InvalidView),
        }
    }

    /// As [`Matrix::view_mut`], or the fault where the window does not lie
    /// inside the matrix or starts at a position that is not representable.
    /// A refused request borrows nothing and leaves the matrix as it was.
    pub fn checked_view_mut<'a>(&'a mut self, params: ViewParameters) -> (view: Result<
        ViewMut<'a, T>,
        Fault,
    >)
        requires
            old(self).wf(),
        ensures
            view is Ok <==> old(self).grid().contains(params@) && old(self).grid().window_offset(
                params@,
            ) <= usize::MAX,
            view matches Ok(v) ==> v.grid() == old(self).grid().window(params@)
                && v.grid().covered(),
            view matches Ok(v) ==> final(self).grid() == old(self).grid().with_data(
                final(v.data)@,
            ),
            view matches Ok(v) ==> (final(v.data)@.len() == v.data@.len() ==> final(self).wf()),
            view matches Err(fault) ==> fault == Fault::InvalidView,
            view is Err ==> final(self).grid() == old(self).grid(),
    {
        if !self.contains(&params) {
            return Err(Fault::InvalidView);
        }
        proof {
            lemma_window_is_covered(self.grid(), params@);
        }
        match Accessor::checked_new_with_offset(
            self.accessor.stride_row(),
            self.accessor.stride_col(),
            params.start_row,
            params.start_col,
        ) {
            Some(accessor) => Ok(
                ViewMut::new(params.nb_rows, params.nb_cols, accessor, self.data.as_mut_slice()),
            ),
            None => Err(Fault::InvalidView),
        }
    }

    /// Whether the window `params` lies inside the matrix.
    fn contains(&self, params: &ViewParameters) -> (inside: bool)
        ensures
            inside == self.grid().contains(params@),
    {
        params.start_row <= self.nb_rows && params.nb_rows <= self.nb_rows - params.start_row
            && params.start_col <= self.nb_cols && params.nb_cols <= self.nb_cols
            - params.start_col
    }
}

impl<T> Index<(usize, usize)> for Matrix<T> {
    type Output = T;

    /// The element at `(index.0, index.1)`, which has to be in bounds.
    fn index(&self, index: (usize, usize)) -> (element: &T)
        ensures
            *element == self.grid().at(index.0 as int, index.1 as int),
    {
        proof {
            lemma_dense_cells(self.grid(), index.0 as int, index.1 as int);
        }
        runtime_assert(index.0 < self.nb_rows && index.1 < self.nb_cols);
        let id: usize = self.accessor.index(index.0, index.1);
        &self.data[id]
    }
}

impl<T> vstd::std_specs::core::IndexSpecImpl<(usize, usize)> for Matrix<T> {
    open spec fn index_req(&self, index: &(usize, usize)) -> bool {
        self.wf() && self.grid().in_bounds(index.0 as int, index.1 as int)
    }
}

impl<T> IndexMut<(usize, usize)> for Matrix<T> {
    /// The element at `(index.0, index.1)`, which has to be in bounds, to be
    /// written in place. The matrix afterwards differs from the matrix
    /// before in that one cell, which holds what was last written to it.
    fn index_mut(&mut self, index: (usize, usize)) -> (element: &mut T)
        requires
            old(self).wf(),
            old(self).grid().in_bounds(index.0 as int, index.1 as int),
        ensures
            *element == old(self).grid().at(index.0 as int, index.1 as int),
            final(self).grid() == old(self).grid().put(
                index.0 as int,
                index.1 as int,
                *final(element),
            ),
            final(self).wf(),
    {
        proof {
            lemma_dense_cells(self.grid(), index.0 as int, index.1 as int);
        }
        runtime_assert(index.0 < self.nb_rows && index.1 < self.nb_cols);
        let id: usize = self.accessor.index(index.0, index.1);
        &mut self.data[id]
    }
}

} // verus!
