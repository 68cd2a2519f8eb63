//! Borrowed windows into a buffer: read-only and read-write.

use std::ops::{Index, IndexMut};
use vstd::pervasive::runtime_assert;
use vstd::prelude::*;
use vstd::view::View as _;
use crate::accessor::Accessor;
use crate::fault::Fault;
use crate::grid::Grid;

verus! {

/// A read-only window into a buffer that it does not own.
///
/// The window has a shape of its own and an accessor of its own. It is a
/// plain record: nothing is demanded of shape and accessor at construction,
/// and an access tests the cell against the shape and its position against
/// the buffer. A view that a [`crate::Matrix`] hands out maps every one of
/// its cells into the buffer.
pub struct View<'a, T> {
    /// Number of rows of the window.
    pub nb_rows: usize,
    /// Number of columns of the window.
    pub nb_cols: usize,
    /// Where each cell of the window lies in the buffer.
    pub accessor: Accessor,
    /// The borrowed buffer.
    pub data: &'a [T],
}

impl<'a, T> View<'a, T> {
    /// The window as a grid: its shape, its layout and the buffer.
    pub open spec fn grid(&self) -> Grid<T> {
        Grid {
            nb_rows: self.nb_rows as nat,
            nb_cols: self.nb_cols as nat,
            layout: self.accessor@,
            data: self.data@,
        }
    }

    /// A window of the given shape that reads `data` through `accessor`.
    pub fn new(nb_rows: usize, nb_cols: usize, accessor: Accessor, data: &'a [T]) -> (view: Self)
        ensures
            view.grid() == (Grid {
                nb_rows: nb_rows as nat,
                nb_cols: nb_cols as nat,
                layout: accessor@,
                data: data@,
            }),
    {
        Self { nb_rows, nb_cols, accessor, data }
    }

    /// Number of rows of the window.
    pub fn nb_rows(&self) -> (nb_rows: usize)
        ensures
            nb_rows == self.grid().nb_rows,
    {
        self.nb_rows
    }

    /// Number of columns of the window.
    pub fn nb_cols(&self) -> (nb_cols: usize)
        ensures
            nb_cols == self.grid().nb_cols,
    {
        self.nb_cols
    }

    /// The element at `(row, col)`, or the fault where the cell is outside
    /// the shape or its position outside the buffer.
    pub fn get(&self, row: usize, col: usize) -> (element: Result<&T, Fault>)
        ensures
            element is Ok <==> self.grid().accessible(row as int, col as int),
            element matches Ok(e) ==> *e == self.grid().at(row as int, col as int),
            element matches Err(fault) ==> fault == Fault::OutOfBounds,
    {
        let len: usize = self.data.len();
        match checked_position(self.nb_rows, self.nb_cols, &self.accessor, len, row, col) {
            Some(id) => Ok(&self.data[id]),
            None => Err(Fault::OutOfBounds),
        }
    }
}

impl<'a, T> Index<(usize, usize)> for View<'a, T> {
    type Output = T;

    /// The element at `(index.0, index.1)`. The cell has to be inside the
    /// shape and its position inside the buffer.
    fn index(&self, index: (usize, usize)) -> (element: &T)
        ensures
            *element == self.grid().at(index.0 as int, index.1 as int),
    {
        // The length of a slice fits in `usize`, and so does a position inside it.
        assert(self.data@.len() == self.data.len());
        runtime_assert(index.0 < self.nb_rows && index.1 < self.nb_cols);
        let id: usize = self.accessor.index(index.0, index.1);
        &self.data[id]
    }
}

impl<'a, T> vstd::std_specs::core::IndexSpecImpl<(usize, usize)> for View<'a, T> {
    open spec fn index_req(&self, index: &(usize, usize)) -> bool {
        self.grid().accessible(index.0 as int, index.1 as int)
    }
}

/// A read-write window into a buffer that it does not own.
///
/// While the window lives it is the only way to the buffer. A write through
/// it changes the buffer in place: when the borrow ends, the lender holds
/// what the window's buffer then holds, which contracts name
/// `final(view.data)`. The fields are public so that contracts can name it.
/// No operation of the window puts another buffer in the place of the
/// borrowed one: each states that `final(..)` of the field is what it was.
///
/// Like [`View`], the window is a plain record, and an access tests the cell
/// against the shape and its position against the buffer.
pub struct ViewMut<'a, T> {
    /// Number of rows of the window.
    pub nb_rows: usize,
    /// Number of columns of the window.
    pub nb_cols: usize,
    /// Where each cell of the window lies in the buffer.
    pub accessor: Accessor,
    /// The borrowed buffer.
    pub data: &'a mut [T],
}

impl<'a, T> ViewMut<'a, T> {
    /// The window as a grid: its shape, its layout and the buffer as it is
    /// now.
    pub open spec fn grid(&self) -> Grid<T> {
        Grid {
            nb_rows: self.nb_rows as nat,
            nb_cols: self.nb_cols as nat,
            layout: self.accessor@,
            data: self.data@,
        }
    }

    /// A window of the given shape that reads and writes `data` through
    /// `accessor`. What the window's buffer holds when the window is dropped
    /// is what `data` holds from then on.
    pub fn new(
        nb_rows: usize,
        nb_cols: usize,
        accessor: Accessor,
        data: &'a mut [T],
    ) -> (view: Self)
        ensures
            view.grid() == (Grid {
                nb_rows: nb_rows as nat,
                nb_cols: nb_cols as nat,
                layout: accessor@,
                data: old(data)@,
            }),
            final(data)@ == final(view.data)@,
    {
        Self { nb_rows, nb_cols, accessor, data }
    }

    /// Number of rows of the window.
    pub fn nb_rows(&self) -> (nb_rows: usize)
        ensures
            nb_rows == self.grid().nb_rows,
    {
        self.nb_rows
    }

    /// Number of columns of the window.
    pub fn nb_cols(&self) -> (nb_cols: usize)
        ensures
            nb_cols == self.grid().nb_cols,
    {
        self.nb_cols
    }

    /// The element at `(row, col)`, or the fault where the cell is outside
    /// the shape or its position outside the buffer.
    pub fn get(&self, row: usize, col: usize) -> (element: Result<&T, Fault>)
        ensures
            element is Ok <==> self.grid().accessible(row as int, col as int),
            element matches Ok(e) ==> *e == self.grid().at(row as int, col as int),
            element matches Err(fault) ==> fault == Fault::OutOfBounds,
    {
        let len: usize = self.data.len();
        match checked_position(self.nb_rows, self.nb_cols, &self.accessor, len, row, col) {
            Some(id) => Ok(&self.data[id]),
            None => Err(Fault::OutOfBounds),
        }
    }

    /// The element at `(row, col)`, to be written in place, or the fault
    /// where the cell is outside the shape or its position outside the
    /// buffer. A refused request leaves the window as it was.
    pub fn get_mut(&mut self, row: usize, col: usize) -> (element: Result<&mut T, Fault>)
        ensures
            element is Ok <==> old(self).grid().accessible(row as int, col as int),
            element matches Ok(e) ==> *e == old(self).grid().at(row as int, col as int),
            element matches Ok(e) ==> final(self).grid() == old(self).grid().put(
                row as int,
                col as int,
                *final(e),
            ),
            element matches Err(fault) ==> fault == Fault::OutOfBounds,
            element is Err ==> final(self).grid() == old(self).grid(),
            final(final(self).data)@ == final(old(self).data)@,
    {
        let len: usize = self.data.len();
        match checked_position(self.nb_rows, self.nb_cols, &self.accessor, len, row, col) {
            Some(id) => Ok(&mut self.data[id]),
            None => Err(Fault::OutOfBounds),
        }
    }
}

impl<'a, T> Index<(usize, usize)> for ViewMut<'a, T> {
    type Output = T;

    /// The element at `(index.0, index.1)`. The cell has to be inside the
    /// shape and its position inside the buffer.
    fn index(&self, index: (usize, usize)) -> (element: &T)
        ensures
            *element == self.grid().at(index.0 as int, index.1 as int),
    {
        // The length of a slice fits in `usize`, and so does a position inside it.
        assert(self.data@.len() == self.data.len());
        runtime_assert(index.0 < self.nb_rows && index.1 < self.nb_cols);
        let id: usize = self.accessor.index(index.0, index.1);
        &self.data[id]
    }
}

impl<'a, T> vstd::std_specs::core::IndexSpecImpl<(usize, usize)> for ViewMut<'a, T> {
    open spec fn index_req(&self, index: &(usize, usize)) -> bool {
        self.grid().accessible(index.0 as int, index.1 as int)
    }
}

impl<'a, T> IndexMut<(usize, usize)> for ViewMut<'a, T> {
    /// The element at `(index.0, index.1)`, to be written in place. The cell
    /// has to be inside the shape and its position inside the buffer.
    ///
    /// The window afterwards differs from the window before in that one
    /// position of the buffer, which holds what was last written to it.
    fn index_mut(&mut self, index: (usize, usize)) -> (element: &mut T)
        requires
            old(self).grid().accessible(index.0 as int, index.1 as int),
        ensures
            *element == old(self).grid().at(index.0 as int, index.1 as int),
            final(self).grid() == old(self).grid().put(
                index.0 as int,
                index.1 as int,
                *final(element),
            ),
            final(final(self).data)@ == final(old(self).data)@,
    {
        // The length of a slice fits in `usize`, and so does a position inside it.
        assert(self.data@.len() == self.data.len());
        runtime_assert(index.0 < self.nb_rows && index.1 < self.nb_cols);
        let id: usize = self.accessor.index(index.0, index.1);
        &mut self.data[id]
    }
}

/// The buffer position of the cell `(row, col)` of a window with the given
/// shape and accessor over a buffer of `len` elements, where the cell is
/// inside the shape and its position inside the buffer.
pub(crate) fn checked_position(
    nb_rows: usize,
    nb_cols: usize,
    accessor: &Accessor,
    len: usize,
    row: usize,
    col: usize,
) -> (id: Option<usize>)
    ensures
        id is Some <==> row < nb_rows && col < nb_cols && accessor@.index(row as int, col as int)
            < len,
        id matches Some(i) ==> i == accessor@.index(row as int, col as int),
{
    if row >= nb_rows || col >= nb_cols {
        return None;
    }
    match accessor.checked_index(row, col) {
        Some(id) => if id < len {
            Some(id)
        } else {
            None
        },
        None => None,
    }
}

} // verus!
