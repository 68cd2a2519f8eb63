//! The mathematical model shared by the owning matrix and by its views: a
//! shape, a layout, and the content of a flat buffer.

use vstd::prelude::*;
use crate::accessor::{
    lemma_column_major_index, lemma_offset_formula, lemma_row_major_index, Layout,
};

verus! {

/// A sub-rectangle request: where it starts and how large it is.
pub struct Rect {
    /// Row of the first cell.
    pub start_row: nat,
    /// Column of the first cell.
    pub start_col: nat,
    /// Number of rows.
    pub nb_rows: nat,
    /// Number of columns.
    pub nb_cols: nat,
}

/// A two-dimensional reading of a flat buffer.
pub struct Grid<T> {
    /// Number of logical rows.
    pub nb_rows: nat,
    /// Number of logical columns.
    pub nb_cols: nat,
    /// How a cell is mapped to a buffer position.
    pub layout: Layout,
    /// The whole buffer, also the part that no cell maps to.
    pub data: Seq<T>,
}

impl<T> Grid<T> {
    /// `(row, col)` names a cell of the grid.
    pub open spec fn in_bounds(self, row: int, col: int) -> bool {
        0 <= row < self.nb_rows && 0 <= col < self.nb_cols
    }

    /// `(row, col)` names a cell of the grid and the layout maps it into the
    /// buffer. An access succeeds on these cells and on no others.
    pub open spec fn accessible(self, row: int, col: int) -> bool {
        self.in_bounds(row, col) && 0 <= self.layout.index(row, col) < self.data.len()
    }

    /// The element at `(row, col)`.
    pub open spec fn at(self, row: int, col: int) -> T
        recommends
            self.accessible(row, col),
    {
        self.data[self.layout.index(row, col)]
    }

    /// The grid after `value` was written at `(row, col)`.
    pub open spec fn put(self, row: int, col: int, value: T) -> Grid<T>
        recommends
            self.accessible(row, col),
    {
        self.with_data(self.data.update(self.layout.index(row, col), value))
    }

    /// The same shape and layout over another buffer content.
    pub open spec fn with_data(self, data: Seq<T>) -> Grid<T> {
        Grid { data, ..self }
    }

    /// Every cell of the grid is mapped into the buffer.
    pub open spec fn covered(self) -> bool {
        forall|row: int, col: int| #[trigger]
            self.in_bounds(row, col) ==> 0 <= self.layout.index(row, col) < self.data.len()
    }

    /// The buffer holds exactly the cells of the grid, row after row.
    pub open spec fn is_row_major(self) -> bool {
        &&& self.layout == Layout::row_major(self.nb_cols)
        &&& self.data.len() == self.nb_rows * self.nb_cols
    }

    /// The buffer holds exactly the cells of the grid, column after column.
    pub open spec fn is_column_major(self) -> bool {
        &&& self.layout == Layout::column_major(self.nb_rows)
        &&& self.data.len() == self.nb_rows * self.nb_cols
    }

    /// The buffer holds exactly the cells of the grid, in one of the two
    /// orders.
    pub open spec fn dense(self) -> bool {
        self.is_row_major() || self.is_column_major()
    }

    /// `rect` lies inside the grid.
    pub open spec fn contains(self, rect: Rect) -> bool {
        &&& rect.start_row + rect.nb_rows <= self.nb_rows
        &&& rect.start_col + rect.nb_cols <= self.nb_cols
    }

    /// The buffer position at which the window `rect` starts.
    pub open spec fn window_offset(self, rect: Rect) -> nat {
        Layout::origin_offset(
            self.layout.stride_row,
            self.layout.stride_col,
            rect.start_row,
            rect.start_col,
        )
    }

    /// The window `rect` of the grid: the shape of `rect`, the strides of the
    /// grid, the origin moved to the first cell of `rect`, the same buffer.
    pub open spec fn window(self, rect: Rect) -> Grid<T> {
        Grid {
            nb_rows: rect.nb_rows,
            nb_cols: rect.nb_cols,
            layout: Layout::with_origin(
                self.layout.stride_row,
                self.layout.stride_col,
                rect.start_row,
                rect.start_col,
            ),
            data: self.data,
        }
    }
}

/// A value written at a cell is the value read back from that cell, and the
/// write changes neither the shape nor the layout nor the length of the
/// buffer.
pub proof fn lemma_put_then_at<T>(grid: Grid<T>, row: int, col: int, value: T)
    requires
        grid.accessible(row, col),
    ensures
        grid.put(row, col, value).at(row, col) == value,
        grid.put(row, col, value).accessible(row, col),
        grid.put(row, col, value).nb_rows == grid.nb_rows,
        grid.put(row, col, value).nb_cols == grid.nb_cols,
        grid.put(row, col, value).layout == grid.layout,
        grid.put(row, col, value).data.len() == grid.data.len(),
{
}

/// A dense grid maps every cell into its buffer: to `row * nb_cols + col`
/// where the rows are stored one after the other, to `col * nb_rows + row`
/// where the columns are.
pub proof fn lemma_dense_cells<T>(grid: Grid<T>, row: int, col: int)
    requires
        grid.dense(),
        grid.in_bounds(row, col),
    ensures
        grid.accessible(row, col),
        grid.is_row_major() ==> grid.layout.index(row, col) == row * grid.nb_cols + col,
        grid.is_column_major() ==> grid.layout.index(row, col) == col * grid.nb_rows + row,
{
    if grid.is_row_major() {
        lemma_row_major_index(grid.nb_rows, grid.nb_cols, row, col);
    }
    if grid.is_column_major() {
        lemma_column_major_index(grid.nb_rows, grid.nb_cols, row, col);
    }
}

/// A dense grid is covered: each of its cells is mapped into its buffer.
pub proof fn lemma_dense_is_covered<T>(grid: Grid<T>)
    requires
        grid.dense(),
    ensures
        grid.covered(),
{
    assert forall|row: int, col: int| #[trigger] grid.in_bounds(row, col) implies 0
        <= grid.layout.index(row, col) < grid.data.len() by {
        lemma_dense_cells(grid, row, col);
    }
}

/// In a dense grid two different cells have different buffer positions.
pub proof fn lemma_dense_cells_distinct<T>(grid: Grid<T>, row: int, col: int, row2: int, col2: int)
    requires
        grid.dense(),
        grid.in_bounds(row, col),
        grid.in_bounds(row2, col2),
        row != row2 || col != col2,
    ensures
        grid.layout.index(row, col) != grid.layout.index(row2, col2),
{
    lemma_dense_cells(grid, row, col);
    lemma_dense_cells(grid, row2, col2);
    if grid.is_row_major() {
        lemma_digits_distinct(grid.nb_cols as int, row, col, row2, col2);
    }
    if grid.is_column_major() {
        lemma_digits_distinct(grid.nb_rows as int, col, row, col2, row2);
    }
}

/// A write to one cell of a dense grid leaves every other cell as it was.
pub proof fn lemma_put_keeps_other_cells<T>(
    grid: Grid<T>,
    row: int,
    col: int,
    value: T,
    row2: int,
    col2: int,
)
    requires
        grid.dense(),
        grid.in_bounds(row, col),
        grid.in_bounds(row2, col2),
        row != row2 || col != col2,
    ensures
        grid.put(row, col, value).at(row2, col2) == grid.at(row2, col2),
{
    lemma_dense_cells(grid, row, col);
    lemma_dense_cells(grid, row2, col2);
    lemma_dense_cells_distinct(grid, row, col, row2, col2);
}

/// A grid without rows or without columns has no cell: every access to it is
/// out of bounds.
pub proof fn lemma_empty_has_no_cell<T>(grid: Grid<T>, row: int, col: int)
    requires
        grid.nb_rows == 0 || grid.nb_cols == 0,
    ensures
        !grid.in_bounds(row, col),
        !grid.accessible(row, col),
        grid.dense() ==> grid.data.len() == 0,
{
    assert(grid.nb_rows * grid.nb_cols == 0) by (nonlinear_arith)
        requires
            grid.nb_rows == 0 || grid.nb_cols == 0,
    ;
}

/// The cell `(row, col)` of a window into a dense grid is the cell of the grid
/// that lies `row` rows and `col` columns after the window's first cell.
pub proof fn lemma_window_cell<T>(grid: Grid<T>, rect: Rect, row: int, col: int)
    requires
        grid.dense(),
        grid.contains(rect),
        grid.window(rect).in_bounds(row, col),
    ensures
        grid.in_bounds(rect.start_row + row, rect.start_col + col),
        grid.window(rect).accessible(row, col),
        grid.window(rect).layout.index(row, col) == grid.layout.index(
            rect.start_row + row,
            rect.start_col + col,
        ),
        grid.window(rect).at(row, col) == grid.at(rect.start_row + row, rect.start_col + col),
{
    lemma_offset_formula(
        grid.layout.stride_row,
        grid.layout.stride_col,
        rect.start_row,
        rect.start_col,
        row,
        col,
    );
    lemma_dense_cells(grid, rect.start_row + row, rect.start_col + col);
}

/// A window that lies inside a dense grid maps every one of its cells into
/// the buffer.
pub proof fn lemma_window_is_covered<T>(grid: Grid<T>, rect: Rect)
    requires
        grid.dense(),
        grid.contains(rect),
    ensures
        grid.window(rect).covered(),
{
    let window = grid.window(rect);
    assert forall|row: int, col: int| #[trigger] window.in_bounds(row, col) implies 0
        <= window.layout.index(row, col) < window.data.len() by {
        lemma_window_cell(grid, rect, row, col);
    }
}

/// A window with at least one cell that lies inside a dense grid starts
/// inside the buffer.
pub proof fn lemma_window_offset_in_buffer<T>(grid: Grid<T>, rect: Rect)
    requires
        grid.dense(),
        grid.contains(rect),
        rect.nb_rows > 0,
        rect.nb_cols > 0,
    ensures
        grid.window_offset(rect) < grid.data.len(),
{
    lemma_window_cell(grid, rect, 0, 0);
}

/// A write through a window into a dense grid is a write to the grid, at the
/// cell that the window's cell stands for.
pub proof fn lemma_put_through_window<T>(grid: Grid<T>, rect: Rect, row: int, col: int, value: T)
    requires
        grid.dense(),
        grid.contains(rect),
        grid.window(rect).in_bounds(row, col),
    ensures
        grid.with_data(grid.window(rect).put(row, col, value).data) == grid.put(
            rect.start_row + row,
            rect.start_col + col,
            value,
        ),
{
    lemma_window_cell(grid, rect, row, col);
}

/// With `0 <= low, low2 < base`, the numbers `high * base + low` and
/// `high2 * base + low2` differ as soon as the pairs differ.
proof fn lemma_digits_distinct(base: int, high: int, low: int, high2: int, low2: int)
    requires
        0 <= low < base,
        0 <= low2 < base,
        high != high2 || low != low2,
    ensures
        high * base + low != high2 * base + low2,
{
    if high < high2 {
        assert(high * base + base <= high2 * base) by (nonlinear_arith)
            requires
                high < high2,
                0 < base,
        ;
    } else if high2 < high {
        assert(high2 * base + base <= high * base) by (nonlinear_arith)
            requires
                high2 < high,
                0 < base,
        ;
    }
}

} // verus!
