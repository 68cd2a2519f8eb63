//! The addressing formula: from a logical cell to a buffer position.

use vstd::prelude::*;

verus! {

/// What an [`Accessor`] stands for: a stride per dimension and the position of
/// the cell `(0, 0)`.
pub struct Layout {
    /// Buffer slots between two consecutive rows.
    pub stride_row: nat,
    /// Buffer slots between two consecutive columns.
    pub stride_col: nat,
    /// Buffer position of the cell `(0, 0)`.
    pub offset: nat,
}

impl Layout {
    /// The buffer position of the cell `(row, col)`.
    pub open spec fn index(self, row: int, col: int) -> int {
        row * self.stride_row + col * self.stride_col + self.offset
    }

    /// The buffer position of the cell `(origin_row, origin_col)` under the
    /// given strides when `(0, 0)` sits at position 0.
    pub open spec fn origin_offset(
        stride_row: nat,
        stride_col: nat,
        origin_row: nat,
        origin_col: nat,
    ) -> nat {
        stride_row * origin_row + stride_col * origin_col
    }

    /// The layout with the given strides whose cell `(0, 0)` sits where the
    /// same strides with offset 0 put `(origin_row, origin_col)`.
    pub open spec fn with_origin(
        stride_row: nat,
        stride_col: nat,
        origin_row: nat,
        origin_col: nat,
    ) -> Layout {
        Layout {
            stride_row,
            stride_col,
            offset: Self::origin_offset(stride_row, stride_col, origin_row, origin_col),
        }
    }

    /// Rows stored one after the other, each of `nb_cols` cells.
    pub open spec fn row_major(nb_cols: nat) -> Layout {
        Layout { stride_row: nb_cols, stride_col: 1, offset: 0 }
    }

    /// Columns stored one after the other, each of `nb_rows` cells.
    pub open spec fn column_major(nb_rows: nat) -> Layout {
        Layout { stride_row: 1, stride_col: nb_rows, offset: 0 }
    }
}

/// Maps a cell `(row, col)` to its position in a flat buffer.
///
/// The accessor holds no storage. It is a small value, copied wherever a
/// matrix or a view needs one, and it never changes after construction.
#[derive(Clone, Copy)]
pub struct Accessor {
    stride_row: usize,
    stride_col: usize,
    offset: usize,
}

impl View for Accessor {
    type V = Layout;

    closed spec fn view(&self) -> Layout {
        Layout {
            stride_row: self.stride_row as nat,
            stride_col: self.stride_col as nat,
            offset: self.offset as nat,
        }
    }
}

impl Accessor {
    /// An accessor with the given strides and offset 0.
    pub fn new(stride_row: usize, stride_col: usize) -> (accessor: Self)
        ensures
            accessor@.stride_row == stride_row,
            accessor@.stride_col == stride_col,
            accessor@.offset == 0,
    {
        Self { stride_row, stride_col, offset: 0 }
    }

    /// An accessor with the given strides whose cell `(0, 0)` is the cell
    /// `(offset_row, offset_col)` of the accessor with the same strides and
    /// offset 0.
    ///
    /// The offset has to be representable.
    pub fn new_with_offset(
        stride_row: usize,
        stride_col: usize,
        offset_row: usize,
        offset_col: usize,
    ) -> (accessor: Self)
        requires
            stride_row * offset_row + stride_col * offset_col <= usize::MAX,
        ensures
            accessor@.stride_row == stride_row,
            accessor@.stride_col == stride_col,
            accessor@.offset == stride_row * offset_row + stride_col * offset_col,
    {
        proof {
            lemma_terms_fit(
                stride_row as nat,
                offset_row as nat,
                stride_col as nat,
                offset_col as nat,
                0,
            );
        }
        let offset: usize = stride_row * offset_row + stride_col * offset_col;
        Self { stride_row, stride_col, offset }
    }

    /// As [`Accessor::new_with_offset`], or `None` when the offset is not
    /// representable.
    pub fn checked_new_with_offset(
        stride_row: usize,
        stride_col: usize,
        offset_row: usize,
        offset_col: usize,
    ) -> (accessor: Option<Self>)
        ensures
            accessor is Some <==> stride_row * offset_row + stride_col * offset_col <= usize::MAX,
            accessor matches Some(a) ==> a@.stride_row == stride_row && a@.stride_col == stride_col,
            accessor matches Some(a) ==> a@.offset == stride_row * offset_row + stride_col
                * offset_col,
    {
        proof {
            lemma_terms_fit(
                stride_row as nat,
                offset_row as nat,
                stride_col as nat,
                offset_col as nat,
                0,
            );
        }
        match checked_sum_of_products(stride_row, offset_row, stride_col, offset_col, 0) {
            Some(offset) => Some(Self { stride_row, stride_col, offset }),
            None => None,
        }
    }

    /// The buffer position of the cell `(row_id, col_id)`.
    ///
    /// Whether the cell lies inside a matrix or a view is for the caller to
    /// check: the accessor knows no extent. The position has to be
    /// representable.
    pub fn index(&self, row_id: usize, col_id: usize) -> (id: usize)
        requires
            self@.index(row_id as int, col_id as int) <= usize::MAX,
        ensures
            id == self@.index(row_id as int, col_id as int),
    {
        proof {
            lemma_terms_fit(
                row_id as nat,
                self.stride_row as nat,
                col_id as nat,
                self.stride_col as nat,
                self.offset as nat,
            );
        }
        row_id * self.stride_row + col_id * self.stride_col + self.offset
    }

    /// As [`Accessor::index`], or `None` when the position is not
    /// representable.
    pub fn checked_index(&self, row_id: usize, col_id: usize) -> (id: Option<usize>)
        ensures
            id is Some <==> self@.index(row_id as int, col_id as int) <= usize::MAX,
            id matches Some(i) ==> i == self@.index(row_id as int, col_id as int),
    {
        checked_sum_of_products(row_id, self.stride_row, col_id, self.stride_col, self.offset)
    }

    /// Buffer slots between two consecutive rows.
    pub fn stride_row(&self) -> (stride: usize)
        ensures
            stride == self@.stride_row,
    {
        self.stride_row
    }

    /// Buffer slots between two consecutive columns.
    pub fn stride_col(&self) -> (stride: usize)
        ensures
            stride == self@.stride_col,
    {
        self.stride_col
    }

    /// Buffer position of the cell `(0, 0)`.
    pub fn offset(&self) -> (offset: usize)
        ensures
            offset == self@.offset,
    {
        self.offset
    }
}

/// `a * b + c * d + e`, or `None` when that does not fit in `usize`.
fn checked_sum_of_products(a: usize, b: usize, c: usize, d: usize, e: usize) -> (sum: Option<usize>)
    ensures
        sum is Some <==> a * b + c * d + e <= usize::MAX,
        sum matches Some(s) ==> s == a * b + c * d + e,
{
    proof {
        lemma_terms_fit(a as nat, b as nat, c as nat, d as nat, e as nat);
    }
    let first: usize = match a.checked_mul(b) {
        Some(p) => p,
        None => { return None; },
    };
    let second: usize = match c.checked_mul(d) {
        Some(p) => p,
        None => { return None; },
    };
    let both: usize = match first.checked_add(second) {
        Some(s) => s,
        None => { return None; },
    };
    both.checked_add(e)
}

/// Each partial result of `a * b + c * d + e` is bounded by the whole.
proof fn lemma_terms_fit(a: nat, b: nat, c: nat, d: nat, e: nat)
    ensures
        0 <= a * b <= a * b + c * d + e,
        0 <= c * d <= a * b + c * d + e,
        a * b + c * d <= a * b + c * d + e,
{
    assert(0 <= a * b) by (nonlinear_arith);
    assert(0 <= c * d) by (nonlinear_arith);
}

/// The position of a cell is its row times the row stride, plus its column
/// times the column stride, plus the position of the origin cell.
pub proof fn lemma_offset_formula(
    stride_row: nat,
    stride_col: nat,
    origin_row: nat,
    origin_col: nat,
    row: int,
    col: int,
)
    ensures
        Layout::with_origin(stride_row, stride_col, origin_row, origin_col).index(row, col) == row
            * stride_row + col * stride_col + (stride_row * origin_row + stride_col * origin_col),
        Layout::with_origin(stride_row, stride_col, origin_row, origin_col).index(row, col)
            == Layout::with_origin(stride_row, stride_col, 0, 0).index(
            row + origin_row,
            col + origin_col,
        ),
{
    assert((row + origin_row) * stride_row == row * stride_row + stride_row * origin_row)
        by (nonlinear_arith);
    assert((col + origin_col) * stride_col == col * stride_col + stride_col * origin_col)
        by (nonlinear_arith);
}

/// In a row-major layout of an `nb_rows` by `nb_cols` matrix the cell
/// `(row, col)` sits at `row * nb_cols + col`, inside the first
/// `nb_rows * nb_cols` positions.
pub proof fn lemma_row_major_index(nb_rows: nat, nb_cols: nat, row: int, col: int)
    requires
        0 <= row < nb_rows,
        0 <= col < nb_cols,
    ensures
        Layout::row_major(nb_cols).index(row, col) == row * nb_cols + col,
        0 <= row * nb_cols + col < nb_rows * nb_cols,
{
    assert(0 <= row * nb_cols && row * nb_cols + nb_cols <= nb_rows * nb_cols)
        by (nonlinear_arith)
        requires
            0 <= row < nb_rows,
            0 <= nb_cols,
    ;
}

/// In a column-major layout of an `nb_rows` by `nb_cols` matrix the cell
/// `(row, col)` sits at `col * nb_rows + row`, inside the first
/// `nb_rows * nb_cols` positions.
pub proof fn lemma_column_major_index(nb_rows: nat, nb_cols: nat, row: int, col: int)
    requires
        0 <= row < nb_rows,
        0 <= col < nb_cols,
    ensures
        Layout::column_major(nb_rows).index(row, col) == col * nb_rows + row,
        0 <= col * nb_rows + row < nb_rows * nb_cols,
{
    assert(0 <= col * nb_rows && col * nb_rows + nb_rows <= nb_rows * nb_cols)
        by (nonlinear_arith)
        requires
            0 <= col < nb_cols,
            0 <= nb_rows,
    ;
}

} // verus!
