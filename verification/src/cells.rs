//! What the grid draws: for every cell its hex text, its dirty flag and its
//! mark in the representation column, gathered row by row.

use vstd::prelude::*;
use crate::editor::{EditError, Editor, EditorView};
use crate::glyph::{cell_mark, mark_of, CellMark};
use crate::grid::{count_rows, rows_needed_is_least_cover};
use crate::hex::{hex_text, hex_text_of, offset_label, offset_label_of};

verus! {

/// One cell of the grid, as it is to be drawn.
#[derive(Debug, PartialEq, Eq)]
pub struct Cell {
    /// The place of the byte in the buffer.
    pub index: usize,
    /// The working byte as two upper-case hexadecimal digits.
    pub hex_text: String,
    /// Whether the working byte differs from the original one.
    pub dirty: bool,
    /// What the representation column shows for the byte.
    pub mark: CellMark,
}

/// One row of the grid, as it is to be drawn.
#[derive(Debug, PartialEq, Eq)]
pub struct Row {
    /// The place of the row's first byte in the buffer.
    pub offset: usize,
    /// The text of the offset column.
    pub label: String,
    /// The cells that hold a byte, from the left. The last row of a buffer
    /// may have fewer of them than a full row.
    pub cells: Vec<Cell>,
}

impl EditorView {
    /// Whether `cell` is the projection of the byte at `index`.
    pub open spec fn shows(self, index: int, cell: Cell) -> bool {
        &&& cell.index == index
        &&& cell.hex_text@ == hex_text_of(self.working[index])
        &&& cell.dirty == self.is_dirty(index)
        &&& cell.mark == mark_of(self.repr, self.working[index])
    }

    /// The place of the first byte of a row.
    pub open spec fn row_start(self, row: int) -> int {
        row * self.bytes_per_row
    }

    /// The place in the buffer of the cell in a row and a column.
    pub open spec fn index_at(self, row: int, col: int) -> int {
        self.row_start(row) + col
    }

    /// The number of bytes in a row: a full row, or what is left of the
    /// buffer where that is less.
    pub open spec fn row_len(self, row: int) -> int {
        let left = self.len() - self.row_start(row);
        if left < self.bytes_per_row {
            left
        } else {
            self.bytes_per_row as int
        }
    }

    /// Whether `drawn` is the projection of the row with the number `row`.
    pub open spec fn shows_row(self, row: int, drawn: Row) -> bool {
        &&& drawn.offset == self.row_start(row)
        &&& drawn.label@ == offset_label_of(drawn.offset as nat)
        &&& drawn.cells.len() == self.row_len(row)
        &&& forall|col: int|
            0 <= col < drawn.cells.len() ==> self.shows(
                self.index_at(row, col),
                #[trigger] drawn.cells[col],
            )
    }
}

/// Every row of the grid starts inside the buffer and holds at least one
/// byte, and only the last row can be short.
pub proof fn rows_lie_in_buffer(view: EditorView, row: int)
    requires
        view.wf(),
        0 <= row < view.rows(),
    ensures
        0 <= view.row_start(row) < view.len(),
        1 <= view.row_len(row) <= view.bytes_per_row,
        view.row_start(row) + view.row_len(row) <= view.len(),
        row + 1 < view.rows() ==> view.row_len(row) == view.bytes_per_row,
{
    let per_row = view.bytes_per_row as int;
    let rows = view.rows() as int;
    rows_needed_is_least_cover(view.len(), view.bytes_per_row);
    assert(row * per_row <= (rows - 1) * per_row) by (nonlinear_arith)
        requires
            row <= rows - 1,
            per_row > 0,
    ;
    assert(0 <= row * per_row) by (nonlinear_arith)
        requires
            0 <= row,
            per_row > 0,
    ;
    if row + 1 < rows {
        assert((row + 1) * per_row <= (rows - 1) * per_row) by (nonlinear_arith)
            requires
                row + 1 <= rows - 1,
                per_row > 0,
        ;
        assert((row + 1) * per_row == row * per_row + per_row) by (nonlinear_arith);
    }
}

/// The rows hold every byte of the buffer in exactly one cell: the byte at
/// `index` lies in the row `index / bytes_per_row`, in the column
/// `index % bytes_per_row`, and in no other place of the grid.
pub proof fn every_byte_lies_in_one_cell(view: EditorView, index: int)
    requires
        view.wf(),
        view.in_range(index),
    ensures
        0 <= index / (view.bytes_per_row as int) < view.rows(),
        0 <= index % (view.bytes_per_row as int) < view.row_len(
            index / (view.bytes_per_row as int),
        ),
        view.index_at(index / (view.bytes_per_row as int), index % (view.bytes_per_row as int))
            == index,
        forall|row: int, col: int|
            0 <= row < view.rows() && 0 <= col < view.row_len(row) && #[trigger] view.index_at(
                row,
                col,
            ) == index ==> row == index / (view.bytes_per_row as int) && col == index % (
            view.bytes_per_row as int),
{
    let per_row = view.bytes_per_row as int;
    let rows = view.rows() as int;
    let len = view.len() as int;
    let q = index / per_row;
    let r = index % per_row;
    rows_needed_is_least_cover(view.len(), view.bytes_per_row);
    assert(index == q * per_row + r && 0 <= r < per_row && 0 <= q) by (nonlinear_arith)
        requires
            q == index / per_row,
            r == index % per_row,
            per_row > 0,
            index >= 0,
    ;
    assert(q < rows) by (nonlinear_arith)
        requires
            q * per_row <= index,
            index < len,
            rows * per_row >= len,
            per_row > 0,
    ;
    assert forall|row: int, col: int|
        0 <= row < view.rows() && 0 <= col < view.row_len(row) && #[trigger] view.index_at(
            row,
            col,
        ) == index implies row == q && col == r by {
        assert(row == q) by (nonlinear_arith)
            requires
                row * per_row + col == q * per_row + r,
                0 <= col < per_row,
                0 <= r < per_row,
                per_row > 0,
        ;
    }
}

impl Editor {
    fn cell_at(&self, index: usize) -> (cell: Cell)
        requires
            self@.wf(),
            self@.in_range(index as int),
        ensures
            self@.shows(index as int, cell),
    {
        let byte: u8 = self.working_bytes()[index];
        let original: u8 = self.original_bytes()[index];
        Cell {
            index,
            hex_text: hex_text(byte),
            dirty: byte != original,
            mark: cell_mark(self.repr(), byte),
        }
    }

    /// Projects the byte at `index` into the cell that the grid draws.
    pub fn cell(&self, index: usize) -> (result: Result<Cell, EditError>)
        ensures
            result is Ok <==> self@.in_range(index as int),
            result matches Ok(cell) ==> self@.shows(index as int, cell),
            result matches Err(error) ==> error == EditError::IndexOutOfRange,
    {
        if index < self.len() {
            Ok(self.cell_at(index))
        } else {
            Err(EditError::IndexOutOfRange)
        }
    }

    /// Projects a row of the grid: its offset label and its cells. There is
    /// no row at or beyond the row count.
    pub fn row(&self, row: usize) -> (result: Option<Row>)
        ensures
            result is Some <==> row < self@.rows(),
            result matches Some(drawn) ==> self@.shows_row(row as int, drawn),
    {
        let len: usize = self.len();
        let per_row: usize = self.bytes_per_row();
        if row >= count_rows(len, per_row) {
            return None;
        }
        proof {
            rows_lie_in_buffer(self@, row as int);
        }
        let offset: usize = row * per_row;
        let left: usize = len - offset;
        let count: usize = if left < per_row {
            left
        } else {
            per_row
        };
        let mut cells: Vec<Cell> = Vec::new();
        let mut col: usize = 0;
        while col < count
            invariant
                self@.wf(),
                col <= count,
                len == self@.len(),
                offset + count <= len,
                cells.len() == col,
                forall|k: int| 0 <= k < col ==> self@.shows(offset + k, #[trigger] cells[k]),
            decreases count - col,
        {
            cells.push(self.cell_at(offset + col));
            col = col + 1;
        }
        Some(Row { offset, label: offset_label(offset), cells })
    }
}

} // verus!
