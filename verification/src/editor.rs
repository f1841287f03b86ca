//! The editor's state: the bytes as opened, the working copy that edits go
//! to, and the view configuration of the grid.

use vstd::prelude::*;
use crate::grid::{count_rows, rows_needed};
use crate::hex::{parse_hex, parse_hex_byte};

verus! {

/// The width of one grid cell.
#[derive(Debug, Clone, Copy, PartialEq, Eq, Structural)]
pub enum CellSize {
    Bit,
    Byte,
    Short,
    Int,
    Long,
}

/// How the representation column draws a byte.
#[derive(Debug, Clone, Copy, PartialEq, Eq, PartialOrd, Ord, Structural)]
pub enum Repr {
    Ascii,
    Mapbars,
}

/// Why an operation on the editor did nothing.
#[derive(Debug, Clone, Copy, PartialEq, Eq, Structural)]
pub enum EditError {
    /// The file could not be read; the buffers are as they were.
    FileReadError,
    /// The text is not two hexadecimal digits.
    InvalidHexInput,
    /// The index is not below the buffer's length.
    IndexOutOfRange,
}

/// The mathematical content of an [`Editor`].
pub struct EditorView {
    /// The bytes as they were opened.
    pub original: Seq<u8>,
    /// The bytes as they stand after the edits so far.
    pub working: Seq<u8>,
    /// The width of a cell.
    pub cell_size: CellSize,
    /// The number of cells in a full row of the grid.
    pub bytes_per_row: nat,
    /// The representation mode in force.
    pub repr: Repr,
}

impl EditorView {
    /// Both buffers have one length, and a row holds at least one cell.
    pub open spec fn wf(self) -> bool {
        &&& self.original.len() == self.working.len()
        &&& self.bytes_per_row > 0
    }

    /// The number of bytes in the buffer.
    pub open spec fn len(self) -> nat {
        self.working.len()
    }

    /// Whether an index names a byte of the buffer.
    pub open spec fn in_range(self, index: int) -> bool {
        0 <= index < self.working.len()
    }

    /// A cell is dirty when its working byte differs from the original one.
    pub open spec fn is_dirty(self, index: int) -> bool {
        self.working[index] != self.original[index]
    }

    /// The byte that the cell at `index` shows: the working value.
    pub open spec fn display_byte(self, index: int) -> u8 {
        self.working[index]
    }

    /// The number of grid rows at `per_row` cells a row.
    pub open spec fn row_count(self, per_row: nat) -> nat {
        rows_needed(self.len(), per_row)
    }

    /// The number of grid rows at the row width in force.
    pub open spec fn rows(self) -> nat {
        self.row_count(self.bytes_per_row)
    }

    /// What a query of the cell at `index` answers, given the answer `value`
    /// that is right for a cell of the buffer.
    pub open spec fn answer<T>(self, index: int, value: T) -> Result<T, EditError> {
        if self.in_range(index) {
            Ok(value)
        } else {
            Err(EditError::IndexOutOfRange)
        }
    }

    /// The state after opening `bytes`: both buffers hold them.
    pub open spec fn loaded(self, bytes: Seq<u8>) -> EditorView {
        EditorView { original: bytes, working: bytes, ..self }
    }

    /// The state after writing `value` into the working copy at `index`.
    pub open spec fn with_byte(self, index: int, value: u8) -> EditorView {
        EditorView { working: self.working.update(index, value), ..self }
    }

    /// The state after the working copy is put back to the original bytes.
    pub open spec fn restored(self) -> EditorView {
        EditorView { working: self.original, ..self }
    }

    /// What an edit of the cell at `index` with `text` answers: the byte that
    /// was there, or the reason why nothing was written.
    pub open spec fn edit_result(self, index: int, text: Seq<char>) -> Result<u8, EditError> {
        if !self.in_range(index) {
            Err(EditError::IndexOutOfRange)
        } else if parse_hex_byte(text) is None {
            Err(EditError::InvalidHexInput)
        } else {
            Ok(self.working[index])
        }
    }

    /// The state after an edit of the cell at `index` with `text`: the parsed
    /// byte is written where the edit is accepted, and nothing changes where
    /// it is not.
    pub open spec fn edited(self, index: int, text: Seq<char>) -> EditorView {
        match parse_hex_byte(text) {
            Some(value) if self.in_range(index) => self.with_byte(index, value),
            _ => self,
        }
    }
}

/// The two buffers of an open file, with the grid's view configuration.
pub struct Editor {
    open_bytes: Vec<u8>,
    edit_bytes: Vec<u8>,
    cell_size: CellSize,
    bytes_per_row: usize,
    repr: Repr,
}

impl View for Editor {
    type V = EditorView;

    closed spec fn view(&self) -> EditorView {
        EditorView {
            original: self.open_bytes@,
            working: self.edit_bytes@,
            cell_size: self.cell_size,
            bytes_per_row: self.bytes_per_row as nat,
            repr: self.repr,
        }
    }
}

impl Editor {
    #[verifier::type_invariant]
    closed spec fn inv(self) -> bool {
        &&& self.open_bytes.len() == self.edit_bytes.len()
        &&& self.bytes_per_row > 0
    }

    /// An editor with no file open: empty buffers, byte cells, sixteen cells
    /// per row, ASCII representation.
    pub fn new() -> (editor: Self)
        ensures
            editor@ == (EditorView {
                original: Seq::<u8>::empty(),
                working: Seq::<u8>::empty(),
                cell_size: CellSize::Byte,
                bytes_per_row: 16,
                repr: Repr::Ascii,
            }),
            editor@.wf(),
    {
        Self {
            open_bytes: Vec::new(),
            edit_bytes: Vec::new(),
            cell_size: CellSize::Byte,
            bytes_per_row: 16,
            repr: Repr::Ascii,
        }
    }

    /// The number of bytes in the buffer.
    pub fn len(&self) -> (n: usize)
        ensures
            n == self@.len(),
            self@.wf(),
    {
        proof {
            use_type_invariant(self);
        }
        self.edit_bytes.len()
    }

    /// Whether no file is open, which is to say the buffer holds no byte.
    pub fn is_empty(&self) -> (empty: bool)
        ensures
            empty == (self@.len() == 0),
            self@.wf(),
    {
        proof {
            use_type_invariant(self);
        }
        self.edit_bytes.len() == 0
    }

    /// The width of a cell.
    pub fn cell_size(&self) -> (size: CellSize)
        ensures
            size == self@.cell_size,
    {
        self.cell_size
    }

    /// The number of cells in a full row of the grid; never zero.
    pub fn bytes_per_row(&self) -> (n: usize)
        ensures
            n == self@.bytes_per_row,
            n > 0,
    {
        proof {
            use_type_invariant(self);
        }
        self.bytes_per_row
    }

    /// The representation mode in force.
    pub fn repr(&self) -> (repr: Repr)
        ensures
            repr == self@.repr,
    {
        self.repr
    }

    /// Switches the representation mode. The buffers stay as they are.
    pub fn set_repr(&mut self, repr: Repr)
        ensures
            final(self)@ == (EditorView { repr, ..old(self)@ }),
            final(self)@.wf(),
    {
        proof {
            use_type_invariant(&*self);
        }
        self.repr = repr;
    }

    /// The bytes as they were opened.
    pub fn original_bytes(&self) -> (bytes: &Vec<u8>)
        ensures
            bytes@ == self@.original,
    {
        &self.open_bytes
    }

    /// The bytes as they stand now, edits included: what a save would write,
    /// byte for byte.
    pub fn working_bytes(&self) -> (bytes: &Vec<u8>)
        ensures
            bytes@ == self@.working,
    {
        &self.edit_bytes
    }

    /// Whether the cell at `index` differs from the original byte there.
    pub fn is_dirty(&self, index: usize) -> (result: Result<bool, EditError>)
        ensures
            result == self@.answer(index as int, self@.is_dirty(index as int)),
    {
        proof {
            use_type_invariant(self);
        }
        if index < self.edit_bytes.len() {
            Ok(self.edit_bytes[index] != self.open_bytes[index])
        } else {
            Err(EditError::IndexOutOfRange)
        }
    }

    /// The byte that the cell at `index` shows: the working value.
    pub fn get_display_byte(&self, index: usize) -> (result: Result<u8, EditError>)
        ensures
            result == self@.answer(index as int, self@.display_byte(index as int)),
    {
        if index < self.edit_bytes.len() {
            Ok(self.edit_bytes[index])
        } else {
            Err(EditError::IndexOutOfRange)
        }
    }

    /// The number of grid rows at `bytes_per_row` cells a row: the length
    /// divided by the row width, rounded up.
    pub fn row_count(&self, bytes_per_row: usize) -> (rows: usize)
        requires
            bytes_per_row > 0,
        ensures
            rows == self@.row_count(bytes_per_row as nat),
    {
        count_rows(self.edit_bytes.len(), bytes_per_row)
    }

    /// The number of grid rows at the row width in force.
    pub fn rows(&self) -> (rows: usize)
        ensures
            rows == self@.rows(),
    {
        proof {
            use_type_invariant(self);
        }
        count_rows(self.edit_bytes.len(), self.bytes_per_row)
    }

    /// Opens `bytes`: they become the original bytes, and the working copy
    /// starts as a copy of them. The view configuration stays.
    pub fn load(&mut self, bytes: Vec<u8>)
        ensures
            final(self)@ == old(self)@.loaded(bytes@),
            final(self)@.wf(),
    {
        proof {
            use_type_invariant(&*self);
        }
        let copy = bytes.clone();
        *self = Editor {
            open_bytes: bytes,
            edit_bytes: copy,
            cell_size: self.cell_size,
            bytes_per_row: self.bytes_per_row,
            repr: self.repr,
        };
    }

    /// Puts the working copy back to the original bytes, so that no cell is
    /// dirty any more.
    pub fn reset(&mut self)
        ensures
            final(self)@ == old(self)@.restored(),
            final(self)@.wf(),
    {
        proof {
            use_type_invariant(&*self);
        }
        let copy = self.open_bytes.clone();
        self.edit_bytes = copy;
    }

    /// Takes the outcome of reading a file: bytes that were read are opened,
    /// and a failed read is answered with `FileReadError` and changes nothing.
    pub fn load_if_read(&mut self, read: Option<Vec<u8>>) -> (result: Result<(), EditError>)
        ensures
            match read {
                Some(bytes) => result == Ok::<(), EditError>(()) && final(self)@ == old(
                    self,
                )@.loaded(bytes@),
                None => result == Err::<(), EditError>(EditError::FileReadError) && final(self)@
                    == old(self)@,
            },
            final(self)@.wf(),
    {
        proof {
            use_type_invariant(&*self);
        }
        match read {
            Some(bytes) => {
                self.load(bytes);
                Ok(())
            },
            None => Err(EditError::FileReadError),
        }
    }

    /// Parses `text` as two hexadecimal digits and writes the byte into the
    /// working copy at `index`. Answers the byte that was there before.
    pub fn set_byte_from_hex_text(&mut self, index: usize, text: &str) -> (result: Result<
        u8,
        EditError,
    >)
        ensures
            result == old(self)@.edit_result(index as int, text@),
            final(self)@ == old(self)@.edited(index as int, text@),
            final(self)@.wf(),
    {
        proof {
            use_type_invariant(&*self);
        }
        if index >= self.edit_bytes.len() {
            return Err(EditError::IndexOutOfRange);
        }
        match parse_hex(text) {
            None => Err(EditError::InvalidHexInput),
            Some(value) => {
                let previous: u8 = self.edit_bytes[index];
                self.edit_bytes[index] = value;
                Ok(previous)
            },
        }
    }

    /// The forgiving form of an edit, for a view that forwards whatever the
    /// user typed: an accepted edit is applied, any other is dropped without
    /// a word. Answers whether the working copy changed.
    pub fn edit_cell(&mut self, index: usize, text: &str) -> (changed: bool)
        ensures
            final(self)@ == old(self)@.edited(index as int, text@),
            changed == (final(self)@.working != old(self)@.working),
            final(self)@.wf(),
    {
        proof {
            use_type_invariant(&*self);
        }
        match self.set_byte_from_hex_text(index, text) {
            Ok(previous) => {
                let now: u8 = self.edit_bytes[index];
                proof {
                    let before = old(self)@.working;
                    let after = self@.working;
                    assert(after[index as int] == now);
                    assert(before[index as int] == previous);
                    if now == previous {
                        assert(after =~= before);
                    }
                }
                now != previous
            },
            Err(_) => false,
        }
    }
}

} // verus!
