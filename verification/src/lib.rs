//! The byte-buffer model behind a small hex editor: two equal-length byte
//! sequences (the bytes as opened and the working copy), cell-level edits
//! given as hex text, and the per-cell projections a grid view draws.
//!
//! The library draws nothing and reads no file. A view hands it the bytes
//! it has read and the text the user typed, and asks it, row by row, what
//! to show.

pub mod cells;
pub mod editor;
pub mod glyph;
pub mod grid;
pub mod hex;
pub mod laws;

pub use cells::{Cell, Row};
pub use editor::{CellSize, EditError, Editor, EditorView, Repr};
pub use glyph::{BarFraction, CellMark};
