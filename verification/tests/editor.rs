use hex_editor::{CellSize, EditError, Editor, Repr};

fn opened(bytes: &[u8]) -> Editor {
    let mut editor = Editor::new();
    editor.load(bytes.to_vec());
    editor
}

fn dirty_flags(editor: &Editor) -> Vec<bool> {
    (0..editor.len()).map(|i| editor.is_dirty(i).unwrap()).collect()
}

fn displayed(editor: &Editor) -> Vec<u8> {
    (0..editor.len()).map(|i| editor.get_display_byte(i).unwrap()).collect()
}

#[test]
fn new_editor_has_no_file() {
    let editor = Editor::new();
    assert_eq!(editor.len(), 0);
    assert!(editor.is_empty());
    assert_eq!(editor.bytes_per_row(), 16);
    assert_eq!(editor.repr(), Repr::Ascii);
    assert_eq!(editor.cell_size(), CellSize::Byte);
    assert_eq!(editor.rows(), 0);
    assert!(editor.original_bytes().is_empty());
    assert!(editor.working_bytes().is_empty());
}

#[test]
fn load_then_display_gives_the_loaded_bytes() {
    let bytes: Vec<u8> = (0..=255u8).collect();
    let editor = opened(&bytes);
    assert_eq!(editor.len(), 256);
    assert!(!editor.is_empty());
    for (i, byte) in bytes.iter().enumerate() {
        assert_eq!(editor.get_display_byte(i), Ok(*byte));
    }
    assert_eq!(editor.original_bytes(), &bytes);
    assert_eq!(editor.working_bytes(), &bytes);
}

#[test]
fn load_leaves_no_cell_dirty() {
    let editor = opened(&[0x00, 0x0A, 0xFF, 0x41]);
    assert_eq!(dirty_flags(&editor), vec![false, false, false, false]);
}

#[test]
fn load_of_an_empty_buffer_succeeds() {
    let mut editor = opened(&[1, 2, 3]);
    editor.load(Vec::new());
    assert_eq!(editor.len(), 0);
    assert!(editor.is_empty());
    assert_eq!(editor.row_count(16), 0);
}

#[test]
fn load_replaces_both_buffers_and_clears_edits() {
    let mut editor = opened(&[1, 2, 3]);
    assert_eq!(editor.set_byte_from_hex_text(0, "7F"), Ok(1));
    editor.set_repr(Repr::Mapbars);
    editor.load(vec![9, 8]);
    assert_eq!(displayed(&editor), vec![9, 8]);
    assert_eq!(dirty_flags(&editor), vec![false, false]);
    assert_eq!(editor.original_bytes(), &vec![9, 8]);
    assert_eq!(editor.repr(), Repr::Mapbars);
    assert_eq!(editor.bytes_per_row(), 16);
}

#[test]
fn set_ff_displays_255_and_marks_the_cell_dirty() {
    let mut editor = opened(&[0x00, 0x0A, 0x10]);
    assert_eq!(editor.set_byte_from_hex_text(1, "FF"), Ok(0x0A));
    assert_eq!(editor.get_display_byte(1), Ok(255));
    assert_eq!(editor.is_dirty(1), Ok(true));
    assert_eq!(dirty_flags(&editor), vec![false, true, false]);
}

#[test]
fn set_ff_over_an_original_ff_is_not_dirty() {
    let mut editor = opened(&[0xFF, 0x01]);
    assert_eq!(editor.set_byte_from_hex_text(0, "FF"), Ok(0xFF));
    assert_eq!(editor.get_display_byte(0), Ok(255));
    assert_eq!(editor.is_dirty(0), Ok(false));
}

#[test]
fn typing_the_original_value_back_clears_the_dirty_flag() {
    let mut editor = opened(&[0x12]);
    assert_eq!(editor.set_byte_from_hex_text(0, "34"), Ok(0x12));
    assert_eq!(editor.is_dirty(0), Ok(true));
    assert_eq!(editor.set_byte_from_hex_text(0, "12"), Ok(0x34));
    assert_eq!(editor.is_dirty(0), Ok(false));
}

#[test]
fn set_zz_is_invalid_and_changes_nothing() {
    let mut editor = opened(&[0x00, 0x0A, 0xFF]);
    assert_eq!(editor.set_byte_from_hex_text(1, "zz"), Err(EditError::InvalidHexInput));
    assert_eq!(displayed(&editor), vec![0x00, 0x0A, 0xFF]);
    assert_eq!(dirty_flags(&editor), vec![false, false, false]);
    assert_eq!(editor.original_bytes(), &vec![0x00, 0x0A, 0xFF]);
}

#[test]
fn text_of_the_wrong_length_or_alphabet_is_invalid() {
    let mut editor = opened(&[0x55]);
    for text in ["", "F", "0FF", "000", "+F", "-1", " F", "F ", "0x", "G0", "0g", "é1", "1é", "١٢"] {
        assert_eq!(
            editor.set_byte_from_hex_text(0, text),
            Err(EditError::InvalidHexInput),
            "text {:?}",
            text
        );
        assert_eq!(editor.get_display_byte(0), Ok(0x55));
        assert_eq!(editor.is_dirty(0), Ok(false));
    }
}

#[test]
fn digits_of_either_case_are_accepted() {
    let mut editor = opened(&[0, 0, 0, 0]);
    assert_eq!(editor.set_byte_from_hex_text(0, "ab"), Ok(0));
    assert_eq!(editor.set_byte_from_hex_text(1, "AB"), Ok(0));
    assert_eq!(editor.set_byte_from_hex_text(2, "aB"), Ok(0));
    assert_eq!(editor.set_byte_from_hex_text(3, "Ab"), Ok(0));
    assert_eq!(displayed(&editor), vec![0xAB, 0xAB, 0xAB, 0xAB]);
}

#[test]
fn retyping_the_shown_byte_changes_nothing() {
    let mut editor = opened(&[0x00, 0x0A, 0xFF]);
    assert_eq!(editor.set_byte_from_hex_text(1, "0a"), Ok(0x0A));
    assert_eq!(editor.set_byte_from_hex_text(1, "0A"), Ok(0x0A));
    assert_eq!(displayed(&editor), vec![0x00, 0x0A, 0xFF]);
    assert_eq!(dirty_flags(&editor), vec![false, false, false]);
    assert!(!editor.edit_cell(1, "0a"));
    assert_eq!(displayed(&editor), vec![0x00, 0x0A, 0xFF]);
}

#[test]
fn retyping_an_edited_byte_keeps_it_dirty() {
    let mut editor = opened(&[0x00]);
    assert_eq!(editor.set_byte_from_hex_text(0, "c3"), Ok(0x00));
    assert_eq!(editor.set_byte_from_hex_text(0, "C3"), Ok(0xC3));
    assert_eq!(editor.get_display_byte(0), Ok(0xC3));
    assert_eq!(editor.is_dirty(0), Ok(true));
}

#[test]
fn set_answers_the_previous_value() {
    let mut editor = opened(&[0x11, 0x22]);
    assert_eq!(editor.set_byte_from_hex_text(1, "33"), Ok(0x22));
    assert_eq!(editor.set_byte_from_hex_text(1, "44"), Ok(0x33));
    assert_eq!(editor.get_display_byte(1), Ok(0x44));
    assert_eq!(editor.get_display_byte(0), Ok(0x11));
}

#[test]
fn an_index_at_or_past_the_length_is_out_of_range() {
    let mut editor = opened(&[1, 2, 3]);
    assert_eq!(editor.is_dirty(3), Err(EditError::IndexOutOfRange));
    assert_eq!(editor.get_display_byte(3), Err(EditError::IndexOutOfRange));
    assert_eq!(editor.set_byte_from_hex_text(3, "00"), Err(EditError::IndexOutOfRange));
    assert_eq!(editor.is_dirty(usize::MAX), Err(EditError::IndexOutOfRange));
    assert_eq!(editor.get_display_byte(usize::MAX), Err(EditError::IndexOutOfRange));
    assert_eq!(editor.set_byte_from_hex_text(usize::MAX, "00"), Err(EditError::IndexOutOfRange));
    assert_eq!(displayed(&editor), vec![1, 2, 3]);
    assert_eq!(editor.is_dirty(2), Ok(false));
    assert_eq!(editor.get_display_byte(2), Ok(3));
}

#[test]
fn every_index_of_an_empty_buffer_is_out_of_range() {
    let mut editor = Editor::new();
    assert_eq!(editor.is_dirty(0), Err(EditError::IndexOutOfRange));
    assert_eq!(editor.get_display_byte(0), Err(EditError::IndexOutOfRange));
    assert_eq!(editor.set_byte_from_hex_text(0, "00"), Err(EditError::IndexOutOfRange));
    assert!(!editor.edit_cell(0, "00"));
    assert!(editor.is_empty());
}

#[test]
fn the_index_is_judged_before_the_text() {
    let mut editor = opened(&[1]);
    assert_eq!(editor.set_byte_from_hex_text(1, "zz"), Err(EditError::IndexOutOfRange));
    assert_eq!(editor.set_byte_from_hex_text(0, "zz"), Err(EditError::InvalidHexInput));
}

#[test]
fn row_count_rounds_up() {
    assert_eq!(opened(&[0u8; 0]).row_count(16), 0);
    assert_eq!(opened(&[0u8; 16]).row_count(16), 1);
    assert_eq!(opened(&[0u8; 17]).row_count(16), 2);
}

#[test]
fn row_count_at_other_lengths_and_widths() {
    assert_eq!(opened(&[0u8; 1]).row_count(16), 1);
    assert_eq!(opened(&[0u8; 15]).row_count(16), 1);
    assert_eq!(opened(&[0u8; 32]).row_count(16), 2);
    assert_eq!(opened(&[0u8; 33]).row_count(16), 3);
    assert_eq!(opened(&[0u8; 7]).row_count(1), 7);
    assert_eq!(opened(&[0u8; 7]).row_count(7), 1);
    assert_eq!(opened(&[0u8; 7]).row_count(8), 1);
    assert_eq!(opened(&[0u8; 7]).row_count(usize::MAX), 1);
    assert_eq!(opened(&[0u8; 0]).row_count(usize::MAX), 0);
    assert_eq!(opened(&[0u8; 100]).row_count(3), 34);
}

#[test]
fn rows_uses_the_row_width_in_force() {
    for len in [0usize, 1, 16, 17, 255, 256, 257] {
        let editor = opened(&vec![0u8; len]);
        assert_eq!(editor.rows(), editor.row_count(editor.bytes_per_row()));
        assert_eq!(editor.rows(), (len + 15) / 16);
    }
}

#[test]
fn edit_then_reset_end_to_end() {
    let mut editor = opened(&[0x00, 0x0A, 0xFF]);
    assert_eq!(editor.set_byte_from_hex_text(1, "0B"), Ok(0x0A));
    assert_eq!(dirty_flags(&editor), vec![false, true, false]);
    assert_eq!(displayed(&editor), vec![0x00, 0x0B, 0xFF]);
    editor.reset();
    assert_eq!(displayed(&editor), vec![0x00, 0x0A, 0xFF]);
    assert_eq!(dirty_flags(&editor), vec![false, false, false]);
}

#[test]
fn reset_keeps_the_original_bytes_and_the_length() {
    let mut editor = opened(&[5, 6, 7, 8]);
    assert!(editor.edit_cell(0, "00"));
    assert!(editor.edit_cell(3, "ff"));
    editor.reset();
    assert_eq!(editor.len(), 4);
    assert_eq!(editor.original_bytes(), &vec![5, 6, 7, 8]);
    assert_eq!(editor.working_bytes(), &vec![5, 6, 7, 8]);
    editor.reset();
    assert_eq!(editor.working_bytes(), &vec![5, 6, 7, 8]);
}

#[test]
fn edits_go_to_the_working_copy_only() {
    let mut editor = opened(&[5, 6, 7]);
    assert_eq!(editor.set_byte_from_hex_text(2, "99"), Ok(7));
    assert_eq!(editor.original_bytes(), &vec![5, 6, 7]);
    assert_eq!(editor.working_bytes(), &vec![5, 6, 0x99]);
    assert_eq!(editor.len(), 3);
}

#[test]
fn edit_cell_says_whether_the_working_copy_changed() {
    let mut editor = opened(&[0x10, 0x20]);
    assert!(editor.edit_cell(0, "11"));
    assert!(!editor.edit_cell(0, "11"));
    assert!(!editor.edit_cell(1, "20"));
    assert!(!editor.edit_cell(1, "2"));
    assert!(!editor.edit_cell(1, "xy"));
    assert!(!editor.edit_cell(2, "00"));
    assert!(editor.edit_cell(0, "10"));
    assert_eq!(displayed(&editor), vec![0x10, 0x20]);
    assert_eq!(dirty_flags(&editor), vec![false, false]);
}

#[test]
fn a_failed_read_leaves_the_buffers_untouched() {
    let mut editor = opened(&[1, 2, 3]);
    assert_eq!(editor.set_byte_from_hex_text(0, "AA"), Ok(1));
    assert_eq!(editor.load_if_read(None), Err(EditError::FileReadError));
    assert_eq!(editor.original_bytes(), &vec![1, 2, 3]);
    assert_eq!(editor.working_bytes(), &vec![0xAA, 2, 3]);
    assert_eq!(dirty_flags(&editor), vec![true, false, false]);
}

#[test]
fn a_read_that_succeeded_is_opened() {
    let mut editor = opened(&[1, 2, 3]);
    assert_eq!(editor.set_byte_from_hex_text(0, "AA"), Ok(1));
    assert_eq!(editor.load_if_read(Some(vec![7, 7])), Ok(()));
    assert_eq!(editor.original_bytes(), &vec![7, 7]);
    assert_eq!(editor.working_bytes(), &vec![7, 7]);
    assert_eq!(editor.load_if_read(Some(Vec::new())), Ok(()));
    assert!(editor.is_empty());
}

#[test]
fn set_repr_switches_the_mode_and_keeps_the_buffers() {
    let mut editor = opened(&[1, 2, 3]);
    assert_eq!(editor.set_byte_from_hex_text(1, "0F"), Ok(2));
    editor.set_repr(Repr::Mapbars);
    assert_eq!(editor.repr(), Repr::Mapbars);
    assert_eq!(displayed(&editor), vec![1, 0x0F, 3]);
    assert_eq!(dirty_flags(&editor), vec![false, true, false]);
    editor.set_repr(Repr::Ascii);
    assert_eq!(editor.repr(), Repr::Ascii);
    assert_eq!(editor.bytes_per_row(), 16);
    assert_eq!(editor.cell_size(), CellSize::Byte);
}

#[test]
fn representation_modes_are_ordered_as_declared() {
    assert!(Repr::Ascii < Repr::Mapbars);
    assert_eq!(Repr::Ascii, Repr::Ascii);
    assert_ne!(Repr::Ascii, Repr::Mapbars);
}
