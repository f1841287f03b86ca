//! What holds of the editor whatever is opened and whatever is typed, stated
//! over the editor's mathematical content.

use vstd::prelude::*;
use crate::editor::{EditError, EditorView};
use crate::hex::{canonical_hex, hex_text_of, parse_accepts_canonical_forms, parse_hex_byte};

verus! {

/// After a buffer is opened, every cell displays the byte that was opened at
/// its place.
pub proof fn opened_bytes_are_displayed(view: EditorView, bytes: Seq<u8>, index: int)
    requires
        0 <= index < bytes.len(),
    ensures
        view.loaded(bytes).len() == bytes.len(),
        view.loaded(bytes).display_byte(index) == bytes[index],
        view.loaded(bytes).answer(index, view.loaded(bytes).display_byte(index)) == Ok::<
            u8,
            EditError,
        >(bytes[index]),
{
}

/// Right after a buffer is opened, no cell is dirty.
pub proof fn nothing_is_dirty_after_opening(view: EditorView, bytes: Seq<u8>, index: int)
    requires
        0 <= index < bytes.len(),
    ensures
        !view.loaded(bytes).is_dirty(index),
        view.loaded(bytes).answer(index, view.loaded(bytes).is_dirty(index)) == Ok::<
            bool,
            EditError,
        >(false),
{
}

/// The two buffers have one length in every state: opening, editing and
/// resetting keep them so, and editing and resetting keep that length.
pub proof fn buffers_keep_one_length(
    view: EditorView,
    bytes: Seq<u8>,
    index: int,
    text: Seq<char>,
)
    requires
        view.wf(),
    ensures
        view.loaded(bytes).wf(),
        view.edited(index, text).wf(),
        view.edited(index, text).len() == view.len(),
        view.restored().wf(),
        view.restored().len() == view.len(),
{
}

/// Nothing but opening a buffer touches the original bytes or the view
/// configuration, and opening keeps the configuration.
pub proof fn edits_keep_original_and_configuration(
    view: EditorView,
    bytes: Seq<u8>,
    index: int,
    text: Seq<char>,
)
    ensures
        view.edited(index, text) == (EditorView {
            working: view.edited(index, text).working,
            ..view
        }),
        view.restored() == (EditorView { working: view.original, ..view }),
        view.loaded(bytes) == (EditorView { original: bytes, working: bytes, ..view }),
{
}

/// An accepted edit is answered with the byte that was in the cell; the cell
/// then displays the typed byte and is dirty exactly when that byte differs
/// from the original one. Every other cell is as it was.
pub proof fn accepted_edit_is_displayed(view: EditorView, index: int, text: Seq<char>, value: u8)
    requires
        view.wf(),
        view.in_range(index),
        parse_hex_byte(text) == Some(value),
    ensures
        view.edit_result(index, text) == Ok::<u8, EditError>(view.display_byte(index)),
        view.edited(index, text).display_byte(index) == value,
        view.edited(index, text).is_dirty(index) <==> view.original[index] != value,
        forall|other: int|
            view.in_range(other) && other != index ==> {
                &&& #[trigger] view.edited(index, text).display_byte(other) == view.display_byte(
                    other,
                )
                &&& view.edited(index, text).is_dirty(other) == view.is_dirty(other)
            },
{
}

/// An edit is refused exactly when the index lies outside the buffer or the
/// text is not two hexadecimal digits; the index is looked at first. A
/// refused edit changes nothing.
pub proof fn refused_edit_changes_nothing(view: EditorView, index: int, text: Seq<char>)
    ensures
        view.edit_result(index, text) is Err <==> !view.in_range(index) || parse_hex_byte(text)
            is None,
        !view.in_range(index) ==> view.edit_result(index, text) == Err::<u8, EditError>(
            EditError::IndexOutOfRange,
        ),
        view.in_range(index) && parse_hex_byte(text) is None ==> view.edit_result(index, text)
            == Err::<u8, EditError>(EditError::InvalidHexInput),
        view.edit_result(index, text) is Err ==> view.edited(index, text) == view,
{
}

/// Typing what a cell already shows, in either case of the digits, changes
/// nothing: the edit is accepted and the state is the one before.
pub proof fn retyped_byte_changes_nothing(view: EditorView, index: int, text: Seq<char>)
    requires
        view.in_range(index),
        canonical_hex(text) == hex_text_of(view.display_byte(index)),
    ensures
        view.edit_result(index, text) == Ok::<u8, EditError>(view.display_byte(index)),
        view.edited(index, text) == view,
{
    parse_accepts_canonical_forms(text, view.display_byte(index));
    assert(view.working.update(index, view.working[index]) =~= view.working);
}

/// The same edit made twice leaves the state of the first: the second is
/// answered with the typed byte and changes nothing.
pub proof fn repeated_edit_changes_nothing(view: EditorView, index: int, text: Seq<char>)
    ensures
        view.edited(index, text).edited(index, text) == view.edited(index, text),
{
    let once = view.edited(index, text);
    if view.in_range(index) && parse_hex_byte(text) is Some {
        let value = parse_hex_byte(text)->Some_0;
        assert(once.working.update(index, value) =~= once.working);
    }
}

/// A reset puts every cell back to its original byte and leaves no cell
/// dirty.
pub proof fn reset_restores_original(view: EditorView, index: int)
    requires
        view.wf(),
        view.in_range(index),
    ensures
        view.restored().working == view.original,
        view.restored().display_byte(index) == view.original[index],
        !view.restored().is_dirty(index),
        view.restored().answer(index, view.restored().is_dirty(index)) == Ok::<bool, EditError>(
            false,
        ),
{
}

} // verus!
