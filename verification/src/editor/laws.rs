//! What holds of the editor whatever keys are pressed.

use crate::editor::custom::{is_printable, EditorView, InputMode, Key, Notice};
use crate::text_buffer::split_at;
use vstd::prelude::*;

verus! {

/// The state after the keys of `keys` were pressed one after the other.
pub open spec fn after_keys(state: EditorView, keys: Seq<Key>) -> EditorView
    decreases keys.len(),
{
    if keys.len() == 0 {
        state
    } else {
        after_keys(state, keys.drop_last()).after_key(keys.last())
    }
}

/// No key press takes the editor out of the states it can be in: afterwards
/// there is still at least one line, the cursor still points into the text,
/// and in editing mode the working copy is still the line under the cursor.
pub proof fn lemma_key_keeps_state_valid(state: EditorView, key: Key)
    requires
        state.wf(),
    ensures
        state.after_key(key).wf(),
{
    let next = state.after_key(key);
    let row = state.cursor.row as int;
    if state.mode == InputMode::Editing && key == Key::Enter && state.lines.len() < usize::MAX {
        assert forall|r: int| 0 <= r < next.lines.len() implies (#[trigger] next.lines[r]).len()
            <= usize::MAX by {
            if r < row {
                assert(next.lines[r] == state.lines[r]);
            } else if r > row + 1 {
                assert(next.lines[r] == state.lines[r - 1]);
            }
        }
    } else {
        assert forall|r: int| 0 <= r < next.lines.len() implies (#[trigger] next.lines[r]).len()
            <= usize::MAX by {
            if r != row {
                assert(next.lines[r] == state.lines[r]);
            }
        }
    }
}

/// Whatever keys are pressed, in whatever order and mode, the cursor never
/// leaves the text: its row is one of the buffer's rows, and its column lies
/// between 0 and the length of that row's line.
pub proof fn lemma_cursor_never_leaves_text(state: EditorView, keys: Seq<Key>)
    requires
        state.wf(),
    ensures
        after_keys(state, keys).wf(),
        0 <= after_keys(state, keys).cursor.row < after_keys(state, keys).lines.len(),
        0 <= after_keys(state, keys).cursor.column <= after_keys(state, keys).lines[after_keys(
            state,
            keys,
        ).cursor.row as int].len(),
    decreases keys.len(),
{
    if keys.len() > 0 {
        lemma_cursor_never_leaves_text(state, keys.drop_last());
        lemma_key_keeps_state_valid(after_keys(state, keys.drop_last()), keys.last());
    }
}

/// Breaking a line loses nothing: after Enter in editing mode, the line under
/// the old cursor row and the new line after it, put together, are the line
/// as it was, and every other line is where it was or one row further down.
pub proof fn lemma_break_then_join(state: EditorView)
    requires
        state.wf(),
        state.mode == InputMode::Editing,
        state.lines.len() < usize::MAX,
    ensures
        ({
            let next = state.after_key(Key::Enter);
            let row = state.cursor.row as int;
            &&& next.lines == split_at(state.lines, row, state.cursor.column as int)
            &&& next.lines.len() == state.lines.len() + 1
            &&& next.lines[row] + next.lines[row + 1] == state.lines[row]
            &&& next.lines.remove(row + 1).update(row, next.lines[row] + next.lines[row + 1])
                == state.lines
            &&& next.cursor.row == row + 1
            &&& next.cursor.column == 0
            &&& next.pending == next.lines[row + 1]
        }),
{
    let next = state.after_key(Key::Enter);
    let row = state.cursor.row as int;
    assert(next.lines =~= split_at(state.lines, row, state.cursor.column as int));
    assert(next.lines[row] + next.lines[row + 1] =~= state.lines[row]);
    assert(next.lines.remove(row + 1).update(row, next.lines[row] + next.lines[row + 1])
        =~= state.lines);
}

/// Typing a character and then pressing Backspace undoes the typing: the
/// line, the working copy and the cursor are as they were before.
pub proof fn lemma_type_then_erase(state: EditorView, c: char)
    requires
        state.wf(),
        state.mode == InputMode::Editing,
        is_printable(c),
        state.pending.len() < usize::MAX,
    ensures
        state.after_key(Key::Char(c)).after_key(Key::Backspace) == (EditorView {
            notice: Notice::Clear,
            ..state
        }),
{
    let typed = state.after_key(Key::Char(c));
    let back = typed.after_key(Key::Backspace);
    assert(back.pending =~= state.pending);
    assert(back.lines =~= state.lines);
}

} // verus!
