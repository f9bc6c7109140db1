//! The editor's state and its two modes.
//!
//! The editor is a state machine that is driven from outside: the caller
//! waits for a key press, hands it to [`CustomEditorState::handle_key`], and
//! carries out the [`Action`] that comes back. In normal mode keys move the
//! cursor, save or quit; in editing mode they change the line under the
//! cursor.

use crate::cursor::{moved_down, moved_left, moved_right, moved_up, Cursor};
use crate::editor_core::file_handler::FileHandler;
use crate::encoding::{all_valid_text, first_invalid, lemma_first_invalid_unique};
use crate::error::EditorError;
use crate::lines::{concat_lines, lines_view, storable};
use crate::text_buffer::TextBuffer;
use vstd::prelude::*;

verus! {

/// The two modes of the editor.
#[derive(Clone, Copy, Debug, PartialEq, Eq, Structural)]
pub enum InputMode {
    /// Keys move the cursor, save or quit; none of them changes the text.
    Normal,
    /// Keys change the line under the cursor.
    Editing,
}

/// One key press.
#[derive(Clone, Copy, Debug, PartialEq, Eq, Structural)]
pub enum Key {
    /// A key that stands for a character.
    Char(char),
    Enter,
    Backspace,
    Esc,
    /// Any other key; the editor ignores it.
    Other,
}

/// What the editor has to tell the user about the last thing it was asked to
/// do. It is shown in the status line and never ends the session.
#[derive(Clone, Copy, Debug, PartialEq, Eq, Structural)]
pub enum Notice {
    /// Nothing to tell.
    Clear,
    /// The text was written to the file.
    Saved,
    /// A save was asked for, but the session is bound to no file.
    NoFile,
    /// The save did not go through.
    Failed(EditorError),
}

/// What the caller has to do after a key press.
#[derive(Debug)]
pub enum Action {
    /// Nothing; go on with the next key.
    Continue,
    /// End the session. Changes that were not saved are lost.
    Quit,
    /// Replace the whole contents of the file at `path` by `bytes`, then
    /// report with [`CustomEditorState::save_finished`] how that went.
    Write { path: String, bytes: Vec<u8> },
}

/// An [`Action`], with the path and the bytes to write as sequences.
pub enum ActionView {
    Continue,
    Quit,
    Write { path: Seq<char>, bytes: Seq<u8> },
}

impl View for Action {
    type V = ActionView;

    open spec fn view(&self) -> ActionView {
        match self {
            Action::Continue => ActionView::Continue,
            Action::Quit => ActionView::Quit,
            Action::Write { path, bytes } => ActionView::Write { path: path@, bytes: bytes@ },
        }
    }
}

/// The characters that editing mode puts into the text: the printable ASCII
/// characters, from the space to the tilde. Each takes one byte and one
/// column.
pub open spec fn is_printable(c: char) -> bool {
    ' ' <= c && c <= '~'
}

/// The editor's state as mathematics.
pub struct EditorView {
    /// The lines of the text buffer.
    pub lines: Seq<Seq<u8>>,
    pub cursor: Cursor,
    pub mode: InputMode,
    /// The working copy of the line under edit; empty in normal mode.
    pub pending: Seq<u8>,
    /// The file the session is bound to, if any.
    pub file: Option<FileHandler>,
    pub notice: Notice,
}

impl EditorView {
    /// What holds of every state of the editor: there is at least one line,
    /// the cursor points into the text, and in editing mode the working copy
    /// is the line under the cursor.
    pub open spec fn wf(self) -> bool {
        &&& self.lines.len() >= 1
        &&& storable(self.lines)
        &&& self.cursor.valid_in(self.lines)
        &&& match self.mode {
            InputMode::Normal => self.pending == Seq::<u8>::empty(),
            InputMode::Editing => self.pending == self.lines[self.cursor.row as int],
        }
    }

    /// The cursor is at `cursor`.
    pub open spec fn with_cursor(self, cursor: Cursor) -> EditorView {
        EditorView { cursor, notice: Notice::Clear, ..self }
    }

    /// Editing mode is entered on the line under the cursor, which becomes
    /// the working copy.
    pub open spec fn editing_started(self) -> EditorView {
        EditorView {
            mode: InputMode::Editing,
            pending: self.lines[self.cursor.row as int],
            notice: Notice::Clear,
            ..self
        }
    }

    /// Editing mode is left: the working copy is the line under the cursor
    /// and is then dropped.
    pub open spec fn editing_stopped(self) -> EditorView {
        EditorView {
            mode: InputMode::Normal,
            lines: self.lines.update(self.cursor.row as int, self.pending),
            pending: Seq::<u8>::empty(),
            notice: Notice::Clear,
            ..self
        }
    }

    /// `byte` is put into the working copy at the cursor, the cursor moves
    /// behind it, and the buffer's line follows the working copy.
    pub open spec fn typed(self, byte: u8) -> EditorView {
        let pending = self.pending.insert(self.cursor.column as int, byte);
        EditorView {
            pending,
            lines: self.lines.update(self.cursor.row as int, pending),
            cursor: Cursor { column: (self.cursor.column + 1) as usize, row: self.cursor.row },
            notice: Notice::Clear,
            ..self
        }
    }

    /// The byte before the cursor is taken out of the working copy, the
    /// cursor moves onto its place, and the buffer's line follows the working
    /// copy.
    pub open spec fn erased(self) -> EditorView {
        let pending = self.pending.remove(self.cursor.column - 1);
        EditorView {
            pending,
            lines: self.lines.update(self.cursor.row as int, pending),
            cursor: Cursor { column: (self.cursor.column - 1) as usize, row: self.cursor.row },
            notice: Notice::Clear,
            ..self
        }
    }

    /// The working copy is cut in two at the cursor: what is before the
    /// cursor stays as the line under it, what is behind becomes a new line
    /// right after, and editing goes on at the start of that new line.
    pub open spec fn line_broken(self) -> EditorView {
        let left = self.pending.take(self.cursor.column as int);
        let right = self.pending.skip(self.cursor.column as int);
        EditorView {
            pending: right,
            lines: self.lines.update(self.cursor.row as int, left).insert(
                self.cursor.row + 1,
                right,
            ),
            cursor: Cursor { column: 0, row: (self.cursor.row + 1) as usize },
            notice: Notice::Clear,
            ..self
        }
    }

    /// Whether a request to save leads to a write: there is a file, and every
    /// line is valid text.
    pub open spec fn can_save(self) -> bool {
        self.file is Some && all_valid_text(self.lines)
    }

    /// A save was asked for. Nothing changes but the notice, which says why
    /// no write will follow, if none will.
    pub open spec fn save_requested(self) -> EditorView {
        EditorView {
            notice: if self.file is None {
                Notice::NoFile
            } else if all_valid_text(self.lines) {
                Notice::Clear
            } else {
                Notice::Failed(EditorError::EncodingError { row: first_invalid(self.lines) as usize })
            },
            ..self
        }
    }

    /// The write that followed a save request has ended with `outcome`.
    pub open spec fn save_reported(self, outcome: Result<(), EditorError>) -> EditorView {
        EditorView {
            notice: match outcome {
                Ok(()) => Notice::Saved,
                Err(error) => Notice::Failed(error),
            },
            ..self
        }
    }

    /// The state after `key` was pressed.
    ///
    /// In normal mode `e` starts editing, `h`, `l`, `j` and `k` move the
    /// cursor, and `w` asks for a save; `q` and every other key leave the
    /// state as it is. In editing mode a printable character is typed,
    /// Backspace erases, Enter breaks the line and Esc stops editing; every
    /// other key, Backspace at the start of the line, a character for a line
    /// that is as long as the machine can count, and Enter in a text of as
    /// many lines as the machine can count leave the state as it is.
    pub open spec fn after_key(self, key: Key) -> EditorView {
        match self.mode {
            InputMode::Normal => match key {
                Key::Char(c) => if c == 'e' {
                    self.editing_started()
                } else if c == 'h' {
                    self.with_cursor(moved_left(self.cursor, self.lines))
                } else if c == 'l' {
                    self.with_cursor(moved_right(self.cursor, self.lines))
                } else if c == 'j' {
                    self.with_cursor(moved_down(self.cursor, self.lines))
                } else if c == 'k' {
                    self.with_cursor(moved_up(self.cursor, self.lines))
                } else if c == 'w' {
                    self.save_requested()
                } else {
                    self
                },
                _ => self,
            },
            InputMode::Editing => match key {
                Key::Char(c) => if is_printable(c) && self.pending.len() < usize::MAX {
                    self.typed(c as u8)
                } else {
                    self
                },
                Key::Backspace => if self.cursor.column > 0 {
                    self.erased()
                } else {
                    self
                },
                Key::Enter => if self.lines.len() < usize::MAX {
                    self.line_broken()
                } else {
                    self
                },
                Key::Esc => self.editing_stopped(),
                Key::Other => self,
            },
        }
    }

    /// What a save request asks the caller to do: to write the lines, one
    /// after the other, to the bound file if there is one and every line is
    /// valid text, and nothing otherwise.
    pub open spec fn save_action(self) -> ActionView {
        if self.can_save() {
            ActionView::Write { path: self.file->0.path(), bytes: concat_lines(self.lines) }
        } else {
            ActionView::Continue
        }
    }

    /// What the caller has to do after `key` was pressed.
    pub open spec fn action_for(self, key: Key) -> ActionView {
        if self.mode == InputMode::Normal && key == Key::Char('q') {
            ActionView::Quit
        } else if self.mode == InputMode::Normal && key == Key::Char('w') {
            self.save_action()
        } else {
            ActionView::Continue
        }
    }
}

/// The state of an editing session: the text, the cursor, the mode, and the
/// file the session is bound to.
#[derive(Debug)]
pub struct CustomEditorState {
    /// The working copy of the line under edit.
    input: Vec<u8>,
    input_mode: InputMode,
    buffer: TextBuffer,
    cursor: Cursor,
    file_handler: Option<FileHandler>,
    notice: Notice,
}

impl View for CustomEditorState {
    type V = EditorView;

    closed spec fn view(&self) -> EditorView {
        EditorView {
            lines: self.buffer@,
            cursor: self.cursor,
            mode: self.input_mode,
            pending: self.input@,
            file: self.file_handler,
            notice: self.notice,
        }
    }
}

impl Default for CustomEditorState {
    /// The session that starts without a file; see [`CustomEditorState::new`].
    fn default() -> (state: CustomEditorState)
        ensures
            state.wf(),
            state@ == (EditorView {
                lines: seq![Seq::<u8>::empty()],
                cursor: Cursor { column: 0, row: 0 },
                mode: InputMode::Normal,
                pending: Seq::<u8>::empty(),
                file: None,
                notice: Notice::Clear,
            }),
    {
        CustomEditorState::new()
    }
}

impl CustomEditorState {
    /// The state is one the editor can be in; see [`EditorView::wf`].
    pub open spec fn wf(&self) -> bool {
        self@.wf()
    }

    /// The session that starts without a file: one empty line, the cursor at
    /// its start, normal mode, bound to nothing.
    pub fn new() -> (state: CustomEditorState)
        ensures
            state.wf(),
            state@ == (EditorView {
                lines: seq![Seq::<u8>::empty()],
                cursor: Cursor { column: 0, row: 0 },
                mode: InputMode::Normal,
                pending: Seq::<u8>::empty(),
                file: None,
                notice: Notice::Clear,
            }),
    {
        let buffer = TextBuffer::new();
        proof {
            buffer.lemma_storable();
        }
        CustomEditorState {
            input: Vec::new(),
            input_mode: InputMode::Normal,
            buffer,
            cursor: Cursor::new(),
            file_handler: None,
            notice: Notice::Clear,
        }
    }

    /// The session on a file that was read: its lines in `buffer` (a file
    /// without any line counts as one empty line), the cursor at the start,
    /// normal mode, bound to `fd`.
    pub fn from(buffer: Vec<Vec<u8>>, fd: FileHandler) -> (state: CustomEditorState)
        ensures
            state.wf(),
            state@ == (EditorView {
                lines: if buffer@.len() == 0 {
                    seq![Seq::<u8>::empty()]
                } else {
                    lines_view(buffer@)
                },
                cursor: Cursor { column: 0, row: 0 },
                mode: InputMode::Normal,
                pending: Seq::<u8>::empty(),
                file: Some(fd),
                notice: Notice::Clear,
            }),
    {
        let buffer = TextBuffer::from_lines(buffer);
        proof {
            buffer.lemma_storable();
        }
        CustomEditorState {
            input: Vec::new(),
            input_mode: InputMode::Normal,
            buffer,
            cursor: Cursor::new(),
            file_handler: Some(fd),
            notice: Notice::Clear,
        }
    }

    /// The mode the editor is in.
    pub fn mode(&self) -> (mode: InputMode)
        ensures
            mode == self@.mode,
    {
        self.input_mode
    }

    /// Where the cursor is.
    pub fn cursor(&self) -> (cursor: Cursor)
        ensures
            cursor == self@.cursor,
    {
        self.cursor
    }

    /// The text buffer.
    pub fn buffer(&self) -> (buffer: &TextBuffer)
        ensures
            buffer@ == self@.lines,
    {
        &self.buffer
    }

    /// The working copy of the line under edit; empty in normal mode.
    pub fn input(&self) -> (input: &Vec<u8>)
        ensures
            input@ == self@.pending,
    {
        &self.input
    }

    /// The file the session is bound to, if any.
    pub fn file_handler(&self) -> (handler: Option<&FileHandler>)
        ensures
            match handler {
                Some(handler) => self@.file == Some(*handler),
                None => self@.file is None,
            },
    {
        self.file_handler.as_ref()
    }

    /// What the editor has to tell the user.
    pub fn notice(&self) -> (notice: Notice)
        ensures
            notice == self@.notice,
    {
        self.notice
    }

    /// Takes one key press: changes the state as the mode and the key ask,
    /// and says what the caller has to do next.
    ///
    /// In normal mode `e` starts editing the line under the cursor, `h`, `l`,
    /// `j` and `k` move the cursor left, right, down and up, `w` asks for a
    /// save and `q` for the end of the session. In editing mode a printable
    /// character is put in at the cursor, Backspace takes out the byte before
    /// it, Enter breaks the line there and Esc goes back to normal mode.
    /// Every other key is ignored.
    pub fn handle_key(&mut self, key: Key) -> (action: Action)
        requires
            old(self).wf(),
        ensures
            final(self).wf(),
            final(self)@ == old(self)@.after_key(key),
            action@ == old(self)@.action_for(key),
    {
        match self.input_mode {
            InputMode::Normal => match key {
                Key::Char(c) => self.command(c),
                _ => Action::Continue,
            },
            InputMode::Editing => {
                match key {
                    Key::Char(c) => self.type_char(c),
                    Key::Backspace => self.erase(),
                    Key::Enter => self.break_line(),
                    Key::Esc => self.stop_editing(),
                    Key::Other => {},
                }
                Action::Continue
            },
        }
    }

    /// Records how the write went that a save request led to: the buffer is
    /// saved, or the save failed with `outcome`'s error. Either way the
    /// session goes on, and a failed save can be asked for again.
    pub fn save_finished(&mut self, outcome: Result<(), EditorError>)
        requires
            old(self).wf(),
        ensures
            final(self).wf(),
            final(self)@ == old(self)@.save_reported(outcome),
    {
        self.notice = match outcome {
            Ok(()) => Notice::Saved,
            Err(error) => Notice::Failed(error),
        };
    }

    /// A character key in normal mode.
    fn command(&mut self, c: char) -> (action: Action)
        requires
            old(self).wf(),
            old(self)@.mode == InputMode::Normal,
        ensures
            final(self).wf(),
            final(self)@ == old(self)@.after_key(Key::Char(c)),
            action@ == old(self)@.action_for(Key::Char(c)),
    {
        if c == 'e' {
            if let Ok(line) = self.buffer.line(self.cursor.row) {
                self.input = line.clone();
                self.input_mode = InputMode::Editing;
                self.notice = Notice::Clear;
            }
            Action::Continue
        } else if c == 'h' {
            self.cursor.move_left(&self.buffer);
            self.notice = Notice::Clear;
            Action::Continue
        } else if c == 'l' {
            self.cursor.move_right(&self.buffer);
            self.notice = Notice::Clear;
            Action::Continue
        } else if c == 'j' {
            self.cursor.move_down(&self.buffer);
            self.notice = Notice::Clear;
            Action::Continue
        } else if c == 'k' {
            self.cursor.move_up(&self.buffer);
            self.notice = Notice::Clear;
            Action::Continue
        } else if c == 'w' {
            self.request_save()
        } else if c == 'q' {
            Action::Quit
        } else {
            Action::Continue
        }
    }

    /// The save key: hands out the bytes to write, or notes why there are
    /// none.
    fn request_save(&mut self) -> (action: Action)
        requires
            old(self).wf(),
        ensures
            final(self).wf(),
            final(self)@ == old(self)@.save_requested(),
            action@ == old(self)@.save_action(),
    {
        match &self.file_handler {
            None => {
                self.notice = Notice::NoFile;
                Action::Continue
            },
            Some(handler) => match handler.write_lined_buffer(self.buffer.lines()) {
                Ok(bytes) => {
                    let path = handler.file_name().to_owned();
                    self.notice = Notice::Clear;
                    Action::Write { path, bytes }
                },
                Err(error) => {
                    proof {
                        if let EditorError::EncodingError { row } = error {
                            lemma_first_invalid_unique(self.buffer@, row as int);
                        }
                    }
                    self.notice = Notice::Failed(error);
                    Action::Continue
                },
            },
        }
    }

    /// A character key in editing mode.
    fn type_char(&mut self, c: char)
        requires
            old(self).wf(),
            old(self)@.mode == InputMode::Editing,
        ensures
            final(self).wf(),
            final(self)@ == old(self)@.after_key(Key::Char(c)),
    {
        if ' ' <= c && c <= '~' && self.input.len() < usize::MAX {
            let byte: u8 = c as u8;
            let column: usize = self.cursor.column;
            let row: usize = self.cursor.row;
            self.input.insert(column, byte);
            let line = self.input.clone();
            let _ = self.buffer.replace_line(row, line);
            self.cursor.column = column + 1;
            self.notice = Notice::Clear;
            proof {
                self.buffer.lemma_storable();
            }
        }
    }

    /// Backspace in editing mode.
    fn erase(&mut self)
        requires
            old(self).wf(),
            old(self)@.mode == InputMode::Editing,
        ensures
            final(self).wf(),
            final(self)@ == old(self)@.after_key(Key::Backspace),
    {
        if self.cursor.column > 0 {
            let column: usize = self.cursor.column - 1;
            let row: usize = self.cursor.row;
            self.input.remove(column);
            let line = self.input.clone();
            let _ = self.buffer.replace_line(row, line);
            self.cursor.column = column;
            self.notice = Notice::Clear;
            proof {
                self.buffer.lemma_storable();
            }
        }
    }

    /// Enter in editing mode.
    fn break_line(&mut self)
        requires
            old(self).wf(),
            old(self)@.mode == InputMode::Editing,
        ensures
            final(self).wf(),
            final(self)@ == old(self)@.after_key(Key::Enter),
    {
        if self.buffer.line_count() < usize::MAX {
            let column: usize = self.cursor.column;
            let row: usize = self.cursor.row;
            if let Ok((_, right)) = self.buffer.split_line(row, column) {
                self.input = right;
                self.cursor = Cursor { column: 0, row: row + 1 };
                self.notice = Notice::Clear;
                proof {
                    self.buffer.lemma_storable();
                }
            }
        }
    }

    /// Esc in editing mode.
    fn stop_editing(&mut self)
        requires
            old(self).wf(),
            old(self)@.mode == InputMode::Editing,
        ensures
            final(self).wf(),
            final(self)@ == old(self)@.after_key(Key::Esc),
    {
        let mut line: Vec<u8> = Vec::new();
        core::mem::swap(&mut self.input, &mut line);
        let row: usize = self.cursor.row;
        let _ = self.buffer.replace_line(row, line);
        self.input_mode = InputMode::Normal;
        self.notice = Notice::Clear;
        proof {
            self.buffer.lemma_storable();
        }
    }
}

} // verus!
