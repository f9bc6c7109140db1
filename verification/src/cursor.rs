//! The cursor: a byte column and a row in the text buffer.

use crate::lines::storable;
use crate::text_buffer::TextBuffer;
use vstd::prelude::*;

verus! {

/// A position in the buffer. `row` counts lines from 0; `column` counts the
/// bytes of that line from 0, and may be the line's length: the place just
/// behind its last byte, where text is appended.
#[derive(Clone, Copy, Debug, PartialEq, Eq, Structural)]
pub struct Cursor {
    pub column: usize,
    pub row: usize,
}

/// The position in `lines` nearest to (`column`, `row`): a row past the last
/// line becomes the last line, and a column past the end of that line becomes
/// the line's length.
pub open spec fn clamped(column: int, row: int, lines: Seq<Seq<u8>>) -> Cursor
    recommends
        0 <= column,
        0 <= row,
        lines.len() >= 1,
{
    let r = if row < lines.len() {
        row
    } else {
        lines.len() - 1
    };
    let c = if column <= lines[r].len() {
        column
    } else {
        lines[r].len() as int
    };
    Cursor { column: c as usize, row: r as usize }
}

/// One byte to the left; at column 0 the cursor stays.
pub open spec fn moved_left(cursor: Cursor, lines: Seq<Seq<u8>>) -> Cursor {
    clamped(
        if cursor.column > 0 {
            cursor.column - 1
        } else {
            0
        },
        cursor.row as int,
        lines,
    )
}

/// One byte to the right; at the end of the line the cursor stays.
pub open spec fn moved_right(cursor: Cursor, lines: Seq<Seq<u8>>) -> Cursor {
    clamped(cursor.column + 1, cursor.row as int, lines)
}

/// One line up, the column cut to the length of that line; on the first line
/// the cursor stays.
pub open spec fn moved_up(cursor: Cursor, lines: Seq<Seq<u8>>) -> Cursor {
    clamped(
        cursor.column as int,
        if cursor.row > 0 {
            cursor.row - 1
        } else {
            0
        },
        lines,
    )
}

/// One line down, the column cut to the length of that line; on the last line
/// the cursor stays.
pub open spec fn moved_down(cursor: Cursor, lines: Seq<Seq<u8>>) -> Cursor {
    clamped(cursor.column as int, cursor.row + 1, lines)
}

impl Cursor {
    /// The cursor points into `lines`: at one of its rows, and at a byte of
    /// that line or just behind its last one.
    pub open spec fn valid_in(&self, lines: Seq<Seq<u8>>) -> bool {
        self.row < lines.len() && self.column <= lines[self.row as int].len()
    }

    /// The cursor at the first byte of the first line.
    pub fn new() -> (cursor: Cursor)
        ensures
            cursor == (Cursor { column: 0, row: 0 }),
    {
        Cursor { column: 0, row: 0 }
    }

    /// Puts the cursor at (`column`, `row`), or at the nearest position that
    /// the buffer has.
    pub fn set_position(&mut self, column: usize, row: usize, buffer: &TextBuffer)
        requires
            buffer.wf(),
        ensures
            *final(self) == clamped(column as int, row as int, buffer@),
            final(self).valid_in(buffer@),
    {
        let count: usize = buffer.line_count();
        let r: usize = if row < count {
            row
        } else {
            count - 1
        };
        if let Ok(line) = buffer.line(r) {
            let length: usize = line.len();
            self.row = r;
            self.column = if column <= length {
                column
            } else {
                length
            };
        }
    }

    /// Moves one byte to the left. At column 0 the cursor stays where it is.
    pub fn move_left(&mut self, buffer: &TextBuffer)
        requires
            buffer.wf(),
        ensures
            *final(self) == moved_left(*old(self), buffer@),
            final(self).valid_in(buffer@),
    {
        let column: usize = if self.column > 0 {
            self.column - 1
        } else {
            0
        };
        let row: usize = self.row;
        self.set_position(column, row, buffer);
    }

    /// Moves one byte to the right. At the end of the line the cursor stays
    /// where it is.
    pub fn move_right(&mut self, buffer: &TextBuffer)
        requires
            buffer.wf(),
        ensures
            *final(self) == moved_right(*old(self), buffer@),
            final(self).valid_in(buffer@),
    {
        let column: usize = if self.column < usize::MAX {
            self.column + 1
        } else {
            self.column
        };
        let row: usize = self.row;
        proof {
            buffer.lemma_storable();
        }
        self.set_position(column, row, buffer);
    }

    /// Moves one line up and cuts the column to that line's length. On the
    /// first line the cursor stays where it is.
    pub fn move_up(&mut self, buffer: &TextBuffer)
        requires
            buffer.wf(),
        ensures
            *final(self) == moved_up(*old(self), buffer@),
            final(self).valid_in(buffer@),
    {
        let row: usize = if self.row > 0 {
            self.row - 1
        } else {
            0
        };
        let column: usize = self.column;
        self.set_position(column, row, buffer);
    }

    /// Moves one line down and cuts the column to that line's length. On the
    /// last line the cursor stays where it is.
    pub fn move_down(&mut self, buffer: &TextBuffer)
        requires
            buffer.wf(),
        ensures
            *final(self) == moved_down(*old(self), buffer@),
            final(self).valid_in(buffer@),
    {
        let row: usize = if self.row < usize::MAX {
            self.row + 1
        } else {
            self.row
        };
        let column: usize = self.column;
        proof {
            buffer.lemma_storable();
        }
        self.set_position(column, row, buffer);
    }
}

/// The four moves saturate: a cursor that points into `lines` stays where it
/// is when it is asked to leave the line or the buffer, and otherwise moves
/// by exactly one column or one row; after a move to another row the column
/// is the old one, or the length of the new line where that is less.
pub proof fn lemma_moves_saturate(cursor: Cursor, lines: Seq<Seq<u8>>)
    requires
        storable(lines),
        cursor.valid_in(lines),
    ensures
        cursor.column == 0 ==> moved_left(cursor, lines) == cursor,
        cursor.column > 0 ==> moved_left(cursor, lines) == (Cursor {
            column: (cursor.column - 1) as usize,
            row: cursor.row,
        }),
        cursor.column == lines[cursor.row as int].len() ==> moved_right(cursor, lines) == cursor,
        cursor.column < lines[cursor.row as int].len() ==> moved_right(cursor, lines) == (Cursor {
            column: (cursor.column + 1) as usize,
            row: cursor.row,
        }),
        cursor.row == 0 ==> moved_up(cursor, lines) == cursor,
        cursor.row > 0 ==> moved_up(cursor, lines) == clamped(
            cursor.column as int,
            cursor.row - 1,
            lines,
        ) && moved_up(cursor, lines).row == cursor.row - 1,
        cursor.row == lines.len() - 1 ==> moved_down(cursor, lines) == cursor,
        cursor.row < lines.len() - 1 ==> moved_down(cursor, lines) == clamped(
            cursor.column as int,
            cursor.row + 1,
            lines,
        ) && moved_down(cursor, lines).row == cursor.row + 1,
{
}

/// A move never takes the cursor out of the buffer, wherever it started.
pub proof fn lemma_moves_stay_inside(cursor: Cursor, lines: Seq<Seq<u8>>)
    requires
        storable(lines),
        lines.len() >= 1,
    ensures
        moved_left(cursor, lines).valid_in(lines),
        moved_right(cursor, lines).valid_in(lines),
        moved_up(cursor, lines).valid_in(lines),
        moved_down(cursor, lines).valid_in(lines),
{
}

} // verus!
