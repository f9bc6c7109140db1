//! The text buffer: the lines being edited, never fewer than one.

use crate::error::EditorError;
use crate::lines::{
    all_without_line_feed, concat_lines, join_lines, lemma_join_split, lemma_split_lines_shape,
    lines_view, split_lines, storable, LINE_FEED,
};
use vstd::prelude::*;

verus! {

/// Cuts the contents of a file into lines at every line feed.
///
/// An empty file is a single empty line, and a file that ends in a line feed
/// ends in an empty line. A carriage return before a line feed stays at the
/// end of its line. There is always at least one line, no line holds a line
/// feed, and the lines joined by line feeds are the file.
pub fn load(raw: &[u8]) -> (lines: Vec<Vec<u8>>)
    ensures
        lines_view(lines@) == split_lines(raw@),
        lines@.len() >= 1,
        all_without_line_feed(lines_view(lines@)),
        join_lines(lines_view(lines@)) == raw@,
{
    let mut lines: Vec<Vec<u8>> = Vec::new();
    let mut current: Vec<u8> = Vec::new();
    let mut i: usize = 0;
    while i < raw.len()
        invariant
            i <= raw.len(),
            lines_view(lines@).push(current@) == split_lines(raw@.take(i as int)),
        decreases raw.len() - i,
    {
        let byte: u8 = raw[i];
        proof {
            let seen = raw@.take(i as int + 1);
            assert(seen.drop_last() =~= raw@.take(i as int));
            assert(seen.last() == byte);
        }
        let ghost done = lines_view(lines@);
        let ghost open = current@;
        if byte == LINE_FEED {
            lines.push(current);
            current = Vec::new();
            assert(lines_view(lines@) =~= done.push(open));
        } else {
            current.push(byte);
            assert(lines_view(lines@).push(current@) =~= done.push(open).drop_last().push(
                open.push(byte),
            ));
        }
        i += 1;
    }
    assert(raw@.take(i as int) =~= raw@);
    let ghost done = lines_view(lines@);
    lines.push(current);
    assert(lines_view(lines@) =~= done.push(current@));
    proof {
        lemma_split_lines_shape(raw@);
        lemma_join_split(raw@);
    }
    lines
}

/// Puts the lines one after the other, with nothing between them.
///
/// The line feeds that `load` cut at are not written back: lines that came
/// from a file with line feeds run together in the result.
pub fn serialize(lines: &Vec<Vec<u8>>) -> (bytes: Vec<u8>)
    ensures
        bytes@ == concat_lines(lines_view(lines@)),
{
    let mut bytes: Vec<u8> = Vec::new();
    let mut r: usize = 0;
    while r < lines.len()
        invariant
            r <= lines.len(),
            bytes@ == concat_lines(lines_view(lines@).take(r as int)),
        decreases lines.len() - r,
    {
        let line = &lines[r];
        let ghost before = bytes@;
        let mut c: usize = 0;
        while c < line.len()
            invariant
                c <= line.len(),
                bytes@ == before + line@.take(c as int),
            decreases line.len() - c,
        {
            bytes.push(line[c]);
            assert(line@.take(c as int + 1) =~= line@.take(c as int).push(line@[c as int]));
            assert(bytes@ =~= before + line@.take(c as int + 1));
            c += 1;
        }
        proof {
            let sofar = lines_view(lines@).take(r as int + 1);
            assert(line@.take(c as int) =~= line@);
            assert(sofar.drop_last() =~= lines_view(lines@).take(r as int));
            assert(sofar.last() == line@);
        }
        r += 1;
    }
    assert(lines_view(lines@).take(r as int) =~= lines_view(lines@));
    bytes
}

/// The lines under edit. A buffer always holds at least one line: a text
/// without any byte is one empty line.
#[derive(Debug)]
pub struct TextBuffer {
    lines: Vec<Vec<u8>>,
}

impl View for TextBuffer {
    type V = Seq<Seq<u8>>;

    /// The lines, each by its bytes.
    closed spec fn view(&self) -> Seq<Seq<u8>> {
        lines_view(self.lines@)
    }
}

/// The line at `row` cut in two at byte offset `column`: its first `column`
/// bytes stay at `row`, the others become the line after it.
pub open spec fn split_at(lines: Seq<Seq<u8>>, row: int, column: int) -> Seq<Seq<u8>> {
    lines.update(row, lines[row].take(column)).insert(row + 1, lines[row].skip(column))
}

impl TextBuffer {
    /// The buffer holds at least one line.
    pub open spec fn wf(&self) -> bool {
        self@.len() >= 1
    }

    /// Every buffer is small enough to be held in memory.
    pub proof fn lemma_storable(&self)
        ensures
            storable(self@),
    {
        assert forall|r: int| 0 <= r < self@.len() implies (#[trigger] self@[r]).len()
            <= usize::MAX by {
            assert(self@[r].len() == self.lines@[r].len());
        }
        assert(self@.len() == self.lines.len());
    }

    /// The buffer of an empty text: one empty line.
    pub fn new() -> (buffer: TextBuffer)
        ensures
            buffer.wf(),
            buffer@ == seq![Seq::<u8>::empty()],
    {
        let mut lines: Vec<Vec<u8>> = Vec::new();
        lines.push(Vec::new());
        let buffer = TextBuffer { lines };
        assert(buffer@ =~= seq![Seq::<u8>::empty()]);
        buffer
    }

    /// The buffer that holds `lines`; if there is none, one empty line.
    pub fn from_lines(lines: Vec<Vec<u8>>) -> (buffer: TextBuffer)
        ensures
            buffer.wf(),
            lines@.len() > 0 ==> buffer@ == lines_view(lines@),
            lines@.len() == 0 ==> buffer@ == seq![Seq::<u8>::empty()],
    {
        if lines.len() == 0 {
            TextBuffer::new()
        } else {
            TextBuffer { lines }
        }
    }

    /// The lines of the buffer, first to last.
    pub fn lines(&self) -> (lines: &Vec<Vec<u8>>)
        ensures
            lines_view(lines@) == self@,
    {
        &self.lines
    }

    /// How many lines the buffer holds.
    pub fn line_count(&self) -> (count: usize)
        ensures
            count == self@.len(),
    {
        self.lines.len()
    }

    /// The line at `row`, or `IndexError` if the buffer has no such row.
    pub fn line(&self, row: usize) -> (found: Result<&Vec<u8>, EditorError>)
        ensures
            match found {
                Ok(line) => row < self@.len() && line@ == self@[row as int],
                Err(error) => row >= self@.len() && error == EditorError::IndexError,
            },
    {
        if row < self.lines.len() {
            Ok(&self.lines[row])
        } else {
            Err(EditorError::IndexError)
        }
    }

    /// Puts `new_bytes` in place of the line at `row`. Fails with
    /// `IndexError`, and changes nothing, if the buffer has no such row.
    pub fn replace_line(&mut self, row: usize, new_bytes: Vec<u8>) -> (done: Result<
        (),
        EditorError,
    >)
        ensures
            match done {
                Ok(()) => row < old(self)@.len() && final(self)@ == old(self)@.update(
                    row as int,
                    new_bytes@,
                ),
                Err(error) => row >= old(self)@.len() && error == EditorError::IndexError
                    && final(self)@ == old(self)@,
            },
            old(self).wf() ==> final(self).wf(),
    {
        if row < self.lines.len() {
            self.lines[row] = new_bytes;
            assert(self@ =~= old(self)@.update(row as int, new_bytes@));
            Ok(())
        } else {
            Err(EditorError::IndexError)
        }
    }

    /// Cuts the line at `row` in two at byte offset `at_column`: the line
    /// keeps its first `at_column` bytes and the others become a new line
    /// right after it. Returns the two parts. Fails with `IndexError`, and
    /// changes nothing, if the buffer has no such row or the line is shorter
    /// than `at_column`. The two parts, put together again, are the line as
    /// it was.
    pub fn split_line(&mut self, row: usize, at_column: usize) -> (parts: Result<
        (Vec<u8>, Vec<u8>),
        EditorError,
    >)
        ensures
            match parts {
                Ok((left, right)) => {
                    &&& row < old(self)@.len()
                    &&& at_column <= old(self)@[row as int].len()
                    &&& left@ == old(self)@[row as int].take(at_column as int)
                    &&& right@ == old(self)@[row as int].skip(at_column as int)
                    &&& left@ + right@ == old(self)@[row as int]
                    &&& final(self)@ == split_at(old(self)@, row as int, at_column as int)
                },
                Err(error) => {
                    &&& !(row < old(self)@.len() && at_column <= old(self)@[row as int].len())
                    &&& error == EditorError::IndexError
                    &&& final(self)@ == old(self)@
                },
            },
            old(self).wf() ==> final(self).wf(),
    {
        if row >= self.lines.len() {
            return Err(EditorError::IndexError);
        }
        if at_column > self.lines[row].len() {
            return Err(EditorError::IndexError);
        }
        let right = self.lines[row].split_off(at_column);
        let left = self.lines[row].clone();
        let tail = right.clone();
        self.lines.insert(row + 1, tail);
        assert(self@ =~= split_at(old(self)@, row as int, at_column as int));
        assert(left@ + right@ =~= old(self)@[row as int]);
        Ok((left, right))
    }

    /// Puts `bytes` into the buffer as a new line at `row`; the lines from
    /// `row` on move down by one. Fails with `IndexError`, and changes
    /// nothing, if `row` is larger than the number of lines.
    pub fn insert_line(&mut self, row: usize, bytes: Vec<u8>) -> (done: Result<(), EditorError>)
        ensures
            match done {
                Ok(()) => row <= old(self)@.len() && final(self)@ == old(self)@.insert(
                    row as int,
                    bytes@,
                ),
                Err(error) => row > old(self)@.len() && error == EditorError::IndexError
                    && final(self)@ == old(self)@,
            },
            old(self).wf() ==> final(self).wf(),
    {
        if row <= self.lines.len() {
            self.lines.insert(row, bytes);
            assert(self@ =~= old(self)@.insert(row as int, bytes@));
            Ok(())
        } else {
            Err(EditorError::IndexError)
        }
    }

    /// Takes the line at `row` out of the buffer and returns it; the lines
    /// after it move up by one. Fails with `IndexError`, and changes nothing,
    /// if the buffer has no such row or the line is the only one left.
    pub fn remove_line(&mut self, row: usize) -> (removed: Result<Vec<u8>, EditorError>)
        ensures
            match removed {
                Ok(line) => {
                    &&& row < old(self)@.len()
                    &&& old(self)@.len() > 1
                    &&& line@ == old(self)@[row as int]
                    &&& final(self)@ == old(self)@.remove(row as int)
                },
                Err(error) => {
                    &&& !(row < old(self)@.len() && old(self)@.len() > 1)
                    &&& error == EditorError::IndexError
                    &&& final(self)@ == old(self)@
                },
            },
            old(self).wf() ==> final(self).wf(),
    {
        if row < self.lines.len() && self.lines.len() > 1 {
            let line = self.lines.remove(row);
            assert(self@ =~= old(self)@.remove(row as int));
            Ok(line)
        } else {
            Err(EditorError::IndexError)
        }
    }
}

} // verus!
