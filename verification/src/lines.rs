//! Lines of text as byte sequences: how a file's bytes are cut into lines and
//! how lines are put together again.

use vstd::prelude::*;

verus! {

/// The byte that separates two lines of a file.
pub const LINE_FEED: u8 = 0x0A;

/// No byte of `line` is a line feed.
pub open spec fn no_line_feed(line: Seq<u8>) -> bool {
    forall|i: int| 0 <= i < line.len() ==> line[i] != LINE_FEED
}

/// No line of `lines` holds a line feed.
pub open spec fn all_without_line_feed(lines: Seq<Seq<u8>>) -> bool {
    forall|r: int| 0 <= r < lines.len() ==> no_line_feed(#[trigger] lines[r])
}

/// The number of lines and the length of every line fit in a `usize`, as they
/// do for every text that is held in memory.
pub open spec fn storable(lines: Seq<Seq<u8>>) -> bool {
    &&& lines.len() <= usize::MAX
    &&& forall|r: int| 0 <= r < lines.len() ==> (#[trigger] lines[r]).len() <= usize::MAX
}

/// The lines of a file with contents `bytes`.
///
/// The empty file is one empty line. Every line feed closes the line before
/// it and opens a new, empty one; any other byte is appended to the last line.
/// Carriage returns get no special treatment.
pub open spec fn split_lines(bytes: Seq<u8>) -> Seq<Seq<u8>>
    decreases bytes.len(),
{
    if bytes.len() == 0 {
        seq![Seq::<u8>::empty()]
    } else {
        let before = split_lines(bytes.drop_last());
        if bytes.last() == LINE_FEED {
            before.push(Seq::<u8>::empty())
        } else {
            before.drop_last().push(before.last().push(bytes.last()))
        }
    }
}

/// The lines one after the other with a line feed between each two.
pub open spec fn join_lines(lines: Seq<Seq<u8>>) -> Seq<u8>
    decreases lines.len(),
{
    if lines.len() == 0 {
        Seq::<u8>::empty()
    } else if lines.len() == 1 {
        lines[0]
    } else {
        join_lines(lines.drop_last()).push(LINE_FEED) + lines.last()
    }
}

/// The lines one after the other with nothing between them.
pub open spec fn concat_lines(lines: Seq<Seq<u8>>) -> Seq<u8>
    decreases lines.len(),
{
    if lines.len() == 0 {
        Seq::<u8>::empty()
    } else {
        concat_lines(lines.drop_last()) + lines.last()
    }
}

/// The bytes of `bytes` that are not line feeds, in their order.
pub open spec fn without_line_feeds(bytes: Seq<u8>) -> Seq<u8> {
    bytes.filter(|b: u8| b != LINE_FEED)
}

/// The view of a vector of lines: each line by its bytes.
pub open spec fn lines_view(lines: Seq<Vec<u8>>) -> Seq<Seq<u8>> {
    Seq::new(lines.len(), |r: int| lines[r]@)
}

/// Splitting always yields at least one line, and no line holds a line feed.
pub proof fn lemma_split_lines_shape(bytes: Seq<u8>)
    ensures
        split_lines(bytes).len() >= 1,
        all_without_line_feed(split_lines(bytes)),
    decreases bytes.len(),
{
    if bytes.len() > 0 {
        lemma_split_lines_shape(bytes.drop_last());
        let before = split_lines(bytes.drop_last());
        let after = split_lines(bytes);
        assert forall|r: int| 0 <= r < after.len() implies no_line_feed(#[trigger] after[r]) by {
            if r < after.len() - 1 {
                assert(after[r] == before[r]);
            }
        }
    }
}

/// Splitting loses nothing: joining the lines of `bytes` with line feeds
/// gives `bytes` back, whatever `bytes` holds.
pub proof fn lemma_join_split(bytes: Seq<u8>)
    ensures
        join_lines(split_lines(bytes)) == bytes,
    decreases bytes.len(),
{
    if bytes.len() == 0 {
        assert(join_lines(split_lines(bytes)) =~= bytes);
    } else {
        let init = bytes.drop_last();
        lemma_join_split(init);
        lemma_split_lines_shape(init);
        let before = split_lines(init);
        let after = split_lines(bytes);
        if bytes.last() == LINE_FEED {
            assert(after.drop_last() =~= before);
            assert(join_lines(after) =~= bytes);
        } else if before.len() == 1 {
            assert(after =~= seq![before[0].push(bytes.last())]);
            assert(join_lines(after) =~= bytes);
        } else {
            let head = join_lines(before.drop_last()).push(LINE_FEED);
            assert(after.drop_last() =~= before.drop_last());
            assert(join_lines(before) == head + before.last());
            assert(join_lines(after) == head + before.last().push(bytes.last()));
            assert(bytes =~= init.push(bytes.last()));
            assert(head + before.last().push(bytes.last()) =~= (head + before.last()).push(
                bytes.last(),
            ));
        }
    }
}

/// Appending a line without line feeds to a file extends the file's last line
/// and leaves the lines before it alone.
pub proof fn lemma_split_append_line(bytes: Seq<u8>, line: Seq<u8>)
    requires
        no_line_feed(line),
    ensures
        split_lines(bytes + line) == split_lines(bytes).drop_last().push(
            split_lines(bytes).last() + line,
        ),
    decreases line.len(),
{
    lemma_split_lines_shape(bytes);
    let lines = split_lines(bytes);
    if line.len() == 0 {
        assert(bytes + line =~= bytes);
        assert(lines.drop_last().push(lines.last() + line) =~= lines);
    } else {
        let init = line.drop_last();
        lemma_split_append_line(bytes, init);
        assert(line.last() != LINE_FEED);
        assert((bytes + line).drop_last() =~= bytes + init);
        let before = split_lines(bytes + init);
        assert(before.drop_last() =~= lines.drop_last());
        assert(before.last().push(line.last()) =~= lines.last() + line);
    }
}

/// A file without line feeds is a single line.
pub proof fn lemma_split_single_line(line: Seq<u8>)
    requires
        no_line_feed(line),
    ensures
        split_lines(line) == seq![line],
{
    let empty = Seq::<u8>::empty();
    lemma_split_append_line(empty, line);
    assert(empty + line =~= line);
    assert(split_lines(empty).drop_last().push(split_lines(empty).last() + line) =~= seq![line]);
}

/// Splitting undoes joining: a file written as one or more lines without line
/// feeds, a line feed between each two, is read back as those very lines.
pub proof fn lemma_split_join(lines: Seq<Seq<u8>>)
    requires
        lines.len() >= 1,
        all_without_line_feed(lines),
    ensures
        split_lines(join_lines(lines)) == lines,
    decreases lines.len(),
{
    if lines.len() == 1 {
        lemma_split_single_line(lines[0]);
        assert(seq![lines[0]] =~= lines);
    } else {
        let init = lines.drop_last();
        assert forall|r: int| 0 <= r < init.len() implies no_line_feed(#[trigger] init[r]) by {
            assert(init[r] == lines[r]);
        }
        lemma_split_join(init);
        let closed = join_lines(init).push(LINE_FEED);
        assert(closed.drop_last() =~= join_lines(init));
        assert(split_lines(closed) == init.push(Seq::<u8>::empty()));
        lemma_split_append_line(closed, lines.last());
        assert(init.push(Seq::<u8>::empty()).drop_last().push(
            Seq::<u8>::empty() + lines.last(),
        ) =~= lines);
    }
}

/// What is lost when lines are written with nothing between them: the lines
/// of a file, put one after the other, are the file without its line feeds.
pub proof fn lemma_concat_split(bytes: Seq<u8>)
    ensures
        concat_lines(split_lines(bytes)) == without_line_feeds(bytes),
    decreases bytes.len(),
{
    reveal(Seq::filter);
    if bytes.len() == 0 {
        let lines = split_lines(bytes);
        assert(concat_lines(lines.drop_last()) =~= Seq::<u8>::empty());
        assert(concat_lines(lines) =~= without_line_feeds(bytes));
    } else {
        let init = bytes.drop_last();
        lemma_concat_split(init);
        lemma_split_lines_shape(init);
        let before = split_lines(init);
        let after = split_lines(bytes);
        assert(concat_lines(before) == concat_lines(before.drop_last()) + before.last());
        if bytes.last() == LINE_FEED {
            assert(after.drop_last() =~= before);
            assert(concat_lines(after) =~= concat_lines(before));
        } else {
            assert(after.drop_last() =~= before.drop_last());
            assert(concat_lines(after) =~= concat_lines(before).push(bytes.last()));
        }
    }
}

/// Lines without line feeds, put one after the other, hold no line feed.
pub proof fn lemma_concat_no_line_feed(lines: Seq<Seq<u8>>)
    requires
        all_without_line_feed(lines),
    ensures
        no_line_feed(concat_lines(lines)),
    decreases lines.len(),
{
    if lines.len() > 0 {
        let init = lines.drop_last();
        assert forall|r: int| 0 <= r < init.len() implies no_line_feed(#[trigger] init[r]) by {
            assert(init[r] == lines[r]);
        }
        lemma_concat_no_line_feed(init);
        assert(no_line_feed(lines[lines.len() - 1]));
    }
}

/// A file without line feeds survives being read and written back with
/// nothing between the lines.
pub proof fn lemma_concat_split_single_line(bytes: Seq<u8>)
    requires
        no_line_feed(bytes),
    ensures
        concat_lines(split_lines(bytes)) == bytes,
{
    lemma_split_single_line(bytes);
    let lines = seq![bytes];
    assert(concat_lines(lines.drop_last()) =~= Seq::<u8>::empty());
    assert(concat_lines(lines) =~= bytes);
}

/// Lines without line feeds that are written with nothing between them are
/// read back as one line, their concatenation; a single such line is read
/// back as itself.
pub proof fn lemma_split_concat(lines: Seq<Seq<u8>>)
    requires
        all_without_line_feed(lines),
    ensures
        split_lines(concat_lines(lines)) == seq![concat_lines(lines)],
        lines.len() == 1 ==> split_lines(concat_lines(lines)) == lines,
{
    lemma_concat_no_line_feed(lines);
    lemma_split_single_line(concat_lines(lines));
    if lines.len() == 1 {
        assert(concat_lines(lines.drop_last()) =~= Seq::<u8>::empty());
        assert(concat_lines(lines) =~= lines[0]);
        assert(seq![lines[0]] =~= lines);
    }
}

} // verus!
