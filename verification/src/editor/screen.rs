//! What the editor shows: the status line, the numbered text, and the place
//! of the cursor on the screen. Painting is the caller's business; here is
//! what to paint.

use crate::cursor::Cursor;
use crate::editor::custom::{InputMode, Notice};
use crate::encoding::is_valid_text;
use crate::error::error_text;
use crate::lines::{join_lines, lines_view, LINE_FEED};
use vstd::prelude::*;
use vstd::utf8::{
    is_leading_byte_width_1, partial_valid_utf8, partial_valid_utf8_extend_ascii_block,
    valid_utf8, valid_utf8_concat,
};

verus! {

/// How many cells lie between the left edge of the text region and the first
/// byte of a line: the border, the row number and the blank behind it.
pub const HORIZONTAL_OFFSET: u16 = 6;

/// How many cells lie between the top edge of the text region and the first
/// line: the border.
pub const VERTICAL_OFFSET: u16 = 1;

/// The least width of a row number; shorter numbers are filled up with
/// blanks on the left.
pub const NUMBER_WIDTH: usize = 4;

/// A piece of the status line.
#[derive(Clone, Copy, Debug)]
pub struct StatusSpan {
    pub text: &'static str,
    /// Whether the piece is shown in bold.
    pub bold: bool,
}

/// The status line: its pieces from left to right, and whether the line
/// blinks.
#[derive(Debug)]
pub struct StatusLine {
    pub spans: Vec<StatusSpan>,
    pub blink: bool,
}

/// The pieces of a status line, each as its text and whether it is bold.
pub open spec fn span_views(spans: Seq<StatusSpan>) -> Seq<(Seq<char>, bool)> {
    Seq::new(spans.len(), |i: int| (spans[i].text@, spans[i].bold))
}

/// The keys that a mode offers.
pub open spec fn help_spans(mode: InputMode) -> Seq<(Seq<char>, bool)> {
    match mode {
        InputMode::Normal => seq![
            ("Press "@, false),
            ("q"@, true),
            (" to exit, "@, false),
            ("e"@, true),
            (" to start editing,"@, false),
            ("w"@, true),
            (" to save."@, false),
        ],
        InputMode::Editing => seq![
            ("Press "@, false),
            ("Esc"@, true),
            (" to stop editing, "@, false),
            ("Enter"@, true),
            (" to record the message"@, false),
        ],
    }
}

/// What a notice adds to the status line.
pub open spec fn notice_spans(notice: Notice) -> Seq<(Seq<char>, bool)> {
    match notice {
        Notice::Clear => seq![],
        Notice::Saved => seq![(" Saved."@, false)],
        Notice::NoFile => seq![(" No file to save to."@, false)],
        Notice::Failed(error) => seq![(" Not saved: "@, false), (error_text(error), false)],
    }
}

/// The status line: the keys that the mode offers, then the notice if there
/// is one. It blinks in normal mode.
pub fn status_line(mode: InputMode, notice: Notice) -> (line: StatusLine)
    ensures
        span_views(line.spans@) == help_spans(mode) + notice_spans(notice),
        line.blink == (mode == InputMode::Normal),
{
    let mut spans: Vec<StatusSpan> = Vec::new();
    match mode {
        InputMode::Normal => {
            spans.push(StatusSpan { text: "Press ", bold: false });
            spans.push(StatusSpan { text: "q", bold: true });
            spans.push(StatusSpan { text: " to exit, ", bold: false });
            spans.push(StatusSpan { text: "e", bold: true });
            spans.push(StatusSpan { text: " to start editing,", bold: false });
            spans.push(StatusSpan { text: "w", bold: true });
            spans.push(StatusSpan { text: " to save.", bold: false });
        },
        InputMode::Editing => {
            spans.push(StatusSpan { text: "Press ", bold: false });
            spans.push(StatusSpan { text: "Esc", bold: true });
            spans.push(StatusSpan { text: " to stop editing, ", bold: false });
            spans.push(StatusSpan { text: "Enter", bold: true });
            spans.push(StatusSpan { text: " to record the message", bold: false });
        },
    }
    assert(span_views(spans@) =~= help_spans(mode));
    match notice {
        Notice::Clear => {},
        Notice::Saved => {
            spans.push(StatusSpan { text: " Saved.", bold: false });
        },
        Notice::NoFile => {
            spans.push(StatusSpan { text: " No file to save to.", bold: false });
        },
        Notice::Failed(error) => {
            spans.push(StatusSpan { text: " Not saved: ", bold: false });
            spans.push(StatusSpan { text: error.message(), bold: false });
        },
    }
    assert(span_views(spans@) =~= help_spans(mode) + notice_spans(notice));
    let blink = match mode {
        InputMode::Normal => true,
        InputMode::Editing => false,
    };
    StatusLine { spans, blink }
}

/// The cell of the screen on which the cursor stands when the text region
/// has its top left corner at (`origin_x`, `origin_y`): the cursor's column
/// and row, moved by the two offsets. There is none if that cell lies beyond
/// what a screen coordinate can hold.
pub open spec fn cell_of(cursor: Cursor, origin_x: u16, origin_y: u16) -> Option<(u16, u16)> {
    let x = origin_x + cursor.column + HORIZONTAL_OFFSET;
    let y = origin_y + cursor.row + VERTICAL_OFFSET;
    if x <= u16::MAX && y <= u16::MAX {
        Some((x as u16, y as u16))
    } else {
        None
    }
}

/// Where to put the terminal's cursor; see [`cell_of`].
pub fn cursor_cell(cursor: Cursor, origin_x: u16, origin_y: u16) -> (cell: Option<(u16, u16)>)
    ensures
        cell == cell_of(cursor, origin_x, origin_y),
{
    let limit_x: u16 = u16::MAX - HORIZONTAL_OFFSET;
    let limit_y: u16 = u16::MAX - VERTICAL_OFFSET;
    if origin_x > limit_x || origin_y > limit_y {
        return None;
    }
    let room_x: u16 = limit_x - origin_x;
    let room_y: u16 = limit_y - origin_y;
    if cursor.column > room_x as usize || cursor.row > room_y as usize {
        return None;
    }
    let x: u16 = origin_x + HORIZONTAL_OFFSET + cursor.column as u16;
    let y: u16 = origin_y + VERTICAL_OFFSET + cursor.row as u16;
    Some((x, y))
}

/// The decimal digits of `n` in ASCII, without leading zeros.
pub open spec fn digits(n: nat) -> Seq<u8>
    decreases n,
{
    if n < 10 {
        seq![(48 + n) as u8]
    } else {
        digits(n / 10).push((48 + n % 10) as u8)
    }
}

/// The number of a row as it stands before the row's text: its digits,
/// filled up with blanks on the left to `NUMBER_WIDTH` bytes.
pub open spec fn row_label(row: nat) -> Seq<u8> {
    let number = digits(row);
    if number.len() >= NUMBER_WIDTH {
        number
    } else {
        Seq::new((NUMBER_WIDTH - number.len()) as nat, |i: int| 32u8) + number
    }
}

/// What is shown in place of a line that is not valid UTF-8.
pub open spec fn invalid_mark() -> Seq<u8> {
    seq![60u8, 110u8, 111u8, 116u8, 32u8, 116u8, 101u8, 120u8, 116u8, 62u8]
}

/// One row of the text region: the number of the row, a blank, and the line,
/// or the mark for a line that is not valid UTF-8.
pub open spec fn row_text(row: nat, line: Seq<u8>) -> Seq<u8> {
    row_label(row).push(32u8) + if valid_utf8(line) {
        line
    } else {
        invalid_mark()
    }
}

/// The rows of the text region.
pub open spec fn rows_of(lines: Seq<Seq<u8>>) -> Seq<Seq<u8>> {
    Seq::new(lines.len(), |r: int| row_text(r as nat, lines[r]))
}

/// The contents of the text region: one row for each line, rows numbered
/// from 0, with a line feed between each two.
pub open spec fn region_text(lines: Seq<Seq<u8>>) -> Seq<u8> {
    join_lines(rows_of(lines))
}

/// Every byte of `bytes` is an ASCII character.
pub open spec fn is_ascii(bytes: Seq<u8>) -> bool {
    forall|i: int| 0 <= i < bytes.len() ==> #[trigger] bytes[i] <= 0x7f
}

/// ASCII text is valid UTF-8.
pub proof fn lemma_ascii_is_valid(bytes: Seq<u8>)
    requires
        is_ascii(bytes),
    ensures
        valid_utf8(bytes),
{
    assert(bytes.subrange(0, 0) =~= Seq::<u8>::empty());
    assert(partial_valid_utf8(bytes, 0));
    assert forall|i: int| 0 <= i < bytes.len() implies #[trigger] is_leading_byte_width_1(
        bytes[i],
    ) by {
        assert(bytes[i] <= 0x7f);
    }
    partial_valid_utf8_extend_ascii_block(bytes, 0, bytes.len() as int);
    assert(bytes.subrange(0, bytes.len() as int) =~= bytes);
}

/// The digits of a number are ASCII digits.
pub proof fn lemma_digits_are_ascii(n: nat)
    ensures
        digits(n).len() >= 1,
        forall|i: int| 0 <= i < digits(n).len() ==> 48 <= #[trigger] digits(n)[i] <= 57,
    decreases n,
{
    if n >= 10 {
        lemma_digits_are_ascii(n / 10);
    }
}

/// A row is valid UTF-8, whatever its line holds.
pub proof fn lemma_row_is_valid(row: nat, line: Seq<u8>)
    ensures
        valid_utf8(row_text(row, line)),
{
    lemma_digits_are_ascii(row);
    let head = row_label(row).push(32u8);
    assert(is_ascii(head));
    lemma_ascii_is_valid(head);
    assert(is_ascii(invalid_mark()));
    lemma_ascii_is_valid(invalid_mark());
    let shown = if valid_utf8(line) {
        line
    } else {
        invalid_mark()
    };
    valid_utf8_concat(head, shown);
}

/// Rows that are valid UTF-8 make a text region that is valid UTF-8.
pub proof fn lemma_joined_rows_are_valid(rows: Seq<Seq<u8>>)
    requires
        forall|r: int| 0 <= r < rows.len() ==> valid_utf8(#[trigger] rows[r]),
    ensures
        valid_utf8(join_lines(rows)),
    decreases rows.len(),
{
    if rows.len() >= 2 {
        let init = rows.drop_last();
        assert forall|r: int| 0 <= r < init.len() implies valid_utf8(#[trigger] init[r]) by {
            assert(init[r] == rows[r]);
        }
        lemma_joined_rows_are_valid(init);
        let feed = seq![LINE_FEED];
        assert(is_ascii(feed));
        lemma_ascii_is_valid(feed);
        valid_utf8_concat(join_lines(init), feed);
        assert(join_lines(init) + feed =~= join_lines(init).push(LINE_FEED));
        valid_utf8_concat(join_lines(init).push(LINE_FEED), rows.last());
    } else if rows.len() == 1 {
        assert(valid_utf8(rows[0]));
    }
}

/// Appends the decimal digits of `n` to `out`.
fn push_digits(out: &mut Vec<u8>, n: usize)
    ensures
        final(out)@ == old(out)@ + digits(n as nat),
    decreases n,
{
    if n >= 10 {
        push_digits(out, n / 10);
    }
    let digit: u8 = 48 + (n % 10) as u8;
    out.push(digit);
    assert(out@ =~= old(out)@ + digits(n as nat));
}

/// Appends the label of row `row` to `out`.
fn push_row_label(out: &mut Vec<u8>, row: usize)
    ensures
        final(out)@ == old(out)@ + row_label(row as nat),
{
    let mut number: Vec<u8> = Vec::new();
    push_digits(&mut number, row);
    assert(number@ =~= digits(row as nat));
    let mut width: usize = number.len();
    while width < NUMBER_WIDTH
        invariant
            number.len() <= width <= NUMBER_WIDTH || width == number.len(),
            out@ == old(out)@ + Seq::new((width - number.len()) as nat, |i: int| 32u8),
        decreases NUMBER_WIDTH - width,
    {
        out.push(32u8);
        width += 1;
        assert(out@ =~= old(out)@ + Seq::new((width - number.len()) as nat, |i: int| 32u8));
    }
    let ghost padded = out@;
    let mut i: usize = 0;
    while i < number.len()
        invariant
            i <= number.len(),
            out@ == padded + number@.take(i as int),
        decreases number.len() - i,
    {
        out.push(number[i]);
        i += 1;
        assert(out@ =~= padded + number@.take(i as int));
    }
    assert(number@.take(i as int) =~= number@);
    assert(out@ =~= old(out)@ + row_label(row as nat));
}

/// Appends to `out` the row that shows `line` as row `row`.
fn push_row(out: &mut Vec<u8>, row: usize, line: &Vec<u8>)
    ensures
        final(out)@ == old(out)@ + row_text(row as nat, line@),
{
    push_row_label(out, row);
    out.push(32u8);
    let ghost labelled = out@;
    assert(labelled =~= old(out)@ + row_label(row as nat).push(32u8));
    if is_valid_text(line) {
        let mut c: usize = 0;
        while c < line.len()
            invariant
                c <= line.len(),
                out@ == labelled + line@.take(c as int),
            decreases line.len() - c,
        {
            out.push(line[c]);
            c += 1;
            assert(out@ =~= labelled + line@.take(c as int));
        }
        assert(line@.take(c as int) =~= line@);
    } else {
        out.push(60u8);
        out.push(110u8);
        out.push(111u8);
        out.push(116u8);
        out.push(32u8);
        out.push(116u8);
        out.push(101u8);
        out.push(120u8);
        out.push(116u8);
        out.push(62u8);
        assert(out@ =~= labelled + invalid_mark());
    }
    assert(out@ =~= old(out)@ + row_text(row as nat, line@));
}

/// The contents of the text region for `lines`: every line on a row of its
/// own behind its number, rows numbered from 0. A line that is not valid
/// UTF-8 is not shown; its row holds a mark instead, so that the region is
/// valid UTF-8 whatever the lines hold.
pub fn numbered_text(lines: &Vec<Vec<u8>>) -> (text: Vec<u8>)
    ensures
        text@ == region_text(lines_view(lines@)),
        valid_utf8(text@),
{
    let ghost rows = rows_of(lines_view(lines@));
    let mut text: Vec<u8> = Vec::new();
    let mut r: usize = 0;
    while r < lines.len()
        invariant
            r <= lines.len(),
            rows == rows_of(lines_view(lines@)),
            text@ == join_lines(rows.take(r as int)),
        decreases lines.len() - r,
    {
        let ghost before = text@;
        if r > 0 {
            text.push(LINE_FEED);
        }
        let ghost opened = text@;
        push_row(&mut text, r, &lines[r]);
        proof {
            let row = row_text(r as nat, lines@[r as int]@);
            let sofar = rows.take(r as int + 1);
            assert(rows[r as int] == row);
            assert(sofar.drop_last() =~= rows.take(r as int));
            assert(sofar.last() == row);
            if r == 0 {
                assert(opened =~= Seq::<u8>::empty());
                assert(text@ =~= row);
            } else {
                assert(join_lines(sofar) == join_lines(sofar.drop_last()).push(LINE_FEED) + row);
            }
        }
        r += 1;
    }
    proof {
        assert(rows.take(r as int) =~= rows);
        assert forall|k: int| 0 <= k < rows.len() implies valid_utf8(#[trigger] rows[k]) by {
            lemma_row_is_valid(k as nat, lines_view(lines@)[k]);
        }
        lemma_joined_rows_are_valid(rows);
    }
    text
}

} // verus!
