//! Which byte sequences count as text.

use crate::lines::lines_view;
use vstd::prelude::*;
use vstd::utf8::valid_utf8;

verus! {

/// Every line of `lines` is valid UTF-8.
pub open spec fn all_valid_text(lines: Seq<Seq<u8>>) -> bool {
    forall|r: int| 0 <= r < lines.len() ==> valid_utf8(#[trigger] lines[r])
}

/// `row` is the first row of `lines` whose bytes are not valid UTF-8.
pub open spec fn is_first_invalid_row(lines: Seq<Seq<u8>>, row: int) -> bool {
    &&& 0 <= row < lines.len()
    &&& !valid_utf8(lines[row])
    &&& all_valid_text(lines.take(row))
}

/// The first row of `lines` whose bytes are not valid UTF-8, where there is
/// one.
pub open spec fn first_invalid(lines: Seq<Seq<u8>>) -> int {
    choose|row: int| is_first_invalid_row(lines, row)
}

/// There is at most one first invalid row.
pub proof fn lemma_first_invalid_unique(lines: Seq<Seq<u8>>, row: int)
    requires
        is_first_invalid_row(lines, row),
    ensures
        first_invalid(lines) == row,
        !all_valid_text(lines),
{
    let other = first_invalid(lines);
    if other < row {
        assert(lines.take(row)[other] == lines[other]);
    } else if row < other {
        assert(lines.take(other)[row] == lines[row]);
    }
}

/// Whether `bytes` is well-formed UTF-8.
///
/// Trusted: this calls `core::str::from_utf8`, which succeeds exactly on the
/// byte sequences that are well-formed UTF-8. The check itself is not
/// verified here.
#[verifier::external_body]
pub(crate) fn is_utf8(bytes: &[u8]) -> (valid: bool)
    ensures
        valid == valid_utf8(bytes@),
{
    core::str::from_utf8(bytes).is_ok()
}

/// Whether `line` can be shown and saved as text, that is, is valid UTF-8.
pub fn is_valid_text(line: &Vec<u8>) -> (valid: bool)
    ensures
        valid == valid_utf8(line@),
{
    is_utf8(line.as_slice())
}

/// The first row whose line is not valid UTF-8, if there is one.
pub fn first_invalid_row(lines: &Vec<Vec<u8>>) -> (found: Option<usize>)
    ensures
        match found {
            Some(row) => is_first_invalid_row(lines_view(lines@), row as int),
            None => all_valid_text(lines_view(lines@)),
        },
{
    let mut r: usize = 0;
    while r < lines.len()
        invariant
            r <= lines.len(),
            all_valid_text(lines_view(lines@).take(r as int)),
        decreases lines.len() - r,
    {
        if !is_valid_text(&lines[r]) {
            return Some(r);
        }
        proof {
            let view = lines_view(lines@);
            assert forall|k: int| 0 <= k < r + 1 implies valid_utf8(
                #[trigger] view.take(r as int + 1)[k],
            ) by {
                if k < r {
                    assert(view.take(r as int)[k] == view[k]);
                }
            }
        }
        r += 1;
    }
    assert(lines_view(lines@).take(r as int) =~= lines_view(lines@));
    None
}

} // verus!
