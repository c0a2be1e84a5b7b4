//! The mathematical model of a stream of line results.
//!
//! A producer of lines is modelled as a sequence of [`LineItem`]s: each one
//! is either the text of a line (as a sequence of characters) or an I/O
//! failure carrying the error value. The blank-line policy of the
//! line-splitting construction path is also stated here: a blank line is one
//! whose characters are all white space, and the filter drops exactly the
//! blank text lines while keeping every failed read.

use vstd::prelude::*;

verus! {

/// One element of the model of a line stream: either the characters of a
/// successfully read line, or the I/O error of a failed read.
pub enum LineItem {
    Text { chars: Seq<char> },
    Failed { err: std::io::Error },
}

/// The model of one concrete line result.
pub open spec fn line_item_of(r: Result<String, std::io::Error>) -> LineItem {
    match r {
        Ok(s) => LineItem::Text { chars: s@ },
        Err(e) => LineItem::Failed { err: e },
    }
}

/// The model of a sequence of concrete line results.
pub open spec fn line_items_of(rs: Seq<Result<String, std::io::Error>>) -> Seq<LineItem> {
    rs.map_values(|r: Result<String, std::io::Error>| line_item_of(r))
}

/// Whether `c` has the Unicode `White_Space` property, the notion of white
/// space that `str::trim` uses.
pub open spec fn is_space_char(c: char) -> bool {
    let u = c as u32;
    ||| (0x9 <= u && u <= 0xD)
    ||| u == 0x20
    ||| u == 0x85
    ||| u == 0xA0
    ||| u == 0x1680
    ||| (0x2000 <= u && u <= 0x200A)
    ||| u == 0x2028
    ||| u == 0x2029
    ||| u == 0x202F
    ||| u == 0x205F
    ||| u == 0x3000
}

/// A blank line: every character is white space (an empty line is blank).
pub open spec fn is_blank_line(s: Seq<char>) -> bool {
    forall|i: int| 0 <= i < s.len() ==> is_space_char(s[i])
}

/// Whether the blank-line filter keeps an item: a failed read is always
/// kept, so its error is never silently dropped; a text line is kept
/// exactly when it is not blank.
pub open spec fn keep_line(l: LineItem) -> bool {
    match l {
        LineItem::Text { chars } => !is_blank_line(chars),
        LineItem::Failed { err } => true,
    }
}

/// The items that the blank-line filter keeps, in their original order.
pub open spec fn kept_lines(ls: Seq<LineItem>) -> Seq<LineItem>
    decreases ls.len(),
{
    if ls.len() == 0 {
        Seq::empty()
    } else {
        let rest = kept_lines(ls.drop_last());
        if keep_line(ls.last()) {
            rest.push(ls.last())
        } else {
            rest
        }
    }
}

/// The number of failed reads in a sequence of line items.
pub open spec fn failed_count(ls: Seq<LineItem>) -> nat
    decreases ls.len(),
{
    if ls.len() == 0 {
        0
    } else {
        failed_count(ls.drop_last()) + if ls.last() is Failed {
            1nat
        } else {
            0nat
        }
    }
}

/// Blank text lines are excluded entirely: when every item is a blank text
/// line, the filter keeps nothing.
pub proof fn lemma_all_blank_filtered_to_empty(ls: Seq<LineItem>)
    requires
        forall|i: int|
            0 <= i < ls.len() ==> ((#[trigger] ls[i]) matches LineItem::Text { chars }
                && is_blank_line(chars)),
    ensures
        kept_lines(ls) == Seq::<LineItem>::empty(),
    decreases ls.len(),
{
    if ls.len() > 0 {
        lemma_all_blank_filtered_to_empty(ls.drop_last());
    }
}

/// A line that failed to read is never excluded, whatever the blank-line
/// policy does to text lines: the filter keeps every failed read.
pub proof fn lemma_failed_reads_kept(ls: Seq<LineItem>)
    ensures
        failed_count(kept_lines(ls)) == failed_count(ls),
    decreases ls.len(),
{
    if ls.len() > 0 {
        lemma_failed_reads_kept(ls.drop_last());
        if keep_line(ls.last()) {
            assert(kept_lines(ls.drop_last()) == kept_lines(ls).drop_last());
            assert(kept_lines(ls).last() == ls.last());
        }
    }
}

} // verus!
