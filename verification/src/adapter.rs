//! The parsing sequence adapter: a lazy sequence of per-line parse results.
//!
//! [`ParseListIterator`] wraps one producer of line results and turns each
//! line into exactly one parse result when pulled: an I/O failure is passed
//! through without touching the parser, good text is handed to the target
//! type's parse capability, and either outcome leaves the sequence pollable
//! — a failure is local to its element, never fatal to the sequence.

use crate::errors::ParseListError;
use crate::model::{
    is_blank_line, is_space_char, keep_line, kept_lines, line_item_of, line_items_of, LineItem,
};
use crate::parse::FromLine;
use core::marker::PhantomData;
use vstd::prelude::*;

verus! {

/// A producer of line results: each demand yields the next line of text,
/// the I/O error that reading it raised, or the end of the input. The
/// sequence of items still to come is its model.
pub trait LineProducer {
    /// The items this producer has yet to yield, in order.
    spec fn remaining(&self) -> Seq<LineItem>;

    /// Yield the next line result, or `None` at the end of the input.
    fn next_line(&mut self) -> (r: Option<Result<String, std::io::Error>>)
        ensures
            old(self).remaining().len() == 0 ==> r is None && final(self).remaining()
                == old(self).remaining(),
            old(self).remaining().len() > 0 ==> {
                &&& final(self).remaining() == old(self).remaining().drop_first()
                &&& r matches Some(item) && line_item_of(item) == old(self).remaining()[0]
            },
    ;
}

/// A producer backed by a vector of line results, yielded front to back.
pub struct VecLineProducer {
    items: Vec<Result<String, std::io::Error>>,
}

impl VecLineProducer {
    /// Wrap a vector of line results.
    pub fn new(items: Vec<Result<String, std::io::Error>>) -> (r: VecLineProducer)
        ensures
            r.remaining() == line_items_of(items@),
    {
        VecLineProducer { items }
    }
}

impl LineProducer for VecLineProducer {
    closed spec fn remaining(&self) -> Seq<LineItem> {
        line_items_of(self.items@)
    }

    fn next_line(&mut self) -> (r: Option<Result<String, std::io::Error>>) {
        if self.items.len() == 0 {
            None
        } else {
            let x = self.items.remove(0);
            proof {
                assert(self.items@ =~= old(self).items@.drop_first());
                assert(line_items_of(old(self).items@.drop_first()) =~= line_items_of(
                    old(self).items@,
                ).drop_first());
            }
            Some(x)
        }
    }
}

/// What the adapter owes for one consumed line item: an I/O failure is
/// surfaced as `Io` carrying the same error; valid text is surfaced as the
/// parsed value; invalid text is surfaced as a `Parse` failure carrying the
/// target type's error.
pub open spec fn parse_outcome<T: FromLine>(
    item: LineItem,
    r: Result<T, ParseListError<T::Err>>,
) -> bool {
    match item {
        LineItem::Text { chars } => {
            if T::parses(chars) {
                r matches Ok(v) && v == T::parse_value(chars)
            } else {
                r matches Err(e) && e matches ParseListError::Parse(_)
            }
        },
        LineItem::Failed { err } => r matches Err(e) && e matches ParseListError::Io(e2) && e2
            == err,
    }
}

/// Turn one line result into one parse result, classifying the failure:
/// a failed read becomes `Io` without invoking the parser, and invalid
/// text becomes `Parse`.
pub fn string_result_to_item_result<T: FromLine>(v: Result<String, std::io::Error>) -> (r: Result<
    T,
    ParseListError<T::Err>,
>)
    ensures
        parse_outcome::<T>(line_item_of(v), r),
{
    match v {
        Ok(text) => match T::from_line(text.as_str()) {
            Ok(t) => Ok(t),
            Err(e) => Err(ParseListError::Parse(e)),
        },
        Err(e) => Err(ParseListError::Io(e)),
    }
}

/// The parsing sequence adapter: wraps one producer of line results and
/// yields, lazily, one parse result per line item consumed — no buffering,
/// no reordering, no skipping, and no retry of a failed element.
pub struct ParseListIterator<T, I> where T: FromLine, I: LineProducer {
    producer: I,
    target: PhantomData<T>,
}

impl<T: FromLine, I: LineProducer> ParseListIterator<T, I> {
    /// The line items this sequence has yet to consume, in order.
    pub closed spec fn remaining(&self) -> Seq<LineItem> {
        self.producer.remaining()
    }

    /// Pull the next parse result, or `None` once the producer is
    /// exhausted. A failed element does not end the sequence: exactly one
    /// item is consumed per call, and the sequence stays pollable.
    pub fn next(&mut self) -> (r: Option<Result<T, ParseListError<T::Err>>>)
        ensures
            old(self).remaining().len() == 0 ==> r is None && final(self).remaining()
                == old(self).remaining(),
            old(self).remaining().len() > 0 ==> {
                &&& final(self).remaining() == old(self).remaining().drop_first()
                &&& r matches Some(pr) && parse_outcome::<T>(old(self).remaining()[0], pr)
            },
    {
        match self.producer.next_line() {
            None => None,
            Some(v) => Some(string_result_to_item_result(v)),
        }
    }

    /// Drain the sequence into a vector: one parse result per remaining
    /// line item, in order.
    pub fn collect_results(self) -> (r: Vec<Result<T, ParseListError<T::Err>>>)
        ensures
            r@.len() == self.remaining().len(),
            forall|i: int|
                0 <= i < r@.len() ==> parse_outcome::<T>(self.remaining()[i], #[trigger] r@[i]),
    {
        let ghost all = self.remaining();
        let mut it = self;
        let mut out: Vec<Result<T, ParseListError<T::Err>>> = Vec::new();
        loop
            invariant
                out@.len() <= all.len(),
                it.remaining() =~= all.subrange(out@.len() as int, all.len() as int),
                forall|i: int|
                    0 <= i < out@.len() ==> parse_outcome::<T>(all[i], #[trigger] out@[i]),
            ensures
                out@.len() == all.len(),
                forall|i: int|
                    0 <= i < out@.len() ==> parse_outcome::<T>(all[i], #[trigger] out@[i]),
            decreases all.len() - out@.len(),
        {
            let ghost seen = out@.len() as int;
            match it.next() {
                None => {
                    proof {
                        assert(all.subrange(seen, all.len() as int).len() == 0);
                    }
                    break;
                },
                Some(x) => {
                    proof {
                        assert(all.subrange(seen, all.len() as int)[0] == all[seen]);
                        assert(all.subrange(seen, all.len() as int).drop_first() =~= all.subrange(
                            seen + 1,
                            all.len() as int,
                        ));
                    }
                    out.push(x);
                },
            }
        }
        out
    }
}

/// Wrap any producer of line results in a parsing sequence. This is the
/// universal entry point; nothing is read or parsed until the sequence is
/// pulled.
pub fn from_iter<T: FromLine, I: LineProducer>(i: I) -> (r: ParseListIterator<T, I>)
    ensures
        r.remaining() == i.remaining(),
{
    ParseListIterator { producer: i, target: PhantomData }
}

/// Whether the blank-line filter keeps the line result `lr`: a failed read
/// is always kept, a line of text only when some character of it is not
/// white space.
pub fn nonblank(lr: &Result<String, std::io::Error>) -> (r: bool)
    ensures
        r == keep_line(line_item_of(*lr)),
{
    match lr {
        Ok(s) => !is_blank_str(s.as_str()),
        Err(_) => true,
    }
}

/// Whether every character of `s` is white space.
fn is_blank_str(s: &str) -> (r: bool)
    ensures
        r == is_blank_line(s@),
{
    let n = s.unicode_len();
    let mut i: usize = 0;
    while i < n
        invariant
            i <= n,
            n == s@.len(),
            forall|j: int| 0 <= j < i ==> is_space_char(#[trigger] s@[j]),
        decreases n - i,
    {
        let c = s.get_char(i);
        let u = c as u32;
        let sp = (0x9 <= u && u <= 0xD) || u == 0x20 || u == 0x85 || u == 0xA0 || u == 0x1680 || (
        0x2000 <= u && u <= 0x200A) || u == 0x2028 || u == 0x2029 || u == 0x202F || u == 0x205F
            || u == 0x3000;
        if !sp {
            proof {
                assert(!is_space_char(s@[i as int]));
            }
            return false;
        }
        i = i + 1;
    }
    true
}

/// Build a parsing sequence from line results already split out of a
/// buffered source, dropping blank lines on the way — but never a failed
/// read, whose error must still reach the caller.
pub fn from_bufread_lines<T: FromLine>(lines: Vec<Result<String, std::io::Error>>) -> (r:
    ParseListIterator<T, VecLineProducer>)
    ensures
        r.remaining() == kept_lines(line_items_of(lines@)),
{
    let ghost orig = lines@;
    let mut rest = lines;
    let mut kept: Vec<Result<String, std::io::Error>> = Vec::new();
    let ghost mut i: int = 0;
    while rest.len() > 0
        invariant
            0 <= i,
            i + rest@.len() == orig.len(),
            rest@ =~= orig.subrange(i as int, orig.len() as int),
            line_items_of(kept@) =~= kept_lines(line_items_of(orig.take(i as int))),
        decreases rest@.len(),
    {
        let ghost pre_kept = kept@;
        let x = rest.remove(0);
        proof {
            assert(x == orig[i as int]);
            assert(rest@ =~= orig.subrange(i as int + 1, orig.len() as int));
        }
        let keep = nonblank(&x);
        if keep {
            kept.push(x);
        }
        proof {
            let prev = line_items_of(orig.take(i as int));
            let cur = line_items_of(orig.take(i as int + 1));
            assert(orig.take(i as int + 1).drop_last() =~= orig.take(i as int));
            assert(cur.drop_last() =~= prev);
            assert(cur.last() == line_item_of(orig[i as int]));
            if keep {
                assert(line_items_of(pre_kept.push(x)) =~= line_items_of(pre_kept).push(
                    line_item_of(x),
                ));
                assert(line_items_of(kept@) =~= kept_lines(cur));
            } else {
                assert(line_items_of(kept@) =~= kept_lines(cur));
            }
            i = i + 1;
        }
    }
    proof {
        assert(orig.take(orig.len() as int) =~= orig);
    }
    from_iter(VecLineProducer::new(kept))
}

/// When every line of the input is valid text for the target type, the
/// sequence yields exactly one success per line, in the original order,
/// each carrying the value of parsing that line on its own.
pub proof fn lemma_all_valid_all_successes<T: FromLine>(
    items: Seq<LineItem>,
    results: Seq<Result<T, ParseListError<T::Err>>>,
)
    requires
        results.len() == items.len(),
        forall|i: int| 0 <= i < items.len() ==> parse_outcome::<T>(#[trigger] items[i], results[i]),
        forall|i: int|
            0 <= i < items.len() ==> ((#[trigger] items[i]) matches LineItem::Text { chars }
                && T::parses(chars)),
    ensures
        forall|i: int|
            0 <= i < results.len() ==> ((#[trigger] results[i]) matches Ok(v) && v
                == T::parse_value(items[i]->chars)),
{
    assert forall|i: int|
        0 <= i < results.len() implies (#[trigger] results[i]) matches Ok(v) && v == T::parse_value(
        items[i]->chars,
    ) by {
        assert(parse_outcome::<T>(items[i], results[i]));
    }
}

/// A line invalid for the target type fails locally: position `k` yields a
/// parse failure, and every other position still meets its own obligation
/// — the failure does not terminate or disturb the sequence.
pub proof fn lemma_invalid_line_fails_locally<T: FromLine>(
    items: Seq<LineItem>,
    results: Seq<Result<T, ParseListError<T::Err>>>,
    k: int,
)
    requires
        results.len() == items.len(),
        forall|i: int| 0 <= i < items.len() ==> parse_outcome::<T>(#[trigger] items[i], results[i]),
        0 <= k < items.len(),
        items[k] matches LineItem::Text { chars } && !T::parses(chars),
    ensures
        results[k] matches Err(e) && e matches ParseListError::Parse(_),
        forall|i: int|
            0 <= i < items.len() && i != k ==> parse_outcome::<T>(
                #[trigger] items[i],
                results[i],
            ),
{
    assert(parse_outcome::<T>(items[k], results[k]));
}

/// An I/O failure at position `k` is surfaced at position `k` as an I/O
/// failure carrying that very error — the parser plays no part in it — and
/// every other position still meets its own obligation.
pub proof fn lemma_io_failure_fails_locally<T: FromLine>(
    items: Seq<LineItem>,
    results: Seq<Result<T, ParseListError<T::Err>>>,
    k: int,
)
    requires
        results.len() == items.len(),
        forall|i: int| 0 <= i < items.len() ==> parse_outcome::<T>(#[trigger] items[i], results[i]),
        0 <= k < items.len(),
        items[k] is Failed,
    ensures
        results[k] matches Err(e) && e matches ParseListError::Io(e2) && e2 == items[k]->err,
        forall|i: int|
            0 <= i < items.len() && i != k ==> parse_outcome::<T>(
                #[trigger] items[i],
                results[i],
            ),
{
    assert(parse_outcome::<T>(items[k], results[k]));
}

} // verus!
