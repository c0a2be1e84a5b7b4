//! The parse capability of the target type, and a verified decimal parser
//! for `u32`.
//!
//! A target type declares how a line of text maps to a value of the type by
//! implementing [`FromLine`]: two specification functions say which
//! character sequences parse and to which value, and the executable
//! `from_line` is proved against them. The crate ships one implementation,
//! for `u32`, whose grammar is an optional leading `+` followed by one or
//! more decimal digits whose value fits in the type.

use crate::errors::ParseUintError;
use vstd::prelude::*;

verus! {

/// The parse capability of a target type: `from_line` turns the text of one
/// line into a value of the type or into the type's own error value, and
/// the two specification functions pin down exactly which lines parse and
/// to what.
pub trait FromLine: Sized {
    /// The target type's own parse-error value.
    type Err;

    /// Whether the characters `s` are a valid rendering of a value.
    spec fn parses(s: Seq<char>) -> bool;

    /// The value that `s` renders, when `s` parses.
    spec fn parse_value(s: Seq<char>) -> Self;

    /// Parse the text of one line.
    fn from_line(s: &str) -> (r: Result<Self, Self::Err>)
        ensures
            r is Ok <==> Self::parses(s@),
            r matches Ok(v) ==> v == Self::parse_value(s@),
    ;
}

/// Whether `c` is a decimal digit.
pub open spec fn is_digit_char(c: char) -> bool {
    0x30 <= c as u32 <= 0x39
}

/// The numeric value of the digit `c`.
pub open spec fn digit_val(c: char) -> int {
    c as u32 - 0x30
}

/// Whether every character of `s` is a decimal digit.
pub open spec fn all_digit_chars(s: Seq<char>) -> bool {
    forall|i: int| 0 <= i < s.len() ==> is_digit_char(#[trigger] s[i])
}

/// The value of `s` read as decimal digits, most significant first.
pub open spec fn digits_val(s: Seq<char>) -> int
    decreases s.len(),
{
    if s.len() == 0 {
        0
    } else {
        10 * digits_val(s.drop_last()) + digit_val(s.last())
    }
}

/// The digits of a rendered number: everything after an optional leading
/// `+` sign.
pub open spec fn digits_part(s: Seq<char>) -> Seq<char> {
    if s.len() > 0 && s[0] == '+' {
        s.drop_first()
    } else {
        s
    }
}

/// Whether `s` parses as a `u32`: an optional leading `+`, then at least
/// one decimal digit, and the value fits in the type.
pub open spec fn parses_as_u32(s: Seq<char>) -> bool {
    let d = digits_part(s);
    d.len() > 0 && all_digit_chars(d) && digits_val(d) <= u32::MAX
}

/// The value that `s` renders when it parses as a `u32`.
pub open spec fn u32_value_of(s: Seq<char>) -> int {
    digits_val(digits_part(s))
}

/// The value of a digit sequence is never negative.
pub proof fn lemma_digits_val_nonneg(s: Seq<char>)
    requires
        all_digit_chars(s),
    ensures
        digits_val(s) >= 0,
    decreases s.len(),
{
    if s.len() > 0 {
        assert(all_digit_chars(s.drop_last()));
        lemma_digits_val_nonneg(s.drop_last());
    }
}

/// Reading more digits never shrinks the value: the value of a prefix of a
/// digit sequence is at most the value of the whole sequence.
pub proof fn lemma_digits_val_prefix_le(s: Seq<char>, j: int)
    requires
        all_digit_chars(s),
        0 <= j <= s.len(),
    ensures
        digits_val(s.take(j)) <= digits_val(s),
    decreases s.len(),
{
    if j == s.len() {
        assert(s.take(j) =~= s);
    } else {
        assert(all_digit_chars(s.drop_last()));
        assert(s.take(j) =~= s.drop_last().take(j));
        lemma_digits_val_prefix_le(s.drop_last(), j);
        lemma_digits_val_nonneg(s.drop_last());
    }
}

/// Parse one line of text as a `u32`, written `[+]digits` in decimal.
pub fn parse_u32_line(s: &str) -> (r: Result<u32, ParseUintError>)
    ensures
        r is Ok <==> parses_as_u32(s@),
        r matches Ok(v) ==> v as int == u32_value_of(s@),
{
    let n = s.unicode_len();
    let offset: usize = if n > 0 && s.get_char(0) == '+' {
        1
    } else {
        0
    };
    let ghost d = digits_part(s@);
    proof {
        assert(d =~= s@.subrange(offset as int, n as int));
    }
    if n == offset {
        return Err(ParseUintError);
    }
    let mut val: u64 = 0;
    let mut i: usize = offset;
    while i < n
        invariant
            offset <= i <= n,
            n == s@.len(),
            d == digits_part(s@),
            d =~= s@.subrange(offset as int, n as int),
            all_digit_chars(d.take(i - offset)),
            val == digits_val(d.take(i - offset)),
            val <= u32::MAX,
        decreases n - i,
    {
        let c = s.get_char(i);
        let u = c as u32;
        proof {
            assert(d[i - offset] == s@[i as int]);
        }
        if u < 0x30 || u > 0x39 {
            proof {
                assert(!is_digit_char(d[i - offset]));
                assert(!all_digit_chars(d));
            }
            return Err(ParseUintError);
        }
        let dv: u64 = (u - 0x30) as u64;
        let next: u64 = 10 * val + dv;
        proof {
            assert(d.take(i - offset + 1).drop_last() =~= d.take(i - offset));
            assert(d.take(i - offset + 1).last() == d[i - offset]);
            assert(all_digit_chars(d.take(i - offset + 1)));
            assert(next == digits_val(d.take(i - offset + 1)));
        }
        if next > 0xFFFF_FFFF {
            proof {
                if all_digit_chars(d) {
                    lemma_digits_val_prefix_le(d, i - offset + 1);
                }
            }
            return Err(ParseUintError);
        }
        val = next;
        i = i + 1;
    }
    proof {
        assert(d.take(n - offset) =~= d);
    }
    Ok(val as u32)
}

impl FromLine for u32 {
    type Err = ParseUintError;

    open spec fn parses(s: Seq<char>) -> bool {
        parses_as_u32(s)
    }

    open spec fn parse_value(s: Seq<char>) -> u32 {
        u32_value_of(s) as u32
    }

    fn from_line(s: &str) -> (r: Result<u32, ParseUintError>) {
        parse_u32_line(s)
    }
}

} // verus!
