//! The decisions behind the interactive interface prompt: reading a plain
//! decimal numeral and holding it against the number of listed interfaces.
//! The prompt loop itself — printing, reading a line, re-asking — is the
//! caller's; it feeds each trimmed input line through here.

use vstd::prelude::*;

verus! {

/// An ASCII decimal digit.
pub open spec fn spec_is_digit(c: char) -> bool {
    48 <= c as u32 <= 57
}

/// The numeric value of one digit.
pub open spec fn spec_digit_value(c: char) -> int {
    c as u32 - 48
}

/// A plain decimal numeral: one or more digits, nothing else.
pub open spec fn spec_all_digits(s: Seq<char>) -> bool {
    forall|i: int| 0 <= i < s.len() ==> spec_is_digit(#[trigger] s[i])
}

/// The value of a digit string, most significant digit first.
pub open spec fn spec_decimal_value(s: Seq<char>) -> int
    decreases s.len(),
{
    if s.len() == 0 {
        0
    } else {
        spec_decimal_value(s.drop_last()) * 10 + spec_digit_value(s.last())
    }
}

proof fn lemma_decimal_value_nonneg(s: Seq<char>)
    requires
        spec_all_digits(s),
    ensures
        spec_decimal_value(s) >= 0,
    decreases s.len(),
{
    if s.len() > 0 {
        assert(spec_all_digits(s.drop_last()));
        lemma_decimal_value_nonneg(s.drop_last());
        assert(spec_is_digit(s.last()));
    }
}

proof fn lemma_decimal_prefix_le(s: Seq<char>, i: int)
    requires
        spec_all_digits(s),
        0 <= i <= s.len(),
    ensures
        spec_decimal_value(s.take(i)) <= spec_decimal_value(s),
    decreases s.len(),
{
    if i < s.len() {
        assert(spec_all_digits(s.drop_last()));
        assert(s.take(i) =~= s.drop_last().take(i));
        lemma_decimal_prefix_le(s.drop_last(), i);
        lemma_decimal_value_nonneg(s.drop_last());
        assert(spec_is_digit(s.last()));
    } else {
        assert(s.take(i) =~= s);
    }
}

/// Parses a plain decimal numeral: one or more ASCII digits, no sign and
/// no surrounding space.  `None` on anything else, and on a numeral whose
/// value does not fit in `usize`.
pub fn parse_usize(s: &str) -> (r: Option<usize>)
    ensures
        match r {
            Some(v) => s@.len() > 0 && spec_all_digits(s@) && v == spec_decimal_value(s@),
            None => s@.len() == 0 || !spec_all_digits(s@) || spec_decimal_value(s@)
                > usize::MAX,
        },
{
    let len = s.unicode_len();
    if len == 0 {
        return None;
    }
    let mut acc: usize = 0;
    let mut i: usize = 0;
    while i < len
        invariant
            len == s@.len(),
            0 <= i <= len,
            spec_all_digits(s@.take(i as int)),
            acc == spec_decimal_value(s@.take(i as int)),
        decreases len - i,
    {
        let c = s.get_char(i);
        let code = c as u32;
        if code < 48 || code > 57 {
            proof {
                assert(!spec_is_digit(s@[i as int]));
            }
            return None;
        }
        let digit = (code - 48) as usize;
        proof {
            assert(s@.take(i as int + 1).drop_last() =~= s@.take(i as int));
            assert(s@.take(i as int + 1).last() == s@[i as int]);
        }
        let next = match acc.checked_mul(10) {
            Some(t) => t,
            None => {
                proof {
                    assert(spec_decimal_value(s@.take(i as int + 1)) > usize::MAX);
                    lemma_overflow_propagates(s@, i as int + 1);
                }
                return None;
            },
        };
        let next = match next.checked_add(digit) {
            Some(t) => t,
            None => {
                proof {
                    assert(spec_decimal_value(s@.take(i as int + 1)) > usize::MAX);
                    lemma_overflow_propagates(s@, i as int + 1);
                }
                return None;
            },
        };
        acc = next;
        i = i + 1;
    }
    proof {
        assert(s@.take(len as int) =~= s@);
    }
    Some(acc)
}

proof fn lemma_overflow_propagates(s: Seq<char>, i: int)
    requires
        0 <= i <= s.len(),
        spec_all_digits(s.take(i)),
        spec_decimal_value(s.take(i)) > usize::MAX,
    ensures
        !spec_all_digits(s) || spec_decimal_value(s) > usize::MAX,
{
    if spec_all_digits(s) {
        lemma_decimal_prefix_le(s, i);
    }
}

/// What one prompt answer means, given how many interfaces are listed.
#[derive(Clone, Copy, PartialEq, Eq, Structural, Debug)]
pub enum Selection {
    /// A valid index into the listed interfaces.
    Chosen(usize),
    /// A number, but not the index of any listed interface.
    OutOfRange,
    /// Not a plain decimal number that fits in an index.
    NotANumber,
}

/// Decides one prompt answer: the numeral must denote an index below
/// `count`.
pub fn parse_interface_selection(input: &str, count: usize) -> (r: Selection)
    ensures
        match r {
            Selection::Chosen(i) => {
                &&& input@.len() > 0
                &&& spec_all_digits(input@)
                &&& i == spec_decimal_value(input@)
                &&& i < count
            },
            Selection::OutOfRange => {
                &&& input@.len() > 0
                &&& spec_all_digits(input@)
                &&& spec_decimal_value(input@) >= count
            },
            Selection::NotANumber => input@.len() == 0 || !spec_all_digits(input@)
                || spec_decimal_value(input@) > usize::MAX,
        },
{
    match parse_usize(input) {
        Some(n) => {
            if n < count {
                Selection::Chosen(n)
            } else {
                Selection::OutOfRange
            }
        },
        None => Selection::NotANumber,
    }
}

} // verus!
