//! Small verified string helpers shared across the crate.

use vstd::prelude::*;

verus! {

/// Character-by-character equality of two string slices.
pub fn str_eq(a: &str, b: &str) -> (r: bool)
    ensures
        r == (a@ == b@),
{
    let n = a.unicode_len();
    if n != b.unicode_len() {
        return false;
    }
    let mut i: usize = 0;
    while i < n
        invariant
            n == a@.len(),
            n == b@.len(),
            0 <= i <= n,
            forall|j: int| 0 <= j < i ==> a@[j] == b@[j],
        decreases n - i,
    {
        let ca = a.get_char(i);
        let cb = b.get_char(i);
        if ca != cb {
            return false;
        }
        i += 1;
    }
    proof {
        assert(a@ =~= b@);
    }
    true
}

/// The numeric value of a decimal digit character, or `None` for any other
/// character.
pub open spec fn spec_digit_value(c: char) -> Option<u32> {
    match c {
        '0' => Some(0u32),
        '1' => Some(1u32),
        '2' => Some(2u32),
        '3' => Some(3u32),
        '4' => Some(4u32),
        '5' => Some(5u32),
        '6' => Some(6u32),
        '7' => Some(7u32),
        '8' => Some(8u32),
        '9' => Some(9u32),
        _ => None,
    }
}

/// Whether every character of `s` is a decimal digit.
pub open spec fn spec_all_digits(s: Seq<char>) -> bool {
    forall|i: int| 0 <= i < s.len() ==> spec_digit_value(s[i]) is Some
}

/// The non-negative integer denoted by the digit string `s`, read left to
/// right.
pub open spec fn spec_decimal_value(s: Seq<char>) -> nat
    decreases s.len(),
{
    if s.len() == 0 {
        0
    } else {
        spec_decimal_value(s.drop_last()) * 10 + spec_digit_value(s.last()).unwrap_or(0u32) as nat
    }
}

/// What `parse_u32` returns: the denoted value for a non-empty, all-digit
/// string whose value fits in a `u32`, and `None` otherwise.
pub open spec fn spec_parse_u32(s: Seq<char>) -> Option<u32> {
    if s.len() > 0 && spec_all_digits(s) && spec_decimal_value(s) <= u32::MAX {
        Some(spec_decimal_value(s) as u32)
    } else {
        None
    }
}

proof fn lemma_decimal_value_take_step(s: Seq<char>, i: int)
    requires
        0 <= i < s.len(),
    ensures
        spec_decimal_value(s.take(i + 1)) == spec_decimal_value(s.take(i)) * 10
            + spec_digit_value(s[i]).unwrap_or(0u32) as nat,
{
    assert(s.take(i + 1).drop_last() =~= s.take(i));
    assert(s.take(i + 1).last() == s[i]);
}

/// Reads a base-ten `u32` from a string: exactly the non-empty all-digit
/// strings whose value fits are accepted.
pub fn parse_u32(s: &str) -> (r: Option<u32>)
    ensures
        r == spec_parse_u32(s@),
{
    let n = s.unicode_len();
    if n == 0 {
        return None;
    }
    let mut value: u32 = 0;
    let mut i: usize = 0;
    while i < n
        invariant
            n == s@.len(),
            0 < n,
            0 <= i <= n,
            spec_all_digits(s@.take(i as int)),
            value == spec_decimal_value(s@.take(i as int)),
        decreases n - i,
    {
        let c = s.get_char(i);
        let d: u32 = match c {
            '0' => 0,
            '1' => 1,
            '2' => 2,
            '3' => 3,
            '4' => 4,
            '5' => 5,
            '6' => 6,
            '7' => 7,
            '8' => 8,
            '9' => 9,
            _ => {
                proof {
                    assert(spec_digit_value(s@[i as int]) is None);
                }
                return None;
            }
        };
        proof {
            assert(spec_digit_value(s@[i as int]) == Some(d));
            lemma_decimal_value_take_step(s@, i as int);
        }
        if value > (u32::MAX - d) / 10 {
            proof {
                lemma_decimal_prefix_monotone(s@, i + 1);
            }
            return None;
        }
        value = value * 10 + d;
        proof {
            assert(spec_all_digits(s@.take(i + 1)));
        }
        i += 1;
    }
    proof {
        assert(s@.take(n as int) =~= s@);
    }
    Some(value)
}

/// A digit string denotes at least what any of its prefixes denotes.
proof fn lemma_decimal_prefix_monotone(s: Seq<char>, i: int)
    requires
        0 <= i <= s.len(),
    ensures
        spec_decimal_value(s) >= spec_decimal_value(s.take(i)),
    decreases s.len() - i,
{
    if i < s.len() {
        lemma_decimal_value_take_step(s, i);
        lemma_decimal_prefix_monotone(s, i + 1);
        assert(spec_decimal_value(s.take(i + 1)) >= spec_decimal_value(s.take(i)));
    } else {
        assert(s.take(i) =~= s);
    }
}

} // verus!
