//! Text helpers: comparing string slices and reading decimal indices.

use vstd::prelude::*;
use vstd::string::StringSliceAdditionalSpecFns;
use vstd::utf8::encode_utf8_decode_utf8;

verus! {

/// Whether two string slices hold the same characters.
pub fn text_eq(a: &str, b: &str) -> (same: bool)
    ensures
        same == (a@ == b@),
{
    let x = a.as_bytes();
    let y = b.as_bytes();
    proof {
        encode_utf8_decode_utf8(a@);
        encode_utf8_decode_utf8(b@);
    }
    if x.len() != y.len() {
        return false;
    }
    let mut i: usize = 0;
    while i < x.len()
        invariant
            i <= x.len(),
            x.len() == y.len(),
            x@ == a.spec_bytes(),
            y@ == b.spec_bytes(),
            forall|k: int| 0 <= k < i ==> x@[k] == y@[k],
        decreases x.len() - i,
    {
        if x[i] != y[i] {
            return false;
        }
        i += 1;
    }
    assert(x@ =~= y@);
    true
}

/// Whether `c` is one of the ten ASCII digits.
pub open spec fn is_digit(c: char) -> bool {
    '0' <= c <= '9'
}

/// The number that an ASCII digit stands for.
pub open spec fn digit_value(c: char) -> nat {
    (c as u32 - '0' as u32) as nat
}

/// Whether every character of `s` is an ASCII digit.
pub open spec fn all_digits(s: Seq<char>) -> bool {
    forall|i: int| 0 <= i < s.len() ==> is_digit(#[trigger] s[i])
}

/// The number that a run of digits denotes in base ten; the empty run denotes zero.
pub open spec fn decimal_value(s: Seq<char>) -> nat
    decreases s.len(),
{
    if s.len() == 0 {
        0
    } else {
        decimal_value(s.drop_last()) * 10 + digit_value(s.last())
    }
}

/// The digits of an index text: the text itself, less one leading plus sign.
pub open spec fn index_digits(s: Seq<char>) -> Seq<char> {
    if s.len() > 0 && s[0] == '+' {
        s.subrange(1, s.len() as int)
    } else {
        s
    }
}

/// The index that a text denotes: an optional plus sign, then at least one
/// digit, the whole no greater than `usize::MAX`. Any other text denotes none.
pub open spec fn index_of_text(s: Seq<char>) -> Option<usize> {
    let digits = index_digits(s);
    if digits.len() > 0 && all_digits(digits) && decimal_value(digits) <= usize::MAX {
        Some(decimal_value(digits) as usize)
    } else {
        None
    }
}

/// A longer run of digits never denotes a smaller number than its prefix.
pub proof fn lemma_decimal_value_prefix(s: Seq<char>, n: int)
    requires
        0 <= n <= s.len(),
    ensures
        decimal_value(s.subrange(0, n)) <= decimal_value(s),
    decreases s.len(),
{
    if n == s.len() {
        assert(s.subrange(0, n) =~= s);
    } else {
        assert(s.drop_last().subrange(0, n) =~= s.subrange(0, n));
        lemma_decimal_value_prefix(s.drop_last(), n);
    }
}

/// Reads a decimal index from `s`.
pub fn parse_index(s: &str) -> (parsed: Option<usize>)
    ensures
        parsed == index_of_text(s@),
{
    let len = s.unicode_len();
    let start: usize = if len > 0 && s.get_char(0) == '+' {
        1
    } else {
        0
    };
    let ghost digits = index_digits(s@);
    assert(digits =~= s@.subrange(start as int, len as int));
    if start == len {
        return None;
    }
    let mut value: usize = 0;
    let mut i: usize = start;
    while i < len
        invariant
            start <= i <= len,
            len == s@.len(),
            digits == index_digits(s@),
            digits == s@.subrange(start as int, len as int),
            all_digits(digits.subrange(0, i - start)),
            value == decimal_value(digits.subrange(0, i - start)),
        decreases len - i,
    {
        let c = s.get_char(i);
        let ghost seen = digits.subrange(0, i - start);
        let ghost next = digits.subrange(0, i + 1 - start);
        assert(next.drop_last() =~= seen);
        assert(next.last() == c);
        if c < '0' || c > '9' {
            assert(!is_digit(digits[i - start]));
            return None;
        }
        let d: usize = (c as u32 - '0' as u32) as usize;
        assert(d == digit_value(c));
        proof {
            lemma_decimal_value_prefix(digits, i + 1 - start);
        }
        if value > (usize::MAX - d) / 10 {
            assert(decimal_value(next) > usize::MAX);
            return None;
        }
        value = value * 10 + d;
        assert forall|k: int| 0 <= k < next.len() implies is_digit(#[trigger] next[k]) by {
            if k < seen.len() {
                assert(next[k] == seen[k]);
            }
        }
        i += 1;
    }
    assert(digits.subrange(0, len - start) =~= digits);
    Some(value)
}

} // verus!
