//! The pool capacity, as written in `MAX_DB_CONNECTIONS`.
//!
//! The value is an unsigned decimal literal: an optional `+`, then one or more
//! ASCII digits, nothing before and nothing after, and a value that fits in
//! 32 bits. Leading zeros are accepted.

use vstd::prelude::*;
use vstd::string::*;

verus! {

/// The capacity of a pool whose environment names none.
pub const DEFAULT_MAX_CONNECTIONS: u32 = 20;

/// `c` is one of the ten ASCII digits.
pub open spec fn is_digit(c: char) -> bool {
    '0' <= c <= '9'
}

/// The number that the digit `c` stands for.
pub open spec fn digit_value(c: char) -> nat
    recommends
        is_digit(c),
{
    (c as nat - '0' as nat) as nat
}

/// Every character of `s` is a digit.
pub open spec fn all_digits(s: Seq<char>) -> bool {
    forall|i: int| 0 <= i < s.len() ==> is_digit(#[trigger] s[i])
}

/// The number that a run of digits denotes in base ten, most significant
/// digit first. The empty run denotes zero.
pub open spec fn digits_value(s: Seq<char>) -> nat
    decreases s.len(),
{
    if s.len() == 0 {
        0
    } else {
        digits_value(s.drop_last()) * 10 + digit_value(s.last())
    }
}

/// `s` without its leading `+`, if it has one.
pub open spec fn unsigned_body(s: Seq<char>) -> Seq<char> {
    if s.len() > 0 && s[0] == '+' {
        s.subrange(1, s.len() as int)
    } else {
        s
    }
}

/// The 32-bit value of the literal `s`, or `None` where `s` is no literal or
/// denotes a number beyond 32 bits.
pub open spec fn parse_u32(s: Seq<char>) -> Option<u32> {
    let body = unsigned_body(s);
    if body.len() > 0 && all_digits(body) && digits_value(body) <= u32::MAX {
        Some(digits_value(body) as u32)
    } else {
        None
    }
}

/// A run of digits denotes at least what any of its prefixes denotes.
pub proof fn lemma_prefix_value_le(s: Seq<char>, k: int)
    requires
        0 <= k <= s.len(),
    ensures
        digits_value(s.subrange(0, k)) <= digits_value(s),
    decreases s.len(),
{
    if k == s.len() {
        assert(s.subrange(0, k) =~= s);
    } else {
        lemma_prefix_value_le(s.drop_last(), k);
        assert(s.drop_last().subrange(0, k) =~= s.subrange(0, k));
    }
}

/// Reads a capacity literal.
pub fn parse_max_connections(raw: &str) -> (r: Option<u32>)
    ensures
        r == parse_u32(raw@),
{
    if !raw.is_ascii() {
        proof {
            let body = unsigned_body(raw@);
            if all_digits(body) {
                assert forall|i: int| 0 <= i < raw@.len() implies '\0' <= #[trigger] raw@[i]
                    <= '\u{7f}' by {
                    if body.len() == raw@.len() {
                        assert(is_digit(body[i]));
                    } else if i > 0 {
                        assert(is_digit(body[i - 1]));
                    }
                }
            }
        }
        return None;
    }
    let n: usize = raw.unicode_len();
    let start: usize = if n > 0 && raw.get_ascii(0) == 43u8 {
        1
    } else {
        0
    };
    let ghost body = raw@.subrange(start as int, n as int);
    assert(body == unsigned_body(raw@)) by {
        if start == 0 {
            assert(body =~= raw@);
        }
    }
    if start == n {
        return None;
    }
    let mut acc: u64 = 0;
    let mut i: usize = start;
    while i < n
        invariant
            raw.is_ascii(),
            n == raw@.len(),
            start <= i <= n,
            body == raw@.subrange(start as int, n as int),
            body == unsigned_body(raw@),
            all_digits(body.subrange(0, i - start)),
            acc == digits_value(body.subrange(0, i - start)),
            acc <= u32::MAX,
        decreases n - i,
    {
        let b: u8 = raw.get_ascii(i);
        let ghost c = raw@[i as int];
        assert(c == body[i - start]);
        assert('\0' <= c <= '\u{7f}');
        if b < 48u8 || b > 57u8 {
            assert(!is_digit(c));
            return None;
        }
        assert(is_digit(c));
        let d: u64 = (b - 48u8) as u64;
        let next: u64 = acc * 10 + d;
        proof {
            let longer = body.subrange(0, i - start + 1);
            assert(longer.drop_last() =~= body.subrange(0, i - start));
            assert(longer.last() == c);
            assert(next == digits_value(longer));
            assert forall|j: int| 0 <= j < longer.len() implies is_digit(#[trigger] longer[j]) by {
                if j < i - start {
                    assert(is_digit(body.subrange(0, i - start)[j]));
                }
            }
            lemma_prefix_value_le(body, i - start + 1);
        }
        if next > 0xffff_ffffu64 {
            return None;
        }
        acc = next;
        i = i + 1;
    }
    assert(body.subrange(0, n - start) =~= body);
    Some(acc as u32)
}

} // verus!
