//! Decimal integer parsing with the semantics of `str::parse::<i32>`.

use vstd::prelude::*;
use crate::text::{dec_digits, digit_char, int_text};

verus! {

/// An ASCII decimal digit.
pub open spec fn is_digit(c: char) -> bool {
    '0' <= c && c <= '9'
}

/// Value of an ASCII decimal digit.
pub open spec fn digit_value(c: char) -> int {
    c as int - '0' as int
}

/// Every character is an ASCII decimal digit.
pub open spec fn all_digits(s: Seq<char>) -> bool {
    forall|i: int| 0 <= i < s.len() ==> is_digit(#[trigger] s[i])
}

/// Value of a run of decimal digits, most significant first.
pub open spec fn digits_value(s: Seq<char>) -> int
    decreases s.len(),
{
    if s.len() == 0 {
        0
    } else {
        digits_value(s.drop_last()) * 10 + digit_value(s.last())
    }
}

/// The integer a text denotes: an optional `+` or `-` sign followed by at
/// least one decimal digit and nothing else.
pub open spec fn signed_value(s: Seq<char>) -> Option<int> {
    if s.len() > 0 && (s[0] == '-' || s[0] == '+') {
        let body = s.skip(1);
        if body.len() > 0 && all_digits(body) {
            if s[0] == '-' {
                Some(-digits_value(body))
            } else {
                Some(digits_value(body))
            }
        } else {
            None
        }
    } else if s.len() > 0 && all_digits(s) {
        Some(digits_value(s))
    } else {
        None
    }
}

/// What `str::parse::<i32>` yields: the denoted integer when it fits.
pub open spec fn parse_i32_spec(s: Seq<char>) -> Option<i32> {
    match signed_value(s) {
        Some(v) => if i32::MIN <= v <= i32::MAX {
            Some(v as i32)
        } else {
            None
        },
        None => None,
    }
}

proof fn lemma_digits_value_nonneg(s: Seq<char>)
    requires
        all_digits(s),
    ensures
        digits_value(s) >= 0,
    decreases s.len(),
{
    if s.len() > 0 {
        assert(all_digits(s.drop_last())) by {
            assert forall|i: int| 0 <= i < s.drop_last().len() implies is_digit(
                #[trigger] s.drop_last()[i],
            ) by {
                assert(s.drop_last()[i] == s[i]);
            }
        }
        lemma_digits_value_nonneg(s.drop_last());
        assert(is_digit(s[s.len() - 1]));
    }
}

proof fn lemma_digits_value_prefix(s: Seq<char>, k: int)
    requires
        all_digits(s),
        0 <= k <= s.len(),
    ensures
        digits_value(s) >= digits_value(s.take(k)),
    decreases s.len(),
{
    if k < s.len() {
        let d = s.drop_last();
        assert(all_digits(d)) by {
            assert forall|i: int| 0 <= i < d.len() implies is_digit(#[trigger] d[i]) by {
                assert(d[i] == s[i]);
            }
        }
        lemma_digits_value_prefix(d, k);
        assert(d.take(k) =~= s.take(k));
        lemma_digits_value_nonneg(d);
        assert(is_digit(s[s.len() - 1]));
    } else {
        assert(s.take(k) =~= s);
    }
}

/// Parses a decimal `i32` exactly as `str::parse::<i32>` does: an optional
/// sign, then one or more ASCII digits; anything else, or a value out of
/// range, gives `None`.
pub fn parse_i32(s: &str) -> (r: Option<i32>)
    ensures
        r == parse_i32_spec(s@),
{
    let n = s.unicode_len();
    if n == 0 {
        return None;
    }
    let c0 = s.get_char(0);
    let start: usize = if c0 == '-' || c0 == '+' {
        1
    } else {
        0
    };
    let neg = c0 == '-';
    if start == n {
        return None;
    }
    let ghost body = s@.skip(start as int);
    let mut acc: i64 = 0;
    let mut i: usize = start;
    while i < n
        invariant
            n == s@.len(),
            start <= i <= n,
            start < n,
            body == s@.skip(start as int),
            all_digits(s@.subrange(start as int, i as int)),
            acc == digits_value(s@.subrange(start as int, i as int)),
            0 <= acc <= 2147483648,
            c0 == s@[0],
            neg == (c0 == '-'),
            start == (if c0 == '-' || c0 == '+' { 1usize } else { 0usize }),
        decreases n - i,
    {
        let c = s.get_char(i);
        if !(c >= '0' && c <= '9') {
            proof {
                assert(c0 == s@[0]);
                assert(body[i - start] == c);
                assert(!is_digit(body[i - start]));
                assert(!all_digits(body));
                if start == 0 {
                    assert(body =~= s@);
                }
            }
            return None;
        }
        let d: i64 = (c as u32 - '0' as u32) as i64;
        let ghost pre = s@.subrange(start as int, i as int);
        let ghost next = s@.subrange(start as int, i + 1);
        proof {
            assert(next.drop_last() =~= pre);
            assert(next.last() == c);
            assert(all_digits(next)) by {
                assert forall|j: int| 0 <= j < next.len() implies is_digit(#[trigger] next[j]) by {
                    if j < pre.len() {
                        assert(next[j] == pre[j]);
                    }
                }
            }
        }
        acc = acc * 10 + d;
        i = i + 1;
        if acc > 2147483648 {
            proof {
                assert(c0 == s@[0]);
                if all_digits(body) {
                    assert(body.take((i - start) as int) =~= next);
                    lemma_digits_value_prefix(body, (i - start) as int);
                }
                if start == 0 {
                    assert(body =~= s@);
                }
            }
            return None;
        }
    }
    proof {
        assert(c0 == s@[0]);
        assert(s@.subrange(start as int, n as int) =~= body);
        if start == 0 {
            assert(body =~= s@);
        }
    }
    if neg {
        Some((0 - acc) as i32)
    } else if acc <= 2147483647 {
        Some(acc as i32)
    } else {
        None
    }
}

proof fn lemma_digit_char_value(d: nat)
    requires
        d < 10,
    ensures
        is_digit(digit_char(d)),
        digit_value(digit_char(d)) == d,
{
}

proof fn lemma_dec_digits_shape(m: nat)
    ensures
        dec_digits(m).len() > 0,
        all_digits(dec_digits(m)),
        digits_value(dec_digits(m)) == m,
    decreases m,
{
    let t = dec_digits(m);
    if m < 10 {
        lemma_digit_char_value(m);
        assert(t.drop_last() =~= Seq::<char>::empty());
        assert(digits_value(t) == digits_value(t.drop_last()) * 10 + digit_value(t.last()));
    } else {
        lemma_digit_char_value(m % 10);
        lemma_dec_digits_shape(m / 10);
        let p = dec_digits(m / 10);
        assert(t.drop_last() =~= p);
        assert(t.last() == digit_char(m % 10));
        assert(digits_value(t) == digits_value(t.drop_last()) * 10 + digit_value(t.last()));
        assert((m / 10) * 10 + m % 10 == m);
        assert(all_digits(t)) by {
            assert forall|i: int| 0 <= i < t.len() implies is_digit(#[trigger] t[i]) by {
                if i < p.len() {
                    assert(t[i] == p[i]);
                }
            }
        }
    }
}

/// Parsing the decimal text of any `i32` gives that integer back.
pub proof fn lemma_parse_i32_of_text(n: i32)
    ensures
        parse_i32_spec(int_text(n as int)) == Some(n),
{
    if n < 0 {
        let m = (-(n as int)) as nat;
        lemma_dec_digits_shape(m);
        let t = int_text(n as int);
        assert(t.skip(1) =~= dec_digits(m));
        assert(t[0] == '-');
    } else {
        let m = n as nat;
        lemma_dec_digits_shape(m);
        let t = dec_digits(m);
        assert(is_digit(t[0]));
    }
}

} // verus!
