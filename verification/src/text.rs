//! Text building blocks: decimal rendering of integers, joining, literals.

use vstd::prelude::*;

verus! {

/// The ASCII digit for a value below ten.
pub open spec fn digit_char(d: nat) -> char
    recommends
        d < 10,
{
    if d == 0 {
        '0'
    } else if d == 1 {
        '1'
    } else if d == 2 {
        '2'
    } else if d == 3 {
        '3'
    } else if d == 4 {
        '4'
    } else if d == 5 {
        '5'
    } else if d == 6 {
        '6'
    } else if d == 7 {
        '7'
    } else if d == 8 {
        '8'
    } else {
        '9'
    }
}

/// Decimal digits of a natural number, most significant first, without
/// leading zeros (zero itself is the single digit `0`).
pub open spec fn dec_digits(n: nat) -> Seq<char>
    decreases n,
{
    if n < 10 {
        seq![digit_char(n)]
    } else {
        dec_digits(n / 10) + seq![digit_char(n % 10)]
    }
}

/// Decimal text of an integer: an optional minus sign, then its digits.
pub open spec fn int_text(i: int) -> Seq<char> {
    if i < 0 {
        seq!['-'] + dec_digits((-i) as nat)
    } else {
        dec_digits(i as nat)
    }
}

fn digit_str(d: u64) -> (r: &'static str)
    requires
        d < 10,
    ensures
        r@ == seq![digit_char(d as nat)],
{
    proof {
        reveal_strlit("0");
        reveal_strlit("1");
        reveal_strlit("2");
        reveal_strlit("3");
        reveal_strlit("4");
        reveal_strlit("5");
        reveal_strlit("6");
        reveal_strlit("7");
        reveal_strlit("8");
        reveal_strlit("9");
    }
    match d {
        0 => "0",
        1 => "1",
        2 => "2",
        3 => "3",
        4 => "4",
        5 => "5",
        6 => "6",
        7 => "7",
        8 => "8",
        _ => "9",
    }
}

/// Renders an unsigned integer in decimal.
pub fn u64_text(n: u64) -> (r: String)
    ensures
        r@ == dec_digits(n as nat),
    decreases n,
{
    if n < 10 {
        String::from_str(digit_str(n))
    } else {
        let mut s = u64_text(n / 10);
        s.append(digit_str(n % 10));
        s
    }
}

/// Renders a signed integer in decimal.
pub fn i64_text(n: i64) -> (r: String)
    ensures
        r@ == int_text(n as int),
{
    if n < 0 {
        let mag: u64 = ((-(n + 1)) as u64) + 1;
        let digits = u64_text(mag);
        let mut s = String::from_str("-");
        proof {
            reveal_strlit("-");
        }
        s.append(digits.as_str());
        s
    } else {
        u64_text(n as u64)
    }
}

} // verus!

verus! {

/// Renders an unsigned 32-bit integer in decimal.
pub fn u32_text(n: u32) -> (r: String)
    ensures
        r@ == dec_digits(n as nat),
{
    u64_text(n as u64)
}

/// Renders a signed 32-bit integer in decimal.
pub fn i32_text(n: i32) -> (r: String)
    ensures
        r@ == int_text(n as int),
{
    i64_text(n as i64)
}

/// The text `true` or `false`.
pub open spec fn bool_text(b: bool) -> Seq<char> {
    if b {
        seq!['t', 'r', 'u', 'e']
    } else {
        seq!['f', 'a', 'l', 's', 'e']
    }
}

/// Renders a boolean the way `bool::to_string` does.
pub fn bool_str(b: bool) -> (r: &'static str)
    ensures
        r@ == bool_text(b),
{
    proof {
        reveal_strlit("true");
        reveal_strlit("false");
    }
    if b {
        "true"
    } else {
        "false"
    }
}

/// Joins `parts` with `sep` between consecutive elements.
pub open spec fn seq_join(parts: Seq<Seq<char>>, sep: Seq<char>) -> Seq<char>
    decreases parts.len(),
{
    if parts.len() == 0 {
        Seq::empty()
    } else if parts.len() == 1 {
        parts[0]
    } else {
        seq_join(parts.drop_last(), sep) + sep + parts.last()
    }
}

/// Joins strings with a separator, like `[String]::join`.
pub fn join(parts: &Vec<String>, sep: &str) -> (r: String)
    ensures
        r@ == seq_join(parts.deep_view(), sep@),
{
    let mut res = String::new();
    let ghost dv = parts.deep_view();
    let n = parts.len();
    let mut i: usize = 0;
    while i < n
        invariant
            n == parts.len(),
            dv == parts.deep_view(),
            dv.len() == n,
            i <= n,
            res@ == seq_join(dv.take(i as int), sep@),
        decreases n - i,
    {
        if i != 0 {
            res.append(sep);
        }
        res.append(parts[i].as_str());
        assert(dv.take((i + 1) as int).drop_last() =~= dv.take(i as int));
        assert(dv.take((i + 1) as int).last() == dv[i as int]);
        assert(dv[i as int] == parts[i as int]@);
        if i == 0 {
            assert(dv.take(1) =~= seq![dv[0]]);
        }
        i = i + 1;
    }
    assert(dv.take(n as int) =~= dv);
    res
}

/// Decimal texts of a sequence of integers.
pub open spec fn int_texts(ids: Seq<i32>) -> Seq<Seq<char>> {
    ids.map_values(|i: i32| int_text(i as int))
}

/// Renders integers in decimal, separated by commas (`1,2,3`).
pub fn join_i32(ids: &[i32]) -> (r: String)
    ensures
        r@ == seq_join(int_texts(ids@), ","@),
{
    let mut res = String::new();
    let ghost dv = int_texts(ids@);
    let n = ids.len();
    let mut i: usize = 0;
    while i < n
        invariant
            n == ids@.len(),
            dv == int_texts(ids@),
            dv.len() == n,
            i <= n,
            res@ == seq_join(dv.take(i as int), ","@),
        decreases n - i,
    {
        if i != 0 {
            res.append(",");
        }
        let t = i32_text(ids[i]);
        res.append(t.as_str());
        assert(dv.take((i + 1) as int).drop_last() =~= dv.take(i as int));
        assert(dv.take((i + 1) as int).last() == dv[i as int]);
        if i == 0 {
            assert(dv.take(1) =~= seq![dv[0]]);
        }
        i = i + 1;
    }
    assert(dv.take(n as int) =~= dv);
    res
}

/// Concatenates two texts into a new string.
pub fn concat2(a: &str, b: &str) -> (r: String)
    ensures
        r@ == a@ + b@,
{
    let mut s = String::from_str(a);
    s.append(b);
    s
}

/// Concatenates three texts into a new string.
pub fn concat3(a: &str, b: &str, c: &str) -> (r: String)
    ensures
        r@ == a@ + b@ + c@,
{
    let mut s = String::from_str(a);
    s.append(b);
    s.append(c);
    s
}

/// Owned copy of a text.
pub fn owned(a: &str) -> (r: String)
    ensures
        r@ == a@,
{
    String::from_str(a)
}

/// Unicode lowercase form of a text, as `str::to_lowercase` computes it.
pub uninterp spec fn lowercase(s: Seq<char>) -> Seq<char>;

/// Calls `str::to_lowercase`; its result is named `lowercase` of the
/// argument's characters and nothing more is claimed about it.
#[verifier::external_body]
pub(crate) fn to_lowercase(s: &str) -> (r: String)
    ensures
        r@ == lowercase(s@),
{
    s.to_lowercase()
}

/// Whether two texts are equal.
pub fn same_text(a: &str, b: &str) -> (r: bool)
    ensures
        r == (a@ == b@),
{
    String::from_str(a) == String::from_str(b)
}

/// Every non-overlapping occurrence of `pat`, from left to right,
/// replaced by `to`, as `str::replace` does for a non-empty pattern.
pub open spec fn replace_spec(s: Seq<char>, pat: Seq<char>, to: Seq<char>) -> Seq<char>
    decreases s.len(),
{
    if s.len() == 0 {
        Seq::empty()
    } else if 0 < pat.len() <= s.len() && s.take(pat.len() as int) == pat {
        to + replace_spec(s.skip(pat.len() as int), pat, to)
    } else {
        seq![s[0]] + replace_spec(s.skip(1), pat, to)
    }
}

/// Replaces every occurrence of a non-empty pattern, left to right.
pub fn replace_all(s: &str, pat: &str, to: &str) -> (r: String)
    requires
        pat@.len() > 0,
    ensures
        r@ == replace_spec(s@, pat@, to@),
{
    let n = s.unicode_len();
    let m = pat.unicode_len();
    let mut out = String::new();
    let mut i: usize = 0;
    proof {
        assert(s@.skip(0) =~= s@);
        assert(out@ + replace_spec(s@, pat@, to@) =~= replace_spec(s@, pat@, to@));
    }
    while i < n
        invariant
            n == s@.len(),
            m == pat@.len(),
            m > 0,
            i <= n,
            replace_spec(s@, pat@, to@) == out@ + replace_spec(s@.skip(i as int), pat@, to@),
        decreases n - i,
    {
        let ghost rest = s@.skip(i as int);
        let matched = if m <= n - i {
            let window = s.substring_char(i, i + m);
            same_text(window, pat)
        } else {
            false
        };
        proof {
            if m <= n - i {
                assert(rest.take(m as int) =~= s@.subrange(i as int, i + m));
            }
        }
        if matched {
            out.append(to);
            proof {
                assert(rest.skip(m as int) =~= s@.skip(i + m));
            }
            i = i + m;
        } else {
            let c = s.substring_char(i, i + 1);
            out.append(c);
            proof {
                assert(c@ =~= seq![rest[0]]);
                assert(rest.skip(1) =~= s@.skip(i + 1));
            }
            i = i + 1;
        }
    }
    proof {
        assert(s@.skip(n as int) =~= Seq::<char>::empty());
        assert(out@ + Seq::<char>::empty() =~= out@);
    }
    out
}

} // verus!
