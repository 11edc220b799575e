//! Optional request parameters rendered as text pairs, the way a
//! urlencoded serializer renders skipped `None` fields, integers and
//! booleans.

use vstd::prelude::*;
use crate::http::{MultipartPart, opt_pair, pair, parts_view, push_pair, push_part};
use crate::text::{bool_str, bool_text, dec_digits, i32_text, i64_text, int_text, join, seq_join, u32_text};

verus! {

/// Text of an optional 32-bit integer.
pub open spec fn opt_i32(o: Option<i32>) -> Option<Seq<char>> {
    match o {
        Some(n) => Some(int_text(n as int)),
        None => None,
    }
}

/// Text of an optional 64-bit integer.
pub open spec fn opt_i64(o: Option<i64>) -> Option<Seq<char>> {
    match o {
        Some(n) => Some(int_text(n as int)),
        None => None,
    }
}

/// Text of an optional boolean.
pub open spec fn opt_bool(o: Option<bool>) -> Option<Seq<char>> {
    match o {
        Some(b) => Some(bool_text(b)),
        None => None,
    }
}

/// Characters of an optional static text.
pub open spec fn opt_str(o: Option<&'static str>) -> Option<Seq<char>> {
    match o {
        Some(s) => Some(s@),
        None => None,
    }
}

/// Appends `(key, n)` when `n` is present.
pub fn push_opt_i32(list: &mut Vec<(String, String)>, k: &str, v: Option<i32>)
    ensures
        final(list).deep_view() == old(list).deep_view() + opt_pair(k@, opt_i32(v)),
{
    match v {
        Some(n) => {
            let t = i32_text(n);
            push_pair(list, k, t.as_str());
        },
        None => {
            assert(final(list).deep_view() =~= old(list).deep_view() + opt_pair(k@, opt_i32(v)));
        },
    }
}

/// Appends `(key, n)` when `n` is present.
pub fn push_opt_i64(list: &mut Vec<(String, String)>, k: &str, v: Option<i64>)
    ensures
        final(list).deep_view() == old(list).deep_view() + opt_pair(k@, opt_i64(v)),
{
    match v {
        Some(n) => {
            let t = i64_text(n);
            push_pair(list, k, t.as_str());
        },
        None => {
            assert(final(list).deep_view() =~= old(list).deep_view() + opt_pair(k@, opt_i64(v)));
        },
    }
}

/// Appends `(key, true|false)` when the flag is present.
pub fn push_opt_bool(list: &mut Vec<(String, String)>, k: &str, v: Option<bool>)
    ensures
        final(list).deep_view() == old(list).deep_view() + opt_pair(k@, opt_bool(v)),
{
    match v {
        Some(b) => {
            push_pair(list, k, bool_str(b));
        },
        None => {
            assert(final(list).deep_view() =~= old(list).deep_view() + opt_pair(k@, opt_bool(v)));
        },
    }
}

/// Appends `(key, text)` when the text is present.
pub fn push_opt_str(list: &mut Vec<(String, String)>, k: &str, v: Option<&'static str>)
    ensures
        final(list).deep_view() == old(list).deep_view() + opt_pair(k@, opt_str(v)),
{
    match v {
        Some(s) => {
            push_pair(list, k, s);
        },
        None => {
            assert(final(list).deep_view() =~= old(list).deep_view() + opt_pair(k@, opt_str(v)));
        },
    }
}

/// Appends `(key, value)`; the pair is always present.
pub fn push_text(list: &mut Vec<(String, String)>, k: &str, v: &str)
    ensures
        final(list).deep_view() == old(list).deep_view() + pair(k@, v@),
{
    push_pair(list, k, v);
}

/// An empty list of pairs.
pub fn no_pairs() -> (r: Vec<(String, String)>)
    ensures
        r.deep_view() == Seq::<(Seq<char>, Seq<char>)>::empty(),
{
    let r: Vec<(String, String)> = Vec::new();
    proof {
        assert(r.deep_view() =~= Seq::<(Seq<char>, Seq<char>)>::empty());
    }
    r
}

/// Text of an optional unsigned integer.
pub open spec fn opt_u32(o: Option<u32>) -> Option<Seq<char>> {
    match o {
        Some(n) => Some(dec_digits(n as nat)),
        None => None,
    }
}

/// An optional list joined with commas.
pub open spec fn opt_join(o: Option<Vec<String>>) -> Option<Seq<char>> {
    match o {
        Some(v) => Some(seq_join(v.deep_view(), ","@)),
        None => None,
    }
}

/// Appends `(key, n)` when `n` is present.
pub fn push_opt_u32(list: &mut Vec<(String, String)>, k: &str, v: Option<u32>)
    ensures
        final(list).deep_view() == old(list).deep_view() + opt_pair(k@, opt_u32(v)),
{
    match v {
        Some(n) => {
            let t = u32_text(n);
            push_pair(list, k, t.as_str());
        },
        None => {
            assert(final(list).deep_view() =~= old(list).deep_view() + opt_pair(k@, opt_u32(v)));
        },
    }
}

/// Appends `(key, items joined with commas)` when the list is present.
pub fn push_opt_list(list: &mut Vec<(String, String)>, k: &str, v: &Option<Vec<String>>)
    ensures
        final(list).deep_view() == old(list).deep_view() + opt_pair(k@, opt_join(*v)),
{
    match v {
        Some(items) => {
            let t = join(items, ",");
            push_pair(list, k, t.as_str());
        },
        None => {
            assert(final(list).deep_view() =~= old(list).deep_view() + opt_pair(k@, opt_join(*v)));
        },
    }
}

/// An empty multipart body.
pub fn no_parts() -> (r: Vec<MultipartPart>)
    ensures
        parts_view(r@) == Seq::<(Seq<char>, Seq<char>)>::empty(),
{
    let r: Vec<MultipartPart> = Vec::new();
    proof {
        assert(parts_view(r@) =~= Seq::<(Seq<char>, Seq<char>)>::empty());
    }
    r
}

/// Appends a text part when the value is present.
pub fn push_part_opt_text(parts: &mut Vec<MultipartPart>, k: &str, v: Option<&str>)
    ensures
        parts_view(final(parts)@) == parts_view(old(parts)@) + opt_pair(
            k@,
            match v {
                Some(s) => Some(s@),
                None => None,
            },
        ),
{
    match v {
        Some(s) => {
            push_part(parts, k, s);
        },
        None => {
            assert(parts_view(final(parts)@) =~= parts_view(old(parts)@) + opt_pair(k@, None));
        },
    }
}

/// Appends an optional text part.
pub fn push_part_opt_string(parts: &mut Vec<MultipartPart>, k: &str, v: &Option<String>)
    ensures
        parts_view(final(parts)@) == parts_view(old(parts)@) + opt_pair(k@, v.deep_view()),
{
    match v {
        Some(s) => push_part_opt_text(parts, k, Some(s.as_str())),
        None => push_part_opt_text(parts, k, None),
    }
}

/// Appends `true` or `false` when the flag is present.
pub fn push_part_opt_bool(parts: &mut Vec<MultipartPart>, k: &str, v: Option<bool>)
    ensures
        parts_view(final(parts)@) == parts_view(old(parts)@) + opt_pair(k@, opt_bool(v)),
{
    match v {
        Some(b) => push_part_opt_text(parts, k, Some(bool_str(b))),
        None => push_part_opt_text(parts, k, None),
    }
}

/// Appends a decimal integer when it is present.
pub fn push_part_opt_i32(parts: &mut Vec<MultipartPart>, k: &str, v: Option<i32>)
    ensures
        parts_view(final(parts)@) == parts_view(old(parts)@) + opt_pair(k@, opt_i32(v)),
{
    match v {
        Some(n) => {
            let t = i32_text(n);
            push_part_opt_text(parts, k, Some(t.as_str()));
        },
        None => push_part_opt_text(parts, k, None),
    }
}

/// Appends the items joined with commas when the list is present.
pub fn push_part_opt_list(parts: &mut Vec<MultipartPart>, k: &str, v: &Option<Vec<String>>)
    ensures
        parts_view(final(parts)@) == parts_view(old(parts)@) + opt_pair(k@, opt_join(*v)),
{
    match v {
        Some(items) => {
            let t = join(items, ",");
            push_part_opt_text(parts, k, Some(t.as_str()));
        },
        None => push_part_opt_text(parts, k, None),
    }
}

} // verus!
