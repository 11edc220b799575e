//! JSON text for request parameters: string quoting as `serde_json` writes
//! it, and compact objects assembled from already-rendered member values.

use vstd::prelude::*;
use crate::text::{concat3, join, seq_join};

verus! {

/// Lowercase hexadecimal digit of a value below sixteen.
pub open spec fn hex_char(d: nat) -> char {
    if d < 10 {
        crate::text::digit_char(d)
    } else if d == 10 {
        'a'
    } else if d == 11 {
        'b'
    } else if d == 12 {
        'c'
    } else if d == 13 {
        'd'
    } else if d == 14 {
        'e'
    } else {
        'f'
    }
}

/// The JSON escape of one character, as `serde_json` writes it: quote and
/// backslash are escaped, the control characters below U+0020 use the short
/// forms `\b \t \n \f \r` where they exist and `\u00XX` otherwise; every
/// other character stands for itself.
pub open spec fn json_escape_char(c: char) -> Seq<char> {
    if c == '"' {
        seq!['\\', '"']
    } else if c == '\\' {
        seq!['\\', '\\']
    } else if c == '\x08' {
        seq!['\\', 'b']
    } else if c == '\t' {
        seq!['\\', 't']
    } else if c == '\n' {
        seq!['\\', 'n']
    } else if c == '\x0c' {
        seq!['\\', 'f']
    } else if c == '\r' {
        seq!['\\', 'r']
    } else if (c as u32) < 0x20 {
        seq![
            '\\',
            'u',
            '0',
            '0',
            hex_char(((c as u32) / 16) as nat),
            hex_char(((c as u32) % 16) as nat),
        ]
    } else {
        seq![c]
    }
}

/// The escaped body of a JSON string.
pub open spec fn json_escape(s: Seq<char>) -> Seq<char>
    decreases s.len(),
{
    if s.len() == 0 {
        Seq::empty()
    } else {
        json_escape(s.drop_last()) + json_escape_char(s.last())
    }
}

/// A JSON string literal: the escaped text between double quotes.
pub open spec fn json_quote(s: Seq<char>) -> Seq<char> {
    seq!['"'] + json_escape(s) + seq!['"']
}

/// Calls `serde_json::to_string` on a string slice, which writes the text
/// between double quotes with the escapes of `json_escape_char`. Writing a
/// string into memory does not fail.
#[verifier::external_body]
pub(crate) fn json_string(s: &str) -> (r: String)
    ensures
        r@ == json_quote(s@),
{
    serde_json::to_string(s).unwrap_or_default()
}

/// One `"key":value` member of a compact JSON object.
pub open spec fn json_member(m: (Seq<char>, Seq<char>)) -> Seq<char> {
    json_quote(m.0) + seq![':'] + m.1
}

/// A compact JSON object whose members, in the given order, pair a key with
/// its already-rendered JSON value.
pub open spec fn json_object(members: Seq<(Seq<char>, Seq<char>)>) -> Seq<char> {
    seq!['{'] + seq_join(members.map_values(|m: (Seq<char>, Seq<char>)| json_member(m)), seq![','])
        + seq!['}']
}

/// Renders a compact JSON object from keys and rendered values.
pub fn render_object(members: &Vec<(String, String)>) -> (r: String)
    ensures
        r@ == json_object(members.deep_view()),
{
    let ghost dv = members.deep_view();
    let ghost parts = dv.map_values(|m: (Seq<char>, Seq<char>)| json_member(m));
    let mut res = String::new();
    let n = members.len();
    let mut i: usize = 0;
    while i < n
        invariant
            n == members.len(),
            dv == members.deep_view(),
            dv.len() == n,
            parts == dv.map_values(|m: (Seq<char>, Seq<char>)| json_member(m)),
            i <= n,
            res@ == seq_join(parts.take(i as int), seq![',']),
        decreases n - i,
    {
        if i != 0 {
            proof {
                reveal_strlit(",");
            }
            res.append(",");
        }
        let key = json_string(members[i].0.as_str());
        res.append(key.as_str());
        proof {
            reveal_strlit(":");
        }
        res.append(":");
        res.append(members[i].1.as_str());
        proof {
            assert(dv[i as int] == (members[i as int].0@, members[i as int].1@));
            assert(parts.take((i + 1) as int).drop_last() =~= parts.take(i as int));
            assert(parts.take((i + 1) as int).last() == parts[i as int]);
            if i == 0 {
                assert(parts.take(1) =~= seq![parts[0]]);
            }
        }
        i = i + 1;
    }
    assert(parts.take(n as int) =~= parts);
    let mut out = String::from_str("{");
    out.append(res.as_str());
    out.append("}");
    proof {
        reveal_strlit("{");
        reveal_strlit("}");
    }
    out
}

/// A compact JSON array whose elements are the given rendered values.
pub open spec fn json_array(items: Seq<Seq<char>>) -> Seq<char> {
    seq!['['] + seq_join(items, ","@) + seq![']']
}

/// Renders a compact JSON array from rendered elements.
pub fn array_text(items: &Vec<String>) -> (r: String)
    ensures
        r@ == json_array(items.deep_view()),
{
    let body = join(items, ",");
    let r = concat3("[", body.as_str(), "]");
    proof {
        reveal_strlit("[");
        reveal_strlit("]");
    }
    r
}

} // verus!
