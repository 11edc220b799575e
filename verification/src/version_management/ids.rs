//! Edit session IDs and version GUIDs: 128-bit UUIDs written in the
//! hyphenated lowercase form.

use vstd::prelude::*;
use crate::json::hex_char;

verus! {

/// The `i`-th hexadecimal digit of a 128-bit value, most significant first.
pub open spec fn nibble(bits: u128, i: int) -> u128 {
    (bits >> ((31 - i) * 4) as u128) & 0xf
}

/// Text of the first `i` digits of a UUID, with a hyphen before digits 8,
/// 12, 16 and 20 (the `8-4-4-4-12` grouping).
pub open spec fn uuid_prefix(bits: u128, i: int) -> Seq<char>
    decreases i,
{
    if i <= 0 {
        Seq::empty()
    } else {
        uuid_prefix(bits, i - 1) + if i - 1 == 8 || i - 1 == 12 || i - 1 == 16 || i - 1 == 20 {
            seq!['-']
        } else {
            Seq::empty()
        } + seq![hex_char(nibble(bits, i - 1) as nat)]
    }
}

/// The hyphenated lowercase text of a UUID, as its `Display` writes it.
pub open spec fn uuid_text(bits: u128) -> Seq<char> {
    uuid_prefix(bits, 32)
}

fn hex_digit(d: u128) -> (r: &'static str)
    requires
        d < 16,
    ensures
        r@ == seq![hex_char(d as nat)],
{
    proof {
        reveal_strlit("0");
        reveal_strlit("1");
        reveal_strlit("2");
        reveal_strlit("3");
        reveal_strlit("4");
        reveal_strlit("5");
        reveal_strlit("6");
        reveal_strlit("7");
        reveal_strlit("8");
        reveal_strlit("9");
        reveal_strlit("a");
        reveal_strlit("b");
        reveal_strlit("c");
        reveal_strlit("d");
        reveal_strlit("e");
        reveal_strlit("f");
    }
    if d == 0 {
        "0"
    } else if d == 1 {
        "1"
    } else if d == 2 {
        "2"
    } else if d == 3 {
        "3"
    } else if d == 4 {
        "4"
    } else if d == 5 {
        "5"
    } else if d == 6 {
        "6"
    } else if d == 7 {
        "7"
    } else if d == 8 {
        "8"
    } else if d == 9 {
        "9"
    } else if d == 10 {
        "a"
    } else if d == 11 {
        "b"
    } else if d == 12 {
        "c"
    } else if d == 13 {
        "d"
    } else if d == 14 {
        "e"
    } else {
        "f"
    }
}

/// Writes a UUID in the hyphenated lowercase form.
pub fn uuid_string(bits: u128) -> (r: String)
    ensures
        r@ == uuid_text(bits),
{
    let mut out = String::new();
    let mut i: u32 = 0;
    while i < 32
        invariant
            i <= 32,
            out@ == uuid_prefix(bits, i as int),
        decreases 32 - i,
    {
        if i == 8 || i == 12 || i == 16 || i == 20 {
            out.append("-");
            proof {
                reveal_strlit("-");
            }
        }
        let shift: u32 = (31 - i) * 4;
        let d: u128 = (bits >> shift) & 0xf;
        assert(d < 16) by (bit_vector)
            requires
                d == (bits >> shift) & 0xf,
        ;
        proof {
            assert(d == nibble(bits, i as int));
        }
        out.append(hex_digit(d));
        i = i + 1;
    }
    out
}

/// Digits `from` to `to` (exclusive) of a UUID, most significant first.
pub open spec fn hex_run(bits: u128, from: int, to: int) -> Seq<char> {
    Seq::new((to - from) as nat, |k: int| hex_char(nibble(bits, from + k) as nat))
}

/// The text of the first `i` digits with their hyphens, group by group.
pub open spec fn grouped_prefix(bits: u128, i: int) -> Seq<char> {
    if i <= 8 {
        hex_run(bits, 0, i)
    } else if i <= 12 {
        hex_run(bits, 0, 8) + seq!['-'] + hex_run(bits, 8, i)
    } else if i <= 16 {
        hex_run(bits, 0, 8) + seq!['-'] + hex_run(bits, 8, 12) + seq!['-'] + hex_run(bits, 12, i)
    } else if i <= 20 {
        hex_run(bits, 0, 8) + seq!['-'] + hex_run(bits, 8, 12) + seq!['-'] + hex_run(bits, 12, 16)
            + seq!['-'] + hex_run(bits, 16, i)
    } else {
        hex_run(bits, 0, 8) + seq!['-'] + hex_run(bits, 8, 12) + seq!['-'] + hex_run(bits, 12, 16)
            + seq!['-'] + hex_run(bits, 16, 20) + seq!['-'] + hex_run(bits, 20, i)
    }
}

proof fn lemma_prefix_grouped(bits: u128, i: int)
    requires
        0 <= i <= 32,
    ensures
        uuid_prefix(bits, i) == grouped_prefix(bits, i),
    decreases i,
{
    if i > 0 {
        lemma_prefix_grouped(bits, i - 1);
        let c = hex_char(nibble(bits, i - 1) as nat);
        if i - 1 < 8 {
            assert(hex_run(bits, 0, i) =~= hex_run(bits, 0, i - 1) + seq![c]);
        } else if i - 1 == 8 {
            assert(hex_run(bits, 8, i) =~= seq![c]);
            assert(hex_run(bits, 0, 8) + Seq::<char>::empty() =~= hex_run(bits, 0, 8));
            assert(uuid_prefix(bits, i) =~= grouped_prefix(bits, i));
        } else if i - 1 < 12 {
            assert(hex_run(bits, 8, i) =~= hex_run(bits, 8, i - 1) + seq![c]);
            assert(uuid_prefix(bits, i) =~= grouped_prefix(bits, i));
        } else if i - 1 == 12 {
            assert(hex_run(bits, 12, i) =~= seq![c]);
            assert(uuid_prefix(bits, i) =~= grouped_prefix(bits, i));
        } else if i - 1 < 16 {
            assert(hex_run(bits, 12, i) =~= hex_run(bits, 12, i - 1) + seq![c]);
            assert(uuid_prefix(bits, i) =~= grouped_prefix(bits, i));
        } else if i - 1 == 16 {
            assert(hex_run(bits, 16, i) =~= seq![c]);
            assert(uuid_prefix(bits, i) =~= grouped_prefix(bits, i));
        } else if i - 1 < 20 {
            assert(hex_run(bits, 16, i) =~= hex_run(bits, 16, i - 1) + seq![c]);
            assert(uuid_prefix(bits, i) =~= grouped_prefix(bits, i));
        } else if i - 1 == 20 {
            assert(hex_run(bits, 20, i) =~= seq![c]);
            assert(uuid_prefix(bits, i) =~= grouped_prefix(bits, i));
        } else {
            assert(hex_run(bits, 20, i) =~= hex_run(bits, 20, i - 1) + seq![c]);
            assert(uuid_prefix(bits, i) =~= grouped_prefix(bits, i));
        }
    }
}

/// The text of a UUID is its 32 hexadecimal digits, most significant
/// first, in groups of 8, 4, 4, 4 and 12 joined by hyphens: 36 characters.
pub proof fn lemma_uuid_text_grouping(bits: u128)
    ensures
        uuid_text(bits) == hex_run(bits, 0, 8) + seq!['-'] + hex_run(bits, 8, 12) + seq!['-']
            + hex_run(bits, 12, 16) + seq!['-'] + hex_run(bits, 16, 20) + seq!['-'] + hex_run(
            bits,
            20,
            32,
        ),
        uuid_text(bits).len() == 36,
{
    lemma_prefix_grouped(bits, 32);
}

/// The version nibble (4, random) and variant bits (`10`) of a freshly
/// generated UUID.
pub open spec fn is_random_uuid(bits: u128) -> bool {
    &&& (bits >> 76u128) & 0xf == 4
    &&& (bits >> 62u128) & 0x3 == 2
}

/// Calls `uuid::Uuid::new_v4` and returns its 128 bits. Whatever the random
/// source gives, `new_v4` masks in version 4 and the RFC 4122 variant,
/// which is all that is claimed.
#[verifier::external_body]
fn random_uuid_bits() -> (r: u128)
    ensures
        is_random_uuid(r),
{
    uuid::Uuid::new_v4().as_u128()
}

/// Identifier of an edit or read session.
#[derive(Debug, Clone, Copy, PartialEq, Eq, Hash, Structural)]
pub struct SessionId(pub u128);

impl SessionId {
    /// A fresh random (version 4) session ID.
    pub fn new() -> (r: SessionId)
        ensures
            is_random_uuid(r.0),
    {
        SessionId(random_uuid_bits())
    }

    /// The session ID with the given 128 bits.
    pub fn from_u128(bits: u128) -> (r: SessionId)
        ensures
            r.0 == bits,
    {
        SessionId(bits)
    }

    /// The 128 bits of the ID.
    pub fn as_u128(&self) -> (r: u128)
        ensures
            r == self.0,
    {
        self.0
    }

    /// The hyphenated lowercase text of the ID.
    pub fn to_string(&self) -> (r: String)
        ensures
            r@ == uuid_text(self.0),
    {
        uuid_string(self.0)
    }
}

impl Default for SessionId {
    fn default() -> (r: SessionId)
        ensures
            is_random_uuid(r.0),
    {
        SessionId::new()
    }
}

/// Identifier of a branch version.
#[derive(Debug, Clone, Copy, PartialEq, Eq, Hash, Structural)]
pub struct VersionGuid(pub u128);

impl VersionGuid {
    /// The version GUID with the given 128 bits.
    pub fn from_u128(bits: u128) -> (r: VersionGuid)
        ensures
            r.0 == bits,
    {
        VersionGuid(bits)
    }

    /// The 128 bits of the GUID.
    pub fn as_u128(&self) -> (r: u128)
        ensures
            r == self.0,
    {
        self.0
    }

    /// The hyphenated lowercase text of the GUID.
    pub fn to_string(&self) -> (r: String)
        ensures
            r@ == uuid_text(self.0),
    {
        uuid_string(self.0)
    }
}

} // verus!
