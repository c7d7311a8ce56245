//! Identifiers. An entity identifier is the 128-bit value of its UUID; its text
//! forms come from the `uuid` crate.

use vstd::prelude::*;

verus! {

/// The 128-bit value of a UUID, most significant byte first (as `Uuid::from_u128` reads it).
pub type EntityId = u128;

/// The lowercase hexadecimal digit for `d` (`0 <= d < 16`).
pub open spec fn hex_digit(d: int) -> char {
    if d < 10 {
        (d + 48) as char
    } else {
        (d + 87) as char
    }
}

/// The last `n` hexadecimal digits of `v`, most significant first, zero-padded.
pub open spec fn hex_fixed(v: nat, n: nat) -> Seq<char>
    decreases n,
{
    if n == 0 {
        Seq::empty()
    } else {
        hex_fixed(v / 16, (n - 1) as nat).push(hex_digit((v % 16) as int))
    }
}

/// The "simple" text form of a UUID: its 32 lowercase hexadecimal digits.
pub open spec fn uuid_simple(id: u128) -> Seq<char> {
    hex_fixed(id as nat, 32)
}

/// The hyphenated text form of a UUID (what `Display` writes): the 32 digits
/// grouped 8-4-4-4-12.
pub open spec fn uuid_hyphenated(id: u128) -> Seq<char> {
    let s = uuid_simple(id);
    s.subrange(0, 8) + seq!['-'] + s.subrange(8, 12) + seq!['-'] + s.subrange(12, 16)
        + seq!['-'] + s.subrange(16, 20) + seq!['-'] + s.subrange(20, 32)
}

/// Calls `uuid::Uuid::from_u128(id).simple().to_string()`. The crate writes
/// each of the 16 big-endian bytes as two lowercase hexadecimal digits.
#[verifier::external_body]
pub(crate) fn uuid_simple_string(id: u128) -> (s: String)
    ensures
        s@ == uuid_simple(id),
{
    uuid::Uuid::from_u128(id).simple().to_string()
}

/// Calls `uuid::Uuid::from_u128(id).hyphenated().to_string()` (the form `Display`
/// writes). The crate writes the 32 lowercase digits of the simple form with a
/// hyphen after the 8th, 12th, 16th and 20th.
#[verifier::external_body]
pub(crate) fn uuid_hyphenated_string(id: u128) -> (s: String)
    ensures
        s@ == uuid_hyphenated(id),
{
    uuid::Uuid::from_u128(id).hyphenated().to_string()
}

} // verus!

verus! {

/// Sixteen to the `n`.
pub open spec fn pow16(n: nat) -> nat
    decreases n,
{
    if n == 0 {
        1
    } else {
        16 * pow16((n - 1) as nat)
    }
}

/// Whether `c` is a lowercase hexadecimal digit.
pub open spec fn is_hex_digit(c: char) -> bool {
    ('0' <= c <= '9') || ('a' <= c <= 'f')
}

/// `n` digits are written, each a lowercase hexadecimal digit, and values
/// below `16^n` are written differently.
pub proof fn lemma_hex_fixed_injective(v: nat, w: nat, n: nat)
    ensures
        hex_fixed(v, n).len() == n,
        forall|i: int| 0 <= i < n ==> is_hex_digit(#[trigger] hex_fixed(v, n)[i]),
        v < pow16(n) && w < pow16(n) && hex_fixed(v, n) == hex_fixed(w, n) ==> v == w,
    decreases n,
{
    if n > 0 {
        lemma_hex_fixed_injective(v / 16, w / 16, (n - 1) as nat);
        let p = hex_fixed(v / 16, (n - 1) as nat);
        assert(hex_fixed(v, n) == p.push(hex_digit((v % 16) as int)));
        assert forall|i: int| 0 <= i < n implies is_hex_digit(#[trigger] hex_fixed(v, n)[i]) by {
            if i < n - 1 {
                assert(hex_fixed(v, n)[i] == p[i]);
            }
        }
        if v < pow16(n) && w < pow16(n) && hex_fixed(v, n) == hex_fixed(w, n) {
            assert(hex_fixed(v, n).drop_last() == p);
            assert(hex_fixed(w, n).drop_last() == hex_fixed(w / 16, (n - 1) as nat));
            assert(hex_fixed(v, n).last() == hex_digit((v % 16) as int));
            assert(hex_fixed(w, n).last() == hex_digit((w % 16) as int));
            assert(v % 16 == w % 16);
            assert(v / 16 < pow16((n - 1) as nat));
            assert(w / 16 < pow16((n - 1) as nat));
        }
    }
}

/// A UUID's simple form has 32 hexadecimal digits and its hyphenated form 36
/// characters; different UUIDs have different simple forms.
pub proof fn lemma_uuid_simple_injective(a: u128, b: u128)
    ensures
        uuid_simple(a).len() == 32,
        uuid_hyphenated(a).len() == 36,
        forall|i: int| 0 <= i < 32 ==> is_hex_digit(#[trigger] uuid_simple(a)[i]),
        uuid_simple(a) == uuid_simple(b) ==> a == b,
{
    lemma_hex_fixed_injective(a as nat, b as nat, 32);
    reveal_with_fuel(pow16, 33);
    assert(pow16(32) == 0x1_0000_0000_0000_0000_0000_0000_0000_0000nat);
}

} // verus!
