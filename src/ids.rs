//! Identifiers: 128-bit UUID values and their canonical text.
use vstd::prelude::*;

verus! {

/// The sixteen lower-case hexadecimal digits, in order of value.
pub open spec fn hex_alphabet() -> Seq<char> {
    seq!['0', '1', '2', '3', '4', '5', '6', '7', '8', '9', 'a', 'b', 'c', 'd', 'e', 'f']
}

/// The last `count` hexadecimal digits of `v`, most significant first.
pub open spec fn hex_digits(v: nat, count: nat) -> Seq<char>
    decreases count,
{
    if count == 0 {
        Seq::empty()
    } else {
        hex_digits(v / 16, (count - 1) as nat).push(hex_alphabet()[(v % 16) as int])
    }
}

/// The hyphenated lower-case form of a UUID: 8-4-4-4-12 hexadecimal digits
/// of its big-endian value.
pub open spec fn uuid_text(v: u128) -> Seq<char> {
    let h = hex_digits(v as nat, 32);
    h.subrange(0, 8) + seq!['-'] + h.subrange(8, 12) + seq!['-'] + h.subrange(12, 16) + seq!['-']
        + h.subrange(16, 20) + seq!['-'] + h.subrange(20, 32)
}

/// Whether `v` is a random (version 4, RFC 4122 variant) UUID: its version
/// nibble is 4 and its variant bits are `0b10`.
pub open spec fn is_v4(v: u128) -> bool {
    (v >> 76u128) & 0xfu128 == 4 && (v >> 62u128) & 3u128 == 2
}

/// Relies on uuid::Uuid::new_v4, read back with Uuid::as_u128: random bits
/// with the version nibble set to 4 and the variant bits set to 0b10.
#[verifier::external_body]
pub fn fresh_id() -> (r: u128)
    ensures
        is_v4(r),
{
    uuid::Uuid::new_v4().as_u128()
}

/// Relies on uuid::Uuid::from_u128 (big-endian) and Uuid's Display, which
/// writes the hyphenated lower-case form.
#[verifier::external_body]
pub fn uuid_string(v: u128) -> (r: String)
    ensures
        r@ == uuid_text(v),
{
    uuid::Uuid::from_u128(v).to_string()
}

} // verus!
