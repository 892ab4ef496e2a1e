//! Identifiers: 128-bit ULIDs, written in Crockford's base 32.
use vstd::prelude::*;
use vstd::arithmetic::power2::pow2;

verus! {

/// The 32 digits of Crockford's base 32, in value order.
pub open spec fn crockford_digits() -> Seq<char> {
    seq![
        '0', '1', '2', '3', '4', '5', '6', '7', '8', '9', 'A', 'B', 'C', 'D', 'E', 'F',
        'G', 'H', 'J', 'K', 'M', 'N', 'P', 'Q', 'R', 'S', 'T', 'V', 'W', 'X', 'Y', 'Z',
    ]
}

/// The 26-character text of an identifier: its 128 bits in groups of five
/// from the most significant end (the first group holds the top three
/// bits), each group written as one base-32 digit.
pub open spec fn id_text(id: u128) -> Seq<char> {
    Seq::new(
        26,
        |i: int| crockford_digits()[((id as nat / pow2((125 - 5 * i) as nat)) % 32) as int],
    )
}

/// Milliseconds in the 48-bit time part of an identifier.
pub open spec fn id_time_part(ms: u64) -> int {
    ms as int % 0x1_0000_0000_0000
}

/// The identifier made of a 48-bit millisecond time part (the high bits)
/// and an 80-bit random part (the low bits).
pub open spec fn id_from_parts(ms: u64, random: u128) -> int {
    id_time_part(ms) * 0x1_0000_0000_0000_0000_0000 + random as int % 0x1_0000_0000_0000_0000_0000
}

/// Writes an identifier as text, through `ulid::Ulid::to_string`, which
/// encodes the 128 bits as 26 Crockford base-32 digits, most significant
/// first.
#[verifier::external_body]
pub(crate) fn write_id(id: u128) -> (s: String)
    ensures
        s@ == id_text(id),
{
    ulid::Ulid(id).to_string()
}

/// Builds an identifier through `ulid::Ulid::from_parts`, which keeps the low
/// 48 bits of the time part as the high bits and the low 80 bits of the
/// random part as the low bits.
#[verifier::external_body]
pub(crate) fn id_from_time_and_random(ms: u64, random: u128) -> (id: u128)
    ensures
        id as int == id_from_parts(ms, random),
{
    ulid::Ulid::from_parts(ms, random).0
}

} // verus!
