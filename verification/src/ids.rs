//! Identifiers of rooms, participants and tracks: 128-bit random UUIDs.
use vstd::prelude::*;
use crate::text::uuid_text;

verus! {

/// The bits of an identifier that name its version and variant.
pub const VERSION_VARIANT_MASK: u128 = 0xf000_c000_0000_0000_0000u128;

/// The values of those bits in a random (version 4, RFC 4122 variant) identifier.
pub const VERSION_VARIANT_BITS: u128 = 0x4000_8000_0000_0000_0000u128;

/// Draws a fresh random identifier.
///
/// Trusted: calls `uuid::Uuid::new_v4` and reads it back with `as_u128`.
/// The source masks a random 128-bit number so that the version nibble is 4
/// and the variant bits are `10`; that is all the contract claims, since the
/// rest is chance.
#[verifier::external_body]
pub(crate) fn new_id() -> (id: u128)
    ensures
        id & VERSION_VARIANT_MASK == VERSION_VARIANT_BITS,
{
    uuid::Uuid::new_v4().as_u128()
}

/// Writes an identifier in its canonical hyphenated form.
///
/// Trusted: calls `Display` of `uuid::Uuid::from_u128(id)`, which formats the
/// big-endian bytes as lower-case hexadecimal in 8-4-4-4-12 groups; the
/// contract claims exactly that text.
#[verifier::external_body]
pub(crate) fn id_text(id: u128) -> (s: String)
    ensures
        s@ == uuid_text(id),
{
    uuid::Uuid::from_u128(id).to_string()
}

} // verus!
