//! Random draws: identifiers, jitter and candidate ports.

use core::ops::RangeInclusive;
use vstd::prelude::*;

verus! {

/// The bits that every version 4 UUID carries: the version nibble is 4 and the variant bits
/// are `10`.
pub open spec fn is_random_id(id: u128) -> bool {
    &&& (id >> 76u128) & 0xf == 4
    &&& (id >> 62u128) & 0x3 == 2
}

/// Draws an identifier with `uuid::Uuid::new_v4`, as the number that its bytes stand for.
///
/// Trusted: whatever bits are drawn, the version is 4 and the variant that of RFC 9562. That
/// two draws differ is overwhelmingly likely but not certain, and not claimed. The call panics
/// only where the operating system has no random numbers to give.
#[verifier::external_body]
pub(crate) fn random_id() -> (id: u128)
    ensures
        is_random_id(id),
{
    uuid::Uuid::new_v4().as_u128()
}

/// Draws a number from zero to `max` with `fastrand::u64`.
///
/// Trusted: the number lies in the range that was asked for. The range holds zero, so it is
/// never empty and the call does not panic.
#[verifier::external_body]
pub(crate) fn random_up_to(max: u64) -> (value: u64)
    ensures
        value <= max,
{
    fastrand::u64(0..=max)
}

/// Draws a port from a range with `fastrand::u16`.
///
/// Trusted: the port lies in the range that was asked for. The call panics on an empty range,
/// which the precondition leaves out.
#[verifier::external_body]
pub(crate) fn random_port(range: &RangeInclusive<u16>) -> (port: u16)
    requires
        range@.start <= range@.end,
        !range@.exhausted,
    ensures
        range@.start <= port <= range@.end,
{
    fastrand::u16(range.clone())
}

/// Law: the bits of a drawn identifier that are not random: the thirteenth of its 32 hexadecimal
/// digits is a four, and the seventeenth is an eight, a nine, an `a` or a `b`.
pub proof fn law_random_id(id: u128)
    ensures
        is_random_id(id) == ((id / 0x1_0000_0000_0000_0000_000) % 16 == 4 && 8 <= (id
            / 0x1000_0000_0000_0000) % 16 <= 11),
        is_random_id(id) ==> id != 0,
{
    assert((id >> 76u128) & 0xf == (id / 0x1_0000_0000_0000_0000_000) % 16) by (bit_vector);
    assert(((id >> 62u128) & 0x3 == 2) == (8 <= (id / 0x1000_0000_0000_0000) % 16 && (id
        / 0x1000_0000_0000_0000) % 16 <= 11)) by (bit_vector);
}

} // verus!
