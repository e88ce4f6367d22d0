//! Entity handles.

use vstd::prelude::*;

verus! {

/// An entity is a unique identifier and nothing more: the 128-bit value of
/// the identifier it was issued with.
#[derive(Debug, Clone, Copy, PartialEq, Eq, Hash)]
pub struct Entity(pub u128);

impl Entity {
    pub fn get_uuid(&self) -> (id: u128)
        ensures
            id == self.0,
    {
        self.0
    }
}

/// Whether `id` has the version and variant bits of a random identifier.
pub open spec fn is_random_id(id: u128) -> bool {
    id & 0xF000_C000_0000_0000_0000u128 == 0x4000_8000_0000_0000_0000u128
}

/// Tests whether `id` has the version and variant bits of a random
/// identifier.
pub fn is_random_id_bits(id: u128) -> (r: bool)
    ensures
        r == is_random_id(id),
{
    id & 0xF000_C000_0000_0000_0000u128 == 0x4000_8000_0000_0000_0000u128
}

/// Draws a fresh random identifier with `uuid::Uuid::new_v4` and returns its
/// 128-bit value. Which value comes back is left open; the contract claims
/// only the version and variant bits that every such identifier carries.
#[verifier::external_body]
pub(crate) fn fresh_id() -> (id: u128)
    ensures
        is_random_id(id),
{
    uuid::Uuid::new_v4().as_u128()
}

} // verus!
