//! Values drawn at random: the identifier and the payload of a probe whose
//! caller names none.

use vstd::prelude::*;

verus! {

/// Calls `rand::random` for a `u16`: a value drawn from the thread's
/// generator. Nothing is claimed of the value.
#[verifier::external_body]
pub(crate) fn random_identifier() -> u16 {
    rand::random()
}

/// Calls `rand::random` for 32 bytes: a block drawn from the thread's
/// generator. Nothing is claimed of its content.
#[verifier::external_body]
pub(crate) fn random_token() -> [u8; 32] {
    rand::random()
}

} // verus!
