//! The one call out of the interpreter's logic: drawing a random byte.

use vstd::prelude::*;

verus! {

/// Relies on `rand::random::<u8>()` for a byte from the thread-local
/// generator. Nothing can be promised of a random value, so the contract
/// says nothing; `Chip8::vx_rnd_with` takes the byte as an argument and is
/// verified for every value of it.
#[verifier::external_body]
pub(crate) fn random_byte() -> u8 {
    rand::random::<u8>()
}

} // verus!
