//! The source of the random byte that the `Random` instruction uses.

use rand::Rng;
use vstd::prelude::*;

verus! {

/// Draws one byte with `rand::thread_rng().gen::<u8>()`, the thread-local
/// generator of the `rand` crate, seeded by the operating system. Nothing is
/// claimed of the byte: two draws may differ, and every value of `u8` may
/// come. The generator panics if the operating system gives it no seed.
#[verifier::external_body]
pub(crate) fn random_byte() -> (byte: u8) {
    rand::thread_rng().gen::<u8>()
}

} // verus!
