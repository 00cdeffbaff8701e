use vstd::prelude::*;
use rand::Rng;

verus! {

/// Draws one byte from `rand::thread_rng()` with `Rng::gen`. Nothing is
/// claimed of the byte: callers are verified for every value it may take.
/// The generator is seeded from the operating system on first use in a
/// thread and panics if the system can give it no entropy.
#[verifier::external_body]
pub(crate) fn random_byte() -> (byte: u8) {
    rand::thread_rng().gen()
}

} // verus!
