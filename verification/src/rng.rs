//! The machine's source of random bytes.

use vstd::prelude::*;
use rand::Rng;

verus! {

/// Draws one byte from the thread-local generator of the `rand` crate, by
/// `rand::thread_rng()` and `Rng::gen::<u8>()`. Verus does not look inside; nothing
/// is claimed of the byte, which differs from call to call. The generator is seeded
/// from the operating system when a thread first uses it, and `rand` panics there
/// if the system has no entropy to give.
#[verifier::external_body]
pub(crate) fn random_byte() -> (byte: u8) {
    rand::thread_rng().gen::<u8>()
}

} // verus!
