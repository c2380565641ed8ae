use rand::Rng;
use vstd::prelude::*;

verus! {

/// Draws one byte from the thread-local generator of the `rand` crate:
/// `rand::thread_rng()`, then `Rng::gen::<u8>()`.
///
/// The byte is a matter of chance, so nothing is claimed of it: whoever
/// calls this has to be right for all 256 outcomes. The generator seeds
/// itself from the operating system and gives up where that fails.
#[verifier::external_body]
pub(crate) fn random_byte() -> u8 {
    rand::thread_rng().gen::<u8>()
}

} // verus!
