//! The machine's entropy source for the masked-random instruction.

use vstd::prelude::*;
use rand::Rng;

verus! {

/// Relies on `rand::thread_rng` and `rand::Rng::gen`: one uniformly
/// distributed byte from the thread-local generator. Nothing is assumed of
/// the value; every caller must be correct for all 256 outcomes.
#[verifier::external_body]
pub(crate) fn random_byte() -> u8 {
    rand::thread_rng().gen::<u8>()
}

} // verus!
