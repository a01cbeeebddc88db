//! The random seed a stack instance starts with when none is given.

use rand::Rng;
use vstd::prelude::*;

verus! {

/// Fills 32 bytes from the thread-local generator of `rand`
/// (`rand::rng()` and `Rng::fill` on a byte slice).
///
/// The bytes come from a generator seeded by the operating system, so
/// nothing is stated of their values. `rand` panics where the operating
/// system's generator fails to seed the thread-local one; this contract
/// does not exclude that.
#[verifier::external_body]
pub(crate) fn random_seed() -> (seed: [u8; 32]) {
    let mut seed: [u8; 32] = [0u8; 32];
    rand::rng().fill(&mut seed[..]);
    seed
}

} // verus!
