//! The source of chance: the operating system's random number generator.
//!
//! Nothing is promised of what it yields beyond the type: every rule of the
//! library holds for all values that may come out of it. Where the system has
//! no entropy to give, the generator aborts the process.

use rand::rngs::OsRng;
use rand::RngCore;
use vstd::prelude::*;

verus! {

/// `rand::rngs::OsRng`, of which nothing is seen but that it exists.
#[verifier::external_type_specification]
#[verifier::external_body]
pub struct ExOsRng(rand::rngs::OsRng);

/// A handle on `rand::rngs::OsRng`, which holds no state of its own.
#[verifier::external_body]
pub(crate) fn os_rng() -> OsRng {
    OsRng
}

/// `RngCore::next_u32` of `OsRng`: four bytes of the system's entropy.
#[verifier::external_body]
pub(crate) fn next_u32(rng: &mut OsRng) -> u32 {
    rng.next_u32()
}

/// `RngCore::next_u64` of `OsRng`: eight bytes of the system's entropy.
#[verifier::external_body]
pub(crate) fn next_u64(rng: &mut OsRng) -> u64 {
    rng.next_u64()
}

/// `RngCore::fill_bytes` of `OsRng`: every byte of `block` is overwritten
/// with the system's entropy.
#[verifier::external_body]
pub(crate) fn fill_bytes(rng: &mut OsRng, block: &mut [u8; 32]) {
    rng.fill_bytes(block)
}

} // verus!
