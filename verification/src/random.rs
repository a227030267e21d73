//! Trusted access to the `rand` crate's thread-local generator. Nothing is
//! assumed about the values it produces: callers state only what holds of
//! every outcome.

use rand::Rng;
use vstd::prelude::*;

verus! {

#[verifier::external_type_specification]
#[verifier::external_body]
pub struct ExThreadRng(rand::rngs::ThreadRng);

/// Relies on rand::thread_rng: a handle to the thread-local generator.
#[verifier::external_body]
pub(crate) fn fresh_rng() -> rand::rngs::ThreadRng {
    rand::thread_rng()
}

/// Relies on rand::Rng::gen_ratio: returns true with probability num/den,
/// and panics when den is zero or num exceeds den, so those inputs are
/// excluded here; nothing is assumed of any single outcome.
#[verifier::external_body]
pub(crate) fn gen_ratio(rng: &mut rand::rngs::ThreadRng, num: u32, den: u32) -> bool
    requires
        0 < den,
        num <= den,
{
    rng.gen_ratio(num, den)
}

} // verus!
