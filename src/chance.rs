//! Random draws, taken from the `rand` crate.
use vstd::prelude::*;
use rand::Rng;

verus! {

/// rand's per-thread generator, carried through as an opaque value.
#[verifier::external_type_specification]
#[verifier::external_body]
pub struct ExThreadRng(rand::rngs::ThreadRng);

/// Relies on rand::random: a value drawn from the standard distribution of `T`;
/// nothing is promised about which one.
pub assume_specification<T>[ rand::random::<T> ]() -> (r: T)
    where
        rand::distributions::Standard: rand::distributions::Distribution<T>,
;

/// Relies on rand::thread_rng: a handle on the calling thread's generator.
pub assume_specification[ rand::thread_rng ]() -> rand::rngs::ThreadRng;

/// Relies on rand's Rng::gen_range over `0..n`: a value below `n` (it panics on an
/// empty range, which `requires` rules out).
#[verifier::external_body]
pub(crate) fn draw_below(rng: &mut rand::rngs::ThreadRng, n: usize) -> (r: usize)
    requires
        n > 0,
    ensures
        r < n,
{
    rng.gen_range(0..n)
}

} // verus!
