//! The random bit source, consumed as an opaque capability.
//!
//! Generation always succeeds given a functioning random source; a failing
//! source aborts, which is outside this library's responsibility.

use vstd::prelude::*;

verus! {

/// Relies on `rand::random`: one uniform draw of a primitive value from the
/// thread-local generator. Nothing can be promised of a random value.
pub assume_specification<T>[ rand::random::<T> ]() -> (r: T)
    where
        rand::distributions::Standard: rand::distributions::Distribution<T>,
;

/// Relies on `rand_distr::Exp1` sampled through `rand::Rng::sample`: a
/// finite draw from the rate-1 exponential distribution, never below zero,
/// so `libm::fabs` leaves it unchanged and only settles its width. The body
/// scales the draw by `size` and keeps the integer part with `libm::floor`.
/// A zero size leaves nothing of the sample, so the result is then zero; the
/// cast saturates, so the call never panics.
#[verifier::external_body]
pub(crate) fn exp_scaled(size: usize) -> (n: usize)
    ensures
        size == 0 ==> n == 0,
{
    let sample = libm::fabs(rand::Rng::sample(&mut rand::thread_rng(), rand_distr::Exp1));
    let scale = libm::fabs(num_traits::FromPrimitive::from_usize(size).unwrap());
    libm::floor(sample * scale) as usize
}

/// Relies on `rand::Rng::gen_range` on the range `0..n`: a uniform draw
/// strictly below `n`. The call panics on an empty range, so `n` must be
/// positive.
#[verifier::external_body]
pub(crate) fn choose_index(n: usize) -> (i: usize)
    requires
        1 <= n,
    ensures
        i < n,
{
    rand::Rng::gen_range(&mut rand::thread_rng(), 0..n)
}

/// Relies on `rand::distributions::DistString::sample_string` for the
/// `Standard` distribution: a string of exactly `n` characters, each drawn
/// uniformly from the Unicode scalar values.
#[verifier::external_body]
pub(crate) fn random_string(n: usize) -> (s: String)
    ensures
        s@.len() == n,
{
    rand::distributions::DistString::sample_string(
        &rand::distributions::Standard,
        &mut rand::thread_rng(),
        n,
    )
}

} // verus!
