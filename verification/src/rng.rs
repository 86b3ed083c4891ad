//! Trusted boundary to the `rand` crate: the thread-local generator and
//! uniform sampling below a bound. Nothing is assumed of which value comes
//! back, only of its range.

use rand::RngExt;
use vstd::prelude::*;

verus! {

/// `rand::rngs::ThreadRng`, the thread-local random generator, declared so
/// that it can be held and passed around; it is opaque to verification.
#[verifier::external_type_specification]
#[verifier::external_body]
pub struct ExThreadRng(rand::rngs::ThreadRng);

/// Relies on `rand::rng`: a handle to the calling thread's random
/// generator. Nothing is claimed of it.
#[verifier::external_body]
pub(crate) fn new_rng() -> rand::rngs::ThreadRng {
    rand::rng()
}

/// Relies on `rand::RngExt::random_range` over `0..n`: a uniform sample
/// from that range. `n >= 1` keeps the range non-empty, which the call
/// demands. Only the range of the result is assumed, never which value
/// comes back: two calls on the same bound may differ.
#[verifier::external_body]
pub(crate) fn sample_below(rng: &mut rand::rngs::ThreadRng, n: i32) -> (r: i32)
    requires
        1 <= n,
    ensures
        0 <= r < n,
{
    rng.random_range(0..n)
}

} // verus!
