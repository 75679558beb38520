//! The one source of chance in the controller: which drone implementation is built.
use rand::Rng;
use vstd::prelude::*;

verus! {

/// Calls `rand::rng().random_range(0..bound)` (rand's thread-local generator). rand
/// documents that the value lies in the range and that the call panics on an empty
/// range, which `requires` rules out; which value comes back is left open.
#[verifier::external_body]
pub(crate) fn random_below(bound: usize) -> (r: usize)
    requires
        bound > 0,
    ensures
        r < bound,
{
    rand::rng().random_range(0..bound)
}

} // verus!
