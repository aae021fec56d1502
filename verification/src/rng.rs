//! The random source: uniform integer sampling over a half-open range.

use vstd::prelude::*;

verus! {

/// Relies on rand's `random_range` on the thread-local generator: it returns
/// a uniformly sampled value inside the given half-open range, and panics
/// only when the range is empty, which the precondition rules out.
#[verifier::external_body]
pub(crate) fn random_in_range(lo: u16, hi: u16) -> (r: u16)
    requires
        lo < hi,
    ensures
        lo <= r < hi,
{
    rand::random_range(lo..hi)
}

} // verus!
