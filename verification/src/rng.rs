//! The one source of randomness the simulation uses: a uniformly random
//! integer from a half-open range.
use vstd::prelude::*;

verus! {

/// Relies on rand's `Rng::gen_range` on the thread-local generator: for a
/// non-empty half-open range `lo..hi` it returns a value of the range (it
/// panics on an empty range, which the precondition rules out). Nothing more
/// is assumed of the result: callers hold for every value of it.
#[verifier::external_body]
pub(crate) fn rand_range(lo: i32, hi: i32) -> (r: i32)
    requires
        lo < hi,
    ensures
        lo <= r < hi,
{
    rand::Rng::gen_range(&mut rand::thread_rng(), lo..hi)
}

} // verus!
