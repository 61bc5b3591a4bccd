//! Random numbers for scene generation.

use vstd::prelude::*;

verus! {

/// Calls `rand::random_range(lo..hi)`, which draws a value uniformly from
/// `lo..hi` with the thread-local generator (and panics on an empty range,
/// which `requires` rules out). The contract claims only that the value lies
/// in the range; which value comes out is left open.
#[verifier::external_body]
pub(crate) fn random_in_range(lo: i64, hi: i64) -> (r: i64)
    requires
        lo < hi,
    ensures
        lo <= r < hi,
{
    rand::random_range(lo..hi)
}

} // verus!
