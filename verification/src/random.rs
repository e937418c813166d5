//! Random selection used when picking a feedback phrase from a pool.

use vstd::prelude::*;

verus! {

/// Relies on `fastrand::usize` over the range `0..n`: some index below `n`;
/// the range is non-empty, so the call returns instead of panicking.
/// Nothing more is promised of a random draw.
#[verifier::external_body]
pub(crate) fn random_index(n: usize) -> (r: usize)
    requires
        n >= 1,
    ensures
        r < n,
{
    fastrand::usize(..n)
}

} // verus!
