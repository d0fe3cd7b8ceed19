//! The one place where the simulation draws randomness from the outside.

use vstd::prelude::*;
use rand::Rng;

verus! {

/// Relies on rand's `Rng::gen_range` (through `thread_rng`) on an inclusive
/// `i64` range: for `lo <= hi` the range is non-empty, so the call does not
/// panic and returns a value between the two bounds.  Nothing more is assumed
/// of the draw.
#[verifier::external_body]
pub(crate) fn rand_in_range(lo: i64, hi: i64) -> (r: i64)
    requires
        lo <= hi,
    ensures
        lo <= r <= hi,
{
    rand::thread_rng().gen_range(lo..=hi)
}

} // verus!
