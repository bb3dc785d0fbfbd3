//! Trusted boundary to the pseudo-random number generator used for food
//! placement.

use vstd::prelude::*;

verus! {

/// Relies on rand's `Rng::gen_range` over an inclusive `i32` range: it panics
/// only on an empty range and otherwise returns a value between the bounds,
/// both ends included. Nothing more is assumed of the outcome; callers must
/// hold for every value in the range.
#[verifier::external_body]
pub(crate) fn gen_range_i32(lo: i32, hi: i32) -> (r: i32)
    requires
        lo <= hi,
    ensures
        lo <= r <= hi,
{
    rand::Rng::gen_range(&mut rand::thread_rng(), lo..=hi)
}

} // verus!
