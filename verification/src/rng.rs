//! The crate's only source of randomness: two narrow wrappers over the
//! `rand` crate.
//!
//! Nothing is assumed about which value comes back beyond its range, so
//! every function built on these holds for every possible draw.

use vstd::prelude::*;

verus! {

/// Relies on `rand::thread_rng` and `rand::Rng::gen_range` over
/// `0..bound`: the sample lies in `[0, bound)`; the call panics only on
/// an empty range, which the precondition rules out.
#[verifier::external_body]
pub fn random_u32_below(bound: u32) -> (r: u32)
    requires
        bound >= 1,
    ensures
        r < bound,
{
    rand::Rng::gen_range(&mut rand::thread_rng(), 0..bound)
}

/// Relies on `rand::thread_rng` and `rand::Rng::gen_range` over
/// `lo..hi`: the sample lies in `[lo, hi)`; the call panics only on an
/// empty range, which the precondition rules out.
#[verifier::external_body]
pub fn random_i64_between(lo: i64, hi: i64) -> (r: i64)
    requires
        lo < hi,
    ensures
        lo <= r < hi,
{
    rand::Rng::gen_range(&mut rand::thread_rng(), lo..hi)
}

} // verus!
