//! The trusted boundary to the random number generator. Every caller
//! states only what holds of every possible outcome.

use vstd::prelude::*;

verus! {

/// Relies on rand::Rng::gen_range over the exclusive range `lo..hi`:
/// it returns a value of that range and panics only on an empty one,
/// which the precondition rules out.
#[verifier::external_body]
pub(crate) fn gen_range_i32(lo: i32, hi: i32) -> (r: i32)
    requires
        lo < hi,
    ensures
        lo <= r < hi,
{
    rand::Rng::gen_range(&mut rand::thread_rng(), lo..hi)
}

/// Relies on rand::Rng::gen_range over `0..n`: it returns an index
/// below `n` and panics only when `n` is zero, which the precondition
/// rules out.
#[verifier::external_body]
pub(crate) fn gen_index(n: usize) -> (r: usize)
    requires
        n > 0,
    ensures
        r < n,
{
    rand::Rng::gen_range(&mut rand::thread_rng(), 0..n)
}

} // verus!
