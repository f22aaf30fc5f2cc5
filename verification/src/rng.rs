//! The one randomness source of the library.

use vstd::prelude::*;

verus! {

/// Relies on rand's `Rng::gen_range` over the half-open range `0..n`
/// (backed by `thread_rng`): it panics on an empty range, so `n > 0` is
/// required, and otherwise returns a value of the range. Nothing more is
/// promised of the draw: it depends on the thread-local generator's state.
#[verifier::external_body]
pub(crate) fn rand_below(n: u64) -> (r: u64)
    requires
        n > 0,
    ensures
        r < n,
{
    rand::Rng::gen_range(&mut rand::thread_rng(), 0..n)
}

} // verus!
