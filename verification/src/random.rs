//! The random source that scatters the floaters at start-up.
//!
//! Nothing here is proved: these items state what the `rand` crate documents,
//! and the rest of the crate relies on no more than that.

use rand::rngs::ThreadRng;
use rand::Rng;
use vstd::prelude::*;

verus! {

/// `rand::rngs::ThreadRng`, the handle to the generator of the calling
/// thread. Nothing is known of what it holds.
#[verifier::external_type_specification]
#[verifier::external_body]
pub struct ExThreadRng(ThreadRng);

/// `rand::thread_rng` hands out the generator of the calling thread, which
/// the system seeds. Nothing is claimed of the handle.
pub assume_specification[ rand::thread_rng ]() -> (rng: ThreadRng)
;

/// Calls `rand::Rng::gen_range` on whole numbers. The crate documents that
/// the result lies in the half-open range from `low` up to `high`, and that
/// the call panics unless `low < high`. Which number comes is left open.
#[verifier::external_body]
pub(crate) fn gen_range(rng: &mut ThreadRng, low: i32, high: i32) -> (n: i32)
    requires
        low < high,
    ensures
        low <= n < high,
{
    rng.gen_range(low, high)
}

} // verus!
