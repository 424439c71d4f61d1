//! The source of chance.
use vstd::prelude::*;
use rand::Rng;

verus! {

/// Draws an integer from `low..high` with `rand::Rng::gen_range`, on the generator
/// that `rand::thread_rng` keeps for the calling thread.
///
/// Trusted, not proved: the value drawn lies in the half-open range. Nothing is
/// claimed about how the values are distributed, nor about two draws being related.
/// `gen_range` panics on an empty range, which the precondition rules out.
#[verifier::external_body]
pub(crate) fn random_in_range(low: i32, high: i32) -> (value: i32)
    requires
        low < high,
    ensures
        low <= value < high,
{
    rand::thread_rng().gen_range(low..high)
}

} // verus!
