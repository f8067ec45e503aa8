//! The random source. Nothing here is proved: the two items state what the
//! `rand` crate is trusted to do.

use rand::rngs::ThreadRng;
use rand::Rng;
use vstd::prelude::*;

verus! {

/// `rand::rngs::ThreadRng`, the handle to the generator that `rand` keeps for
/// each thread. Nothing is known of what it holds.
#[verifier::external_type_specification]
#[verifier::external_body]
pub struct ExThreadRng(rand::rngs::ThreadRng);

/// Calls `rand::Rng::gen_range` on the range `0..bound`. The call panics on
/// an empty range, hence the precondition. Claimed of it: the number drawn
/// lies in the range. That every number of the range is equally likely is
/// what `rand` documents, and is not stated here.
#[verifier::external_body]
pub(crate) fn random_below(rng: &mut ThreadRng, bound: usize) -> (i: usize)
    requires
        bound > 0,
    ensures
        i < bound,
{
    rng.gen_range(0..bound)
}

} // verus!
