//! The random source: the thread-local generator of the `rand` crate.
//!
//! Nothing here is proved. Each item states what `rand` documents of every
//! outcome, and no more: which value is drawn is left open.

use rand::rngs::ThreadRng;
use rand::Rng;
use vstd::prelude::*;

verus! {

#[verifier::external_type_specification]
#[verifier::external_body]
pub struct ExThreadRng(ThreadRng);

/// `rand::thread_rng` hands out the generator of the current thread. Nothing is
/// claimed of it.
pub assume_specification[ rand::thread_rng ]() -> (rng: ThreadRng);

/// `Rng::gen_range` on the half-open range from 0 to `bound`: the value drawn
/// lies in that range. The range must not be empty.
#[verifier::external_body]
pub(crate) fn draw_below(rng: &mut ThreadRng, bound: usize) -> (drawn: usize)
    requires
        bound > 0,
    ensures
        drawn < bound,
{
    rng.gen_range(0..bound)
}

/// `rand::random` at type `bool`: a coin flip. Nothing is claimed of the side
/// it lands on.
#[verifier::external_body]
pub(crate) fn flip_coin() -> (heads: bool) {
    rand::random()
}

} // verus!
