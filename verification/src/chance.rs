//! The random source of an animation: the generator type of `rand`, and the
//! one call that the library makes on it.

use rand::rngs::StdRng;
use rand::Rng;
use vstd::prelude::*;

verus! {

/// `rand::rngs::StdRng`, carried through as an opaque value.
#[verifier::external_type_specification]
#[verifier::external_body]
pub struct ExStdRng(StdRng);

/// Calls `Rng::gen_range` on the half-open range `0..bound`.
///
/// `rand` panics on an empty range, so `bound` must be positive. The value
/// drawn lies in the range; which one it is depends on the generator's
/// state, of which nothing is claimed.
#[verifier::external_body]
pub(crate) fn draw_below(rng: &mut StdRng, bound: u32) -> (roll: u32)
    requires
        bound > 0,
    ensures
        roll < bound,
{
    rng.gen_range(0..bound)
}

} // verus!
