//! The randomness source of the report timers.

use rand::Rng;
use rand_xorshift::XorShiftRng;
use vstd::prelude::*;

verus! {

/// `rand_xorshift::XorShiftRng`, of which nothing is known here: a generator
/// is only handed on to `gen_below`.
#[verifier::external_type_specification]
#[verifier::external_body]
pub struct ExXorShiftRng(XorShiftRng);

/// Draws from `rand::Rng::gen_range` on the half-open range `0..upper`.
///
/// The draw is uniform over the range; all that is claimed of it here is that
/// it lies in the range. An empty range makes the outside function panic, so
/// `upper` must be positive.
#[verifier::external_body]
pub(crate) fn gen_below(rng: &mut XorShiftRng, upper: u64) -> (sample: u64)
    requires
        upper > 0,
    ensures
        sample < upper,
{
    rng.gen_range(0..upper)
}

} // verus!
