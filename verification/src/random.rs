//! Random draws used by the game rules, taken from the `rand` crate.

use vstd::prelude::*;
use rand::rngs::ThreadRng;
use rand::Rng;

verus! {

/// The thread-local generator of `rand`, carried through the rules that draw
/// random numbers.
#[verifier::external_type_specification]
#[verifier::external_body]
pub struct ExThreadRng(ThreadRng);

/// Draws a number uniformly from `low..high` with `rand::Rng::gen_range` on
/// the thread-local generator. The contract claims only what holds of every
/// draw: the number lies in the half-open range. `gen_range` panics on an
/// empty range, which `requires` rules out.
#[verifier::external_body]
pub(crate) fn gen_range_u32(rng: &mut ThreadRng, low: u32, high: u32) -> (r: u32)
    requires
        low < high,
    ensures
        low <= r < high,
{
    rng.gen_range(low..high)
}

} // verus!
