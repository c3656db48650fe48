//! The one source of chance.

use rand::Rng;
use vstd::prelude::*;

verus! {

/// Draws a number from `low` up to, but not including, `high`.
///
/// This calls `rand::Rng::gen_range` on the generator that
/// `rand::thread_rng` hands out. It is not verified. The contract claims of
/// the draw only that it lies in the range asked for, and leaves out the
/// empty range, on which `gen_range` panics.
#[verifier::external_body]
pub(crate) fn roll(low: usize, high: usize) -> (drawn: usize)
    requires
        low < high,
    ensures
        low <= drawn < high,
{
    rand::thread_rng().gen_range(low, high)
}

} // verus!
