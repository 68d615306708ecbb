//! The source of chance.

use rand::Rng;
use vstd::prelude::*;

verus! {

/// Draws a number between `low` and `high`, both included, from the thread's
/// random number generator.
///
/// Calls `rand::Rng::gen_range` on `rand::thread_rng()` with the range
/// `low..=high`. The contract claims that the number drawn lies in the range,
/// and keeps out the empty range, on which `gen_range` panics. Nothing is
/// claimed about which number comes, so two calls may differ. The generator
/// itself panics where the system has no randomness to seed it with.
#[verifier::external_body]
pub(crate) fn draw_inclusive(low: i32, high: i32) -> (drawn: i32)
    requires
        low <= high,
    ensures
        low <= drawn <= high,
{
    rand::thread_rng().gen_range(low..=high)
}

} // verus!
