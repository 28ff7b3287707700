//! Random draws.

use vstd::prelude::*;

verus! {

/// Draws a number from `low` up to, but not including, `high` with
/// `rand::Rng::gen_range` on the generator of `rand::thread_rng`.
///
/// `gen_range` samples the half-open range it is given and panics on an
/// empty one, which the precondition rules out. All that is claimed of the
/// draw is that it lies in the range. `thread_rng` panics where the system
/// has no source of randomness to seed it from.
#[verifier::external_body]
pub(crate) fn draw_between(low: u16, high: u16) -> (drawn: u16)
    requires
        low < high,
    ensures
        low <= drawn < high,
{
    rand::Rng::gen_range(&mut rand::thread_rng(), low..high)
}

} // verus!
