//! The random source of the game.

use vstd::prelude::*;
use rand::Rng;

verus! {

/// Draws a number from zero up to, but not including, `bound`.
///
/// Trusted: the body calls `rand::Rng::gen_range` on `rand::thread_rng()`
/// with the range `0..bound`. That call panics on an empty range, which the
/// positive bound rules out, and returns a member of the range. Nothing is
/// claimed of which member comes, nor that two calls give the same one.
/// The generator is seeded from the operating system when a thread first
/// uses it, and panics if the system cannot give a seed; no argument has a
/// part in that.
#[verifier::external_body]
pub(crate) fn random_below(bound: u32) -> (n: u32)
    requires
        bound > 0,
    ensures
        n < bound,
{
    rand::thread_rng().gen_range(0..bound)
}

} // verus!
