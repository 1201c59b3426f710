//! Where the game's chance comes from.

use vstd::prelude::*;

verus! {

/// Draws a number with `rand::random::<u32>`, which samples all values of
/// `u32` evenly from the thread's generator. Nothing is claimed of the number
/// drawn, so callers are proved for whatever comes back. The call fails only
/// where the operating system cannot seed the generator.
#[verifier::external_body]
pub(crate) fn random_draw() -> (draw: u32) {
    rand::random::<u32>()
}

} // verus!
