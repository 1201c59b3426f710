//! The score counter.

use vstd::prelude::*;

verus! {

/// Counts the meals of the current round.
#[derive(Clone, Copy, Debug)]
pub struct Score(u32);

impl View for Score {
    type V = nat;

    closed spec fn view(&self) -> nat {
        self.0 as nat
    }
}

impl Score {
    /// Makes a counter that stands at zero.
    pub fn new() -> (s: Score)
        ensures
            s@ == 0,
    {
        Score(0)
    }

    /// Puts the counter back to zero.
    pub fn reset(&mut self)
        ensures
            final(self)@ == 0,
    {
        self.0 = 0;
    }

    /// Adds one to the counter.
    pub fn increment(&mut self)
        requires
            old(self)@ < u32::MAX,
        ensures
            final(self)@ == old(self)@ + 1,
    {
        self.0 = self.0 + 1;
    }

    /// Returns what the counter stands at.
    pub fn get(&self) -> (n: u32)
        ensures
            n == self@,
    {
        self.0
    }
}

impl Default for Score {
    fn default() -> (s: Score)
        ensures
            s@ == 0,
    {
        Score(0)
    }
}

} // verus!
