//! The minimal contract template: a counter with guarded decrement, the
//! starting point new contracts are scaffolded from.

use vstd::prelude::*;

verus! {

/// The state of the contract.
#[derive(Clone, Copy, Debug, PartialEq, Eq, Structural)]
pub struct State {
    pub counter: u64,
}

impl State {
    /// Starts the counter at zero.
    pub fn initialize(&mut self)
        ensures
            final(self).counter == 0,
    {
        self.counter = 0;
    }

    /// Increment the counter.
    pub fn increment(&mut self)
        requires
            old(self).counter < u64::MAX,
        ensures
            final(self).counter == old(self).counter + 1,
    {
        self.counter = self.counter + 1;
    }

    /// Decrement the counter, stopping at zero.
    pub fn decrement(&mut self)
        ensures
            final(self).counter == if old(self).counter > 0 {
                old(self).counter - 1
            } else {
                0
            },
    {
        if self.counter > 0 {
            self.counter = self.counter - 1;
        }
    }

    /// Get the current counter value.
    pub fn get_counter(&self) -> (r: u64)
        ensures
            r == self.counter,
    {
        self.counter
    }

    /// Reset the counter.
    pub fn reset(&mut self)
        ensures
            final(self).counter == 0,
    {
        self.counter = 0;
    }
}

impl Default for State {
    /// A counter starting at zero.
    fn default() -> (r: Self)
        ensures
            r.counter == 0,
    {
        State { counter: 0 }
    }
}

} // verus!
