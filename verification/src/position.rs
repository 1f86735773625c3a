//! The count of bytes delivered so far.

use vstd::prelude::*;

verus! {

/// Running total of the bytes that one download has handed to its consumer.
///
/// The total starts at zero and only ever grows: there is no operation that
/// lowers or resets it.
#[derive(Debug)]
pub struct Position {
    delivered: u64,
}

impl View for Position {
    type V = nat;

    closed spec fn view(&self) -> nat {
        self.delivered as nat
    }
}

impl Position {
    /// A tracker with nothing delivered yet.
    pub fn new() -> (position: Position)
        ensures
            position@ == 0,
    {
        Position { delivered: 0 }
    }

    /// Adds `n` to the running total.
    pub fn advance(&mut self, n: u64)
        requires
            old(self)@ + n <= u64::MAX,
        ensures
            final(self)@ == old(self)@ + n,
    {
        self.delivered = self.delivered + n;
    }

    /// The running total.
    pub fn current(&self) -> (total: u64)
        ensures
            total == self@,
    {
        self.delivered
    }
}

} // verus!
