//! The counter value itself and the arithmetic it obeys: increments wrap at
//! the 32-bit maximum, decrements stop at zero.

use vstd::prelude::*;

verus! {

/// Width in bytes of the stored counter encoding.
pub const COUNTER_SPACE: usize = 4;

/// The state stored in an account: a single unsigned 32-bit count.
#[derive(Clone, Copy, Debug, PartialEq, Eq, Structural)]
pub struct Counter {
    pub count: u32,
}

/// An increment wraps around at the 32-bit maximum.
pub open spec fn inc_wrapped(v: u32) -> u32 {
    if v == u32::MAX {
        0
    } else {
        (v + 1) as u32
    }
}

/// A decrement stops at zero: it never underflows and never fails.
pub open spec fn dec_floored(v: u32) -> u32 {
    if v > 0 {
        (v - 1) as u32
    } else {
        0
    }
}

impl Counter {
    /// A fresh counter starts at zero.
    pub fn new() -> (c: Counter)
        ensures
            c.count == 0,
    {
        Counter { count: 0 }
    }

    /// Increase the count by one, wrapping at the 32-bit maximum.
    pub fn increment(&mut self)
        ensures
            final(self).count == inc_wrapped(old(self).count),
    {
        self.count = self.count.wrapping_add(1);
    }

    /// Decrease the count by one unless it is already zero.
    pub fn decrement(&mut self)
        ensures
            final(self).count == dec_floored(old(self).count),
    {
        if self.count > 0 {
            self.count = self.count - 1;
        }
    }

    /// The space required to store a counter.
    pub fn get_space() -> (n: usize)
        ensures
            n == COUNTER_SPACE,
    {
        COUNTER_SPACE
    }
}

} // verus!
