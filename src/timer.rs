//! The delay and sound countdown timers.
use vstd::prelude::*;

verus! {

/// An 8-bit counter that a fixed-rate clock moves toward zero.
#[derive(Debug, Default, Clone, Copy, PartialEq, Eq, Structural)]
pub struct Timer(pub u8);

impl Timer {
    pub fn get(&self) -> (r: u8)
        ensures
            r == self.0,
    {
        self.0
    }

    pub fn set(&mut self, value: u8)
        ensures
            final(self).0 == value,
    {
        self.0 = value;
    }

    /// One tick of the clock: one less, but never below zero.
    pub fn tick(&mut self)
        ensures
            final(self).0 == if old(self).0 == 0 { 0 } else { old(self).0 - 1 },
    {
        if self.0 > 0 {
            self.0 = self.0 - 1;
        }
    }
}

} // verus!
