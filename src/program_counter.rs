//! The program counter.
use vstd::prelude::*;

verus! {

/// The address of the next instruction to fetch.
#[derive(Debug, Default, Clone, Copy, PartialEq, Eq, Structural)]
pub struct ProgramCounter(pub u16);

/// How far the counter moves past one instruction.
pub const INCREMENT: u16 = 2;

impl ProgramCounter {
    pub fn get(&self) -> (r: u16)
        ensures
            r == self.0,
    {
        self.0
    }

    /// Moves past one instruction.
    pub fn increment(&mut self)
        requires
            old(self).0 + INCREMENT <= u16::MAX,
        ensures
            final(self).0 == old(self).0 + INCREMENT,
    {
        self.0 = self.0 + INCREMENT;
    }

    /// Moves back by one instruction.
    pub fn decrement(&mut self)
        requires
            old(self).0 >= INCREMENT,
        ensures
            final(self).0 == old(self).0 - INCREMENT,
    {
        self.0 = self.0 - INCREMENT;
    }

    pub fn set(&mut self, arg: u16)
        ensures
            final(self).0 == arg,
    {
        self.0 = arg;
    }
}

} // verus!
