//! The call stack of return addresses.
use vstd::prelude::*;

use std::collections::VecDeque;

verus! {

/// Return addresses, the most recent last. Its depth is not bounded: a call
/// always succeeds.
#[derive(Debug)]
pub struct Stack(VecDeque<u16>);

impl View for Stack {
    type V = Seq<u16>;

    closed spec fn view(&self) -> Seq<u16> {
        self.0@
    }
}

impl Default for Stack {
    fn default() -> (r: Self)
        ensures
            r@ == Seq::<u16>::empty(),
    {
        Stack(VecDeque::new())
    }
}

impl Stack {
    /// Takes off the most recent address. On an empty stack nothing changes
    /// and the result is address 0.
    pub fn pop(&mut self) -> (r: u16)
        ensures
            old(self)@.len() > 0 ==> r == old(self)@.last() && final(self)@ == old(self)@.drop_last(),
            old(self)@.len() == 0 ==> r == 0 && final(self)@ == old(self)@,
    {
        match self.0.pop_back() {
            Some(a) => a,
            None => 0,
        }
    }

    pub fn push(&mut self, value: u16)
        ensures
            final(self)@ == old(self)@.push(value),
    {
        self.0.push_back(value);
    }
}

} // verus!
