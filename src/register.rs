//! General 8-bit registers, the 16-bit index register and the register file.
use vstd::prelude::*;

use crate::error::{Error, Result};

verus! {

/// Number of general registers, V0 to VF.
pub const REGISTER_COUNT: usize = 16;

/// Index of VF, which instructions also use as a flag.
pub const FLAG: u8 = 0xF;

/// One 8-bit register.
#[derive(Debug, Default, Clone, Copy, PartialEq, Eq, Structural)]
pub struct Register8Bit(pub u8);

/// One 16-bit register.
#[derive(Debug, Default, Clone, Copy, PartialEq, Eq, Structural)]
pub struct Register16Bit(pub u16);

impl Register8Bit {
    pub fn get(&self) -> (r: u8)
        ensures
            r == self.0,
    {
        self.0
    }

    pub fn set(&mut self, value: u8)
        ensures
            final(self).0 == value,
    {
        self.0 = value;
    }
}

impl Register16Bit {
    pub fn get(&self) -> (r: u16)
        ensures
            r == self.0,
    {
        self.0
    }

    pub fn set(&mut self, value: u16)
        ensures
            final(self).0 == value,
    {
        self.0 = value;
    }
}

/// The sixteen general registers V0..VF.
#[derive(Debug)]
pub struct Register8BitArray {
    regs: Vec<Register8Bit>,
}

impl View for Register8BitArray {
    type V = Seq<u8>;

    /// The register values, V0 first.
    closed spec fn view(&self) -> Seq<u8> {
        Seq::new(self.regs@.len(), |i: int| self.regs@[i].0)
    }
}

impl Register8BitArray {
    pub open spec fn wf(&self) -> bool {
        self@.len() == REGISTER_COUNT
    }

    /// Sixteen registers, all zero.
    pub fn new() -> (r: Self)
        ensures
            r.wf(),
            r@ == Seq::new(16, |i: int| 0u8),
    {
        let r = Register8BitArray { regs: vec![Register8Bit(0); REGISTER_COUNT] };
        assert(r@ =~= Seq::new(16, |i: int| 0u8));
        r
    }

    /// The register with the given index.
    pub fn get(&self, index: u8) -> (r: Result<&Register8Bit>)
        requires
            self.wf(),
        ensures
            self@.len() == 16,
            index < 16 ==> r == Ok::<&Register8Bit, Error>(&Register8Bit(self@[index as int])),
            index >= 16 ==> r == Err::<&Register8Bit, Error>(Error::RegisterOutOfBounds { index }),
    {
        if (index as usize) < self.regs.len() {
            Ok(&self.regs[index as usize])
        } else {
            Err(Error::RegisterOutOfBounds { index })
        }
    }

    /// Stores `value` in the register with the given index.
    pub fn set(&mut self, index: u8, value: u8) -> (r: Result<()>)
        requires
            old(self).wf(),
        ensures
            final(self).wf(),
            index < 16 ==> r is Ok && final(self)@ == old(self)@.update(index as int, value),
            index >= 16 ==> r == Err::<(), Error>(Error::RegisterOutOfBounds { index })
                && final(self)@ == old(self)@,
    {
        if (index as usize) < self.regs.len() {
            self.regs.set(index as usize, Register8Bit(value));
            proof {
                assert(self@ =~= old(self)@.update(index as int, value));
            }
            Ok(())
        } else {
            Err(Error::RegisterOutOfBounds { index })
        }
    }

    /// The register with the given index, to be changed in place.
    pub fn get_mut(&mut self, index: u8) -> (r: Result<&mut Register8Bit>)
        requires
            old(self).wf(),
        ensures
            index < 16 <==> r is Ok,
            index >= 16 ==> r == Err::<&mut Register8Bit, Error>(Error::RegisterOutOfBounds { index }) && *final(self) == *old(self),
            index < 16 ==> (*r->Ok_0).0 == old(self)@[index as int],
            index < 16 ==> final(self).wf() && final(self)@ == old(self)@.update(index as int, (*final(r->Ok_0)).0),
    {
        if (index as usize) < self.regs.len() {
            Ok(&mut self.regs[index as usize])
        } else {
            Err(Error::RegisterOutOfBounds { index })
        }
    }
}

} // verus!
