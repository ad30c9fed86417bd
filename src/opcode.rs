//! The 16-bit instruction word and its decoded fields.
use vstd::prelude::*;

verus! {

/// A 16-bit instruction word, fetched big-endian from two bytes of memory.
#[derive(Debug, Clone, Copy, PartialEq, Eq, Structural)]
pub struct OpCode(pub u16);

/// Bits 15-12 of `w`: the instruction family.
pub open spec fn code_of(w: u16) -> u8 {
    (w as int / 0x1000) as u8
}

/// Bits 11-8 of `w`: the first register operand.
pub open spec fn x_of(w: u16) -> u8 {
    ((w as int / 0x100) % 0x10) as u8
}

/// Bits 7-4 of `w`: the second register operand.
pub open spec fn y_of(w: u16) -> u8 {
    ((w as int / 0x10) % 0x10) as u8
}

/// Bits 3-0 of `w`.
pub open spec fn n_of(w: u16) -> u8 {
    (w as int % 0x10) as u8
}

/// Bits 7-0 of `w`: an 8-bit immediate.
pub open spec fn nn_of(w: u16) -> u8 {
    (w as int % 0x100) as u8
}

/// Bits 11-0 of `w`: a 12-bit address.
pub open spec fn nnn_of(w: u16) -> u16 {
    (w as int % 0x1000) as u16
}

impl OpCode {
    /// The instruction word itself.
    pub fn inner(&self) -> (r: u16)
        ensures
            r == self.0,
    {
        self.0
    }

    pub fn code(&self) -> (r: u8)
        ensures
            r == code_of(self.0),
            r < 16,
    {
        let w = self.0;
        assert(((w & 0xF000) >> 12) == w / 0x1000) by (bit_vector);
        ((w & 0xF000) >> 12) as u8
    }

    pub fn n(&self) -> (r: u8)
        ensures
            r == n_of(self.0),
            r < 16,
    {
        let w = self.0;
        assert((w & 0x000F) == w % 0x10) by (bit_vector);
        (w & 0x000F) as u8
    }

    pub fn nn(&self) -> (r: u8)
        ensures
            r == nn_of(self.0),
    {
        let w = self.0;
        assert((w & 0x00FF) == w % 0x100) by (bit_vector);
        (w & 0x00FF) as u8
    }

    pub fn nnn(&self) -> (r: u16)
        ensures
            r == nnn_of(self.0),
            r < 0x1000,
    {
        let w = self.0;
        assert((w & 0x0FFF) == w % 0x1000) by (bit_vector);
        w & 0x0FFF
    }

    pub fn x(&self) -> (r: u8)
        ensures
            r == x_of(self.0),
            r < 16,
    {
        let w = self.0;
        assert(((w & 0x0F00) >> 8) == (w / 0x100) % 0x10) by (bit_vector);
        ((w & 0x0F00) >> 8) as u8
    }

    pub fn y(&self) -> (r: u8)
        ensures
            r == y_of(self.0),
            r < 16,
    {
        let w = self.0;
        assert(((w & 0x00F0) >> 4) == (w / 0x10) % 0x10) by (bit_vector);
        ((w & 0x00F0) >> 4) as u8
    }
}

} // verus!
