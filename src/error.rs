//! The ways an operation of the machine can fail.
use vstd::prelude::*;

verus! {

/// Why an operation did not complete.
#[derive(Debug, Clone, Copy, PartialEq, Eq, Structural)]
pub enum Error {
    /// The instruction word `opcode`, fetched from `address`, names no
    /// instruction. The interpreter halts for good.
    Fatal { opcode: u16, address: u16 },
    /// The `len` bytes starting at `addr` are not all inside memory.
    MemoryOutOfBounds { addr: usize, len: usize },
    /// There is no general register with this index.
    RegisterOutOfBounds { index: u8 },
    /// The coordinate lies outside the framebuffer.
    PixelOutOfBounds { x: usize, y: usize },
    /// A cycle was asked of an interpreter that has halted.
    Halted,
}

/// The result of an operation of the machine.
pub type Result<T> = core::result::Result<T, Error>;

} // verus!
