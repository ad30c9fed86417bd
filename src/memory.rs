//! The 4096-byte address space, with the hexadecimal font in its low region.
use vstd::prelude::*;

use crate::error::{Error, Result};
use crate::opcode::OpCode;

verus! {

/// Size of the address space in bytes.
pub const MEMORY_SIZE: usize = 4096;

/// Address of the first font glyph.
pub const FONT_START: u16 = 0x050;

/// Address at which a program is loaded and execution starts.
pub const PROGRAM_START: u16 = 0x200;

/// Bytes per font glyph.
pub const GLYPH_SIZE: u16 = 5;

/// The sixteen hexadecimal digit glyphs, five rows each, high bit leftmost.
pub open spec fn font() -> Seq<u8> {
    seq![
        0xF0, 0x90, 0x90, 0x90, 0xF0, // 0
        0x20, 0x60, 0x20, 0x20, 0x70, // 1
        0xF0, 0x10, 0xF0, 0x80, 0xF0, // 2
        0xF0, 0x10, 0xF0, 0x10, 0xF0, // 3
        0x90, 0x90, 0xF0, 0x10, 0x10, // 4
        0xF0, 0x80, 0xF0, 0x10, 0xF0, // 5
        0xF0, 0x80, 0xF0, 0x90, 0xF0, // 6
        0xF0, 0x10, 0x20, 0x40, 0x40, // 7
        0xF0, 0x90, 0xF0, 0x90, 0xF0, // 8
        0xF0, 0x90, 0xF0, 0x10, 0xF0, // 9
        0xF0, 0x90, 0xF0, 0x90, 0x90, // A
        0xE0, 0x90, 0xE0, 0x90, 0xE0, // B
        0xF0, 0x80, 0x80, 0x80, 0xF0, // C
        0xE0, 0x90, 0x90, 0x90, 0xE0, // D
        0xF0, 0x80, 0xF0, 0x80, 0xF0, // E
        0xF0, 0x80, 0xF0, 0x80, 0x80, // F
    ]
}

/// The address of the glyph for hexadecimal digit `d`.
pub open spec fn glyph_address(d: u8) -> u16 {
    (FONT_START + GLYPH_SIZE * d) as u16
}

/// Memory at start-up: the font at `FONT_START`, zero everywhere else.
pub open spec fn initial_memory() -> Seq<u8> {
    Seq::new(
        MEMORY_SIZE as nat,
        |i: int|
            if FONT_START <= i < FONT_START + font().len() {
                font()[i - FONT_START]
            } else {
                0u8
            },
    )
}

/// The glyph bytes, as a vector.
fn font_bytes() -> (r: Vec<u8>)
    ensures
        r@ == font(),
{
    let r: Vec<u8> = vec![
        0xF0, 0x90, 0x90, 0x90, 0xF0, 0x20, 0x60, 0x20, 0x20, 0x70,
        0xF0, 0x10, 0xF0, 0x80, 0xF0, 0xF0, 0x10, 0xF0, 0x10, 0xF0,
        0x90, 0x90, 0xF0, 0x10, 0x10, 0xF0, 0x80, 0xF0, 0x10, 0xF0,
        0xF0, 0x80, 0xF0, 0x90, 0xF0, 0xF0, 0x10, 0x20, 0x40, 0x40,
        0xF0, 0x90, 0xF0, 0x90, 0xF0, 0xF0, 0x90, 0xF0, 0x10, 0xF0,
        0xF0, 0x90, 0xF0, 0x90, 0x90, 0xE0, 0x90, 0xE0, 0x90, 0xE0,
        0xF0, 0x80, 0x80, 0x80, 0xF0, 0xE0, 0x90, 0x90, 0x90, 0xE0,
        0xF0, 0x80, 0xF0, 0x80, 0xF0, 0xF0, 0x80, 0xF0, 0x80, 0x80,
    ];
    assert(r@ =~= font());
    r
}

/// The address space.
#[derive(Debug)]
pub struct Memory {
    bytes: Vec<u8>,
}

impl View for Memory {
    type V = Seq<u8>;

    closed spec fn view(&self) -> Seq<u8> {
        self.bytes@
    }
}

impl Default for Memory {
    /// Memory holding the font and nothing else.
    fn default() -> (r: Self)
        ensures
            r.wf(),
            r@ == initial_memory(),
    {
        let mut bytes: Vec<u8> = vec![0u8; MEMORY_SIZE];
        let glyphs = font_bytes();
        let start: usize = FONT_START as usize;
        let mut i: usize = 0;
        while i < glyphs.len()
            invariant
                glyphs@ == font(),
                start == FONT_START,
                bytes@.len() == MEMORY_SIZE,
                0 <= i <= glyphs@.len(),
                forall|j: int|
                    0 <= j < MEMORY_SIZE ==> #[trigger] bytes@[j] == (if start <= j < start + i {
                        font()[j - start]
                    } else {
                        0u8
                    }),
            decreases glyphs@.len() - i,
        {
            bytes.set(start + i, glyphs[i]);
            i += 1;
        }
        let r = Memory { bytes };
        assert(r@ =~= initial_memory());
        r
    }
}

impl Memory {
    pub open spec fn wf(&self) -> bool {
        self@.len() == MEMORY_SIZE
    }

    /// Zeroes the program region, from `PROGRAM_START` to the end.
    pub fn clear_program(&mut self)
        requires
            old(self).wf(),
        ensures
            final(self).wf(),
            final(self)@ == Seq::new(
                MEMORY_SIZE as nat,
                |i: int| if i < PROGRAM_START { old(self)@[i] } else { 0u8 },
            ),
    {
        let mut i: usize = PROGRAM_START as usize;
        while i < MEMORY_SIZE
            invariant
                self.wf(),
                old(self).wf(),
                PROGRAM_START <= i <= MEMORY_SIZE,
                forall|j: int|
                    0 <= j < MEMORY_SIZE ==> #[trigger] self.bytes@[j] == (if PROGRAM_START <= j < i {
                        0u8
                    } else {
                        old(self)@[j]
                    }),
            decreases MEMORY_SIZE - i,
        {
            self.bytes.set(i, 0);
            i += 1;
        }
        assert(self@ =~= Seq::new(
            MEMORY_SIZE as nat,
            |i: int| if i < PROGRAM_START { old(self)@[i] } else { 0u8 },
        ));
    }

    /// The instruction word at `addr`: the byte there is its high half, the
    /// next byte its low half.
    pub fn read_opcode(&self, addr: usize) -> (r: Result<OpCode>)
        requires
            self.wf(),
        ensures
            addr + 1 < MEMORY_SIZE ==> r == Ok::<OpCode, Error>(
                OpCode((self@[addr as int] * 256 + self@[addr + 1]) as u16),
            ),
            addr + 1 >= MEMORY_SIZE ==> r == Err::<OpCode, Error>(
                Error::MemoryOutOfBounds { addr, len: 2 },
            ),
    {
        if addr >= MEMORY_SIZE - 1 {
            return Err(Error::MemoryOutOfBounds { addr, len: 2 });
        }
        let hi = self.bytes[addr] as u16;
        let lo = self.bytes[addr + 1] as u16;
        Ok(OpCode(hi * 256 + lo))
    }

    /// The byte at `addr`.
    pub fn read(&self, addr: usize) -> (r: Result<u8>)
        requires
            self.wf(),
        ensures
            addr < MEMORY_SIZE ==> r == Ok::<u8, Error>(self@[addr as int]),
            addr >= MEMORY_SIZE ==> r == Err::<u8, Error>(Error::MemoryOutOfBounds { addr, len: 1 }),
    {
        if addr < self.bytes.len() {
            Ok(self.bytes[addr])
        } else {
            Err(Error::MemoryOutOfBounds { addr, len: 1 })
        }
    }

    /// The `len` bytes from `addr` on.
    pub fn read_slice(&self, addr: usize, len: usize) -> (r: Result<Vec<u8>>)
        requires
            self.wf(),
        ensures
            addr + len <= MEMORY_SIZE ==> (r matches Ok(v) && v@ == self@.subrange(
                addr as int,
                addr + len,
            )),
            addr + len > MEMORY_SIZE ==> r == Err::<Vec<u8>, Error>(
                Error::MemoryOutOfBounds { addr, len },
            ),
    {
        if addr > MEMORY_SIZE || len > MEMORY_SIZE - addr {
            return Err(Error::MemoryOutOfBounds { addr, len });
        }
        let mut v: Vec<u8> = Vec::new();
        let mut i: usize = 0;
        while i < len
            invariant
                self.wf(),
                addr + len <= MEMORY_SIZE,
                i <= len,
                v@ == self@.subrange(addr as int, addr + i),
            decreases len - i,
        {
            v.push(self.bytes[addr + i]);
            i += 1;
            assert(v@ =~= self@.subrange(addr as int, addr + i));
        }
        Ok(v)
    }

    /// Stores `value` at `addr`.
    pub fn write(&mut self, addr: usize, value: u8) -> (r: Result<()>)
        requires
            old(self).wf(),
        ensures
            final(self).wf(),
            addr < MEMORY_SIZE ==> r is Ok && final(self)@ == old(self)@.update(addr as int, value),
            addr >= MEMORY_SIZE ==> r == Err::<(), Error>(Error::MemoryOutOfBounds { addr, len: 1 })
                && final(self)@ == old(self)@,
    {
        if addr < self.bytes.len() {
            self.bytes.set(addr, value);
            Ok(())
        } else {
            Err(Error::MemoryOutOfBounds { addr, len: 1 })
        }
    }

    /// Copies `data` to memory from `addr` on. The whole span is checked
    /// first: when it does not fit, nothing is written.
    pub fn write_slice(&mut self, addr: usize, data: &[u8]) -> (r: Result<()>)
        requires
            old(self).wf(),
        ensures
            final(self).wf(),
            addr + data@.len() <= MEMORY_SIZE ==> r is Ok && final(self)@ == old(self)@.take(
                addr as int,
            ) + data@ + old(self)@.skip(addr + data@.len()),
            addr + data@.len() > MEMORY_SIZE ==> r == Err::<(), Error>(
                Error::MemoryOutOfBounds { addr, len: data@.len() as usize },
            ) && final(self)@ == old(self)@,
    {
        if addr > MEMORY_SIZE || data.len() > MEMORY_SIZE - addr {
            return Err(Error::MemoryOutOfBounds { addr, len: data.len() });
        }
        let mut i: usize = 0;
        while i < data.len()
            invariant
                self.wf(),
                old(self).wf(),
                addr + data@.len() <= MEMORY_SIZE,
                0 <= i <= data@.len(),
                forall|j: int|
                    0 <= j < MEMORY_SIZE ==> #[trigger] self.bytes@[j] == (if addr <= j < addr + i {
                        data@[j - addr]
                    } else {
                        old(self)@[j]
                    }),
            decreases data@.len() - i,
        {
            self.bytes.set(addr + i, data[i]);
            i += 1;
        }
        assert(self@ =~= old(self)@.take(addr as int) + data@ + old(self)@.skip(addr + data@.len()));
        Ok(())
    }
}

} // verus!
