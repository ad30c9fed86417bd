//! An interpreter for the CHIP-8 virtual machine: memory, registers, call
//! stack, timers, framebuffer and keypad, driven one fetch-decode-execute
//! cycle at a time.
use vstd::prelude::*;

pub mod chip8;
pub mod display;
pub mod error;
pub mod input;
pub mod laws;
pub mod memory;
pub mod opcode;
pub mod program_counter;
pub mod register;
pub mod stack;
pub mod timer;

pub use chip8::{Chip8, Dir, Quirks};
pub use display::Display;
pub use error::{Error, Result};
pub use input::{is_interrupt, key_value, KeyKind, Keys};
pub use memory::Memory;
pub use opcode::OpCode;
pub use program_counter::ProgramCounter;
pub use register::{Register16Bit, Register8Bit, Register8BitArray};
pub use stack::Stack;
pub use timer::Timer;

verus! {

} // verus!
