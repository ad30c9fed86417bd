//! The interpreter: the machine state, the meaning of each instruction,
//! and the fetch-decode-execute cycle.
use vstd::prelude::*;

use crate::display::{blank, blit, collides, is_grid, Display, HEIGHT, WIDTH};
use crate::error::{Error, Result};
use crate::input::{first_held, held, Keys};
use crate::memory::{
    glyph_address, initial_memory, Memory, FONT_START, GLYPH_SIZE, MEMORY_SIZE, PROGRAM_START,
};
use crate::opcode::{code_of, n_of, nn_of, nnn_of, x_of, y_of, OpCode};
use crate::program_counter::{ProgramCounter, INCREMENT};
use crate::register::{Register16Bit, Register8BitArray, FLAG};
use crate::stack::Stack;
use crate::timer::Timer;

verus! {

/// Direction of a one-bit shift.
#[derive(Debug, Clone, Copy, PartialEq, Eq, Structural)]
pub enum Dir {
    Left,
    Right,
}

/// Behaviours on which CHIP-8 implementations disagree. With both off,
/// shifts act on Vx in place and jump with offset adds V0.
#[derive(Debug, Clone, Copy, PartialEq, Eq, Structural)]
pub struct Quirks {
    /// Shifts read their operand from Vy (and store the result in Vx).
    pub shift_reads_vy: bool,
    /// Jump with offset adds Vx, X being the top nibble of the address,
    /// instead of V0.
    pub jump_adds_vx: bool,
}

/// The whole machine state, as a mathematical value.
pub struct Machine {
    /// The 4096 bytes of memory.
    pub memory: Seq<u8>,
    /// Return addresses, the most recent last.
    pub stack: Seq<u16>,
    /// The framebuffer rows, top first.
    pub display: Seq<Seq<bool>>,
    /// The index register.
    pub index: u16,
    /// The general registers V0..VF.
    pub v: Seq<u8>,
    /// The program counter.
    pub pc: u16,
    pub delay: u8,
    pub sound: u8,
    /// Which of the sixteen keys are held.
    pub keys: Seq<bool>,
    pub quirks: Quirks,
    /// Set for good once an unknown instruction has been met.
    pub halted: bool,
}

/// Whether the parts of `m` have their fixed sizes.
pub open spec fn valid(m: Machine) -> bool {
    &&& m.memory.len() == MEMORY_SIZE
    &&& m.v.len() == 16
    &&& m.keys.len() == 16
    &&& is_grid(m.display)
}

/// The machine at start-up: font loaded, everything else zero, execution
/// to start at `PROGRAM_START`.
pub open spec fn initial_machine(quirks: Quirks) -> Machine {
    Machine {
        memory: initial_memory(),
        stack: Seq::empty(),
        display: blank(),
        index: 0,
        v: Seq::new(16, |i: int| 0u8),
        pc: PROGRAM_START,
        delay: 0,
        sound: 0,
        keys: Seq::new(16, |i: int| false),
        quirks,
        halted: false,
    }
}

/// The instruction word at `addr`, high byte first.
pub open spec fn fetch(memory: Seq<u8>, addr: int) -> u16 {
    (memory[addr] * 256 + memory[addr + 1]) as u16
}

/// `m` with register `i` set to `val`.
pub open spec fn with_reg(m: Machine, i: int, val: u8) -> Machine {
    Machine { v: m.v.update(i, val), ..m }
}

/// `m` with register `i` set to `val`, then VF set to `flag`.
pub open spec fn with_reg_flag(m: Machine, i: int, val: u8, flag: u8) -> Machine {
    with_reg(with_reg(m, i, val), FLAG as int, flag)
}

/// `m` with the next instruction skipped when `cond` holds.
pub open spec fn skip_if(m: Machine, cond: bool) -> Machine {
    if cond {
        Machine { pc: (m.pc + 2) as u16, ..m }
    } else {
        m
    }
}

/// Vx of `m` for instruction `w`.
pub open spec fn vx(m: Machine, w: u16) -> u8 {
    m.v[x_of(w) as int]
}

/// Vy of `m` for instruction `w`.
pub open spec fn vy(m: Machine, w: u16) -> u8 {
    m.v[y_of(w) as int]
}

/// The address the running instruction was fetched from.
pub open spec fn fetch_address(m: Machine) -> u16 {
    (m.pc - INCREMENT) as u16
}

/// 00EE: back to the most recent return address (address 0 when the
/// stack is empty).
pub open spec fn op_return(m: Machine) -> Machine {
    if m.stack.len() == 0 {
        Machine { pc: 0, ..m }
    } else {
        Machine { pc: m.stack.last(), stack: m.stack.drop_last(), ..m }
    }
}

/// 2NNN: push the address of the next instruction and jump to NNN.
pub open spec fn op_call(m: Machine, w: u16) -> Machine {
    Machine { stack: m.stack.push(m.pc), pc: nnn_of(w), ..m }
}

/// 8XY4: Vx += Vy modulo 256, then VF = 1 on a carry out, else 0.
pub open spec fn op_add_carry(m: Machine, w: u16) -> Machine {
    let sum = vx(m, w) + vy(m, w);
    with_reg_flag(m, x_of(w) as int, (sum % 256) as u8, if sum > 255 { 1 } else { 0 })
}

/// `l - r` modulo 256 into Vx, then VF = 0 when it borrowed, else 1.
pub open spec fn subtract_into(m: Machine, w: u16, l: u8, r: u8) -> Machine {
    with_reg_flag(m, x_of(w) as int, ((l - r + 256) % 256) as u8, if l < r { 0 } else { 1 })
}

/// The operand of a shift under the machine's quirks.
pub open spec fn shift_source(m: Machine, w: u16) -> u8 {
    if m.quirks.shift_reads_vy {
        vy(m, w)
    } else {
        vx(m, w)
    }
}

/// 8XY6 / 8XYE: Vx = operand shifted by one, then VF = the bit shifted out.
pub open spec fn op_shift(m: Machine, w: u16, dir: Dir) -> Machine {
    let s = shift_source(m, w);
    match dir {
        Dir::Left => with_reg_flag(m, x_of(w) as int, ((s * 2) % 256) as u8, s / 128),
        Dir::Right => with_reg_flag(m, x_of(w) as int, s / 2, s % 2),
    }
}

/// BNNN: jump to NNN plus V0 (or Vx under the quirk).
pub open spec fn op_jump_with_offset(m: Machine, w: u16) -> Machine {
    let base = if m.quirks.jump_adds_vx {
        vx(m, w)
    } else {
        m.v[0]
    };
    Machine { pc: (nnn_of(w) + base) as u16, ..m }
}

/// How many sprite rows a draw at row `vy mod 64` with height `n` can
/// show: the rows below the bottom edge are clipped and never read.
pub open spec fn visible_rows(vy: u8, n: u8) -> int {
    let y0 = vy % 64;
    if y0 >= HEIGHT {
        0
    } else if n + y0 > HEIGHT {
        HEIGHT - y0
    } else {
        n as int
    }
}

/// DXYN: draw the sprite of N rows at the index register at
/// (Vx mod 64, Vy mod 64); VF = 1 when a lit pixel went off, else 0.
pub open spec fn op_draw(m: Machine, w: u16) -> Result<Machine> {
    let k = visible_rows(vy(m, w), n_of(w));
    let x0 = vx(m, w) % 64;
    let y0 = vy(m, w) % 64;
    if m.index + k > MEMORY_SIZE {
        Err(Error::MemoryOutOfBounds { addr: m.index as usize, len: k as usize })
    } else {
        let rows = m.memory.subrange(m.index as int, m.index + k);
        Ok(
            Machine {
                display: blit(m.display, x0 as int, y0 as int, rows),
                v: m.v.update(
                    FLAG as int,
                    if collides(m.display, x0 as int, y0 as int, rows) {
                        1
                    } else {
                        0
                    },
                ),
                ..m
            },
        )
    }
}

/// The three decimal digits of `b`, hundreds first.
pub open spec fn bcd(b: u8) -> Seq<u8> {
    seq![b / 100, (b % 100) / 10, b % 10]
}

/// `memory` with `data` written from `addr` on.
pub open spec fn splice(memory: Seq<u8>, addr: int, data: Seq<u8>) -> Seq<u8> {
    memory.take(addr) + data + memory.skip(addr + data.len())
}

/// Writes `data` at the index register, or fails when it does not fit.
pub open spec fn store_at_index(m: Machine, data: Seq<u8>) -> Result<Machine> {
    if m.index + data.len() > MEMORY_SIZE {
        Err(Error::MemoryOutOfBounds { addr: m.index as usize, len: data.len() as usize })
    } else {
        Ok(Machine { memory: splice(m.memory, m.index as int, data), ..m })
    }
}

/// FX65: V0..Vx = the bytes from the index register on.
pub open spec fn op_load_registers(m: Machine, w: u16) -> Result<Machine> {
    let len = x_of(w) + 1;
    if m.index + len > MEMORY_SIZE {
        Err(Error::MemoryOutOfBounds { addr: m.index as usize, len: len as usize })
    } else {
        Ok(
            Machine {
                v: m.memory.subrange(m.index as int, m.index + len) + m.v.skip(len as int),
                ..m
            },
        )
    }
}

/// FX0A: Vx = the lowest held key; with none held, step back so that the
/// instruction runs again.
pub open spec fn op_wait_for_key(m: Machine, w: u16) -> Machine {
    match first_held(m.keys) {
        Some(k) => with_reg(m, x_of(w) as int, k),
        None => Machine { pc: (m.pc - INCREMENT) as u16, ..m },
    }
}

/// Whether `w` names an instruction.
pub open spec fn is_known(w: u16) -> bool {
    let c = code_of(w);
    let n = n_of(w);
    let nn = nn_of(w);
    if c == 0x0 {
        w == 0x00E0 || w == 0x00EE
    } else if c == 0x8 {
        n <= 0x7 || n == 0xE
    } else if c == 0xE {
        nn == 0x9E || nn == 0xA1
    } else if c == 0xF {
        nn == 0x07 || nn == 0x0A || nn == 0x15 || nn == 0x18 || nn == 0x1E || nn == 0x29 || nn
            == 0x33 || nn == 0x55 || nn == 0x65
    } else {
        true
    }
}

/// What instruction `w` does to `m`, whose program counter has already
/// moved past it; `rnd` is the random byte CXNN draws.
pub open spec fn execute(m: Machine, w: u16, rnd: u8) -> Result<Machine> {
    let c = code_of(w);
    let x = x_of(w) as int;
    let n = n_of(w);
    let nn = nn_of(w);
    if !is_known(w) {
        Err(Error::Fatal { opcode: w, address: fetch_address(m) })
    } else if c == 0x0 {
        if w == 0x00E0 {
            Ok(Machine { display: blank(), ..m })
        } else {
            Ok(op_return(m))
        }
    } else if c == 0x1 {
        Ok(Machine { pc: nnn_of(w), ..m })
    } else if c == 0x2 {
        Ok(op_call(m, w))
    } else if c == 0x3 {
        Ok(skip_if(m, vx(m, w) == nn))
    } else if c == 0x4 {
        Ok(skip_if(m, vx(m, w) != nn))
    } else if c == 0x5 {
        Ok(skip_if(m, vx(m, w) == vy(m, w)))
    } else if c == 0x6 {
        Ok(with_reg(m, x, nn))
    } else if c == 0x7 {
        Ok(with_reg(m, x, ((vx(m, w) + nn) % 256) as u8))
    } else if c == 0x8 {
        if n == 0x0 {
            Ok(with_reg(m, x, vy(m, w)))
        } else if n == 0x1 {
            Ok(with_reg(m, x, vx(m, w) | vy(m, w)))
        } else if n == 0x2 {
            Ok(with_reg(m, x, vx(m, w) & vy(m, w)))
        } else if n == 0x3 {
            Ok(with_reg(m, x, vx(m, w) ^ vy(m, w)))
        } else if n == 0x4 {
            Ok(op_add_carry(m, w))
        } else if n == 0x5 {
            Ok(subtract_into(m, w, vx(m, w), vy(m, w)))
        } else if n == 0x6 {
            Ok(op_shift(m, w, Dir::Right))
        } else if n == 0x7 {
            Ok(subtract_into(m, w, vy(m, w), vx(m, w)))
        } else {
            Ok(op_shift(m, w, Dir::Left))
        }
    } else if c == 0x9 {
        Ok(skip_if(m, vx(m, w) != vy(m, w)))
    } else if c == 0xA {
        Ok(Machine { index: nnn_of(w), ..m })
    } else if c == 0xB {
        Ok(op_jump_with_offset(m, w))
    } else if c == 0xC {
        Ok(with_reg(m, x, rnd & nn))
    } else if c == 0xD {
        op_draw(m, w)
    } else if c == 0xE {
        if nn == 0x9E {
            Ok(skip_if(m, held(m.keys, vx(m, w))))
        } else {
            Ok(skip_if(m, !held(m.keys, vx(m, w))))
        }
    } else if nn == 0x07 {
        Ok(with_reg(m, x, m.delay))
    } else if nn == 0x0A {
        Ok(op_wait_for_key(m, w))
    } else if nn == 0x15 {
        Ok(Machine { delay: vx(m, w), ..m })
    } else if nn == 0x18 {
        Ok(Machine { sound: vx(m, w), ..m })
    } else if nn == 0x1E {
        Ok(Machine { index: ((m.index + vx(m, w)) % 0x10000) as u16, ..m })
    } else if nn == 0x29 {
        Ok(Machine { index: glyph_address(vx(m, w) % 16), ..m })
    } else if nn == 0x33 {
        store_at_index(m, bcd(vx(m, w)))
    } else if nn == 0x55 {
        store_at_index(m, m.v.take(x + 1))
    } else {
        op_load_registers(m, w)
    }
}

/// What one cycle yields from `m`: fetch the word at the program counter,
/// move the counter past it, execute it.
pub open spec fn cycle_result(m: Machine, rnd: u8) -> Result<Machine> {
    if m.halted {
        Err(Error::Halted)
    } else if m.pc + 1 >= MEMORY_SIZE {
        Err(Error::MemoryOutOfBounds { addr: m.pc as usize, len: 2 })
    } else {
        execute(Machine { pc: (m.pc + INCREMENT) as u16, ..m }, fetch(m.memory, m.pc as int), rnd)
    }
}

/// The machine after one cycle from `m`. A failed cycle changes nothing,
/// except that an unknown instruction halts the machine.
pub open spec fn after_cycle(m: Machine, rnd: u8) -> Machine {
    match cycle_result(m, rnd) {
        Ok(next) => next,
        Err(Error::Fatal { .. }) => Machine { halted: true, ..m },
        Err(_) => m,
    }
}

/// Whether a call that returned `r` and left `after` from `before` did
/// what `expected` says: on success the new state, on failure the error
/// with nothing changed.
pub open spec fn outcome(
    before: Machine,
    after: Machine,
    r: Result<()>,
    expected: Result<Machine>,
) -> bool {
    match expected {
        Ok(m) => r is Ok && after == m,
        Err(e) => r == Err::<(), Error>(e) && after == before,
    }
}

/// Whether a cycle from `before` that drew `rnd` returned `r` and left
/// `after`.
pub open spec fn cycle_outcome(before: Machine, after: Machine, r: Result<()>, rnd: u8) -> bool {
    &&& after == after_cycle(before, rnd)
    &&& match cycle_result(before, rnd) {
        Ok(_) => r is Ok,
        Err(e) => r == Err::<(), Error>(e),
    }
}

/// Relies on `rand::random::<u8>`: a byte from the thread-local generator,
/// which panics only if the operating system cannot seed it. Nothing is
/// known of the value.
#[verifier::external_body]
fn random_byte() -> u8 {
    rand::random::<u8>()
}

/// The interpreter: all machine state, owned in one place.
#[derive(Debug)]
pub struct Chip8 {
    memory: Memory,
    stack: Stack,
    display: Display,
    index: Register16Bit,
    registers: Register8BitArray,
    pc: ProgramCounter,
    delay_timer: Timer,
    sound_timer: Timer,
    keys: Keys,
    quirks: Quirks,
    halted: bool,
}

impl View for Chip8 {
    type V = Machine;

    closed spec fn view(&self) -> Machine {
        Machine {
            memory: self.memory@,
            stack: self.stack@,
            display: self.display@,
            index: self.index.0,
            v: self.registers@,
            pc: self.pc.0,
            delay: self.delay_timer.0,
            sound: self.sound_timer.0,
            keys: self.keys@,
            quirks: self.quirks,
            halted: self.halted,
        }
    }
}

impl Default for Chip8 {
    /// A machine at start-up with every quirk off.
    fn default() -> (r: Self)
        ensures
            r.wf(),
            r@ == initial_machine(Quirks { shift_reads_vy: false, jump_adds_vx: false }),
    {
        Chip8::with_quirks(Quirks { shift_reads_vy: false, jump_adds_vx: false })
    }
}

impl Chip8 {
    pub closed spec fn wf(&self) -> bool {
        &&& self.memory.wf()
        &&& self.display.wf()
        &&& self.registers.wf()
        &&& self.keys.wf()
    }

    /// A well-formed interpreter has a valid machine state.
    pub proof fn lemma_valid(&self)
        requires
            self.wf(),
        ensures
            valid(self@),
    {
        self.display.lemma_grid();
    }

    /// A machine at start-up with the given quirks.
    pub fn with_quirks(quirks: Quirks) -> (r: Self)
        ensures
            r.wf(),
            r@ == initial_machine(quirks),
    {
        Chip8 {
            memory: Memory::default(),
            stack: Stack::default(),
            display: Display::default(),
            index: Register16Bit(0),
            registers: Register8BitArray::new(),
            pc: ProgramCounter(PROGRAM_START),
            delay_timer: Timer(0),
            sound_timer: Timer(0),
            keys: Keys::default(),
            quirks,
            halted: false,
        }
    }

    /// Register `i`.
    fn reg(&self, i: u8) -> (r: u8)
        requires
            self.wf(),
            i < 16,
        ensures
            r == self@.v[i as int],
    {
        match self.registers.get(i) {
            Ok(reg) => reg.get(),
            Err(_) => 0,
        }
    }

    /// Sets register `i` to `val`.
    fn set_reg(&mut self, i: u8, val: u8)
        requires
            old(self).wf(),
            i < 16,
        ensures
            final(self).wf(),
            final(self)@ == with_reg(old(self)@, i as int, val),
    {
        let _ = self.registers.set(i, val);
    }

    /// Moves the program counter past one more instruction.
    fn skip(&mut self)
        requires
            old(self).pc.0 + INCREMENT <= u16::MAX,
        ensures
            final(self)@ == skip_if(old(self)@, true),
            final(self).wf() == old(self).wf(),
    {
        self.pc.increment();
    }

    /// An instruction word that names no instruction.
    fn unknown_opcode(&mut self, opcode: OpCode) -> (r: Result<()>)
        requires
            old(self).pc.0 >= INCREMENT,
        ensures
            r == Err::<(), Error>(Error::Fatal { opcode: opcode.0, address: fetch_address(old(self)@) }),
            *final(self) == *old(self),
    {
        let address = self.pc.get() - INCREMENT;
        Err(Error::Fatal { opcode: opcode.inner(), address })
    }

    /// 2NNN.
    fn call_subroutine(&mut self, opcode: OpCode) -> (r: Result<()>)
        requires
            old(self).wf(),
        ensures
            final(self).wf(),
            r is Ok,
            final(self)@ == op_call(old(self)@, opcode.0),
    {
        self.stack.push(self.pc.get());
        self.pc.set(opcode.nnn());
        Ok(())
    }

    /// 00EE.
    fn return_from_subroutine(&mut self, _opcode: OpCode) -> (r: Result<()>)
        requires
            old(self).wf(),
        ensures
            final(self).wf(),
            r is Ok,
            final(self)@ == op_return(old(self)@),
    {
        let addr = self.stack.pop();
        self.pc.set(addr);
        Ok(())
    }

    /// 1NNN.
    fn jump_to_address(&mut self, opcode: OpCode) -> (r: Result<()>)
        requires
            old(self).wf(),
        ensures
            final(self).wf(),
            r is Ok,
            final(self)@ == (Machine { pc: nnn_of(opcode.0), ..old(self)@ }),
    {
        self.pc.set(opcode.nnn());
        Ok(())
    }

    /// Copies `rom` into memory at `PROGRAM_START`. A ROM that does not
    /// fit is refused and memory is left as it was.
    pub fn load_rom(&mut self, rom: &[u8]) -> (r: Result<()>)
        requires
            old(self).wf(),
        ensures
            final(self).wf(),
            outcome(
                old(self)@,
                final(self)@,
                r,
                if PROGRAM_START + rom@.len() > MEMORY_SIZE {
                    Err(Error::MemoryOutOfBounds { addr: PROGRAM_START as usize, len: rom@.len() as usize })
                } else {
                    Ok(Machine { memory: splice(old(self)@.memory, PROGRAM_START as int, rom@), ..old(self)@ })
                },
            ),
    {
        self.memory.write_slice(PROGRAM_START as usize, rom)
    }

    /// Vl - Vr, wrapping, and whether it borrowed.
    fn subtract(&mut self, left: u8, right: u8) -> (r: Result<(u8, bool)>)
        requires
            old(self).wf(),
            left < 16,
            right < 16,
        ensures
            *final(self) == *old(self),
            r == Ok::<(u8, bool), Error>(
                (
                    ((old(self)@.v[left as int] - old(self)@.v[right as int] + 256) % 256) as u8,
                    old(self)@.v[left as int] < old(self)@.v[right as int],
                ),
            ),
    {
        let l = self.reg(left);
        let r = self.reg(right);
        Ok((l.wrapping_sub(r), l < r))
    }

    /// 8XY5: Vx = Vx - Vy; VF = 0 on a borrow, else 1.
    fn subtract_x_y(&mut self, opcode: OpCode) -> (r: Result<()>)
        requires
            old(self).wf(),
        ensures
            final(self).wf(),
            r is Ok,
            final(self)@ == subtract_into(old(self)@, opcode.0, vx(old(self)@, opcode.0), vy(old(self)@, opcode.0)),
    {
        let (x, y) = (opcode.x(), opcode.y());
        let (result, borrow) = self.subtract(x, y)?;
        self.set_reg(x, result);
        self.set_reg(FLAG, if borrow { 0 } else { 1 });
        Ok(())
    }

    /// 8XY7: Vx = Vy - Vx; VF = 0 on a borrow, else 1.
    fn subtract_y_x(&mut self, opcode: OpCode) -> (r: Result<()>)
        requires
            old(self).wf(),
        ensures
            final(self).wf(),
            r is Ok,
            final(self)@ == subtract_into(old(self)@, opcode.0, vy(old(self)@, opcode.0), vx(old(self)@, opcode.0)),
    {
        let (x, y) = (opcode.x(), opcode.y());
        let (result, borrow) = self.subtract(y, x)?;
        self.set_reg(x, result);
        self.set_reg(FLAG, if borrow { 0 } else { 1 });
        Ok(())
    }

    /// 00E0.
    fn clear_display(&mut self, _opcode: OpCode) -> (r: Result<()>)
        requires
            old(self).wf(),
        ensures
            final(self).wf(),
            r is Ok,
            final(self)@ == (Machine { display: blank(), ..old(self)@ }),
    {
        self.display.clear();
        Ok(())
    }

    /// DXYN.
    fn update_display(&mut self, opcode: OpCode) -> (r: Result<()>)
        requires
            old(self).wf(),
        ensures
            final(self).wf(),
            outcome(old(self)@, final(self)@, r, op_draw(old(self)@, opcode.0)),
    {
        let vx = self.reg(opcode.x());
        let vy = self.reg(opcode.y());
        let n = opcode.n();
        let y0 = (vy as usize) % WIDTH;
        let k: usize = if y0 >= HEIGHT {
            0
        } else if n as usize + y0 > HEIGHT {
            HEIGHT - y0
        } else {
            n as usize
        };
        let rows = match self.memory.read_slice(self.index.get() as usize, k) {
            Ok(rows) => rows,
            Err(e) => return Err(e),
        };
        let collision = self.display.draw_sprite(vx, vy, rows.as_slice());
        self.set_reg(FLAG, if collision { 1 } else { 0 });
        Ok(())
    }

    /// Shifts the operand by one bit into Vx; VF takes the bit shifted out.
    fn shift(&mut self, opcode: OpCode, dir: Dir) -> (r: Result<()>)
        requires
            old(self).wf(),
        ensures
            final(self).wf(),
            r is Ok,
            final(self)@ == op_shift(old(self)@, opcode.0, dir),
    {
        let s = if self.quirks.shift_reads_vy {
            self.reg(opcode.y())
        } else {
            self.reg(opcode.x())
        };
        let (value, out) = match dir {
            Dir::Left => (s << 1, s >> 7),
            Dir::Right => (s >> 1, s & 0x1),
        };
        proof {
            assert(s << 1 == ((s * 2) % 256) as u8) by (bit_vector);
            assert(s >> 7 == s / 128) by (bit_vector);
            assert(s >> 1 == s / 2) by (bit_vector);
            assert(s & 0x1 == s % 2) by (bit_vector);
        }
        self.set_reg(opcode.x(), value);
        self.set_reg(FLAG, out);
        Ok(())
    }

    /// 8XYE: Vx = operand << 1; VF = its top bit.
    pub fn shift_left(&mut self, opcode: OpCode) -> (r: Result<()>)
        requires
            old(self).wf(),
        ensures
            final(self).wf(),
            r is Ok,
            final(self)@ == op_shift(old(self)@, opcode.0, Dir::Left),
    {
        self.shift(opcode, Dir::Left)
    }

    /// 8XY6: Vx = operand >> 1; VF = its low bit.
    pub fn shift_right(&mut self, opcode: OpCode) -> (r: Result<()>)
        requires
            old(self).wf(),
        ensures
            final(self).wf(),
            r is Ok,
            final(self)@ == op_shift(old(self)@, opcode.0, Dir::Right),
    {
        self.shift(opcode, Dir::Right)
    }

    /// 8XY0.
    fn set_vx_from_vy(&mut self, opcode: OpCode) -> (r: Result<()>)
        requires
            old(self).wf(),
        ensures
            final(self).wf(),
            r is Ok,
            final(self)@ == with_reg(old(self)@, x_of(opcode.0) as int, vy(old(self)@, opcode.0)),
    {
        let vy = self.reg(opcode.y());
        self.set_reg(opcode.x(), vy);
        Ok(())
    }

    /// 6XNN.
    fn set_variable_register(&mut self, opcode: OpCode) -> (r: Result<()>)
        requires
            old(self).wf(),
        ensures
            final(self).wf(),
            r is Ok,
            final(self)@ == with_reg(old(self)@, x_of(opcode.0) as int, nn_of(opcode.0)),
    {
        self.set_reg(opcode.x(), opcode.nn());
        Ok(())
    }

    /// ANNN.
    fn set_index(&mut self, opcode: OpCode) -> (r: Result<()>)
        requires
            old(self).wf(),
        ensures
            final(self).wf(),
            r is Ok,
            final(self)@ == (Machine { index: nnn_of(opcode.0), ..old(self)@ }),
    {
        self.index.set(opcode.nnn());
        Ok(())
    }

    /// 8XY1.
    fn or(&mut self, opcode: OpCode) -> (r: Result<()>)
        requires
            old(self).wf(),
        ensures
            final(self).wf(),
            r is Ok,
            final(self)@ == with_reg(
                old(self)@,
                x_of(opcode.0) as int,
                vx(old(self)@, opcode.0) | vy(old(self)@, opcode.0),
            ),
    {
        let result = self.reg(opcode.x()) | self.reg(opcode.y());
        self.set_reg(opcode.x(), result);
        Ok(())
    }

    /// 8XY2.
    fn and(&mut self, opcode: OpCode) -> (r: Result<()>)
        requires
            old(self).wf(),
        ensures
            final(self).wf(),
            r is Ok,
            final(self)@ == with_reg(
                old(self)@,
                x_of(opcode.0) as int,
                vx(old(self)@, opcode.0) & vy(old(self)@, opcode.0),
            ),
    {
        let result = self.reg(opcode.x()) & self.reg(opcode.y());
        self.set_reg(opcode.x(), result);
        Ok(())
    }

    /// 8XY3.
    fn xor(&mut self, opcode: OpCode) -> (r: Result<()>)
        requires
            old(self).wf(),
        ensures
            final(self).wf(),
            r is Ok,
            final(self)@ == with_reg(
                old(self)@,
                x_of(opcode.0) as int,
                vx(old(self)@, opcode.0) ^ vy(old(self)@, opcode.0),
            ),
    {
        let result = self.reg(opcode.x()) ^ self.reg(opcode.y());
        self.set_reg(opcode.x(), result);
        Ok(())
    }

    /// 7XNN: Vx += NN, wrapping; VF untouched.
    fn add(&mut self, opcode: OpCode) -> (r: Result<()>)
        requires
            old(self).wf(),
        ensures
            final(self).wf(),
            r is Ok,
            final(self)@ == with_reg(
                old(self)@,
                x_of(opcode.0) as int,
                ((vx(old(self)@, opcode.0) + nn_of(opcode.0)) % 256) as u8,
            ),
    {
        let new = self.reg(opcode.x()).wrapping_add(opcode.nn());
        self.set_reg(opcode.x(), new);
        Ok(())
    }

    /// 8XY4.
    fn add_carry(&mut self, opcode: OpCode) -> (r: Result<()>)
        requires
            old(self).wf(),
        ensures
            final(self).wf(),
            r is Ok,
            final(self)@ == op_add_carry(old(self)@, opcode.0),
    {
        let a = self.reg(opcode.x());
        let b = self.reg(opcode.y());
        let carry = a as u16 + b as u16 > 255;
        self.set_reg(opcode.x(), a.wrapping_add(b));
        self.set_reg(FLAG, if carry { 1 } else { 0 });
        Ok(())
    }

    /// EX9E.
    fn skip_if_key(&mut self, opcode: OpCode) -> (r: Result<()>)
        requires
            old(self).wf(),
            old(self)@.pc <= MEMORY_SIZE,
        ensures
            final(self).wf(),
            r is Ok,
            final(self)@ == skip_if(old(self)@, held(old(self)@.keys, vx(old(self)@, opcode.0))),
    {
        let register_value = self.reg(opcode.x());
        if self.keys.is_pressed(register_value) {
            self.skip();
        }
        Ok(())
    }

    /// EXA1.
    fn skip_if_not_key(&mut self, opcode: OpCode) -> (r: Result<()>)
        requires
            old(self).wf(),
            old(self)@.pc <= MEMORY_SIZE,
        ensures
            final(self).wf(),
            r is Ok,
            final(self)@ == skip_if(old(self)@, !held(old(self)@.keys, vx(old(self)@, opcode.0))),
    {
        let register_value = self.reg(opcode.x());
        if !self.keys.is_pressed(register_value) {
            self.skip();
        }
        Ok(())
    }

    /// BNNN.
    fn jump_with_offset(&mut self, opcode: OpCode) -> (r: Result<()>)
        requires
            old(self).wf(),
        ensures
            final(self).wf(),
            r is Ok,
            final(self)@ == op_jump_with_offset(old(self)@, opcode.0),
    {
        let base = if self.quirks.jump_adds_vx {
            self.reg(opcode.x())
        } else {
            self.reg(0x0)
        };
        self.pc.set(opcode.nnn() + base as u16);
        Ok(())
    }

    /// CXNN, with `random` as the drawn byte.
    fn random_and(&mut self, opcode: OpCode, random: u8) -> (r: Result<()>)
        requires
            old(self).wf(),
        ensures
            final(self).wf(),
            r is Ok,
            final(self)@ == with_reg(old(self)@, x_of(opcode.0) as int, random & nn_of(opcode.0)),
    {
        self.set_reg(opcode.x(), random & opcode.nn());
        Ok(())
    }

    /// 4XNN.
    fn skip_conditionally_not_equal_nn(&mut self, opcode: OpCode) -> (r: Result<()>)
        requires
            old(self).wf(),
            old(self)@.pc <= MEMORY_SIZE,
        ensures
            final(self).wf(),
            r is Ok,
            final(self)@ == skip_if(old(self)@, vx(old(self)@, opcode.0) != nn_of(opcode.0)),
    {
        if self.reg(opcode.x()) != opcode.nn() {
            self.skip();
        }
        Ok(())
    }

    /// 3XNN.
    fn skip_conditionally_equal_nn(&mut self, opcode: OpCode) -> (r: Result<()>)
        requires
            old(self).wf(),
            old(self)@.pc <= MEMORY_SIZE,
        ensures
            final(self).wf(),
            r is Ok,
            final(self)@ == skip_if(old(self)@, vx(old(self)@, opcode.0) == nn_of(opcode.0)),
    {
        if self.reg(opcode.x()) == opcode.nn() {
            self.skip();
        }
        Ok(())
    }

    /// 5XY_.
    fn skip_conditionally_equal_xy(&mut self, opcode: OpCode) -> (r: Result<()>)
        requires
            old(self).wf(),
            old(self)@.pc <= MEMORY_SIZE,
        ensures
            final(self).wf(),
            r is Ok,
            final(self)@ == skip_if(old(self)@, vx(old(self)@, opcode.0) == vy(old(self)@, opcode.0)),
    {
        if self.reg(opcode.x()) == self.reg(opcode.y()) {
            self.skip();
        }
        Ok(())
    }

    /// 9XY_.
    fn skip_conditionally_not_equal_xy(&mut self, opcode: OpCode) -> (r: Result<()>)
        requires
            old(self).wf(),
            old(self)@.pc <= MEMORY_SIZE,
        ensures
            final(self).wf(),
            r is Ok,
            final(self)@ == skip_if(old(self)@, vx(old(self)@, opcode.0) != vy(old(self)@, opcode.0)),
    {
        if self.reg(opcode.x()) != self.reg(opcode.y()) {
            self.skip();
        }
        Ok(())
    }

    /// FX07.
    fn set_x_to_delay(&mut self, opcode: OpCode) -> (r: Result<()>)
        requires
            old(self).wf(),
        ensures
            final(self).wf(),
            r is Ok,
            final(self)@ == with_reg(old(self)@, x_of(opcode.0) as int, old(self)@.delay),
    {
        let d = self.delay_timer.get();
        self.set_reg(opcode.x(), d);
        Ok(())
    }

    /// FX15.
    fn set_delay(&mut self, opcode: OpCode) -> (r: Result<()>)
        requires
            old(self).wf(),
        ensures
            final(self).wf(),
            r is Ok,
            final(self)@ == (Machine { delay: vx(old(self)@, opcode.0), ..old(self)@ }),
    {
        let v = self.reg(opcode.x());
        self.delay_timer.set(v);
        Ok(())
    }

    /// FX18.
    fn set_sound(&mut self, opcode: OpCode) -> (r: Result<()>)
        requires
            old(self).wf(),
        ensures
            final(self).wf(),
            r is Ok,
            final(self)@ == (Machine { sound: vx(old(self)@, opcode.0), ..old(self)@ }),
    {
        let v = self.reg(opcode.x());
        self.sound_timer.set(v);
        Ok(())
    }

    /// FX1E: index += Vx, wrapping at 16 bits.
    fn add_x_to_index(&mut self, opcode: OpCode) -> (r: Result<()>)
        requires
            old(self).wf(),
        ensures
            final(self).wf(),
            r is Ok,
            final(self)@ == (Machine {
                index: ((old(self)@.index + vx(old(self)@, opcode.0)) % 0x10000) as u16,
                ..old(self)@
            }),
    {
        let v = self.reg(opcode.x());
        self.index.set(self.index.get().wrapping_add(v as u16));
        Ok(())
    }

    /// FX29: index = the glyph of the low nibble of Vx.
    fn set_index_to_font(&mut self, opcode: OpCode) -> (r: Result<()>)
        requires
            old(self).wf(),
        ensures
            final(self).wf(),
            r is Ok,
            final(self)@ == (Machine {
                index: glyph_address(vx(old(self)@, opcode.0) % 16),
                ..old(self)@
            }),
    {
        let v = self.reg(opcode.x());
        let digit = v & 0x0F;
        assert(v & 0x0F == v % 16) by (bit_vector);
        self.index.set(FONT_START + GLYPH_SIZE * digit as u16);
        Ok(())
    }

    /// FX33.
    fn bcd_x_in_index(&mut self, opcode: OpCode) -> (r: Result<()>)
        requires
            old(self).wf(),
        ensures
            final(self).wf(),
            outcome(
                old(self)@,
                final(self)@,
                r,
                store_at_index(old(self)@, bcd(vx(old(self)@, opcode.0))),
            ),
    {
        let v = self.reg(opcode.x());
        let digits: Vec<u8> = vec![v / 100, (v % 100) / 10, v % 10];
        assert(digits@ =~= bcd(v));
        self.memory.write_slice(self.index.get() as usize, digits.as_slice())
    }

    /// FX55: memory from the index register on = V0..Vx.
    fn set_x_in_index_spread(&mut self, opcode: OpCode) -> (r: Result<()>)
        requires
            old(self).wf(),
        ensures
            final(self).wf(),
            outcome(
                old(self)@,
                final(self)@,
                r,
                store_at_index(old(self)@, old(self)@.v.take(x_of(opcode.0) + 1)),
            ),
    {
        let x = opcode.x();
        let mut values: Vec<u8> = Vec::new();
        let mut j: u8 = 0;
        while j <= x
            invariant
                self.wf(),
                *self == *old(self),
                x < 16,
                j <= x + 1,
                values@ == self@.v.take(j as int),
            decreases x + 1 - j,
        {
            values.push(self.reg(j));
            j += 1;
            assert(values@ =~= self@.v.take(j as int));
        }
        self.memory.write_slice(self.index.get() as usize, values.as_slice())
    }

    /// FX65: V0..Vx = memory from the index register on.
    fn read_x_from_index_spread(&mut self, opcode: OpCode) -> (r: Result<()>)
        requires
            old(self).wf(),
        ensures
            final(self).wf(),
            outcome(old(self)@, final(self)@, r, op_load_registers(old(self)@, opcode.0)),
    {
        let x = opcode.x();
        let bytes = match self.memory.read_slice(self.index.get() as usize, x as usize + 1) {
            Ok(bytes) => bytes,
            Err(e) => return Err(e),
        };
        let mut j: u8 = 0;
        assert(bytes@.take(0) + old(self)@.v.skip(0) =~= old(self)@.v);
        while j <= x
            invariant
                self.wf(),
                old(self).wf(),
                x < 16,
                j <= x + 1,
                bytes@.len() == x + 1,
                self@ == (Machine { v: bytes@.take(j as int) + old(self)@.v.skip(j as int), ..old(self)@ }),
            decreases x + 1 - j,
        {
            self.set_reg(j, bytes[j as usize]);
            j += 1;
            assert(self@.v =~= bytes@.take(j as int) + old(self)@.v.skip(j as int));
        }
        assert(bytes@.take(x + 1) =~= bytes@);
        Ok(())
    }

    /// FX0A.
    fn wait_for_key(&mut self, opcode: OpCode) -> (r: Result<()>)
        requires
            old(self).wf(),
            old(self)@.pc >= INCREMENT,
        ensures
            final(self).wf(),
            r is Ok,
            final(self)@ == op_wait_for_key(old(self)@, opcode.0),
    {
        match self.keys.first_pressed() {
            Some(k) => self.set_reg(opcode.x(), k),
            None => self.pc.decrement(),
        }
        Ok(())
    }

    /// Decodes and executes `opcode`; the program counter has already
    /// moved past it. `random` is the byte CXNN uses.
    fn execute(&mut self, opcode: OpCode, random: u8) -> (r: Result<()>)
        requires
            old(self).wf(),
            INCREMENT <= old(self)@.pc <= MEMORY_SIZE,
        ensures
            final(self).wf(),
            outcome(old(self)@, final(self)@, r, execute(old(self)@, opcode.0, random)),
    {
        match opcode.code() {
            0x0 => match opcode.inner() {
                0x00E0 => self.clear_display(opcode),
                0x00EE => self.return_from_subroutine(opcode),
                _ => self.unknown_opcode(opcode),
            },
            0x1 => self.jump_to_address(opcode),
            0x2 => self.call_subroutine(opcode),
            0x3 => self.skip_conditionally_equal_nn(opcode),
            0x4 => self.skip_conditionally_not_equal_nn(opcode),
            0x5 => self.skip_conditionally_equal_xy(opcode),
            0x6 => self.set_variable_register(opcode),
            0x7 => self.add(opcode),
            0x8 => match opcode.n() {
                0x0 => self.set_vx_from_vy(opcode),
                0x1 => self.or(opcode),
                0x2 => self.and(opcode),
                0x3 => self.xor(opcode),
                0x4 => self.add_carry(opcode),
                0x5 => self.subtract_x_y(opcode),
                0x6 => self.shift_right(opcode),
                0x7 => self.subtract_y_x(opcode),
                0xE => self.shift_left(opcode),
                _ => self.unknown_opcode(opcode),
            },
            0x9 => self.skip_conditionally_not_equal_xy(opcode),
            0xA => self.set_index(opcode),
            0xB => self.jump_with_offset(opcode),
            0xC => self.random_and(opcode, random),
            0xD => self.update_display(opcode),
            0xE => match opcode.nn() {
                0x9E => self.skip_if_key(opcode),
                0xA1 => self.skip_if_not_key(opcode),
                _ => self.unknown_opcode(opcode),
            },
            _ => match opcode.nn() {
                0x07 => self.set_x_to_delay(opcode),
                0x15 => self.set_delay(opcode),
                0x18 => self.set_sound(opcode),
                0x1E => self.add_x_to_index(opcode),
                0x29 => self.set_index_to_font(opcode),
                0x33 => self.bcd_x_in_index(opcode),
                0x55 => self.set_x_in_index_spread(opcode),
                0x65 => self.read_x_from_index_spread(opcode),
                0x0A => self.wait_for_key(opcode),
                _ => self.unknown_opcode(opcode),
            },
        }
    }

    /// One fetch-decode-execute cycle, with `random` as the byte that a
    /// CXNN instruction draws. A failed cycle leaves the machine as it
    /// was, except that an unknown instruction halts it for good.
    pub fn step(&mut self, random: u8) -> (r: Result<()>)
        requires
            old(self).wf(),
        ensures
            final(self).wf(),
            final(self)@ == after_cycle(old(self)@, random),
            match cycle_result(old(self)@, random) {
                Ok(_) => r is Ok,
                Err(e) => r == Err::<(), Error>(e),
            },
    {
        if self.halted {
            return Err(Error::Halted);
        }
        let addr = self.pc.get();
        let opcode = match self.memory.read_opcode(addr as usize) {
            Ok(opcode) => opcode,
            Err(e) => return Err(e),
        };
        self.pc.increment();
        match self.execute(opcode, random) {
            Ok(()) => Ok(()),
            Err(e) => {
                self.pc.set(addr);
                if let Error::Fatal { .. } = e {
                    self.halted = true;
                }
                Err(e)
            },
        }
    }

    /// One fetch-decode-execute cycle; a CXNN instruction draws its byte
    /// from the thread's random generator.
    pub fn cycle(&mut self) -> (r: Result<()>)
        requires
            old(self).wf(),
        ensures
            final(self).wf(),
            exists|b: u8| #[trigger] cycle_outcome(old(self)@, final(self)@, r, b),
    {
        let b = random_byte();
        let r = self.step(b);
        assert(cycle_outcome(old(self)@, self@, r, b));
        r
    }

    /// One tick of the 60Hz clock: both timers count down toward zero.
    pub fn tick_timers(&mut self)
        requires
            old(self).wf(),
        ensures
            final(self).wf(),
            final(self)@ == (Machine {
                delay: if old(self)@.delay == 0 { 0 } else { (old(self)@.delay - 1) as u8 },
                sound: if old(self)@.sound == 0 { 0 } else { (old(self)@.sound - 1) as u8 },
                ..old(self)@
            }),
    {
        self.delay_timer.tick();
        self.sound_timer.tick();
    }

    /// Chooses the quirks from now on.
    pub fn set_quirks(&mut self, quirks: Quirks)
        requires
            old(self).wf(),
        ensures
            final(self).wf(),
            final(self)@ == (Machine { quirks, ..old(self)@ }),
    {
        self.quirks = quirks;
    }

    pub fn quirks(&self) -> (r: Quirks)
        ensures
            r == self@.quirks,
    {
        self.quirks
    }

    pub fn pc(&self) -> (r: ProgramCounter)
        ensures
            r.0 == self@.pc,
    {
        self.pc
    }

    /// The index register.
    pub fn index(&self) -> (r: u16)
        ensures
            r == self@.index,
    {
        self.index.get()
    }

    pub fn registers(&self) -> (r: &Register8BitArray)
        requires
            self.wf(),
        ensures
            r.wf(),
            r@ == self@.v,
    {
        &self.registers
    }

    pub fn memory(&self) -> (r: &Memory)
        requires
            self.wf(),
        ensures
            r.wf(),
            r@ == self@.memory,
    {
        &self.memory
    }

    pub fn display(&self) -> (r: &Display)
        requires
            self.wf(),
        ensures
            r.wf(),
            r@ == self@.display,
    {
        &self.display
    }

    pub fn stack(&self) -> (r: &Stack)
        ensures
            r@ == self@.stack,
    {
        &self.stack
    }

    pub fn keys(&self) -> (r: &Keys)
        requires
            self.wf(),
        ensures
            r.wf(),
            r@ == self@.keys,
    {
        &self.keys
    }

    /// The keypad, for the host to record what is held.
    pub fn keys_mut(&mut self) -> (r: &mut Keys)
        requires
            old(self).wf(),
        ensures
            r@ == old(self)@.keys,
            r.wf(),
            final(self)@ == (Machine { keys: final(r)@, ..old(self)@ }),
            final(r).wf() ==> final(self).wf(),
    {
        &mut self.keys
    }

    pub fn delay_timer(&self) -> (r: u8)
        ensures
            r == self@.delay,
    {
        self.delay_timer.get()
    }

    pub fn sound_timer(&self) -> (r: u8)
        ensures
            r == self@.sound,
    {
        self.sound_timer.get()
    }

    pub fn is_halted(&self) -> (r: bool)
        ensures
            r == self@.halted,
    {
        self.halted
    }
}

} // verus!
