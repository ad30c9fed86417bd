//! Facts about the instruction semantics that span several steps or hold
//! of every input.
use vstd::prelude::*;

use crate::chip8::{
    after_cycle, cycle_result, execute, fetch, is_known, op_load_registers, store_at_index, valid,
    Machine,
};
use crate::display::{HEIGHT, WIDTH};
use crate::error::Error;
use crate::input::first_held_from;
use crate::memory::MEMORY_SIZE;
use crate::opcode::{code_of, n_of, nn_of, x_of, y_of};

verus! {

/// The fields of the instruction word whose bytes are `hi` and `lo`.
pub proof fn lemma_fields(hi: u8, lo: u8)
    ensures
        code_of((hi * 256 + lo) as u16) == hi / 16,
        x_of((hi * 256 + lo) as u16) == hi % 16,
        y_of((hi * 256 + lo) as u16) == lo / 16,
        n_of((hi * 256 + lo) as u16) == lo % 16,
        nn_of((hi * 256 + lo) as u16) == lo,
{
    let w = hi * 256 + lo;
    assert(0 <= w < 0x10000) by (nonlinear_arith)
        requires
            w == hi * 256 + lo,
            0 <= hi < 256,
            0 <= lo < 256,
    ;
    assert(w / 0x1000 == hi / 16 && (w / 0x100) % 0x10 == hi % 16 && (w / 0x10) % 0x10 == lo / 16
        && w % 0x10 == lo % 16 && w % 0x100 == lo) by (nonlinear_arith)
        requires
            w == hi * 256 + lo,
            0 <= hi < 256,
            0 <= lo < 256,
    ;
}

/// Running "set Vx := NN" (6XNN) leaves NN in Vx and moves the program
/// counter on by exactly one instruction.
pub proof fn lemma_set_register(m: Machine, x: u8, nn: u8, rnd: u8)
    requires
        valid(m),
        !m.halted,
        x < 16,
        m.pc + 1 < MEMORY_SIZE,
        m.memory[m.pc as int] == 0x60 + x,
        m.memory[m.pc + 1] == nn,
    ensures
        cycle_result(m, rnd) matches Ok(next) && next.v[x as int] == nn && next.pc == m.pc + 2,
{
    lemma_fields(m.memory[m.pc as int], nn);
}

/// Running "clear display" (00E0) leaves every pixel off.
pub proof fn lemma_clear_display(m: Machine, rnd: u8)
    requires
        valid(m),
        !m.halted,
        m.pc + 1 < MEMORY_SIZE,
        m.memory[m.pc as int] == 0x00,
        m.memory[m.pc + 1] == 0xE0,
    ensures
        cycle_result(m, rnd) matches Ok(next) && forall|x: int, y: int|
            0 <= x < WIDTH && 0 <= y < HEIGHT ==> !#[trigger] next.display[y][x],
{
    lemma_fields(0x00, 0xE0);
}

/// Storing V0..Vx at the index register (FX55) and then loading V0..Vx
/// from there (FX65) gives back exactly the registers there were.
pub proof fn lemma_store_load_round_trip(m: Machine, x: u8, rnd: u8)
    requires
        valid(m),
        x < 16,
        m.pc >= 2,
        m.index + x + 1 <= MEMORY_SIZE,
    ensures
        execute(m, (0xF055 + x * 0x100) as u16, rnd) matches Ok(stored) && execute(
            stored,
            (0xF065 + x * 0x100) as u16,
            rnd,
        ) matches Ok(loaded) && loaded.v == m.v,
{
    lemma_fields((0xF0 + x) as u8, 0x55);
    lemma_fields((0xF0 + x) as u8, 0x65);
    let data = m.v.take(x + 1);
    assert(store_at_index(m, data) matches Ok(stored) && stored.memory.subrange(
        m.index as int,
        m.index + x + 1,
    ) =~= data);
    let stored = store_at_index(m, data)->Ok_0;
    let loaded = op_load_registers(stored, (0xF065 + x * 0x100) as u16)->Ok_0;
    assert(loaded.v =~= m.v);
}

/// "Wait for key" (FX0A) with no key held does not move the program
/// counter over the cycle: the same instruction runs next time.
pub proof fn lemma_wait_without_key(m: Machine, x: u8, rnd: u8)
    requires
        valid(m),
        !m.halted,
        x < 16,
        m.pc + 1 < MEMORY_SIZE,
        m.memory[m.pc as int] == 0xF0 + x,
        m.memory[m.pc + 1] == 0x0A,
        forall|k: int| 0 <= k < 16 ==> !m.keys[k],
    ensures
        cycle_result(m, rnd) matches Ok(next) && next.pc == m.pc,
{
    lemma_fields(m.memory[m.pc as int], 0x0A);
    lemma_no_key_held(m.keys, 0);
}

proof fn lemma_no_key_held(keys: Seq<bool>, k: int)
    requires
        keys.len() == 16,
        0 <= k <= 16,
        forall|j: int| 0 <= j < 16 ==> !keys[j],
    ensures
        first_held_from(keys, k) is None,
    decreases 16 - k,
{
    if k < 16 {
        lemma_no_key_held(keys, k + 1);
    }
}

/// An instruction word that names no instruction stops the machine with a
/// fatal error that gives the word and the address it was fetched from;
/// from then on every cycle is refused.
pub proof fn lemma_unknown_opcode(m: Machine, rnd: u8, later: u8)
    requires
        valid(m),
        !m.halted,
        m.pc + 1 < MEMORY_SIZE,
        !is_known(fetch(m.memory, m.pc as int)),
    ensures
        cycle_result(m, rnd) == Err::<Machine, Error>(
            Error::Fatal { opcode: fetch(m.memory, m.pc as int), address: m.pc },
        ),
        after_cycle(m, rnd).halted,
        cycle_result(after_cycle(m, rnd), later) == Err::<Machine, Error>(Error::Halted),
{
}

} // verus!
