use chip8::{Chip8, Error, OpCode, Quirks};

fn machine_with(rom: &[u8]) -> Chip8 {
    let mut chip = Chip8::default();
    chip.load_rom(rom).unwrap();
    chip
}

fn run(chip: &mut Chip8, cycles: usize) {
    for _ in 0..cycles {
        chip.step(0).unwrap();
    }
}

fn reg(chip: &Chip8, i: u8) -> u8 {
    chip.registers().get(i).unwrap().get()
}

fn pixel(chip: &Chip8, x: usize, y: usize) -> bool {
    chip.display().is_on(x, y).unwrap()
}

fn all_off(chip: &Chip8) -> bool {
    (0..32).all(|y| (0..64).all(|x| !pixel(chip, x, y)))
}

#[test]
fn test_chip8() {
    let chip8 = Chip8::default();
    assert_eq!(chip8.pc().get(), 0x200);
}

#[test]
fn test_subtract_x_y() {
    // VA = 0x10, VB = 0x20, VA -= VB: borrows.
    let mut chip = machine_with(&[0x6A, 0x10, 0x6B, 0x20, 0x8A, 0xB5]);
    run(&mut chip, 3);
    assert_eq!(reg(&chip, 0xA), 0xF0);
    assert_eq!(reg(&chip, 0xF), 0);

    // VA = 0x20, VB = 0x10: no borrow.
    let mut chip = machine_with(&[0x6A, 0x20, 0x6B, 0x10, 0x8A, 0xB5]);
    run(&mut chip, 3);
    assert_eq!(reg(&chip, 0xA), 0x10);
    assert_eq!(reg(&chip, 0xF), 1);
}

#[test]
fn test_subtract_y_x() {
    // VA = VB - VA = 0x20 - 0x10: no borrow.
    let mut chip = machine_with(&[0x6A, 0x10, 0x6B, 0x20, 0x8A, 0xB7]);
    run(&mut chip, 3);
    assert_eq!(reg(&chip, 0xA), 0x10);
    assert_eq!(reg(&chip, 0xF), 1);

    // VA = VB - VA = 0x10 - 0x20: borrows.
    let mut chip = machine_with(&[0x6A, 0x20, 0x6B, 0x10, 0x8A, 0xB7]);
    run(&mut chip, 3);
    assert_eq!(reg(&chip, 0xA), 0xF0);
    assert_eq!(reg(&chip, 0xF), 0);
}

#[test]
fn test_update_display() {
    // Index at the '0' glyph, V0 = V0 = 0, draw five rows on an empty buffer.
    let mut chip = machine_with(&[0xA0, 0x50, 0xD0, 0x05]);
    run(&mut chip, 2);
    let glyph: [u8; 5] = [0xF0, 0x90, 0x90, 0x90, 0xF0];
    for y in 0..32 {
        for x in 0..64 {
            let expected = y < 5 && x < 8 && glyph[y] & (0x80 >> x) != 0;
            assert_eq!(pixel(&chip, x, y), expected, "pixel ({x}, {y})");
        }
    }
    assert_eq!(reg(&chip, 0xF), 0);
}

#[test]
fn test_shift() {
    // V1 = 0x81; shift left: 0x02, VF = 1.
    let mut chip = machine_with(&[0x61, 0x81, 0x81, 0x0E]);
    run(&mut chip, 2);
    assert_eq!(reg(&chip, 1), 0x02);
    assert_eq!(reg(&chip, 0xF), 1);

    // V1 = 0x81; shift right: 0x40, VF = 1.
    let mut chip = machine_with(&[0x61, 0x81, 0x81, 0x06]);
    run(&mut chip, 2);
    assert_eq!(reg(&chip, 1), 0x40);
    assert_eq!(reg(&chip, 0xF), 1);

    // V1 = 0x40; shift left: 0x80, VF = 0; shift right of 0x80: 0x40, VF = 0.
    let mut chip = machine_with(&[0x61, 0x40, 0x81, 0x0E, 0x81, 0x06]);
    run(&mut chip, 2);
    assert_eq!(reg(&chip, 1), 0x80);
    assert_eq!(reg(&chip, 0xF), 0);
    run(&mut chip, 1);
    assert_eq!(reg(&chip, 1), 0x40);
    assert_eq!(reg(&chip, 0xF), 0);
}

#[test]
fn shift_methods_called_directly() {
    let mut chip = machine_with(&[0x62, 0x03]);
    run(&mut chip, 1);
    chip.shift_right(OpCode(0x8206)).unwrap();
    assert_eq!(reg(&chip, 2), 0x01);
    assert_eq!(reg(&chip, 0xF), 1);
    chip.shift_left(OpCode(0x820E)).unwrap();
    assert_eq!(reg(&chip, 2), 0x02);
    assert_eq!(reg(&chip, 0xF), 0);
}

#[test]
fn shift_quirk_reads_vy() {
    let mut chip = machine_with(&[0x61, 0x01, 0x62, 0x83, 0x81, 0x26]);
    chip.set_quirks(Quirks { shift_reads_vy: true, jump_adds_vx: false });
    run(&mut chip, 3);
    assert_eq!(reg(&chip, 1), 0x41);
    assert_eq!(reg(&chip, 0xF), 1);
    assert_eq!(reg(&chip, 2), 0x83);
}

#[test]
fn set_register_then_read() {
    for x in 0..16u8 {
        for nn in [0x00u8, 0x01, 0x7F, 0xFF] {
            let mut chip = machine_with(&[0x60 + x, nn]);
            chip.step(0).unwrap();
            assert_eq!(reg(&chip, x), nn);
            assert_eq!(chip.pc().get(), 0x202);
        }
    }
}

#[test]
fn set_register_scenario() {
    let mut chip = machine_with(&[0x6A, 0x3B]);
    assert_eq!(chip.pc().get(), 0x200);
    chip.step(0).unwrap();
    assert_eq!(reg(&chip, 0xA), 0x3B);
    assert_eq!(chip.pc().get(), 0x202);
}

#[test]
fn set_index_scenario() {
    let mut chip = machine_with(&[0xA2, 0x28]);
    chip.step(0).unwrap();
    assert_eq!(chip.index(), 0x228);
}

#[test]
fn add_with_carry() {
    let mut chip = machine_with(&[0x6A, 0xFF, 0x6B, 0x01, 0x8A, 0xB4]);
    run(&mut chip, 3);
    assert_eq!(reg(&chip, 0xA), 0x00);
    assert_eq!(reg(&chip, 0xF), 1);

    let mut chip = machine_with(&[0x6A, 0x10, 0x6B, 0x01, 0x8A, 0xB4]);
    run(&mut chip, 3);
    assert_eq!(reg(&chip, 0xA), 0x11);
    assert_eq!(reg(&chip, 0xF), 0);
}

#[test]
fn add_immediate_wraps_without_flag() {
    let mut chip = machine_with(&[0x6F, 0x05, 0x6A, 0xFF, 0x7A, 0x02]);
    run(&mut chip, 3);
    assert_eq!(reg(&chip, 0xA), 0x01);
    assert_eq!(reg(&chip, 0xF), 0x05);
}

#[test]
fn bitwise_operations() {
    let mut chip = machine_with(&[
        0x61, 0xCC, 0x62, 0xAA, 0x81, 0x21, // V1 = 0xCC | 0xAA
        0x63, 0xCC, 0x83, 0x22, // V3 = 0xCC & 0xAA
        0x64, 0xCC, 0x84, 0x23, // V4 = 0xCC ^ 0xAA
        0x85, 0x20, // V5 = V2
    ]);
    run(&mut chip, 8);
    assert_eq!(reg(&chip, 1), 0xEE);
    assert_eq!(reg(&chip, 3), 0x88);
    assert_eq!(reg(&chip, 4), 0x66);
    assert_eq!(reg(&chip, 5), 0xAA);
}

#[test]
fn bcd_digits() {
    let mut chip = machine_with(&[0x65, 234, 0xA3, 0x00, 0xF5, 0x33]);
    run(&mut chip, 3);
    let m = chip.memory();
    assert_eq!(m.read(0x300).unwrap(), 2);
    assert_eq!(m.read(0x301).unwrap(), 3);
    assert_eq!(m.read(0x302).unwrap(), 4);
}

#[test]
fn bcd_past_end_of_memory_fails() {
    let mut chip = machine_with(&[0xAF, 0xFE, 0xF0, 0x33]);
    run(&mut chip, 1);
    assert_eq!(chip.step(0), Err(Error::MemoryOutOfBounds { addr: 0xFFE, len: 3 }));
    // Nothing changed, not even the program counter.
    assert_eq!(chip.pc().get(), 0x202);
    assert_eq!(chip.memory().read(0xFFE).unwrap(), 0);
}

#[test]
fn register_spread_round_trip() {
    let mut chip = machine_with(&[
        0x60, 0x11, 0x61, 0x22, 0x62, 0x33, 0x63, 0x44, // V0..V3
        0xA4, 0x00, 0xF3, 0x55, // store V0..V3 at 0x400
        0x60, 0x00, 0x61, 0x00, 0x62, 0x00, 0x63, 0x00, // clear them
        0xF3, 0x65, // load V0..V3 back
    ]);
    run(&mut chip, 6);
    for (i, b) in [0x11u8, 0x22, 0x33, 0x44].iter().enumerate() {
        assert_eq!(chip.memory().read(0x400 + i).unwrap(), *b);
    }
    assert_eq!(chip.memory().read(0x404).unwrap(), 0);
    run(&mut chip, 5);
    assert_eq!(reg(&chip, 0), 0x11);
    assert_eq!(reg(&chip, 1), 0x22);
    assert_eq!(reg(&chip, 2), 0x33);
    assert_eq!(reg(&chip, 3), 0x44);
    assert_eq!(chip.index(), 0x400);
}

#[test]
fn wait_for_key_without_key_stalls() {
    let mut chip = machine_with(&[0xF3, 0x0A]);
    chip.step(0).unwrap();
    assert_eq!(chip.pc().get(), 0x200);
    chip.step(0).unwrap();
    assert_eq!(chip.pc().get(), 0x200);
}

#[test]
fn wait_for_key_takes_lowest_held_key() {
    let mut chip = machine_with(&[0xF3, 0x0A]);
    chip.keys_mut().set(0xC, true);
    chip.keys_mut().set(0x7, true);
    chip.step(0).unwrap();
    assert_eq!(reg(&chip, 3), 0x7);
    assert_eq!(chip.pc().get(), 0x202);
}

#[test]
fn unknown_opcode_is_fatal() {
    let mut chip = machine_with(&[0x60, 0x01, 0xE0, 0x00]);
    chip.step(0).unwrap();
    assert_eq!(chip.step(0), Err(Error::Fatal { opcode: 0xE000, address: 0x202 }));
    assert!(chip.is_halted());
    assert_eq!(chip.pc().get(), 0x202);
    assert_eq!(chip.step(0), Err(Error::Halted));
    assert_eq!(chip.cycle(), Err(Error::Halted));
}

#[test]
fn unknown_opcodes_of_each_family() {
    for word in [0x0000u16, 0x0123, 0x00E3, 0x8008, 0x800F, 0xE0FF, 0xF000, 0xF0FF] {
        let mut chip = machine_with(&[(word >> 8) as u8, word as u8]);
        assert_eq!(chip.step(0), Err(Error::Fatal { opcode: word, address: 0x200 }));
    }
}

#[test]
fn clear_display_turns_everything_off() {
    let mut chip = machine_with(&[0xA0, 0x50, 0xD0, 0x05, 0x00, 0xE0]);
    run(&mut chip, 2);
    assert!(!all_off(&chip));
    run(&mut chip, 1);
    assert!(all_off(&chip));
}

#[test]
fn draw_twice_restores_and_collides() {
    let mut chip = machine_with(&[0xA0, 0x50, 0xD0, 0x05, 0xD0, 0x05]);
    run(&mut chip, 2);
    assert_eq!(reg(&chip, 0xF), 0);
    run(&mut chip, 1);
    assert_eq!(reg(&chip, 0xF), 1);
    assert!(all_off(&chip));
}

#[test]
fn draw_clips_at_right_edge() {
    // V0 = 62: only the two leftmost columns of the glyph are drawn.
    let mut chip = machine_with(&[0x60, 62, 0x61, 0, 0xA0, 0x50, 0xD0, 0x15]);
    run(&mut chip, 4);
    assert!(pixel(&chip, 62, 0));
    assert!(pixel(&chip, 63, 0));
    assert!(!pixel(&chip, 0, 0));
    assert!(!pixel(&chip, 1, 0));
}

#[test]
fn draw_clips_at_bottom_edge() {
    // V1 = 30: only two rows fit.
    let mut chip = machine_with(&[0x60, 0, 0x61, 30, 0xA0, 0x50, 0xD0, 0x15]);
    run(&mut chip, 4);
    assert!(pixel(&chip, 0, 30));
    assert!(pixel(&chip, 0, 31));
    assert!(!pixel(&chip, 0, 0));
}

#[test]
fn draw_origin_wraps_modulo_64() {
    // V0 = 65 starts the sprite at column 1.
    let mut chip = machine_with(&[0x60, 65, 0x61, 0, 0xA0, 0x50, 0xD0, 0x15]);
    run(&mut chip, 4);
    assert!(!pixel(&chip, 0, 0));
    assert!(pixel(&chip, 1, 0));
    assert!(pixel(&chip, 4, 0));
    assert!(!pixel(&chip, 5, 0));
}

#[test]
fn font_glyph_address() {
    let mut chip = machine_with(&[0x60, 0x1A, 0xF0, 0x29]);
    run(&mut chip, 2);
    assert_eq!(chip.index(), 0x50 + 5 * 0xA);
}

#[test]
fn index_add_wraps_at_sixteen_bits() {
    let mut chip = machine_with(&[0xAF, 0xFF, 0x60, 0x02, 0xF0, 0x1E]);
    run(&mut chip, 3);
    assert_eq!(chip.index(), 0x1001);
}

#[test]
fn call_and_return() {
    // 0x200: call 0x206; 0x202: set V1; 0x206: return.
    let mut chip = machine_with(&[0x22, 0x06, 0x61, 0x07, 0x00, 0x00, 0x00, 0xEE]);
    chip.step(0).unwrap();
    assert_eq!(chip.pc().get(), 0x206);
    chip.step(0).unwrap();
    assert_eq!(chip.pc().get(), 0x202);
    chip.step(0).unwrap();
    assert_eq!(reg(&chip, 1), 7);
}

#[test]
fn return_on_empty_stack_goes_to_zero() {
    let mut chip = machine_with(&[0x00, 0xEE]);
    chip.step(0).unwrap();
    assert_eq!(chip.pc().get(), 0);
}

#[test]
fn jumps() {
    let mut chip = machine_with(&[0x13, 0x00]);
    chip.step(0).unwrap();
    assert_eq!(chip.pc().get(), 0x300);

    let mut chip = machine_with(&[0x60, 0x10, 0x61, 0x20, 0xB1, 0x00]);
    run(&mut chip, 3);
    assert_eq!(chip.pc().get(), 0x110);

    let mut chip = machine_with(&[0x60, 0x10, 0x61, 0x20, 0xB1, 0x00]);
    chip.set_quirks(Quirks { shift_reads_vy: false, jump_adds_vx: true });
    run(&mut chip, 3);
    assert_eq!(chip.pc().get(), 0x120);
}

#[test]
fn fetch_past_end_of_memory_fails() {
    let mut chip = machine_with(&[0x1F, 0xFF]);
    chip.step(0).unwrap();
    assert_eq!(chip.step(0), Err(Error::MemoryOutOfBounds { addr: 0xFFF, len: 2 }));
    assert_eq!(chip.pc().get(), 0xFFF);
    assert!(!chip.is_halted());
}

#[test]
fn conditional_skips() {
    // V1 = 5, V2 = 5, V3 = 6.
    let prelude = [0x61u8, 0x05, 0x62, 0x05, 0x63, 0x06];
    let cases: [([u8; 2], bool); 8] = [
        ([0x31, 0x05], true),
        ([0x31, 0x06], false),
        ([0x41, 0x06], true),
        ([0x41, 0x05], false),
        ([0x51, 0x20], true),
        ([0x51, 0x30], false),
        ([0x91, 0x30], true),
        ([0x91, 0x20], false),
    ];
    for (op, skips) in cases {
        let mut rom = prelude.to_vec();
        rom.extend_from_slice(&op);
        let mut chip = machine_with(&rom);
        run(&mut chip, 4);
        assert_eq!(chip.pc().get(), if skips { 0x20A } else { 0x208 }, "{op:02X?}");
    }
}

#[test]
fn key_skips() {
    let mut chip = machine_with(&[0x61, 0x05, 0xE1, 0x9E]);
    chip.keys_mut().set(5, true);
    run(&mut chip, 2);
    assert_eq!(chip.pc().get(), 0x206);

    let mut chip = machine_with(&[0x61, 0x05, 0xE1, 0xA1]);
    run(&mut chip, 2);
    assert_eq!(chip.pc().get(), 0x206);

    let mut chip = machine_with(&[0x61, 0x05, 0xE1, 0x9E]);
    run(&mut chip, 2);
    assert_eq!(chip.pc().get(), 0x204);

    // A register value above 15 names no key, so it is never held.
    let mut chip = machine_with(&[0x61, 0x15, 0xE1, 0xA1]);
    chip.keys_mut().set(5, true);
    run(&mut chip, 2);
    assert_eq!(chip.pc().get(), 0x206);
}

#[test]
fn timers_set_read_and_tick() {
    let mut chip = machine_with(&[0x61, 0x02, 0xF1, 0x15, 0xF1, 0x18, 0xF2, 0x07]);
    run(&mut chip, 4);
    assert_eq!(chip.delay_timer(), 2);
    assert_eq!(chip.sound_timer(), 2);
    assert_eq!(reg(&chip, 2), 2);
    chip.tick_timers();
    assert_eq!(chip.delay_timer(), 1);
    chip.tick_timers();
    chip.tick_timers();
    assert_eq!(chip.delay_timer(), 0);
    assert_eq!(chip.sound_timer(), 0);
}

#[test]
fn random_byte_is_masked() {
    let mut chip = machine_with(&[0xC1, 0x0F, 0xC2, 0x00]);
    chip.cycle().unwrap();
    chip.cycle().unwrap();
    assert!(reg(&chip, 1) <= 0x0F);
    assert_eq!(reg(&chip, 2), 0);
}

#[test]
fn random_byte_given_to_step() {
    let mut chip = machine_with(&[0xC1, 0x3C]);
    chip.step(0xF5).unwrap();
    assert_eq!(reg(&chip, 1), 0x34);
}

#[test]
fn rom_that_does_not_fit_is_refused() {
    let mut chip = Chip8::default();
    let rom = vec![0xAAu8; 4096 - 0x200 + 1];
    assert_eq!(chip.load_rom(&rom), Err(Error::MemoryOutOfBounds { addr: 0x200, len: rom.len() }));
    assert_eq!(chip.memory().read(0x200).unwrap(), 0);
    let rom = vec![0xAAu8; 4096 - 0x200];
    assert_eq!(chip.load_rom(&rom), Ok(()));
    assert_eq!(chip.memory().read(0xFFF).unwrap(), 0xAA);
}
