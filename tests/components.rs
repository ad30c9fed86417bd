use chip8::display::{HEIGHT, WIDTH};
use chip8::memory::{FONT_START, MEMORY_SIZE};
use chip8::{
    is_interrupt, key_value, Display, Error, KeyKind, Keys, Memory, OpCode, ProgramCounter,
    Register8BitArray, Stack, Timer,
};

#[test]
fn opcode_fields() {
    let op = OpCode(0xD123);
    assert_eq!(op.inner(), 0xD123);
    assert_eq!(op.code(), 0xD);
    assert_eq!(op.x(), 0x1);
    assert_eq!(op.y(), 0x2);
    assert_eq!(op.n(), 0x3);
    assert_eq!(op.nn(), 0x23);
    assert_eq!(op.nnn(), 0x123);
}

#[test]
fn memory_starts_with_font() {
    let m = Memory::default();
    assert_eq!(m.read(FONT_START as usize).unwrap(), 0xF0);
    assert_eq!(m.read(FONT_START as usize + 5).unwrap(), 0x20);
    assert_eq!(m.read(FONT_START as usize + 79).unwrap(), 0x80);
    assert_eq!(m.read(FONT_START as usize + 80).unwrap(), 0);
    assert_eq!(m.read(0).unwrap(), 0);
}

#[test]
fn memory_bounds() {
    let mut m = Memory::default();
    assert_eq!(m.read(MEMORY_SIZE), Err(Error::MemoryOutOfBounds { addr: MEMORY_SIZE, len: 1 }));
    assert_eq!(m.write(MEMORY_SIZE, 1), Err(Error::MemoryOutOfBounds { addr: MEMORY_SIZE, len: 1 }));
    assert_eq!(m.read_opcode(MEMORY_SIZE - 1), Err(Error::MemoryOutOfBounds { addr: MEMORY_SIZE - 1, len: 2 }));
    assert_eq!(m.write_slice(4000, &[1; 97]), Err(Error::MemoryOutOfBounds { addr: 4000, len: 97 }));
    assert_eq!(m.read(4000).unwrap(), 0);
    assert_eq!(m.write_slice(4000, &[1; 96]), Ok(()));
    assert_eq!(m.read(4095).unwrap(), 1);
    assert_eq!(m.read_slice(4094, 3), Err(Error::MemoryOutOfBounds { addr: 4094, len: 3 }));
    assert_eq!(m.read_slice(4094, 2).unwrap(), vec![1, 1]);
}

#[test]
fn memory_read_write_opcode() {
    let mut m = Memory::default();
    m.write(0x300, 0x12).unwrap();
    m.write(0x301, 0x34).unwrap();
    assert_eq!(m.read(0x300).unwrap(), 0x12);
    assert_eq!(m.read_opcode(0x300).unwrap(), OpCode(0x1234));
}

#[test]
fn memory_clear_program_keeps_font() {
    let mut m = Memory::default();
    m.write_slice(0x200, &[9, 9, 9]).unwrap();
    m.clear_program();
    assert_eq!(m.read(0x200).unwrap(), 0);
    assert_eq!(m.read(FONT_START as usize).unwrap(), 0xF0);
}

#[test]
fn registers_bounds_and_access() {
    let mut regs = Register8BitArray::new();
    assert_eq!(regs.get(16).unwrap_err(), Error::RegisterOutOfBounds { index: 16 });
    assert!(regs.get_mut(16).is_err());
    assert_eq!(regs.set(16, 1), Err(Error::RegisterOutOfBounds { index: 16 }));
    regs.get_mut(3).unwrap().set(0x42);
    assert_eq!(regs.get(3).unwrap().get(), 0x42);
    regs.set(15, 7).unwrap();
    assert_eq!(regs.get(15).unwrap().get(), 7);
    assert_eq!(regs.get(0).unwrap().get(), 0);
}

#[test]
fn program_counter_moves() {
    let mut pc = ProgramCounter(0x200);
    pc.increment();
    assert_eq!(pc.get(), 0x202);
    pc.decrement();
    assert_eq!(pc.get(), 0x200);
    pc.set(0x345);
    assert_eq!(pc.get(), 0x345);
}

#[test]
fn stack_is_last_in_first_out() {
    let mut s = Stack::default();
    s.push(0x202);
    s.push(0x404);
    assert_eq!(s.pop(), 0x404);
    assert_eq!(s.pop(), 0x202);
    assert_eq!(s.pop(), 0);
}

#[test]
fn timer_saturates_at_zero() {
    let mut t = Timer::default();
    t.tick();
    assert_eq!(t.get(), 0);
    t.set(2);
    t.tick();
    assert_eq!(t.get(), 1);
}

#[test]
fn display_set_and_bounds() {
    let mut d = Display::default();
    assert_eq!(d.is_on(WIDTH, 0), Err(Error::PixelOutOfBounds { x: WIDTH, y: 0 }));
    assert_eq!(d.is_on(0, HEIGHT), Err(Error::PixelOutOfBounds { x: 0, y: HEIGHT }));
    assert_eq!(d.set(0, HEIGHT, true), Err(Error::PixelOutOfBounds { x: 0, y: HEIGHT }));
    d.set(3, 4, true).unwrap();
    assert!(d.is_on(3, 4).unwrap());
    assert!(!d.is_on(4, 3).unwrap());
    d.clear();
    assert!(!d.is_on(3, 4).unwrap());
}

#[test]
fn display_sprite_collision() {
    let mut d = Display::default();
    assert!(!d.draw_sprite(0, 0, &[0x80]));
    assert!(d.is_on(0, 0).unwrap());
    assert!(!d.draw_sprite(1, 0, &[0x80]));
    assert!(d.draw_sprite(0, 0, &[0xC0]));
    assert!(!d.is_on(0, 0).unwrap());
    assert!(!d.is_on(1, 0).unwrap());
    // An empty sprite never collides.
    assert!(!d.draw_sprite(0, 0, &[0x00]));
    // A start row of 33 is taken as is, past the bottom: nothing is drawn.
    assert!(!d.draw_sprite(0, 33, &[0xFF]));
    assert!((0..WIDTH).all(|x| !d.is_on(x, 1).unwrap()));
}

#[test]
fn keys_first_pressed_and_iter() {
    let mut k = Keys::default();
    assert_eq!(k.first_pressed(), None);
    k.set(9, true);
    k.set(4, true);
    k.set(16, true);
    assert_eq!(k.first_pressed(), Some(4));
    assert!(k.is_pressed(9));
    assert!(!k.is_pressed(16));
    let all = k.iter();
    assert_eq!(all.len(), 16);
    assert_eq!(all[4], (4, true));
    assert_eq!(all[5], (5, false));
}

#[test]
fn keys_follow_events() {
    let mut k = Keys::default();
    let events = [('q', KeyKind::Press), ('v', KeyKind::Press), ('p', KeyKind::Press), ('x', KeyKind::Release)];
    k.update_pressed(&events);
    assert!(k.is_pressed(0x4));
    assert!(k.is_pressed(0xF));
    assert!(!k.is_pressed(0x0));
    k.update_released(&[('q', KeyKind::Release), ('v', KeyKind::Press)]);
    assert!(!k.is_pressed(0x4));
    assert!(k.is_pressed(0xF));
    k.update(&[('v', KeyKind::Release)], KeyKind::Release);
    assert_eq!(k.first_pressed(), None);
}

#[test]
fn keyboard_layout() {
    assert_eq!(key_value('1'), Some(0x1));
    assert_eq!(key_value('4'), Some(0xC));
    assert_eq!(key_value('x'), Some(0x0));
    assert_eq!(key_value('v'), Some(0xF));
    assert_eq!(key_value('p'), None);
    assert!(is_interrupt('c', true));
    assert!(!is_interrupt('c', false));
    assert!(!is_interrupt('d', true));
}
