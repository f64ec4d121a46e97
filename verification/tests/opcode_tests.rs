//! Tests of instruction semantics: arithmetic with carry and borrow,
//! shifts, skips, register/memory transfers, BCD, the random mask and
//! the font pointer.

use chip8::emulator::Emulator;
use chip8::memory::{font_bytes, Address};
use chip8::opcode::Opcode;
use chip8::rand::RandGen;
use chip8::EmulatorError;

fn emu_with(rom: Vec<u8>) -> Emulator {
    let mut e = Emulator::new();
    e.load_rom(&rom).unwrap();
    e
}

fn run(rom: Vec<u8>, ticks: usize) -> Emulator {
    let mut e = emu_with(rom);
    for _ in 0..ticks {
        e.tick().unwrap();
    }
    e
}

#[test]
fn opcode_decodes_nibbles_address_and_byte() {
    let op = Opcode::new(0xAB, 0xCD);
    assert_eq!(op.nibbles(), (0xA, 0xB, 0xC, 0xD));
    assert_eq!(op.address(), 0xBCD);
    assert_eq!(op.kk_byte(), 0xCD);
}

#[test]
fn add_byte_wraps_without_touching_flags() {
    let e = run(vec![0x60, 0xFF, 0x70, 0x02], 2);
    assert_eq!(e.v_registers[0x0], 0x01);
    assert_eq!(e.v_registers[0xF], 0x00);
}

#[test]
fn add_register_carry_set_and_clear() {
    // Vx = 0xFF, Vy = 0x01: sum overflows to 0x00 with VF = 1.
    let e = run(vec![0x60, 0xFF, 0x61, 0x01, 0x80, 0x14], 3);
    assert_eq!(e.v_registers[0x0], 0x00);
    assert_eq!(e.v_registers[0xF], 0x01);
    // Vx = 0x01, Vy = 0x01: sum is 0x02 with VF = 0.
    let e = run(vec![0x60, 0x01, 0x61, 0x01, 0x80, 0x14], 3);
    assert_eq!(e.v_registers[0x0], 0x02);
    assert_eq!(e.v_registers[0xF], 0x00);
}

#[test]
fn sub_register_borrow_clear_and_set() {
    // Vx = 0x05, Vy = 0x0A: wraps to 0xFB with VF = 0 (borrow).
    let e = run(vec![0x60, 0x05, 0x61, 0x0A, 0x80, 0x15], 3);
    assert_eq!(e.v_registers[0x0], 0xFB);
    assert_eq!(e.v_registers[0xF], 0x00);
    // Vx = 0x0A, Vy = 0x05: 0x05 with VF = 1 (no borrow).
    let e = run(vec![0x60, 0x0A, 0x61, 0x05, 0x80, 0x15], 3);
    assert_eq!(e.v_registers[0x0], 0x05);
    assert_eq!(e.v_registers[0xF], 0x01);
}

#[test]
fn subn_register_reverses_operands() {
    let e = run(vec![0x60, 0x05, 0x61, 0x0A, 0x80, 0x17], 3);
    assert_eq!(e.v_registers[0x0], 0x05);
    assert_eq!(e.v_registers[0xF], 0x01);
}

#[test]
fn bitwise_or_and_xor() {
    let e = run(vec![0x60, 0x0C, 0x61, 0x0A, 0x80, 0x11], 3);
    assert_eq!(e.v_registers[0x0], 0x0E);
    let e = run(vec![0x60, 0x0C, 0x61, 0x0A, 0x80, 0x12], 3);
    assert_eq!(e.v_registers[0x0], 0x08);
    let e = run(vec![0x60, 0x0C, 0x61, 0x0A, 0x80, 0x13], 3);
    assert_eq!(e.v_registers[0x0], 0x06);
}

#[test]
fn load_register_copies_vy() {
    let e = run(vec![0x61, 0x55, 0x80, 0x10], 2);
    assert_eq!(e.v_registers[0x0], 0x55);
}

#[test]
fn shift_right_keeps_low_bit_in_flags() {
    let e = run(vec![0x60, 0x05, 0x80, 0x06], 2);
    assert_eq!(e.v_registers[0x0], 0x02);
    assert_eq!(e.v_registers[0xF], 0x01);
}

#[test]
fn shift_left_keeps_high_bit_in_flags() {
    let e = run(vec![0x60, 0x81, 0x80, 0x0E], 2);
    assert_eq!(e.v_registers[0x0], 0x02);
    assert_eq!(e.v_registers[0xF], 0x01);
}

#[test]
fn skip_opcodes_advance_pc_by_four() {
    // SE Vx, kk taken.
    let e = run(vec![0x60, 0x05, 0x30, 0x05], 2);
    assert_eq!(e.pc.value, 0x206);
    // SE Vx, kk not taken.
    let e = run(vec![0x60, 0x05, 0x30, 0x06], 2);
    assert_eq!(e.pc.value, 0x204);
    // SNE Vx, kk taken.
    let e = run(vec![0x60, 0x05, 0x40, 0x06], 2);
    assert_eq!(e.pc.value, 0x206);
    // SE Vx, Vy taken (both zero).
    let e = run(vec![0x50, 0x10], 1);
    assert_eq!(e.pc.value, 0x204);
    // SNE Vx, Vy taken.
    let e = run(vec![0x60, 0x05, 0x90, 0x10], 2);
    assert_eq!(e.pc.value, 0x206);
}

#[test]
fn load_index_register() {
    let e = run(vec![0xA1, 0x23], 1);
    assert_eq!(e.i.value, 0x123);
}

#[test]
fn add_index_register() {
    let e = run(vec![0xA0, 0x10, 0x60, 0x05, 0xF0, 0x1E], 3);
    assert_eq!(e.i.value, 0x15);
}

#[test]
fn add_index_register_out_of_range_fails() {
    let mut e = emu_with(vec![]);
    e.i = Address::new(0xFFF);
    e.v_registers[0] = 0x02;
    let r = e.execute_opcode(Opcode::new(0xF0, 0x1E));
    assert_eq!(r, Err(EmulatorError::AddressOutOfRange));
    assert_eq!(e.i.value, 0xFFF);
}

#[test]
fn font_pointer_is_five_bytes_per_glyph() {
    let e = run(vec![0x60, 0x0A, 0xF0, 0x29], 2);
    assert_eq!(e.i.value, 50);
    // The glyph for 0xA starts with the two rows 0xF0, 0x90.
    assert_eq!(e.memory.bytes[50], 0xF0);
    assert_eq!(e.memory.bytes[51], 0x90);
}

#[test]
fn font_table_has_eighty_bytes() {
    let f = font_bytes();
    assert_eq!(f.len(), 80);
    assert_eq!(f[0], 0xF0);
    assert_eq!(f[79], 0x80);
}

#[test]
fn bcd_stores_three_digits() {
    let e = run(vec![0x60, 0xFE, 0xA3, 0x00, 0xF0, 0x33], 3);
    assert_eq!(e.memory.bytes[0x300], 2);
    assert_eq!(e.memory.bytes[0x301], 5);
    assert_eq!(e.memory.bytes[0x302], 4);
}

#[test]
fn bcd_near_memory_end_fails() {
    let mut e = emu_with(vec![]);
    e.i = Address::new(0xFFE);
    let r = e.execute_opcode(Opcode::new(0xF0, 0x33));
    assert_eq!(r, Err(EmulatorError::MemoryOutOfBounds));
    assert_eq!(e.memory.bytes[0xFFE], 0x00);
}

#[test]
fn store_registers_writes_v0_through_vx() {
    let e = run(vec![0x60, 0x11, 0x61, 0x22, 0xA3, 0x00, 0xF1, 0x55], 4);
    assert_eq!(e.memory.bytes[0x300], 0x11);
    assert_eq!(e.memory.bytes[0x301], 0x22);
    assert_eq!(e.memory.bytes[0x302], 0x00);
}

#[test]
fn load_registers_reads_v0_through_vx() {
    // Data bytes sit at 0x208 inside the program image.
    let e = run(vec![0xA2, 0x08, 0xF1, 0x65, 0xFF, 0xFF, 0xFF, 0xFF, 0x99, 0x88], 2);
    assert_eq!(e.v_registers[0x0], 0x99);
    assert_eq!(e.v_registers[0x1], 0x88);
    assert_eq!(e.v_registers[0x2], 0x00);
}

#[test]
fn store_registers_near_memory_end_fails() {
    let mut e = emu_with(vec![]);
    e.i = Address::new(0xFFE);
    let r = e.execute_opcode(Opcode::new(0xF3, 0x55));
    assert_eq!(r, Err(EmulatorError::MemoryOutOfBounds));
}

#[test]
fn random_byte_is_masked() {
    for _ in 0..8 {
        let e = run(vec![0xC0, 0x0F], 1);
        assert!(e.v_registers[0x0] <= 0x0F);
    }
    let e = run(vec![0xC0, 0x00], 1);
    assert_eq!(e.v_registers[0x0], 0x00);
}

#[test]
fn rand_gen_is_deterministic_from_its_state() {
    let mut r = RandGen::new();
    r.state = 1;
    assert_eq!(r.next(), 124);
    assert_eq!(r.next(), 27);
    let mut r2 = RandGen::new();
    r2.state = 1;
    assert_eq!(r2.next(), 124);
}

#[test]
fn flags_register_is_an_ordinary_register_between_writes() {
    // 6FKK writes the flags register directly; the next arithmetic
    // opcode overwrites it.
    let e = run(vec![0x6F, 0x77], 1);
    assert_eq!(e.v_registers[0xF], 0x77);
    let e = run(vec![0x6F, 0x77, 0x60, 0x01, 0x61, 0x01, 0x80, 0x14], 4);
    assert_eq!(e.v_registers[0xF], 0x00);
}

#[test]
fn delay_timer_reads_through_fx07() {
    let e = run(vec![0x60, 0x09, 0xF0, 0x15, 0xF1, 0x07], 3);
    assert_eq!(e.delay_timer, 8);
    assert_eq!(e.v_registers[0x1], 8);
}

#[test]
fn mnemonics_render_operands_in_hex() {
    assert_eq!(Opcode::new(0x00, 0xE0).mnemonic(), "CLS");
    assert_eq!(Opcode::new(0x00, 0xEE).mnemonic(), "RET");
    assert_eq!(Opcode::new(0x6A, 0x42).mnemonic(), "LD VA 0x42");
    assert_eq!(Opcode::new(0x31, 0x05).mnemonic(), "SE V1, 0x5");
    assert_eq!(Opcode::new(0xD1, 0x25).mnemonic(), "DRW V1, V2, 0x5");
    assert_eq!(Opcode::new(0xA1, 0x23).mnemonic(), "LD I, 0x123");
    assert_eq!(Opcode::new(0xF7, 0x0A).mnemonic(), "LD V7, K");
    assert_eq!(Opcode::new(0x8F, 0x0F).mnemonic(), "0x8 0xF 0x0 0xF");
}
