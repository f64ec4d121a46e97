//! End-to-end tests of the tick loop, the execution-state machine and
//! the control-flow opcodes.

use chip8::emulator::{Emulator, State};
use chip8::memory::Address;
use chip8::opcode::Opcode;
use chip8::EmulatorError;

fn emu_with(rom: Vec<u8>) -> Emulator {
    let mut e = Emulator::new();
    e.load_rom(&rom).unwrap();
    e
}

#[test]
fn fresh_emulator_is_new_and_ticks_do_nothing() {
    let mut e = Emulator::new();
    assert_eq!(e.state, State::New);
    assert_eq!(e.pc.value, 0x200);
    assert_eq!(e.i.value, 0);
    assert!(e.tick().is_ok());
    assert_eq!(e.pc.value, 0x200);
    assert_eq!(e.state, State::New);
}

#[test]
fn load_rom_places_program_at_entry_point() {
    let e = emu_with(vec![0x6A, 0x42]);
    assert_eq!(e.state, State::Running);
    assert_eq!(e.memory.bytes[0x200], 0x6A);
    assert_eq!(e.memory.bytes[0x201], 0x42);
    assert_eq!(e.memory.bytes[0x202], 0x00);
}

#[test]
fn load_byte_then_read_back_yields_kk() {
    // 6XKK writes kk into Vx, read back directly.
    let mut e = emu_with(vec![0x6A, 0x42]);
    e.tick().unwrap();
    assert_eq!(e.v_registers[0xA], 0x42);
    assert_eq!(e.pc.value, 0x202);
}

#[test]
fn fetch_opcode_reads_big_endian_word() {
    let e = emu_with(vec![0x12, 0x34]);
    let op = e.fetch_opcode().unwrap();
    assert_eq!(op.nibbles(), (0x1, 0x2, 0x3, 0x4));
    assert_eq!(op.address(), 0x234);
    assert_eq!(op.kk_byte(), 0x34);
}

#[test]
fn fetch_opcode_past_memory_end_fails() {
    let mut e = emu_with(vec![]);
    e.pc = Address::new(0xFFF);
    assert_eq!(e.tick(), Err(EmulatorError::MemoryOutOfBounds));
}

#[test]
fn pc_increment_past_address_space_fails() {
    let mut e = emu_with(vec![]);
    e.pc = Address::new(0xFFE);
    let r = e.execute_opcode(Opcode::new(0x60, 0x00));
    assert_eq!(r, Err(EmulatorError::AddressOutOfRange));
    assert_eq!(e.pc.value, 0xFFE);
}

#[test]
fn skip_past_address_space_fails() {
    let mut e = emu_with(vec![]);
    e.pc = Address::new(0xFFC);
    // V0 == 0x00, so 3X00 skips; the second increment leaves the space.
    let r = e.execute_opcode(Opcode::new(0x30, 0x00));
    assert_eq!(r, Err(EmulatorError::AddressOutOfRange));
    assert_eq!(e.pc.value, 0xFFE);
}

#[test]
fn call_and_ret_round_trip_restores_pc() {
    // 0x200: CALL 0x206; 0x206: RET.
    let mut e = emu_with(vec![0x22, 0x06, 0x00, 0x00, 0x00, 0x00, 0x00, 0xEE]);
    e.tick().unwrap();
    assert_eq!(e.pc.value, 0x206);
    assert_eq!(e.stack.items.len(), 1);
    assert_eq!(e.stack.items[0], 0x202);
    e.tick().unwrap();
    assert_eq!(e.pc.value, 0x202);
    assert_eq!(e.stack.items.len(), 0);
}

#[test]
fn sys_opcode_calls_like_2nnn() {
    let mut e = emu_with(vec![0x02, 0x08]);
    e.tick().unwrap();
    assert_eq!(e.pc.value, 0x208);
    assert_eq!(e.stack.items.len(), 1);
}

#[test]
fn jump_sets_pc_absolutely() {
    let mut e = emu_with(vec![0x13, 0x00]);
    e.tick().unwrap();
    assert_eq!(e.pc.value, 0x300);
}

#[test]
fn jump_v0_adds_to_incremented_pc() {
    // The observed BNNN behavior: pc += nnn + V0 on top of the
    // pre-incremented pc, not an absolute jump to nnn + V0.
    let mut e = emu_with(vec![0x60, 0x04, 0xB0, 0x10]);
    e.tick().unwrap();
    e.tick().unwrap();
    assert_eq!(e.pc.value, 0x204 + 0x10 + 0x04);
}

#[test]
fn stack_overflow_on_seventeenth_call() {
    // CALL 0x200 repeatedly calls itself, pushing each time.
    let mut e = emu_with(vec![0x22, 0x00]);
    for _ in 0..16 {
        assert!(e.tick().is_ok());
    }
    assert_eq!(e.stack.items.len(), 16);
    assert_eq!(e.tick(), Err(EmulatorError::StackOverflow));
}

#[test]
fn ret_on_empty_stack_underflows() {
    let mut e = emu_with(vec![0x00, 0xEE]);
    assert_eq!(e.tick(), Err(EmulatorError::StackUnderflow));
}

#[test]
fn rom_too_large_fails_and_is_deterministic() {
    let mut e = emu_with(vec![0x6A, 0x42]);
    e.tick().unwrap();
    assert_eq!(e.v_registers[0xA], 0x42);
    let big = vec![0u8; chip8::MEMORY_SIZE - chip8::ENTRY_POINT as usize + 1];
    assert_eq!(e.load_rom(&big), Err(EmulatorError::RomTooLarge));
    // Registers are reset, memory and the execution state are not.
    assert_eq!(e.v_registers[0xA], 0x00);
    assert_eq!(e.pc.value, 0x200);
    assert_eq!(e.memory.bytes[0x200], 0x6A);
    assert_eq!(e.state, State::Running);
}

#[test]
fn rom_of_exactly_available_space_loads() {
    let mut e = Emulator::new();
    let rom = vec![0xABu8; chip8::MEMORY_SIZE - chip8::ENTRY_POINT as usize];
    assert!(e.load_rom(&rom).is_ok());
    assert_eq!(e.memory.bytes[0xFFF], 0xAB);
    assert_eq!(e.state, State::Running);
}

#[test]
fn unrecognized_opcode_only_advances_pc() {
    let mut e = emu_with(vec![0xFF, 0xFF]);
    e.display.updated = false;
    assert!(e.tick().is_ok());
    assert_eq!(e.pc.value, 0x202);
    assert!(e.v_registers.iter().all(|&v| v == 0));
    assert!(!e.display.updated);
    assert_eq!(e.stack.items.len(), 0);
}

#[test]
fn wait_key_blocks_until_a_key_is_set() {
    // V3 = 5; DT = V3; wait for a key into V0; then a no-op word.
    let mut e = emu_with(vec![0x63, 0x05, 0xF3, 0x15, 0xF0, 0x0A, 0xFF, 0xFF]);
    e.tick().unwrap(); // V3 = 5
    e.tick().unwrap(); // DT = 5
    e.tick().unwrap(); // DT -> 4, enter WaitingKey { x: 0 }
    assert_eq!(e.state, State::WaitingKey { x: 0 });
    assert_eq!(e.delay_timer, 4);
    assert_eq!(e.pc.value, 0x206);
    // Blocked ticks: no timer decrement, no pc change.
    for _ in 0..3 {
        assert!(e.tick().is_ok());
        assert_eq!(e.state, State::WaitingKey { x: 0 });
        assert_eq!(e.delay_timer, 4);
        assert_eq!(e.pc.value, 0x206);
    }
    // A key appears: the same tick resumes execution.
    e.keyboard.set_key(0x7, true);
    e.tick().unwrap();
    assert_eq!(e.v_registers[0x0], 0x7);
    assert_eq!(e.state, State::Running);
    assert_eq!(e.delay_timer, 3);
    assert_eq!(e.pc.value, 0x208);
}

#[test]
fn wait_key_takes_lowest_set_key() {
    let mut e = emu_with(vec![0xF5, 0x0A, 0xFF, 0xFF]);
    e.tick().unwrap();
    assert_eq!(e.state, State::WaitingKey { x: 5 });
    e.keyboard.set_key(0xC, true);
    e.keyboard.set_key(0x3, true);
    e.tick().unwrap();
    assert_eq!(e.v_registers[0x5], 0x3);
}

#[test]
fn timers_count_down_and_saturate_at_zero() {
    let mut e = emu_with(vec![0x60, 0x02, 0xF0, 0x15, 0xF0, 0x18, 0xFF, 0xFF, 0xFF, 0xFF]);
    e.tick().unwrap(); // V0 = 2
    e.tick().unwrap(); // DT = 2
    e.tick().unwrap(); // DT -> 1, ST = V0 = 2
    assert_eq!(e.delay_timer, 1);
    assert_eq!(e.sound_timer, 2);
    e.tick().unwrap(); // DT -> 0, ST -> 1
    assert_eq!(e.delay_timer, 0);
    assert_eq!(e.sound_timer, 1);
    e.tick().unwrap(); // DT stays 0, ST -> 0
    assert_eq!(e.delay_timer, 0);
    assert_eq!(e.sound_timer, 0);
}

#[test]
fn skip_on_key_pressed_and_not_pressed() {
    // V0 = 7; SKP V0 (pressed: skip); at 0x206: SKNP V0 (pressed: no skip).
    let mut e = emu_with(vec![0x60, 0x07, 0xE0, 0x9E, 0xFF, 0xFF, 0xE0, 0xA1, 0xFF, 0xFF]);
    e.keyboard.set_key(0x7, true);
    e.tick().unwrap();
    e.tick().unwrap();
    assert_eq!(e.pc.value, 0x206);
    e.tick().unwrap();
    assert_eq!(e.pc.value, 0x208);
    e.keyboard.set_key(0x7, false);
    assert!(!e.keyboard.is_set(0x7));
}
