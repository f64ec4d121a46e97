//! A CHIP-8 virtual machine core: a fetch-decode-execute engine over a
//! 4096-byte memory, sixteen 8-bit registers, a call stack, two countdown
//! timers, a 64x32 monochrome display and a 16-key input surface.
//!
//! Every instruction's effect is stated by a specification-level interpreter
//! (`model::step_spec` / `model::tick_spec`); the executable engine in
//! `emulator` is proved to agree with it exactly.

use vstd::prelude::*;

pub mod display;
pub mod emulator;
pub mod keyboard;
pub mod laws;
pub mod memory;
pub mod model;
pub mod opcode;
pub mod rand;
pub mod stack;

verus! {

/// Width of the display in pixels.
pub const WIDTH: usize = 64;

/// Height of the display in pixels.
pub const HEIGHT: usize = 32;

/// Number of cells in the display grid.
pub const GRID_CELLS: usize = 2048;

/// Size of the addressable memory in bytes.
pub const MEMORY_SIZE: usize = 4096;

/// First address of the loaded program; everything below is reserved for
/// the interpreter's font data.
pub const ENTRY_POINT: u16 = 0x200;

/// Number of general-purpose V registers.
pub const REGISTER_COUNT: usize = 16;

/// Maximum depth of the call stack.
pub const STACK_DEPTH: usize = 16;

/// Number of keys on the input device.
pub const KEY_COUNT: u8 = 16;

/// The failures an instruction or a ROM load can surface.
#[derive(Clone, Copy, Debug, PartialEq, Eq, Structural)]
pub enum EmulatorError {
    /// Address arithmetic would leave the 12-bit address space.
    AddressOutOfRange,
    /// A range read or write would exceed the memory size.
    MemoryOutOfBounds,
    /// A subroutine call would push beyond the stack's capacity.
    StackOverflow,
    /// A return was executed with an empty call stack.
    StackUnderflow,
    /// A ROM longer than the available program space was loaded.
    RomTooLarge,
}

} // verus!
