//! The specification-level model of the machine: a ghost mirror of the
//! emulator's state and a mathematical interpreter (`step_spec`,
//! `tick_spec`) giving the exact effect of every instruction and of one
//! tick. The executable engine is proved to agree with it.

use vstd::prelude::*;

use crate::EmulatorError;
use crate::display::{blit, blit_erases};
use crate::emulator::State;
use crate::keyboard::key_pressed;
use crate::memory::splice;
use crate::opcode::{kk, nib0, nib1, nib2, nib3, nnn};
use crate::rand::lcg_next;

verus! {

/// The machine state, field for field: program counter, index register,
/// the sixteen V registers, the two timers, the call stack (oldest entry
/// first), the memory bytes, the display grid (column-major) with its
/// dirty flag, the key bitmask, the random generator's state and the
/// execution state.
#[verifier::ext_equal]
pub ghost struct EmuModel {
    pub pc: u16,
    pub i: u16,
    pub v: Seq<u8>,
    pub sound_timer: u8,
    pub delay_timer: u8,
    pub stack: Seq<u16>,
    pub mem: Seq<u8>,
    pub grid: Seq<bool>,
    pub updated: bool,
    pub keys: u16,
    pub rand: u128,
    pub state: State,
}

/// Well-formedness: registers inside the 12-bit space, sixteen V
/// registers, at most sixteen stacked addresses all in range, 4096 memory
/// bytes, 2048 grid cells, and a register index below 16 while waiting
/// for a key.
pub open spec fn wf_model(m: EmuModel) -> bool {
    &&& m.pc < 4096
    &&& m.i < 4096
    &&& m.v.len() == 16
    &&& m.stack.len() <= 16
    &&& (forall|j: int| 0 <= j < m.stack.len() ==> m.stack[j] < 4096)
    &&& m.mem.len() == 4096
    &&& m.grid.len() == 2048
    &&& match m.state {
        State::WaitingKey { x } => x < 16,
        _ => true,
    }
}

/// The outcome of one instruction or one tick: the state afterwards and
/// the error surfaced, if any.
#[verifier::ext_equal]
pub ghost struct Step {
    pub post: EmuModel,
    pub err: Option<EmulatorError>,
}

/// A step that succeeded.
pub open spec fn step_ok(m: EmuModel) -> Step {
    Step { post: m, err: None }
}

/// A step that surfaced an error, leaving the machine as `m`.
pub open spec fn step_fail(m: EmuModel, e: EmulatorError) -> Step {
    Step { post: m, err: Some(e) }
}

/// The `Result` a step's error maps to.
pub open spec fn to_result(e: Option<EmulatorError>) -> Result<(), EmulatorError> {
    match e {
        None => Ok(()),
        Some(x) => Err(x),
    }
}

/// A "skip next instruction" conditional: when `cond` holds the program
/// counter advances by another 2, failing when that would leave the
/// address space.
pub open spec fn skip_if(m: EmuModel, cond: bool) -> Step {
    if !cond {
        step_ok(m)
    } else if m.pc + 2 < 4096 {
        step_ok(EmuModel { pc: (m.pc + 2) as u16, ..m })
    } else {
        step_fail(m, EmulatorError::AddressOutOfRange)
    }
}

/// The outcome of the sprite-drawing loop: the grid, the collision flag
/// accumulated so far, and the error that aborted the loop, if any.
#[verifier::ext_equal]
pub ghost struct DrawOut {
    pub grid: Seq<bool>,
    pub vf: u8,
    pub err: Option<EmulatorError>,
}

/// Draws sprite rows `r..n`: row `r` is the byte at `i + r`, plotted at
/// column `xv` on row `(yv mod 32) + r` (wrapped again by the blit). The
/// collision flag becomes 1 as soon as any row erases a pixel. A row
/// whose address leaves the 12-bit space aborts with the rows so far
/// kept.
pub open spec fn draw_rows(
    mem: Seq<u8>,
    grid: Seq<bool>,
    xv: u8,
    yv: u8,
    i: u16,
    r: int,
    n: int,
    vf: u8,
) -> DrawOut
    decreases n - r,
{
    if r >= n {
        DrawOut { grid, vf, err: None }
    } else if i + r >= 4096 {
        DrawOut { grid, vf, err: Some(EmulatorError::AddressOutOfRange) }
    } else {
        let b = mem[i + r];
        let row = yv % 32 + r;
        let vf2 = if blit_erases(grid, xv as int, row, b) {
            1u8
        } else {
            vf
        };
        draw_rows(mem, blit(grid, xv as int, row, b), xv, yv, i, r + 1, n, vf2)
    }
}

/// True when the word decodes to an opcode of the dispatch table; an
/// unrecognized word is a no-op beyond the program-counter increment.
pub open spec fn is_recognized(op: u16) -> bool {
    match (nib0(op), nib1(op), nib2(op), nib3(op)) {
        (0x0, 0x0, 0xE, 0x0) => true,
        (0x0, 0x0, 0xE, 0xE) => true,
        (0x0, _, _, _) => true,
        (0x1, _, _, _) => true,
        (0x2, _, _, _) => true,
        (0x3, _, _, _) => true,
        (0x4, _, _, _) => true,
        (0x5, _, _, 0x0) => true,
        (0x6, _, _, _) => true,
        (0x7, _, _, _) => true,
        (0x8, _, _, 0x0) => true,
        (0x8, _, _, 0x1) => true,
        (0x8, _, _, 0x2) => true,
        (0x8, _, _, 0x3) => true,
        (0x8, _, _, 0x4) => true,
        (0x8, _, _, 0x5) => true,
        (0x8, _, _, 0x6) => true,
        (0x8, _, _, 0x7) => true,
        (0x8, _, _, 0xE) => true,
        (0x9, _, _, 0x0) => true,
        (0xA, _, _, _) => true,
        (0xB, _, _, _) => true,
        (0xC, _, _, _) => true,
        (0xD, _, _, _) => true,
        (0xE, _, 0x9, 0xE) => true,
        (0xE, _, 0xA, 0x1) => true,
        (0xF, _, 0x0, 0x7) => true,
        (0xF, _, 0x0, 0xA) => true,
        (0xF, _, 0x1, 0x5) => true,
        (0xF, _, 0x1, 0x8) => true,
        (0xF, _, 0x1, 0xE) => true,
        (0xF, _, 0x2, 0x9) => true,
        (0xF, _, 0x3, 0x3) => true,
        (0xF, _, 0x5, 0x5) => true,
        (0xF, _, 0x6, 0x5) => true,
        _ => false,
    }
}

/// The effect of the already-decoded instruction on `m`, where `m`
/// already carries the pre-incremented program counter. Kept opaque so
/// that reasoning about whole ticks does not drag the entire opcode
/// table into every proof; reveal it to reason about one instruction.
#[verifier::opaque]
pub open spec fn exec_decoded(m: EmuModel, op: u16) -> Step {
    let x = nib1(op) as int;
    let y = nib2(op) as int;
    let vx = m.v[x];
    let vy = m.v[y];
    match (nib0(op), nib1(op), nib2(op), nib3(op)) {
        // 00E0: clear the display.
        (0x0, 0x0, 0xE, 0x0) => step_ok(
            EmuModel { grid: Seq::new(2048, |j: int| false), updated: true, ..m },
        ),
        // 00EE: return from subroutine.
        (0x0, 0x0, 0xE, 0xE) => if m.stack.len() == 0 {
            step_fail(m, EmulatorError::StackUnderflow)
        } else {
            step_ok(EmuModel { pc: m.stack.last(), stack: m.stack.drop_last(), ..m })
        },
        // 0NNN and 2NNN: call subroutine at nnn.
        (0x0, _, _, _) | (0x2, _, _, _) => if m.stack.len() >= 16 {
            step_fail(m, EmulatorError::StackOverflow)
        } else {
            step_ok(EmuModel { pc: nnn(op), stack: m.stack.push(m.pc), ..m })
        },
        // 1NNN: jump to nnn.
        (0x1, _, _, _) => step_ok(EmuModel { pc: nnn(op), ..m }),
        // 3XKK: skip if Vx == kk.
        (0x3, _, _, _) => skip_if(m, vx == kk(op)),
        // 4XKK: skip if Vx != kk.
        (0x4, _, _, _) => skip_if(m, vx != kk(op)),
        // 5XY0: skip if Vx == Vy.
        (0x5, _, _, 0x0) => skip_if(m, vx == vy),
        // 6XKK: Vx = kk.
        (0x6, _, _, _) => step_ok(EmuModel { v: m.v.update(x, kk(op)), ..m }),
        // 7XKK: Vx += kk, wrapping.
        (0x7, _, _, _) => step_ok(EmuModel { v: m.v.update(x, vx.wrapping_add(kk(op))), ..m }),
        // 8XY0: Vx = Vy.
        (0x8, _, _, 0x0) => step_ok(EmuModel { v: m.v.update(x, vy), ..m }),
        // 8XY1: Vx |= Vy.
        (0x8, _, _, 0x1) => step_ok(EmuModel { v: m.v.update(x, vx | vy), ..m }),
        // 8XY2: Vx &= Vy.
        (0x8, _, _, 0x2) => step_ok(EmuModel { v: m.v.update(x, vx & vy), ..m }),
        // 8XY3: Vx ^= Vy.
        (0x8, _, _, 0x3) => step_ok(EmuModel { v: m.v.update(x, vx ^ vy), ..m }),
        // 8XY4: Vx = low byte of Vx + Vy; VF = carry.
        (0x8, _, _, 0x4) => step_ok(
            EmuModel {
                v: m.v.update(x, ((vx + vy) % 256) as u8).update(
                    0xF,
                    if vx + vy > 255 {
                        1u8
                    } else {
                        0u8
                    },
                ),
                ..m
            },
        ),
        // 8XY5: VF = no-borrow, then Vx -= Vy wrapping (reads after the
        // flag write, so x == 0xF sees the flag).
        (0x8, _, _, 0x5) => {
            let v1 = m.v.update(
                0xF,
                if vx > vy {
                    1u8
                } else {
                    0u8
                },
            );
            step_ok(EmuModel { v: v1.update(x, v1[x].wrapping_sub(v1[y])), ..m })
        },
        // 8XY6: VF = low bit of Vx, then Vx >>= 1.
        (0x8, _, _, 0x6) => {
            let v1 = m.v.update(0xF, vx & 1);
            step_ok(EmuModel { v: v1.update(x, v1[x] >> 1u8), ..m })
        },
        // 8XY7: VF = no-borrow, then Vx = Vy - Vx wrapping.
        (0x8, _, _, 0x7) => {
            let v1 = m.v.update(
                0xF,
                if vy > vx {
                    1u8
                } else {
                    0u8
                },
            );
            step_ok(EmuModel { v: v1.update(x, v1[y].wrapping_sub(v1[x])), ..m })
        },
        // 8XYE: VF = high bit of Vx, then Vx <<= 1.
        (0x8, _, _, 0xE) => {
            let v1 = m.v.update(0xF, (vx >> 7u8) & 1);
            step_ok(EmuModel { v: v1.update(x, v1[x] << 1u8), ..m })
        },
        // 9XY0: skip if Vx != Vy.
        (0x9, _, _, 0x0) => skip_if(m, vx != vy),
        // ANNN: I = nnn.
        (0xA, _, _, _) => step_ok(EmuModel { i: nnn(op), ..m }),
        // BNNN: pc += nnn + V0, on top of the pre-incremented pc.
        (0xB, _, _, _) => if m.pc + nnn(op) + m.v[0] < 4096 {
            step_ok(EmuModel { pc: (m.pc + nnn(op) + m.v[0]) as u16, ..m })
        } else {
            step_fail(m, EmulatorError::AddressOutOfRange)
        },
        // CXKK: Vx = random byte AND kk.
        (0xC, _, _, _) => step_ok(
            EmuModel {
                rand: lcg_next(m.rand),
                v: m.v.update(x, (lcg_next(m.rand) as u8) & kk(op)),
                ..m
            },
        ),
        // DXYN: draw an n-row sprite from memory at I at (Vx, Vy);
        // VF = collision.
        (0xD, _, _, _) => {
            let n = nib3(op) as int;
            let v1 = m.v.update(0xF, 0u8);
            let d = draw_rows(m.mem, m.grid, v1[x], v1[y], m.i, 0, n, 0u8);
            Step {
                post: EmuModel {
                    v: v1.update(0xF, d.vf),
                    grid: d.grid,
                    updated: m.updated || n > 0,
                    ..m
                },
                err: d.err,
            }
        },
        // EX9E: skip if key Vx is pressed.
        (0xE, _, 0x9, 0xE) => skip_if(m, key_pressed(m.keys, vx)),
        // EXA1: skip if key Vx is not pressed.
        (0xE, _, 0xA, 0x1) => skip_if(m, !key_pressed(m.keys, vx)),
        // FX07: Vx = delay timer.
        (0xF, _, 0x0, 0x7) => step_ok(EmuModel { v: m.v.update(x, m.delay_timer), ..m }),
        // FX0A: block until a key is pressed.
        (0xF, _, 0x0, 0xA) => step_ok(EmuModel { state: State::WaitingKey { x: nib1(op) }, ..m }),
        // FX15: delay timer = Vx.
        (0xF, _, 0x1, 0x5) => step_ok(EmuModel { delay_timer: vx, ..m }),
        // FX18: sound timer = Vx.
        (0xF, _, 0x1, 0x8) => step_ok(EmuModel { sound_timer: vx, ..m }),
        // FX1E: I += Vx.
        (0xF, _, 0x1, 0xE) => if m.i + vx < 4096 {
            step_ok(EmuModel { i: (m.i + vx) as u16, ..m })
        } else {
            step_fail(m, EmulatorError::AddressOutOfRange)
        },
        // FX29: I = font glyph base of digit Vx.
        (0xF, _, 0x2, 0x9) => step_ok(EmuModel { i: (vx * 5) as u16, ..m }),
        // FX33: binary-coded decimal of Vx at I, I+1, I+2.
        (0xF, _, 0x3, 0x3) => if m.i + 3 > 4096 {
            step_fail(m, EmulatorError::MemoryOutOfBounds)
        } else {
            step_ok(
                EmuModel {
                    mem: splice(
                        m.mem,
                        m.i as int,
                        seq![(vx / 100) as u8, ((vx / 10) % 10) as u8, (vx % 10) as u8],
                    ),
                    ..m
                },
            )
        },
        // FX55: store V0..=Vx into memory at I.
        (0xF, _, 0x5, 0x5) => if m.i + x + 1 > 4096 {
            step_fail(m, EmulatorError::MemoryOutOfBounds)
        } else {
            step_ok(EmuModel { mem: splice(m.mem, m.i as int, m.v.subrange(0, x + 1)), ..m })
        },
        // FX65: load V0..=Vx from memory at I.
        (0xF, _, 0x6, 0x5) => if m.i + x + 1 > 4096 {
            step_fail(m, EmulatorError::MemoryOutOfBounds)
        } else {
            step_ok(
                EmuModel {
                    v: Seq::new(16, |j: int| if j <= x {
                        m.mem[m.i + j]
                    } else {
                        m.v[j]
                    }),
                    ..m
                },
            )
        },
        // Anything else: a logged no-op; only the pc increment remains.
        _ => step_ok(m),
    }
}

/// The effect of executing instruction word `op` on `m`: the program
/// counter first advances by 2 (failing when that leaves the address
/// space), then the decoded instruction runs.
pub open spec fn step_spec(m: EmuModel, op: u16) -> Step {
    if m.pc + 2 >= 4096 {
        step_fail(m, EmulatorError::AddressOutOfRange)
    } else {
        exec_decoded(EmuModel { pc: (m.pc + 2) as u16, ..m }, op)
    }
}

/// The lowest pressed key index, scanning `k..16` in ascending order.
pub open spec fn first_key_from(keys: u16, k: int) -> Option<u8>
    decreases 16 - k,
{
    if k < 0 || k >= 16 {
        None
    } else if key_pressed(keys, k as u8) {
        Some(k as u8)
    } else {
        first_key_from(keys, k + 1)
    }
}

/// One running tick after any key wait was resolved: both timers count
/// down by one (saturating at zero), then the instruction at `pc` is
/// fetched and executed. A fetch that would read past the memory fails
/// with `MemoryOutOfBounds` after the timers moved.
pub open spec fn run_spec(m: EmuModel) -> Step {
    let m1 = EmuModel {
        sound_timer: if m.sound_timer > 0 {
            (m.sound_timer - 1) as u8
        } else {
            m.sound_timer
        },
        delay_timer: if m.delay_timer > 0 {
            (m.delay_timer - 1) as u8
        } else {
            m.delay_timer
        },
        ..m
    };
    if m1.pc + 2 > 4096 {
        step_fail(m1, EmulatorError::MemoryOutOfBounds)
    } else {
        step_spec(m1, (m1.mem[m1.pc as int] * 256 + m1.mem[m1.pc as int + 1]) as u16)
    }
}

/// The effect of one external tick. A fresh machine does nothing. A
/// machine waiting for a key does nothing while no key is set; once one
/// is, the lowest set key index lands in the waited-on register and the
/// tick proceeds as a running tick. A running machine just runs.
pub open spec fn tick_spec(m: EmuModel) -> Step {
    match m.state {
        State::New => step_ok(m),
        State::WaitingKey { x } => match first_key_from(m.keys, 0) {
            None => step_ok(m),
            Some(key) => run_spec(
                EmuModel { v: m.v.update(x as int, key), state: State::Running, ..m },
            ),
        },
        State::Running => run_spec(m),
    }
}

/// The machine after the register reset a ROM load performs: every
/// register, timer and the stack cleared, the display blanked and marked
/// updated; memory, keys, random state and execution state as they were.
pub open spec fn load_reset(m: EmuModel) -> EmuModel {
    EmuModel {
        pc: 0x200,
        i: 0,
        v: Seq::new(16, |j: int| 0u8),
        sound_timer: 0,
        delay_timer: 0,
        stack: Seq::<u16>::empty(),
        grid: Seq::new(2048, |j: int| false),
        updated: true,
        ..m
    }
}

} // verus!
