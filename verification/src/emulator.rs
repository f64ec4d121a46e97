//! The emulator: the tick loop, the instruction dispatch table and the
//! execution-state machine. Each public operation is proved to agree
//! with the specification interpreter in `model`.

use vstd::prelude::*;

use crate::EmulatorError;
use crate::display::Display;
use crate::keyboard::KeyBoard;
use crate::memory::{mem_with_rom, Address, Memory};
use crate::model::{
    draw_rows, exec_decoded, first_key_from, load_reset, run_spec, step_spec, tick_spec,
    to_result, wf_model, DrawOut, EmuModel,
};
use crate::opcode::Opcode;
use crate::rand::RandGen;
use crate::stack::Stack;

verus! {

/// The execution state of the emulator.
#[derive(Clone, Copy, Debug, PartialEq, Eq, Structural)]
pub enum State {
    /// Freshly constructed; no program loaded, ticks do nothing.
    New,
    /// Normal fetch-decode-execute operation.
    Running,
    /// Blocked until some key is set; the first set key's index is then
    /// stored into register `x` and execution resumes.
    WaitingKey { x: u8 },
}

/// A freshly constructed machine: entry-point program counter, cleared
/// registers, timers and stack, font-only memory, a blank display, no
/// key pressed and no program loaded. The random seed is arbitrary.
pub open spec fn is_initial(m: EmuModel) -> bool {
    &&& m.pc == 0x200
    &&& m.i == 0
    &&& m.v == Seq::new(16, |j: int| 0u8)
    &&& m.sound_timer == 0
    &&& m.delay_timer == 0
    &&& m.stack == Seq::<u16>::empty()
    &&& m.mem == mem_with_rom(Seq::<u8>::empty())
    &&& m.grid == Seq::new(2048, |j: int| false)
    &&& !m.updated
    &&& m.keys == 0
    &&& m.state == State::New
}

/// The CHIP-8 machine: registers, memory segments, devices and the
/// helpers driving them.
pub struct Emulator {
    /// The program counter.
    pub pc: Address,
    /// The index register.
    pub i: Address,
    /// The sixteen 8-bit V registers; `v_registers[0xF]` doubles as the
    /// carry/borrow/collision flag.
    pub v_registers: Vec<u8>,
    /// The sound timer; counts down to zero, one per tick.
    pub sound_timer: u8,
    /// The delay timer; counts down to zero, one per tick.
    pub delay_timer: u8,
    /// The call stack of return addresses.
    pub stack: Stack,
    /// The 4096-byte memory.
    pub memory: Memory,
    /// The display.
    pub display: Display,
    /// The key-pressed bitmask, written by the collaborator.
    pub keyboard: KeyBoard,
    /// The pseudo-random byte generator.
    pub rand: RandGen,
    /// The execution state.
    pub state: State,
}

impl View for Emulator {
    type V = EmuModel;

    open spec fn view(&self) -> EmuModel {
        EmuModel {
            pc: self.pc.value,
            i: self.i.value,
            v: self.v_registers@,
            sound_timer: self.sound_timer,
            delay_timer: self.delay_timer,
            stack: self.stack.view_seq(),
            mem: self.memory.view_seq(),
            grid: self.display.grid_view(),
            updated: self.display.updated,
            keys: self.keyboard.keys,
            rand: self.rand.state,
            state: self.state,
        }
    }
}

/// The sixteen V registers, all zero.
fn zero_registers() -> (v: Vec<u8>)
    ensures
        v@ == Seq::new(16, |j: int| 0u8),
{
    let mut v: Vec<u8> = Vec::new();
    let mut j: usize = 0;
    while j < crate::REGISTER_COUNT
        invariant
            j <= 16,
            v@.len() == j,
            forall|p: int| 0 <= p < j ==> v@[p] == 0u8,
        decreases 16 - j,
    {
        v.push(0);
        j = j + 1;
    }
    proof {
        assert(v@ =~= Seq::new(16, |j: int| 0u8));
    }
    v
}

/// The lowest pressed key, scanning indices 0 through 15 in order.
fn first_pressed(kb: &KeyBoard) -> (r: Option<u8>)
    ensures
        r == first_key_from(kb.keys, 0),
        r is Some ==> r->0 < 16,
{
    let mut k: u8 = 0;
    while k < crate::KEY_COUNT
        invariant
            k <= 16,
            first_key_from(kb.keys, 0) == first_key_from(kb.keys, k as int),
        decreases 16 - k,
    {
        if kb.is_set(k) {
            return Some(k);
        }
        k = k + 1;
    }
    None
}

impl Emulator {
    /// The machine is well formed: the model invariant holds and the
    /// random generator carries its fixed constants.
    pub open spec fn wf(self) -> bool {
        &&& self.rand.wf()
        &&& wf_model(self@)
    }

    /// Creates a new emulator in state `New`.
    pub fn new() -> (r: Emulator)
        ensures
            r.wf(),
            is_initial(r@),
    {
        let e = Emulator {
            pc: Address { value: crate::ENTRY_POINT },
            i: Address { value: 0 },
            v_registers: zero_registers(),
            sound_timer: 0,
            delay_timer: 0,
            stack: Stack::new(),
            memory: Memory::new(),
            display: Display::new(),
            keyboard: KeyBoard::default(),
            rand: RandGen::new(),
            state: State::New,
        };
        e
    }

    /// Loads a ROM: resets every register, the timers, the stack and the
    /// display, then rewrites memory with the font table and the program
    /// and starts running. A ROM over 3584 bytes fails with
    /// `RomTooLarge`: the registers are still reset (deterministically),
    /// but memory and the execution state are left as they were.
    pub fn load_rom(&mut self, rom: &Vec<u8>) -> (r: Result<(), EmulatorError>)
        requires
            old(self).wf(),
        ensures
            final(self).wf(),
            rom@.len() > 3584 ==> r == Err::<(), EmulatorError>(EmulatorError::RomTooLarge)
                && final(self)@ == load_reset(old(self)@),
            rom@.len() <= 3584 ==> r == Ok::<(), EmulatorError>(()) && final(self)@ == (
            EmuModel { mem: mem_with_rom(rom@), state: State::Running, ..load_reset(old(self)@) }),
    {
        self.pc = Address { value: crate::ENTRY_POINT };
        self.i = Address { value: 0 };
        self.delay_timer = 0;
        self.sound_timer = 0;
        self.v_registers = zero_registers();
        self.stack.clear();
        self.display.clear();
        match self.memory.load_rom(rom) {
            Err(e) => {
                proof {
                    assert(self@ =~= load_reset(old(self)@));
                }
                Err(e)
            },
            Ok(()) => {
                self.state = State::Running;
                proof {
                    assert(self@ =~= (EmuModel {
                        mem: mem_with_rom(rom@),
                        state: State::Running,
                        ..load_reset(old(self)@)
                    }));
                }
                Ok(())
            },
        }
    }

    /// Fetches the two instruction bytes at `pc` as one big-endian word,
    /// or fails with `MemoryOutOfBounds` when they would read past the
    /// end of memory.
    pub fn fetch_opcode(&self) -> (r: Result<Opcode, EmulatorError>)
        requires
            self.wf(),
        ensures
            self@.pc + 2 <= 4096 ==> r == Ok::<Opcode, EmulatorError>(
                Opcode {
                    word: (self@.mem[self@.pc as int] * 256 + self@.mem[self@.pc as int + 1]) as u16,
                },
            ),
            self@.pc + 2 > 4096 ==> r == Err::<Opcode, EmulatorError>(
                EmulatorError::MemoryOutOfBounds,
            ),
    {
        let mut buf: Vec<u8> = Vec::new();
        buf.push(0);
        buf.push(0);
        match self.memory.write_range(self.pc.inner(), &mut buf) {
            Err(e) => Err(e),
            Ok(()) => Ok(Opcode::new(buf[0], buf[1])),
        }
    }

    /// Executes one tick: nothing in state `New`; in `WaitingKey` the
    /// lowest set key resumes execution (or nothing happens while none
    /// is set); then the timers count down and the instruction at `pc`
    /// is fetched, decoded and executed.
    pub fn tick(&mut self) -> (r: Result<(), EmulatorError>)
        requires
            old(self).wf(),
        ensures
            final(self).wf(),
            final(self)@ == tick_spec(old(self)@).post,
            r == to_result(tick_spec(old(self)@).err),
    {
        match self.state {
            State::New => {
                return Ok(());
            },
            State::WaitingKey { x } => {
                match first_pressed(&self.keyboard) {
                    None => {
                        return Ok(());
                    },
                    Some(key) => {
                        self.v_registers.set(x as usize, key);
                        self.state = State::Running;
                    },
                }
            },
            State::Running => {},
        }
        if self.sound_timer > 0 {
            self.sound_timer = self.sound_timer - 1;
        }
        if self.delay_timer > 0 {
            self.delay_timer = self.delay_timer - 1;
        }
        let opcode = match self.fetch_opcode() {
            Ok(op) => op,
            Err(e) => {
                return Err(e);
            },
        };
        self.execute_opcode(opcode)
    }

    /// Draws the `n`-row sprite at memory address `I` at coordinates
    /// (`Vx`, `Vy`): the flag register is cleared, each row is XOR-blitted
    /// with wraparound, and the flag ends 1 exactly when some pixel was
    /// erased. A row address leaving the 12-bit space aborts the draw,
    /// keeping the rows already plotted.
    fn op_draw(&mut self, x: u8, y: u8, n: u8) -> (r: Result<(), EmulatorError>)
        requires
            old(self).wf(),
            x < 16,
            y < 16,
            n < 16,
        ensures
            final(self).wf(),
            ({
                let m = old(self)@;
                let v1 = m.v.update(0xF, 0u8);
                let d = draw_rows(m.mem, m.grid, v1[x as int], v1[y as int], m.i, 0, n as int, 0u8);
                final(self)@ == (EmuModel {
                    v: v1.update(0xF, d.vf),
                    grid: d.grid,
                    updated: m.updated || n > 0,
                    ..m
                }) && r == to_result(d.err)
            }),
    {
        self.v_registers.set(0xF, 0);
        let xv = self.v_registers[x as usize];
        let yv = self.v_registers[y as usize];
        let ghost pre = self@;
        let ghost d = draw_rows(pre.mem, pre.grid, xv, yv, pre.i, 0, n as int, 0u8);
        let mut vf: u8 = 0;
        let mut row: u8 = 0;
        while row < n
            invariant
                row <= n,
                n < 16,
                self.display.wf(),
                self.rand.wf(),
                wf_model(pre),
                pre == (EmuModel { v: old(self)@.v.update(0xF, 0u8), ..old(self)@ }),
                xv == pre.v[x as int],
                yv == pre.v[y as int],
                x < 16,
                y < 16,
                d == draw_rows(pre.mem, pre.grid, xv, yv, pre.i, 0, n as int, 0u8),
                self@ == (EmuModel {
                    grid: self.display.grid_view(),
                    updated: self.display.updated,
                    ..pre
                }),
                self.display.updated == (pre.updated || row > 0),
                d == draw_rows(
                    pre.mem,
                    self.display.grid_view(),
                    xv,
                    yv,
                    pre.i,
                    row as int,
                    n as int,
                    vf,
                ),
            decreases n - row,
        {
            let addr32: u32 = self.i.inner() as u32 + row as u32;
            if addr32 >= 4096 {
                self.v_registers.set(0xF, vf);
                proof {
                    assert(row >= 1);
                    assert(d == (DrawOut {
                        grid: self.display.grid_view(),
                        vf: vf,
                        err: Some(EmulatorError::AddressOutOfRange),
                    }));
                    assert(self@ =~= (EmuModel {
                        v: pre.v.update(0xF, d.vf),
                        grid: d.grid,
                        updated: pre.updated || n > 0,
                        ..pre
                    }));
                }
                return Err(EmulatorError::AddressOutOfRange);
            }
            let b = self.memory.get(addr32 as u16);
            let c = self.display.set(xv, yv % 32 + row, b);
            if c == 1 {
                vf = 1;
            }
            row = row + 1;
        }
        self.v_registers.set(0xF, vf);
        proof {
            assert(self@ =~= (EmuModel {
                v: pre.v.update(0xF, d.vf),
                grid: d.grid,
                updated: pre.updated || n > 0,
                ..pre
            }));
            assert(pre.v.update(0xF, d.vf) =~= old(self)@.v.update(0xF, 0u8).update(0xF, d.vf));
        }
        Ok(())
    }

    /// Stores registers `V0..=Vx` into memory starting at `I`, or fails
    /// with `MemoryOutOfBounds`, leaving memory unchanged, when the
    /// range would run past the end of memory.
    fn op_store_regs(&mut self, x: u8) -> (r: Result<(), EmulatorError>)
        requires
            old(self).wf(),
            x < 16,
        ensures
            final(self).wf(),
            ({
                let m = old(self)@;
                if m.i + x + 1 > 4096 {
                    final(self)@ == m && r == Err::<(), EmulatorError>(
                        EmulatorError::MemoryOutOfBounds,
                    )
                } else {
                    final(self)@ == (EmuModel {
                        mem: crate::memory::splice(m.mem, m.i as int, m.v.subrange(0, x + 1)),
                        ..m
                    }) && r == Ok::<(), EmulatorError>(())
                }
            }),
    {
        let mut buf: Vec<u8> = Vec::new();
        let mut j: usize = 0;
        while j <= x as usize
            invariant
                x < 16,
                j <= x as usize + 1,
                self.v_registers@.len() == 16,
                buf@ == self.v_registers@.subrange(0, j as int),
            decreases x as usize + 1 - j,
        {
            buf.push(self.v_registers[j]);
            proof {
                assert(buf@ =~= self.v_registers@.subrange(0, j + 1));
            }
            j = j + 1;
        }
        self.memory.read_range(self.i.inner(), &buf)
    }

    /// Loads registers `V0..=Vx` from memory starting at `I`, or fails
    /// with `MemoryOutOfBounds`, leaving the registers unchanged, when
    /// the range would run past the end of memory.
    fn op_load_regs(&mut self, x: u8) -> (r: Result<(), EmulatorError>)
        requires
            old(self).wf(),
            x < 16,
        ensures
            final(self).wf(),
            ({
                let m = old(self)@;
                if m.i + x + 1 > 4096 {
                    final(self)@ == m && r == Err::<(), EmulatorError>(
                        EmulatorError::MemoryOutOfBounds,
                    )
                } else {
                    final(self)@ == (EmuModel {
                        v: Seq::new(16, |j: int| if j <= x {
                            m.mem[m.i + j]
                        } else {
                            m.v[j]
                        }),
                        ..m
                    }) && r == Ok::<(), EmulatorError>(())
                }
            }),
    {
        let count = x as usize + 1;
        let mut buf: Vec<u8> = Vec::new();
        let mut j: usize = 0;
        while j < count
            invariant
                count <= 16,
                j <= count,
                buf@.len() == j,
            decreases count - j,
        {
            buf.push(0);
            j = j + 1;
        }
        match self.memory.write_range(self.i.inner(), &mut buf) {
            Err(e) => Err(e),
            Ok(()) => {
                let ghost mid = self@;
                let mut j2: usize = 0;
                while j2 < count
                    invariant
                        count == x as usize + 1,
                        x < 16,
                        j2 <= count,
                        self.rand.wf(),
                        wf_model(mid),
                        mid.i + count <= 4096,
                        buf@.len() == count,
                        buf@ == mid.mem.subrange(mid.i as int, mid.i + count),
                        mid.v.len() == 16,
                        self@ == (EmuModel { v: self.v_registers@, ..mid }),
                        self.v_registers@.len() == 16,
                        forall|p: int|
                            0 <= p < 16 ==> self.v_registers@[p] == (if p < j2 {
                                buf@[p]
                            } else {
                                mid.v[p]
                            }),
                    decreases count - j2,
                {
                    let b = buf[j2];
                    self.v_registers.set(j2, b);
                    j2 = j2 + 1;
                }
                proof {
                    assert(self.v_registers@ =~= Seq::new(16, |j: int| if j <= x {
                        mid.mem[mid.i + j]
                    } else {
                        mid.v[j]
                    }));
                }
                Ok(())
            },
        }
    }

    /// Executes one decoded instruction: the program counter advances by
    /// 2 first (so jumps overwrite the increment), then the opcode's
    /// documented effect is applied. Exactly `step_spec` in the model.
    pub fn execute_opcode(&mut self, opcode: Opcode) -> (r: Result<(), EmulatorError>)
        requires
            old(self).wf(),
        ensures
            final(self).wf(),
            final(self)@ == step_spec(old(self)@, opcode@).post,
            r == to_result(step_spec(old(self)@, opcode@).err),
    {
        proof {
            reveal(exec_decoded);
        }
        let nibs = opcode.nibbles();
        let x = nibs.1;
        let y = nibs.2;

        match self.pc.add_assign(2) {
            Err(e) => {
                return Err(e);
            },
            Ok(()) => {},
        }

        match (nibs.0, nibs.1, nibs.2, nibs.3) {
            (0x0, 0x0, 0xE, 0x0) => {
                self.display.clear();
                Ok(())
            },
            (0x0, 0x0, 0xE, 0xE) => {
                match self.stack.pop() {
                    Err(e) => Err(e),
                    Ok(a) => {
                        self.pc = Address { value: a };
                        Ok(())
                    },
                }
            },
            (0x0, _, _, _) | (0x2, _, _, _) => {
                let cur = self.pc.inner();
                match self.stack.push(cur) {
                    Err(e) => Err(e),
                    Ok(()) => {
                        self.pc = Address { value: opcode.address() };
                        Ok(())
                    },
                }
            },
            (0x1, _, _, _) => {
                self.pc = Address { value: opcode.address() };
                Ok(())
            },
            (0x3, _, _, _) => {
                if self.v_registers[x as usize] == opcode.kk_byte() {
                    self.pc.add_assign(2)
                } else {
                    Ok(())
                }
            },
            (0x4, _, _, _) => {
                if self.v_registers[x as usize] != opcode.kk_byte() {
                    self.pc.add_assign(2)
                } else {
                    Ok(())
                }
            },
            (0x5, _, _, 0x0) => {
                if self.v_registers[x as usize] == self.v_registers[y as usize] {
                    self.pc.add_assign(2)
                } else {
                    Ok(())
                }
            },
            (0x6, _, _, _) => {
                self.v_registers.set(x as usize, opcode.kk_byte());
                Ok(())
            },
            (0x7, _, _, _) => {
                let vx = self.v_registers[x as usize];
                self.v_registers.set(x as usize, vx.wrapping_add(opcode.kk_byte()));
                Ok(())
            },
            (0x8, _, _, 0x0) => {
                let vy = self.v_registers[y as usize];
                self.v_registers.set(x as usize, vy);
                Ok(())
            },
            (0x8, _, _, 0x1) => {
                let vx = self.v_registers[x as usize];
                let vy = self.v_registers[y as usize];
                self.v_registers.set(x as usize, vx | vy);
                Ok(())
            },
            (0x8, _, _, 0x2) => {
                let vx = self.v_registers[x as usize];
                let vy = self.v_registers[y as usize];
                self.v_registers.set(x as usize, vx & vy);
                Ok(())
            },
            (0x8, _, _, 0x3) => {
                let vx = self.v_registers[x as usize];
                let vy = self.v_registers[y as usize];
                self.v_registers.set(x as usize, vx ^ vy);
                Ok(())
            },
            (0x8, _, _, 0x4) => {
                let sum: u16 = self.v_registers[x as usize] as u16
                    + self.v_registers[y as usize] as u16;
                self.v_registers.set(x as usize, (sum % 256) as u8);
                self.v_registers.set(0xF, if sum > 255 {
                    1
                } else {
                    0
                });
                Ok(())
            },
            (0x8, _, _, 0x5) => {
                let vx = self.v_registers[x as usize];
                let vy = self.v_registers[y as usize];
                self.v_registers.set(0xF, if vx > vy {
                    1
                } else {
                    0
                });
                let a = self.v_registers[x as usize];
                let b = self.v_registers[y as usize];
                self.v_registers.set(x as usize, a.wrapping_sub(b));
                Ok(())
            },
            (0x8, _, _, 0x6) => {
                let vx = self.v_registers[x as usize];
                self.v_registers.set(0xF, vx & 1);
                let a = self.v_registers[x as usize];
                self.v_registers.set(x as usize, a >> 1u8);
                Ok(())
            },
            (0x8, _, _, 0x7) => {
                let vx = self.v_registers[x as usize];
                let vy = self.v_registers[y as usize];
                self.v_registers.set(0xF, if vy > vx {
                    1
                } else {
                    0
                });
                let a = self.v_registers[x as usize];
                let b = self.v_registers[y as usize];
                self.v_registers.set(x as usize, b.wrapping_sub(a));
                Ok(())
            },
            (0x8, _, _, 0xE) => {
                let vx = self.v_registers[x as usize];
                self.v_registers.set(0xF, (vx >> 7u8) & 1);
                let a = self.v_registers[x as usize];
                self.v_registers.set(x as usize, a << 1u8);
                Ok(())
            },
            (0x9, _, _, 0x0) => {
                if self.v_registers[x as usize] != self.v_registers[y as usize] {
                    self.pc.add_assign(2)
                } else {
                    Ok(())
                }
            },
            (0xA, _, _, _) => {
                self.i = Address { value: opcode.address() };
                Ok(())
            },
            (0xB, _, _, _) => {
                let delta: u16 = opcode.address() + self.v_registers[0] as u16;
                self.pc.add_assign(delta)
            },
            (0xC, _, _, _) => {
                let b = self.rand.next();
                self.v_registers.set(x as usize, b & opcode.kk_byte());
                Ok(())
            },
            (0xD, _, _, _) => self.op_draw(x, y, nibs.3),
            (0xE, _, 0x9, 0xE) => {
                let vx = self.v_registers[x as usize];
                if self.keyboard.is_set(vx) {
                    self.pc.add_assign(2)
                } else {
                    Ok(())
                }
            },
            (0xE, _, 0xA, 0x1) => {
                let vx = self.v_registers[x as usize];
                if !self.keyboard.is_set(vx) {
                    self.pc.add_assign(2)
                } else {
                    Ok(())
                }
            },
            (0xF, _, 0x0, 0x7) => {
                self.v_registers.set(x as usize, self.delay_timer);
                Ok(())
            },
            (0xF, _, 0x0, 0xA) => {
                self.state = State::WaitingKey { x };
                Ok(())
            },
            (0xF, _, 0x1, 0x5) => {
                self.delay_timer = self.v_registers[x as usize];
                Ok(())
            },
            (0xF, _, 0x1, 0x8) => {
                self.sound_timer = self.v_registers[x as usize];
                Ok(())
            },
            (0xF, _, 0x1, 0xE) => {
                let vx = self.v_registers[x as usize];
                self.i.add_assign(vx as u16)
            },
            (0xF, _, 0x2, 0x9) => {
                let w: u16 = self.v_registers[x as usize] as u16 * 5;
                proof {
                    assert(w & 0x0FFF == w) by (bit_vector)
                        requires
                            w < 4096,
                    ;
                }
                self.i = Address::new(w);
                Ok(())
            },
            (0xF, _, 0x3, 0x3) => {
                let vx = self.v_registers[x as usize];
                let mut buf: Vec<u8> = Vec::new();
                buf.push(vx / 100);
                buf.push((vx / 10) % 10);
                buf.push(vx % 10);
                proof {
                    assert(buf@ =~= seq![
                        ((vx as int) / 100) as u8,
                        (((vx as int) / 10) % 10) as u8,
                        ((vx as int) % 10) as u8,
                    ]);
                }
                self.memory.read_range(self.i.inner(), &buf)
            },
            (0xF, _, 0x5, 0x5) => self.op_store_regs(x),
            (0xF, _, 0x6, 0x5) => self.op_load_regs(x),
            _ => Ok(()),
        }
    }
}

impl Default for Emulator {
    /// The same machine `new` creates.
    fn default() -> (r: Emulator)
        ensures
            r.wf(),
            is_initial(r@),
    {
        Emulator::new()
    }
}

} // verus!
