//! Machine-level laws: properties of whole instructions and ticks,
//! stated over the specification interpreter and proved once for every
//! machine state they apply to.

use vstd::prelude::*;

use crate::EmulatorError;
use crate::emulator::State;
use crate::keyboard::key_pressed;
use crate::model::{exec_decoded, first_key_from, run_spec, step_spec, tick_spec, wf_model, EmuModel};
use crate::opcode::{kk, lemma_field_bounds, nib0, nib1, nib2, nib3, nnn};
use crate::model::is_recognized;

verus! {

/// `first_key_from` really is the lowest pressed key at or after `k`:
/// `None` exactly when nothing at or after `k` is pressed, and `Some(f)`
/// only for a pressed `f` with everything below it (from `k`) released.
pub proof fn lemma_first_key_from(keys: u16, k: int)
    requires
        0 <= k <= 16,
    ensures
        match first_key_from(keys, k) {
            None => forall|j: u8| k <= j < 16 ==> !#[trigger] key_pressed(keys, j),
            Some(f) => k <= f < 16 && key_pressed(keys, f) && (forall|j: u8|
                k <= j < f ==> !#[trigger] key_pressed(keys, j)),
        },
    decreases 16 - k,
{
    if k < 16 {
        lemma_first_key_from(keys, k + 1);
    }
}

/// Loading a register with `6XKK` then immediately reading it back
/// yields exactly `kk`: for every machine and every `6XKK` word, the
/// step succeeds and leaves `kk` in `Vx`.
pub proof fn lemma_ld_byte_reads_back(m: EmuModel, op: u16)
    requires
        wf_model(m),
        m.pc + 2 < 4096,
        nib0(op) == 0x6,
    ensures
        step_spec(m, op).err == None::<EmulatorError>,
        step_spec(m, op).post.v[nib1(op) as int] == kk(op),
{
    reveal(exec_decoded);
    lemma_field_bounds(op);
}

/// A `CALL addr; RET` pair restores the program counter to the
/// instruction after the original `CALL`, and the stack to what it was:
/// for every machine with room on the stack, executing a `2NNN` word and
/// then `00EE` at the subroutine succeeds and returns to `pc + 2`.
pub proof fn lemma_call_ret_round_trip(m: EmuModel, op: u16)
    requires
        wf_model(m),
        nib0(op) == 0x2,
        m.pc + 2 < 4096,
        m.stack.len() < 16,
        nnn(op) + 2 < 4096,
    ensures
        ({
            let after_call = step_spec(m, op);
            let after_ret = step_spec(after_call.post, 0x00EE);
            after_call.err == None::<EmulatorError> && after_ret.err == None::<EmulatorError>
                && after_ret.post.pc == m.pc + 2 && after_ret.post.stack == m.stack
        }),
{
    reveal(exec_decoded);
    lemma_field_bounds(op);
    assert(nib0(0x00EEu16) == 0x0 && nib1(0x00EEu16) == 0x0 && nib2(0x00EEu16) == 0xE
        && nib3(0x00EEu16) == 0xE) by (bit_vector);
    let after_call = step_spec(m, op);
    assert(after_call.post.stack.drop_last() =~= m.stack);
}

/// `00E0` clears every cell of the display to unlit and sets the
/// `updated` flag; nothing fails.
pub proof fn lemma_cls_clears(m: EmuModel)
    requires
        wf_model(m),
        m.pc + 2 < 4096,
    ensures
        step_spec(m, 0x00E0).err == None::<EmulatorError>,
        step_spec(m, 0x00E0).post.updated,
        forall|j: int| 0 <= j < 2048 ==> !step_spec(m, 0x00E0).post.grid[j],
        step_spec(m, 0x00E0).post.pc == m.pc + 2,
{
    reveal(exec_decoded);
    assert(nib0(0x00E0u16) == 0x0 && nib1(0x00E0u16) == 0x0 && nib2(0x00E0u16) == 0xE
        && nib3(0x00E0u16) == 0x0) by (bit_vector);
}

/// An unrecognized opcode is a no-op beyond the program-counter
/// increment: the step succeeds and no register, memory cell, display
/// cell or other state changes.
pub proof fn lemma_unrecognized_advances_only(m: EmuModel, op: u16)
    requires
        wf_model(m),
        m.pc + 2 < 4096,
        !is_recognized(op),
    ensures
        step_spec(m, op).err == None::<EmulatorError>,
        step_spec(m, op).post == (EmuModel { pc: (m.pc + 2) as u16, ..m }),
{
    reveal(exec_decoded);
}

/// While the machine waits for a key and none is pressed, a tick does
/// nothing at all: no timer decrement, no program-counter change, no
/// state change, no error.
#[verifier::rlimit(100)]
pub proof fn lemma_wait_blocks(m: EmuModel)
    requires
        wf_model(m),
        m.state matches State::WaitingKey { x },
        forall|j: u8| j < 16 ==> !(#[trigger] key_pressed(m.keys, j)),
    ensures
        tick_spec(m).err == None::<EmulatorError>,
        tick_spec(m).post == m,
{
    lemma_first_key_from(m.keys, 0);
    assert(first_key_from(m.keys, 0) is None);
}

/// Once some key is pressed, the waiting machine resumes within that
/// same tick: the lowest pressed key index lands in the waited-on
/// register, the state returns to `Running`, and the very same tick
/// continues as a normal running tick from there.
#[verifier::rlimit(100)]
pub proof fn lemma_wait_resumes(m: EmuModel, x: u8, pressed: u8)
    requires
        wf_model(m),
        m.state == (State::WaitingKey { x }),
        key_pressed(m.keys, pressed),
    ensures
        ({
            let f = first_key_from(m.keys, 0);
            f is Some && key_pressed(m.keys, f->0) && (forall|j: u8|
                j < f->0 ==> !(#[trigger] key_pressed(m.keys, j))) && tick_spec(m) == run_spec(
                EmuModel { v: m.v.update(x as int, f->0), state: State::Running, ..m },
            )
        }),
{
    lemma_first_key_from(m.keys, 0);
    if first_key_from(m.keys, 0) is None {
        assert(!key_pressed(m.keys, pressed));
    }
}

} // verus!
