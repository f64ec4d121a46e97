//! The call stack: a fixed-depth LIFO of return addresses with overflow
//! and underflow detection.

use vstd::prelude::*;

use crate::EmulatorError;

verus! {

/// A LIFO of at most 16 return addresses. Pushing appends; popping
/// removes and returns the most recent entry.
pub struct Stack {
    /// The entries, oldest first; each is a 12-bit address.
    pub items: Vec<u16>,
}

impl Stack {
    /// At most 16 entries, each inside the 12-bit address space.
    pub open spec fn wf(self) -> bool {
        &&& self.items@.len() <= 16
        &&& forall|j: int| 0 <= j < self.items@.len() ==> self.items@[j] < 4096
    }

    /// The entries, oldest first.
    pub open spec fn view_seq(self) -> Seq<u16> {
        self.items@
    }

    /// Creates an empty stack.
    pub fn new() -> (s: Stack)
        ensures
            s.wf(),
            s.view_seq() == Seq::<u16>::empty(),
    {
        let s = Stack { items: Vec::new() };
        proof {
            assert(s.items@ =~= Seq::<u16>::empty());
        }
        s
    }

    /// Appends a return address, or fails with `StackOverflow` at
    /// capacity, leaving the stack unchanged.
    pub fn push(&mut self, addr: u16) -> (r: Result<(), EmulatorError>)
        requires
            old(self).wf(),
            addr < 4096,
        ensures
            final(self).wf(),
            old(self).view_seq().len() < 16 ==> r == Ok::<(), EmulatorError>(())
                && final(self).view_seq() == old(self).view_seq().push(addr),
            old(self).view_seq().len() >= 16 ==> r == Err::<(), EmulatorError>(
                EmulatorError::StackOverflow,
            ) && final(self).view_seq() == old(self).view_seq(),
    {
        if self.items.len() >= crate::STACK_DEPTH {
            Err(EmulatorError::StackOverflow)
        } else {
            self.items.push(addr);
            Ok(())
        }
    }

    /// Removes and returns the most recent entry, or fails with
    /// `StackUnderflow` when empty.
    pub fn pop(&mut self) -> (r: Result<u16, EmulatorError>)
        requires
            old(self).wf(),
        ensures
            final(self).wf(),
            old(self).view_seq().len() > 0 ==> r == Ok::<u16, EmulatorError>(
                old(self).view_seq().last(),
            ) && final(self).view_seq() == old(self).view_seq().drop_last(),
            old(self).view_seq().len() == 0 ==> r == Err::<u16, EmulatorError>(
                EmulatorError::StackUnderflow,
            ) && final(self).view_seq() == old(self).view_seq(),
    {
        if self.items.len() == 0 {
            Err(EmulatorError::StackUnderflow)
        } else {
            let v = self.items.pop().unwrap();
            proof {
                assert(self.items@ =~= old(self).items@.drop_last());
            }
            Ok(v)
        }
    }

    /// Empties the stack; used on ROM (re)load.
    pub fn clear(&mut self)
        ensures
            final(self).wf(),
            final(self).view_seq() == Seq::<u16>::empty(),
    {
        self.items.clear();
        proof {
            assert(self.items@ =~= Seq::<u16>::empty());
        }
    }
}

} // verus!
