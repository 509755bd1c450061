//! The call stack: sixteen slots of return addresses and a pointer.

use vstd::prelude::*;
use crate::error::VmError;

verus! {

/// How many return addresses the call stack holds.
pub const STACK_SIZE: usize = 16;

/// A bounded last-in, first-out store of return addresses.
///
/// Its view is the sequence of live entries, oldest first.
#[derive(Debug, Clone, Copy)]
pub struct Stack {
    stack: [usize; STACK_SIZE],
    pointer: usize,
}

impl View for Stack {
    type V = Seq<usize>;

    closed spec fn view(&self) -> Seq<usize> {
        self.stack@.take(self.pointer as int)
    }
}

impl Stack {
    /// The pointer never passes the last slot.
    pub closed spec fn wf(&self) -> bool {
        self.pointer <= STACK_SIZE
    }

    /// All sixteen slots, live or not.
    pub open spec fn slots(&self) -> Seq<usize> {
        Seq::new(STACK_SIZE as nat, |k: int| self.slot_at(k))
    }

    /// The content of slot `k`.
    pub closed spec fn slot_at(&self, k: int) -> usize {
        self.stack@[k]
    }

    /// A well-formed stack holds at most sixteen entries, and they are its
    /// first slots.
    pub proof fn lemma_entries_are_slots(&self)
        requires
            self.wf(),
        ensures
            self@.len() <= STACK_SIZE,
            self@ == self.slots().take(self@.len() as int),
    {
    }

    /// An empty stack with every slot zero.
    pub fn new() -> (s: Stack)
        ensures
            s.wf(),
            s@ == Seq::<usize>::empty(),
            s.slots() == Seq::new(STACK_SIZE as nat, |i: int| 0usize),
    {
        Stack { stack: [0; STACK_SIZE], pointer: 0 }
    }

    /// Pushes `address`, or reports overflow and leaves the stack as it was
    /// when all sixteen slots are taken.
    pub fn push(&mut self, address: usize) -> (r: Result<(), VmError>)
        requires
            old(self).wf(),
        ensures
            final(self).wf(),
            final(self)@.len() <= STACK_SIZE,
            old(self)@.len() < STACK_SIZE ==> r == Ok::<(), VmError>(()) && final(self)@ == old(
                self,
            )@.push(address) && final(self).slots() == old(self).slots().update(
                old(self)@.len() as int,
                address,
            ),
            old(self)@.len() >= STACK_SIZE ==> r == Err::<(), VmError>(
                VmError::StackOverflow { address },
            ) && *final(self) == *old(self),
    {
        if self.pointer >= STACK_SIZE {
            return Err(VmError::StackOverflow { address });
        }
        self.stack[self.pointer] = address;
        self.pointer += 1;
        Ok(())
    }

    /// Pops the newest entry, or reports underflow when there is none.
    pub fn pop(&mut self) -> (r: Result<usize, VmError>)
        requires
            old(self).wf(),
        ensures
            final(self).wf(),
            final(self)@.len() <= STACK_SIZE,
            final(self).slots() == old(self).slots(),
            old(self)@.len() > 0 ==> r == Ok::<usize, VmError>(old(self)@.last()) && final(self)@
                == old(self)@.drop_last(),
            old(self)@.len() == 0 ==> r == Err::<usize, VmError>(VmError::StackUnderflow)
                && *final(self) == *old(self),
    {
        if self.pointer == 0 {
            return Err(VmError::StackUnderflow);
        }
        self.pointer -= 1;
        Ok(self.stack[self.pointer])
    }

    /// The number of live entries.
    pub fn depth(&self) -> (n: usize)
        requires
            self.wf(),
        ensures
            n == self@.len(),
            n <= STACK_SIZE,
    {
        self.pointer
    }

    /// The content of slot `index`, live or not.
    pub fn slot(&self, index: usize) -> (address: usize)
        requires
            index < STACK_SIZE,
        ensures
            address == self.slots()[index as int],
    {
        self.stack[index]
    }
}

} // verus!
