//! Fatal conditions that stop the machine.

use vstd::prelude::*;

verus! {

/// Why loading a program or executing an instruction failed.
#[derive(Debug, Clone, Copy, PartialEq, Eq, Structural)]
pub enum VmError {
    /// The program has `len` bytes, more than the program region holds.
    ProgramTooLarge { len: usize },
    /// `address` lies beyond the last byte of memory.
    AddressOutOfBounds { address: usize },
    /// `opcode` matches no instruction.
    UnknownInstruction { opcode: u16 },
    /// A call tried to push `address` onto a full call stack.
    StackOverflow { address: usize },
    /// A return found the call stack empty.
    StackUnderflow,
}

} // verus!
