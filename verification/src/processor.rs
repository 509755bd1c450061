//! A fetch unit: memory with a program in it and a program counter that
//! walks over it, handing out one decoded instruction at a time.

use vstd::prelude::*;
use crate::error::VmError;
use crate::instructions::{decode, Instruction};
use crate::memory::{initial_memory, with_program, Memory, MEMORY_PROGRAM_SIZE, MEMORY_PROGRAM_START, MEMORY_SIZE};
use crate::registers::Registers;
use crate::stack::Stack;

verus! {

/// The opcode that `memory` holds at `address`: two bytes, the high one
/// first.
pub open spec fn opcode_at(memory: Seq<u8>, address: int) -> u16 {
    (memory[address] * 256 + memory[address + 1]) as u16
}

/// Registers, call stack and memory, with a program counter.
pub struct Processor {
    registers: Registers,
    stack: Stack,
    memory: Memory,
    pc: usize,
}

impl Processor {
    /// The bytes of memory by address.
    pub open spec fn memory_bytes(&self) -> Seq<u8> {
        self.stored()@
    }

    /// The memory.
    pub closed spec fn stored(&self) -> Memory {
        self.memory
    }

    /// The address of the next opcode.
    pub closed spec fn counter(&self) -> usize {
        self.pc
    }

    /// The registers.
    pub closed spec fn register_file(&self) -> Registers {
        self.registers
    }

    /// The call stack.
    pub closed spec fn call_stack(&self) -> Stack {
        self.stack
    }

    /// The program counter is never past the end of memory.
    pub closed spec fn wf(&self) -> bool {
        self.pc <= MEMORY_SIZE
    }

    /// A processor with `program` loaded and the program counter at its
    /// start, or the error that the program is too long.
    pub fn from_program(program: &[u8]) -> (r: Result<Processor, VmError>)
        ensures
            program@.len() <= MEMORY_PROGRAM_SIZE ==> (r matches Ok(processor) && processor.wf()
                && processor.memory_bytes() == with_program(initial_memory(), program@)
                && processor.counter() == MEMORY_PROGRAM_START
                && processor.register_file()@ == Seq::new(16, |k: int| 0u8)
                && processor.register_file().index() == 0
                && processor.call_stack()@ == Seq::<usize>::empty()),
            program@.len() > MEMORY_PROGRAM_SIZE ==> (r matches Err(e) && e
                == VmError::ProgramTooLarge { len: program@.len() as usize }),
    {
        let mut processor = Processor {
            registers: Registers::new(),
            stack: Stack::new(),
            memory: Memory::new(),
            pc: MEMORY_PROGRAM_START,
        };
        match processor.memory.load_program(program) {
            Ok(()) => Ok(processor),
            Err(e) => Err(e),
        }
    }

    /// The memory, for reading.
    pub fn memory(&self) -> (memory: &Memory)
        ensures
            memory@ == self.memory_bytes(),
    {
        &self.memory
    }

    /// The registers, for reading.
    pub fn registers(&self) -> (registers: &Registers)
        ensures
            *registers == self.register_file(),
    {
        &self.registers
    }

    /// The call stack, for reading.
    pub fn stack(&self) -> (stack: &Stack)
        ensures
            *stack == self.call_stack(),
    {
        &self.stack
    }

    /// The address of the next opcode.
    pub fn pc(&self) -> (pc: usize)
        ensures
            pc == self.counter(),
    {
        self.pc
    }

    /// Reads the opcode under the program counter, moves the program counter
    /// past it and decodes it.
    ///
    /// Where the opcode would reach past the end of memory, nothing moves
    /// and the error names the first address that is out of bounds.
    pub fn fetch_instruction(&mut self) -> (r: Result<Instruction, VmError>)
        requires
            old(self).wf(),
        ensures
            final(self).wf(),
            final(self).memory_bytes() == old(self).memory_bytes(),
            final(self).register_file() == old(self).register_file(),
            final(self).call_stack() == old(self).call_stack(),
            old(self).counter() + 1 < MEMORY_SIZE ==> final(self).counter() == old(self).counter()
                + 2 && r == match decode(
                opcode_at(old(self).memory_bytes(), old(self).counter() as int),
            ) {
                Some(instruction) => Ok::<Instruction, VmError>(instruction),
                None => Err::<Instruction, VmError>(
                    VmError::UnknownInstruction {
                        opcode: opcode_at(old(self).memory_bytes(), old(self).counter() as int),
                    },
                ),
            },
            old(self).counter() + 1 >= MEMORY_SIZE ==> final(self).counter() == old(self).counter()
                && r == Err::<Instruction, VmError>(
                VmError::AddressOutOfBounds {
                    address: if old(self).counter() >= MEMORY_SIZE {
                        old(self).counter()
                    } else {
                        (old(self).counter() + 1) as usize
                    },
                },
            ),
    {
        let high = match self.memory.at(self.pc) {
            Ok(byte) => byte,
            Err(e) => {
                return Err(e);
            },
        };
        let low = match self.memory.at(self.pc + 1) {
            Ok(byte) => byte,
            Err(e) => {
                return Err(e);
            },
        };
        let opcode: u16 = (high as u16) * 256 + (low as u16);
        self.pc += 2;
        Instruction::from_opcode(opcode)
    }
}

} // verus!
