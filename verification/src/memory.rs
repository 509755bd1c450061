//! System memory: four kibibytes, with the hexadecimal font at the bottom and
//! the program region from `0x200` up.

use vstd::prelude::*;
use crate::error::VmError;

verus! {

/// The address at which programs are loaded.
pub const MEMORY_PROGRAM_START: usize = 0x200;

/// The number of bytes of memory.
pub const MEMORY_SIZE: usize = 0x1000;

/// The longest program that can be loaded, in bytes.
pub const MEMORY_PROGRAM_SIZE: usize = 0xDFF;

/// The number of bytes of font data.
pub const FONTSET_SIZE: usize = 80;

/// Font data: sixteen glyphs of five bytes each, glyph `k` at `5 * k`.
pub const FONTSET: [u8; FONTSET_SIZE] = [
    0xF0, 0x90, 0x90, 0x90, 0xF0, // 0
    0x20, 0x60, 0x20, 0x20, 0x70, // 1
    0xF0, 0x10, 0xF0, 0x80, 0xF0, // 2
    0xF0, 0x10, 0xF0, 0x10, 0xF0, // 3
    0x90, 0x90, 0xF0, 0x10, 0x10, // 4
    0xF0, 0x80, 0xF0, 0x10, 0xF0, // 5
    0xF0, 0x80, 0xF0, 0x90, 0xF0, // 6
    0xF0, 0x10, 0x20, 0x40, 0x40, // 7
    0xF0, 0x90, 0xF0, 0x90, 0xF0, // 8
    0xF0, 0x90, 0xF0, 0x10, 0xF0, // 9
    0xF0, 0x90, 0xF0, 0x90, 0x90, // A
    0xE0, 0x90, 0xE0, 0x90, 0xE0, // B
    0xF0, 0x80, 0x80, 0x80, 0xF0, // C
    0xE0, 0x90, 0x90, 0x90, 0xE0, // D
    0xF0, 0x80, 0xF0, 0x80, 0xF0, // E
    0xF0, 0x80, 0xF0, 0x80, 0x80, // F
];

/// Memory as it is before any program is loaded: the font, then zeros.
pub open spec fn initial_memory() -> Seq<u8> {
    Seq::new(
        MEMORY_SIZE as nat,
        |a: int|
            if a < FONTSET_SIZE {
                FONTSET[a]
            } else {
                0u8
            },
    )
}

/// `memory` with `program` laid over it from the program start.
pub open spec fn with_program(memory: Seq<u8>, program: Seq<u8>) -> Seq<u8> {
    Seq::new(
        memory.len(),
        |a: int|
            if MEMORY_PROGRAM_START <= a < MEMORY_PROGRAM_START + program.len() {
                program[a - MEMORY_PROGRAM_START]
            } else {
                memory[a]
            },
    )
}

/// The machine's memory. Its view is the sequence of its 4096 bytes by
/// address.
#[derive(Debug, Clone, Copy)]
pub struct Memory {
    memory: [u8; MEMORY_SIZE],
    program_len: usize,
}

impl View for Memory {
    type V = Seq<u8>;

    open spec fn view(&self) -> Seq<u8> {
        Seq::new(MEMORY_SIZE as nat, |address: int| self.byte_at(address))
    }
}

impl Memory {
    /// The byte that memory holds at `address`.
    pub closed spec fn byte_at(&self, address: int) -> u8 {
        self.memory@[address]
    }

    /// The size of the program that was loaded last, as contracts see it.
    pub closed spec fn loaded_len(&self) -> usize {
        self.program_len
    }

    /// Memory with everything zero except for the font.
    pub fn new() -> (m: Memory)
        ensures
            m@ == initial_memory(),
            m.loaded_len() == 0,
    {
        let mut m = Memory { memory: [0; MEMORY_SIZE], program_len: 0 };
        let mut a: usize = 0;
        while a < FONTSET_SIZE
            invariant
                a <= FONTSET_SIZE,
                m.program_len == 0,
                forall|b: int| 0 <= b < a ==> m.memory@[b] == FONTSET[b],
                forall|b: int| a <= b < MEMORY_SIZE ==> m.memory@[b] == 0,
            decreases FONTSET_SIZE - a,
        {
            m.memory[a] = FONTSET[a];
            a += 1;
        }
        m
    }

    /// Whether `address` lies in the region reserved for the interpreter,
    /// below the program start.
    pub fn is_restricted(address: usize) -> (b: bool)
        ensures
            b == (address < MEMORY_PROGRAM_START),
    {
        address < MEMORY_PROGRAM_START
    }

    /// Copies `program_bytes` to the program start and records their number.
    pub fn load_program_bytes(&mut self, program_bytes: &[u8])
        requires
            program_bytes@.len() <= MEMORY_PROGRAM_SIZE,
        ensures
            final(self)@ == with_program(old(self)@, program_bytes@),
            final(self).loaded_len() == program_bytes@.len(),
    {
        let n = program_bytes.len();
        let mut k: usize = 0;
        while k < n
            invariant
                k <= n,
                n == program_bytes@.len(),
                n <= MEMORY_PROGRAM_SIZE,
                self.program_len == old(self).program_len,
                forall|a: int|
                    0 <= a < MEMORY_SIZE ==> self.memory@[a] == if MEMORY_PROGRAM_START <= a
                        < MEMORY_PROGRAM_START + k {
                        program_bytes@[a - MEMORY_PROGRAM_START]
                    } else {
                        old(self).memory@[a]
                    },
            decreases n - k,
        {
            self.memory[MEMORY_PROGRAM_START + k] = program_bytes[k];
            k += 1;
        }
        self.program_len = n;
    }

    /// Loads a program into memory, starting at `0x200`.
    ///
    /// A program longer than the program region is refused and memory stays
    /// as it was.
    pub fn load_program(&mut self, program: &[u8]) -> (r: Result<(), VmError>)
        ensures
            program@.len() <= MEMORY_PROGRAM_SIZE ==> r == Ok::<(), VmError>(()) && final(self)@
                == with_program(old(self)@, program@) && final(self).loaded_len()
                == program@.len(),
            program@.len() > MEMORY_PROGRAM_SIZE ==> r == Err::<(), VmError>(
                VmError::ProgramTooLarge { len: program@.len() as usize },
            ) && *final(self) == *old(self),
    {
        if program.len() > MEMORY_PROGRAM_SIZE {
            return Err(VmError::ProgramTooLarge { len: program.len() });
        }
        self.load_program_bytes(program);
        Ok(())
    }

    /// The size of the program that was loaded last, zero if none was.
    pub fn program_len(&self) -> (n: usize)
        ensures
            n == self.loaded_len(),
    {
        self.program_len
    }

    /// The byte at `address`.
    pub fn read(&self, address: usize) -> (byte: u8)
        requires
            address < MEMORY_SIZE,
        ensures
            byte == self@[address as int],
    {
        self.memory[address]
    }

    /// Stores `byte` at `address`.
    pub fn write(&mut self, address: usize, byte: u8)
        requires
            address < MEMORY_SIZE,
        ensures
            final(self)@ == old(self)@.update(address as int, byte),
            final(self).loaded_len() == old(self).loaded_len(),
    {
        self.memory[address] = byte;
    }

    /// The byte at `address`, or an error when `address` is past the end.
    pub fn at(&self, address: usize) -> (r: Result<u8, VmError>)
        ensures
            address < MEMORY_SIZE ==> r == Ok::<u8, VmError>(self@[address as int]),
            address >= MEMORY_SIZE ==> r == Err::<u8, VmError>(
                VmError::AddressOutOfBounds { address },
            ),
    {
        if address >= MEMORY_SIZE {
            return Err(VmError::AddressOutOfBounds { address });
        }
        Ok(self.memory[address])
    }
}

} // verus!
