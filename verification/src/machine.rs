//! What the machine is and what each instruction does to it, as mathematics.
//!
//! Addresses are twelve bits wide. Wherever an address is computed (the next
//! program counter, a jump with offset, the index register plus an offset)
//! it is reduced modulo the size of memory, so no access ever leaves memory.
//! Reads and writes below the program start are carried out like any other.

use vstd::prelude::*;
use crate::display::{blank, DISPLAY_HEIGHT, DISPLAY_PIXELS, DISPLAY_WIDTH};
use crate::error::VmError;
use crate::instructions::{decode, Instruction};
use crate::keyboard::{key_of, KeypadState};
use crate::memory::{initial_memory, with_program, MEMORY_PROGRAM_START, MEMORY_SIZE};
use crate::registers::REGISTER_COUNT;
use crate::stack::STACK_SIZE;

verus! {

/// The index of the flag register VF.
pub const VF: usize = 0xF;

/// The whole state of the machine.
#[verifier::ext_equal]
pub struct MachineState {
    /// The bytes of memory by address.
    pub memory: Seq<u8>,
    /// The size of the loaded program.
    pub program_len: usize,
    /// The registers V0 to VF.
    pub v: Seq<u8>,
    /// The index register I.
    pub i: usize,
    /// The program counter.
    pub pc: usize,
    /// The return addresses, oldest first.
    pub stack: Seq<usize>,
    /// The pixels of the display, row by row.
    pub pixels: Seq<bool>,
    /// The keypad as the host last saw it.
    pub keys: KeypadState,
    /// The delay timer.
    pub delay_timer: u8,
    /// The sound timer.
    pub sound_timer: u8,
}

/// A state together with the error that stopped the machine, if one did.
#[verifier::ext_equal]
pub struct Outcome {
    pub state: MachineState,
    pub error: Option<VmError>,
}

impl Outcome {
    /// What the executing function reports for this outcome.
    pub open spec fn result(self) -> Result<(), VmError> {
        match self.error {
            None => Ok(()),
            Some(e) => Err(e),
        }
    }
}

/// `address` reduced to twelve bits.
pub open spec fn wrap(address: int) -> usize {
    (address % (MEMORY_SIZE as int)) as usize
}

/// One for true, zero for false.
pub open spec fn flag(b: bool) -> u8 {
    if b {
        1
    } else {
        0
    }
}

/// Whether bit `bit` of `byte` is set, bit 0 being the leftmost pixel of a
/// sprite row.
pub open spec fn sprite_bit(byte: u8, bit: u8) -> bool {
    byte & (0x80u8 >> bit) != 0
}

/// The newly powered machine: the font in memory, the program counter at
/// the program start, everything else zero, dark or up.
pub open spec fn initial_state() -> MachineState {
    MachineState {
        memory: initial_memory(),
        program_len: 0,
        v: Seq::new(REGISTER_COUNT as nat, |k: int| 0u8),
        i: 0,
        pc: MEMORY_PROGRAM_START,
        stack: Seq::empty(),
        pixels: blank(),
        keys: KeypadState { down: Seq::new(16, |c: int| false), released: None },
        delay_timer: 0,
        sound_timer: 0,
    }
}

impl MachineState {
    /// The invariant of the machine: the program counter, the index register
    /// and every return address fit in twelve bits, and the call stack is at
    /// most sixteen deep. (A register holds a byte by its type.)
    pub open spec fn wf(self) -> bool {
        &&& self.memory.len() == MEMORY_SIZE
        &&& self.v.len() == REGISTER_COUNT
        &&& self.i < MEMORY_SIZE
        &&& self.pc < MEMORY_SIZE
        &&& self.stack.len() <= STACK_SIZE
        &&& forall|k: int| 0 <= k < self.stack.len() ==> #[trigger] self.stack[k] < MEMORY_SIZE
        &&& self.pixels.len() == DISPLAY_PIXELS
        &&& self.keys.wf()
    }

    /// The state with register `x` set to `value`.
    pub open spec fn with_v(self, x: usize, value: u8) -> MachineState {
        MachineState { v: self.v.update(x as int, value), ..self }
    }

    /// The state with the program counter on the next instruction.
    pub open spec fn advance(self) -> MachineState {
        MachineState { pc: wrap(self.pc + 2), ..self }
    }

    /// The state with the program counter past the next instruction if
    /// `condition` holds, and on it otherwise.
    pub open spec fn skip_if(self, condition: bool) -> MachineState {
        MachineState { pc: if condition { wrap(self.pc + 4) } else { wrap(self.pc + 2) }, ..self }
    }

    /// The state with `program` loaded.
    pub open spec fn load(self, program: Seq<u8>) -> MachineState {
        MachineState {
            memory: with_program(self.memory, program),
            program_len: program.len() as usize,
            ..self
        }
    }

    /// Whether the program counter is inside the loaded program.
    pub open spec fn in_program(self) -> bool {
        MEMORY_PROGRAM_START <= self.pc < MEMORY_PROGRAM_START + self.program_len
    }

    /// The opcode under the program counter: two bytes, the high one first.
    pub open spec fn opcode(self) -> u16 {
        (self.memory[self.pc as int] * 256 + self.memory[wrap(self.pc + 1) as int]) as u16
    }

    /// Whether the sprite of `n` rows at I, drawn with its top left corner
    /// at (`sx`, `sy`) and wrapped round the edges, has a set bit on pixel
    /// (`px`, `py`).
    pub open spec fn sprite_pixel(self, sx: int, sy: int, n: int, px: int, py: int) -> bool {
        let row = (py - sy) % (DISPLAY_HEIGHT as int);
        let bit = (px - sx) % (DISPLAY_WIDTH as int);
        row < n && bit < 8 && sprite_bit(self.memory[wrap(self.i + row) as int], bit as u8)
    }

    /// Whether the sprite has a set bit on the pixel at index `p`.
    pub open spec fn sprite_at(self, sx: int, sy: int, n: int, p: int) -> bool {
        self.sprite_pixel(sx, sy, n, p % (DISPLAY_WIDTH as int), p / (DISPLAY_WIDTH as int))
    }

    /// Whether the sprite has a set bit on a pixel that is lit.
    pub open spec fn collides(self, sx: int, sy: int, n: int) -> bool {
        exists|p: int| 0 <= p < DISPLAY_PIXELS && #[trigger] self.pixels[p] && self.sprite_at(sx, sy, n, p)
    }

    /// The state after drawing the sprite of `n` rows at I. VF is cleared
    /// first; then the corner is taken from Vx and Vy, reduced to the
    /// display; every set bit of the sprite flips its pixel; and VF tells
    /// whether a lit pixel went dark.
    pub open spec fn draw(self, x: usize, y: usize, n: u8) -> MachineState {
        let cleared = self.with_v(VF, 0);
        let sx = cleared.v[x as int] as int % (DISPLAY_WIDTH as int);
        let sy = cleared.v[y as int] as int % (DISPLAY_HEIGHT as int);
        MachineState {
            pixels: Seq::new(
                DISPLAY_PIXELS as nat,
                |p: int| self.pixels[p] != self.sprite_at(sx, sy, n as int, p),
            ),
            v: cleared.v.update(VF as int, flag(self.collides(sx, sy, n as int))),
            ..self
        }
    }

    /// The state after storing the decimal digits of `value` at I, I+1, I+2.
    pub open spec fn store_digits(self, value: u8) -> MachineState {
        MachineState {
            memory: self.memory.update(wrap(self.i as int) as int, value / 100).update(
                wrap(self.i + 1) as int,
                (value / 10) % 10,
            ).update(wrap(self.i + 2) as int, value % 10),
            ..self
        }
    }

    /// The state after storing V0 to V`x` in memory from I on.
    pub open spec fn store_registers(self, x: usize) -> MachineState {
        MachineState {
            memory: Seq::new(
                MEMORY_SIZE as nat,
                |a: int|
                    {
                        let k = (a - self.i) % (MEMORY_SIZE as int);
                        if k <= x {
                            self.v[k]
                        } else {
                            self.memory[a]
                        }
                    },
            ),
            ..self
        }
    }

    /// The state after loading V0 to V`x` from memory from I on.
    pub open spec fn load_registers(self, x: usize) -> MachineState {
        MachineState {
            v: Seq::new(
                REGISTER_COUNT as nat,
                |k: int|
                    if k <= x {
                        self.memory[wrap(self.i + k) as int]
                    } else {
                        self.v[k]
                    },
            ),
            ..self
        }
    }

    /// The outcome of `instruction`, where `random` is the byte that the
    /// random source gives. On an error the state is the one before.
    pub open spec fn execute(self, instruction: Instruction, random: u8) -> Outcome {
        let v = self.v;
        match instruction {
            Instruction::Cls => done(MachineState { pixels: blank(), ..self }.advance()),
            Instruction::Ret => if self.stack.len() == 0 {
                failed(self, VmError::StackUnderflow)
            } else {
                done(MachineState { pc: self.stack.last(), stack: self.stack.drop_last(), ..self })
            },
            Instruction::Jp { addr } => done(MachineState { pc: addr, ..self }),
            Instruction::Call { addr } => if self.stack.len() >= STACK_SIZE {
                failed(self, VmError::StackOverflow { address: wrap(self.pc + 2) })
            } else {
                done(MachineState { pc: addr, stack: self.stack.push(wrap(self.pc + 2)), ..self })
            },
            Instruction::SeVxByte { x, byte } => done(self.skip_if(v[x as int] == byte)),
            Instruction::SneVxByte { x, byte } => done(self.skip_if(v[x as int] != byte)),
            Instruction::SeVxVy { x, y } => done(self.skip_if(v[x as int] == v[y as int])),
            Instruction::SneVxVy { x, y } => done(self.skip_if(v[x as int] != v[y as int])),
            Instruction::Skp { x } => done(self.skip_if(self.keys.down[key_of(v[x as int])])),
            Instruction::Sknp { x } => done(self.skip_if(!self.keys.down[key_of(v[x as int])])),
            Instruction::LdVxByte { x, byte } => done(self.with_v(x, byte).advance()),
            Instruction::LdVxVy { x, y } => done(self.with_v(x, v[y as int]).advance()),
            Instruction::LdIAddr { addr } => done(MachineState { i: addr, ..self }.advance()),
            Instruction::LdVxDt { x } => done(self.with_v(x, self.delay_timer).advance()),
            Instruction::LdK { x } => match self.keys.released {
                Some(code) => done(
                    MachineState {
                        keys: KeypadState { released: None, ..self.keys },
                        ..self.with_v(x, code)
                    }.advance(),
                ),
                None => done(self),
            },
            Instruction::LdDt { x } => done(MachineState { delay_timer: v[x as int], ..self }.advance()),
            Instruction::LdSt { x } => done(MachineState { sound_timer: v[x as int], ..self }.advance()),
            Instruction::LdF { x } => done(MachineState { i: (v[x as int] * 5) as usize, ..self }.advance()),
            Instruction::LdB { x } => done(self.store_digits(v[x as int]).advance()),
            Instruction::LdI { x } => done(self.store_registers(x).advance()),
            Instruction::LdIVx { x } => done(self.load_registers(x).advance()),
            Instruction::Rnd { x, byte } => done(self.with_v(x, random & byte).advance()),
            Instruction::AddVxByte { x, byte } => done(
                self.with_v(x, ((v[x as int] + byte) % 256) as u8).advance(),
            ),
            Instruction::AddVxVy { x, y } => done(
                self.with_v(x, ((v[x as int] + v[y as int]) % 256) as u8).with_v(
                    VF,
                    flag(v[x as int] + v[y as int] >= 256),
                ).advance(),
            ),
            Instruction::AddI { x } => done(MachineState { i: wrap(self.i + v[x as int]), ..self }.advance()),
            Instruction::Sub { x, y } => done(
                self.with_v(x, ((v[x as int] - v[y as int]) % 256) as u8).with_v(
                    VF,
                    flag(v[x as int] >= v[y as int]),
                ).advance(),
            ),
            Instruction::Subn { x, y } => done(
                self.with_v(x, ((v[y as int] - v[x as int]) % 256) as u8).with_v(
                    VF,
                    flag(v[y as int] >= v[x as int]),
                ).advance(),
            ),
            Instruction::And { x, y } => done(self.with_v(x, v[x as int] & v[y as int]).advance()),
            Instruction::Or { x, y } => done(self.with_v(x, v[x as int] | v[y as int]).advance()),
            Instruction::Xor { x, y } => done(self.with_v(x, v[x as int] ^ v[y as int]).advance()),
            Instruction::Shr { x } => done(
                self.with_v(x, v[x as int] / 2).with_v(VF, v[x as int] % 2).advance(),
            ),
            Instruction::Shl { x } => done(
                self.with_v(x, ((v[x as int] * 2) % 256) as u8).with_v(VF, v[x as int] / 128).advance(),
            ),
            Instruction::JpV0 { addr } => done(MachineState { pc: wrap(addr + v[0]), ..self }),
            Instruction::Drw { x, y, nibble } => done(self.draw(x, y, nibble).advance()),
        }
    }

    /// The outcome of one cycle: the opcode under the program counter is
    /// decoded and executed; an opcode that encodes nothing is an error.
    pub open spec fn cycle(self, random: u8) -> Outcome {
        match decode(self.opcode()) {
            Some(instruction) => self.execute(instruction, random),
            None => failed(self, VmError::UnknownInstruction { opcode: self.opcode() }),
        }
    }

    /// The outcome of as many cycles as `randoms` has bytes, the `k`-th
    /// cycle taking the `k`-th byte. The first error ends the run.
    pub open spec fn cycles(self, randoms: Seq<u8>) -> Outcome
        decreases randoms.len(),
    {
        if randoms.len() == 0 {
            done(self)
        } else {
            let before = self.cycles(randoms.drop_last());
            if before.error is Some {
                before
            } else {
                before.state.cycle(randoms.last())
            }
        }
    }

    /// The state after one tick of the timers: each goes down by one unless
    /// it is zero.
    pub open spec fn tick(self) -> MachineState {
        MachineState {
            delay_timer: if self.delay_timer > 0 {
                (self.delay_timer - 1) as u8
            } else {
                0
            },
            sound_timer: if self.sound_timer > 0 {
                (self.sound_timer - 1) as u8
            } else {
                0
            },
            ..self
        }
    }

    /// The outcome of one frame: the cycles, then one tick of the timers if
    /// no cycle failed.
    pub open spec fn frame(self, randoms: Seq<u8>) -> Outcome {
        let ran = self.cycles(randoms);
        if ran.error is Some {
            ran
        } else {
            done(ran.state.tick())
        }
    }
}

/// The outcome that is `state` without an error.
pub open spec fn done(state: MachineState) -> Outcome {
    Outcome { state, error: None }
}

/// The outcome that is `state` stopped by `error`.
pub open spec fn failed(state: MachineState, error: VmError) -> Outcome {
    Outcome { state, error: Some(error) }
}

} // verus!
