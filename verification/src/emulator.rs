//! The interpreter: it fetches the opcode under the program counter,
//! decodes it, and applies the instruction to the machine.
//!
//! The host shows the display, fills in the keypad and decides when to stop;
//! between two frames it calls `run_frame`.

use vstd::prelude::*;
use crate::display::{Display, DISPLAY_HEIGHT, DISPLAY_PIXELS, DISPLAY_WIDTH};
use crate::error::VmError;
use crate::instructions::{decode, Instruction};
use crate::keyboard::Keypad;
use crate::machine::{done, initial_state, sprite_bit, wrap, MachineState, VF};
use crate::memory::{Memory, MEMORY_PROGRAM_SIZE, MEMORY_PROGRAM_START, MEMORY_SIZE};
use crate::registers::Registers;
use crate::stack::Stack;

verus! {

/// How many instructions run between two frames unless the host says
/// otherwise.
pub const CYCLES_PER_FRAME: usize = 11;

/// A byte from the thread's random number generator, `fastrand::u8` over
/// the whole range of bytes. Nothing is claimed of the byte but its type.
#[verifier::external_body]
fn random_byte() -> (byte: u8) {
    fastrand::u8(0..=u8::MAX)
}

/// The sum of two bytes modulo 256, and whether it went past 255.
fn add_bytes(a: u8, b: u8) -> (r: (u8, bool))
    ensures
        r.0 == (a + b) % 256,
        r.1 == (a + b >= 256),
{
    (a.wrapping_add(b), a as u16 + b as u16 > 0xFF)
}

/// The difference of two bytes modulo 256, and whether it went below 0.
fn sub_bytes(a: u8, b: u8) -> (r: (u8, bool))
    ensures
        r.0 == (a - b) % 256,
        r.1 == (a < b),
{
    (a.wrapping_sub(b), a < b)
}

/// A byte shifted right by one, and the bit that fell out.
fn shift_right(a: u8) -> (r: (u8, u8))
    ensures
        r.0 == a / 2,
        r.1 == a % 2,
{
    assert(a >> 1 == a / 2 && a & 1 == a % 2) by (bit_vector);
    (a >> 1, a & 1)
}

/// A byte shifted left by one, and the bit that fell out.
fn shift_left(a: u8) -> (r: (u8, u8))
    ensures
        r.0 == (a * 2) % 256,
        r.1 == a / 128,
{
    assert(a << 1 == (a * 2) % 256 && (a & 0x80) >> 7 == a / 128) by (bit_vector);
    (a << 1, (a & 0x80) >> 7)
}

/// The interpreter with all its state. Its view is the machine state.
#[derive(Debug)]
pub struct Emulator {
    memory: Memory,
    registers: Registers,
    call_stack: Stack,
    display: Display,
    keypad: Keypad,
    instructions_per_frame: usize,
    program_counter: usize,
    delay_timer: u8,
    sound_timer: u8,
}

impl View for Emulator {
    type V = MachineState;

    closed spec fn view(&self) -> MachineState {
        MachineState {
            memory: self.memory@,
            program_len: self.memory.loaded_len(),
            v: self.registers@,
            i: self.registers.index(),
            pc: self.program_counter,
            stack: self.call_stack@,
            pixels: self.display@,
            keys: self.keypad@,
            delay_timer: self.delay_timer,
            sound_timer: self.sound_timer,
        }
    }
}

/// Whether the sprite has a set bit on the pixel at index `p` in one of its
/// first `rows` rows, or in the first `bits` bits of the row after them.
spec fn sprite_so_far(s: MachineState, sx: int, sy: int, rows: int, bits: int, p: int) -> bool {
    let row = (p / (DISPLAY_WIDTH as int) - sy) % (DISPLAY_HEIGHT as int);
    let bit = (p % (DISPLAY_WIDTH as int) - sx) % (DISPLAY_WIDTH as int);
    s.sprite_at(sx, sy, rows, p) || (row == rows && bit < bits && sprite_bit(
        s.memory[wrap(s.i + row) as int],
        bit as u8,
    ))
}

/// Whether the part of the sprite drawn so far has a set bit on a lit pixel.
spec fn collides_so_far(s: MachineState, sx: int, sy: int, rows: int, bits: int) -> bool {
    exists|p: int|
        0 <= p < DISPLAY_PIXELS && #[trigger] s.pixels[p] && sprite_so_far(s, sx, sy, rows, bits, p)
}

/// Drawing one more bit of a row adds at most the pixel under that bit, and
/// that pixel was not touched before.
proof fn lemma_sprite_step(s: MachineState, sx: int, sy: int, row: int, col: int, p: int)
    requires
        0 <= sx < DISPLAY_WIDTH,
        0 <= sy < DISPLAY_HEIGHT,
        0 <= row < 16,
        0 <= col < 8,
        0 <= p < DISPLAY_PIXELS,
    ensures
        sprite_so_far(s, sx, sy, row, col + 1, p) == (sprite_so_far(s, sx, sy, row, col, p) || (p
            == ((sy + row) % 32) * 64 + (sx + col) % 64 && sprite_bit(
            s.memory[wrap(s.i + row) as int],
            col as u8,
        ))),
        p == ((sy + row) % 32) * 64 + (sx + col) % 64 ==> !sprite_so_far(s, sx, sy, row, col, p),
{
    let px = p % 64;
    let py = p / 64;
    lemma_offset_32(py, sy, row);
    lemma_offset_64(px, sx, col);
    assert(DISPLAY_WIDTH == 64 && DISPLAY_HEIGHT == 32);
    let r = (py - sy) % 32;
    let b = (px - sx) % 64;
    assert(0 <= r < 32 && 0 <= b < 64);
    assert((p == ((sy + row) % 32) * 64 + (sx + col) % 64) == (r == row && b == col));
}

/// On a ring of 32, `a` lies `c` after `b` exactly if `a` is `b + c` reduced.
proof fn lemma_offset_32(a: int, b: int, c: int)
    requires
        0 <= a < 32,
        0 <= b < 32,
        0 <= c < 32,
    ensures
        ((a - b) % 32 == c) == (a == (b + c) % 32),
{
    if a >= b {
        assert((a - b) % 32 == a - b);
    } else {
        assert((a - b) % 32 == a - b + 32);
    }
    if b + c < 32 {
        assert((b + c) % 32 == b + c);
    } else {
        assert((b + c) % 32 == b + c - 32);
    }
}

/// On a ring of 64, `a` lies `c` after `b` exactly if `a` is `b + c` reduced.
proof fn lemma_offset_64(a: int, b: int, c: int)
    requires
        0 <= a < 64,
        0 <= b < 64,
        0 <= c < 64,
    ensures
        ((a - b) % 64 == c) == (a == (b + c) % 64),
{
    if a >= b {
        assert((a - b) % 64 == a - b);
    } else {
        assert((a - b) % 64 == a - b + 64);
    }
    if b + c < 64 {
        assert((b + c) % 64 == b + c);
    } else {
        assert((b + c) % 64 == b + c - 64);
    }
}

impl Emulator {
    /// The state satisfies the machine's invariant, and so does the call
    /// stack within.
    pub open spec fn wf(&self) -> bool {
        self@.wf() && self.stack_wf()
    }

    /// The call stack is well formed.
    pub closed spec fn stack_wf(&self) -> bool {
        self.call_stack.wf()
    }

    /// The number of instructions that one frame runs.
    pub closed spec fn frame_cycles(&self) -> usize {
        self.instructions_per_frame
    }

    /// A newly powered machine that runs eleven instructions per frame.
    pub fn new() -> (emulator: Emulator)
        ensures
            emulator.wf(),
            emulator@ == initial_state(),
            emulator.frame_cycles() == CYCLES_PER_FRAME,
    {
        Emulator {
            memory: Memory::new(),
            registers: Registers::new(),
            call_stack: Stack::new(),
            display: Display::new(),
            keypad: Keypad::new(),
            instructions_per_frame: CYCLES_PER_FRAME,
            program_counter: MEMORY_PROGRAM_START,
            delay_timer: 0,
            sound_timer: 0,
        }
    }

    /// Loads `program` at the program start, or refuses it, leaving the
    /// machine as it was, when it is longer than the program region.
    pub fn load_program(&mut self, program: &[u8]) -> (r: Result<(), VmError>)
        requires
            old(self).wf(),
        ensures
            final(self).wf(),
            final(self).frame_cycles() == old(self).frame_cycles(),
            program@.len() <= MEMORY_PROGRAM_SIZE ==> r == Ok::<(), VmError>(()) && final(self)@
                == old(self)@.load(program@),
            program@.len() > MEMORY_PROGRAM_SIZE ==> r == Err::<(), VmError>(
                VmError::ProgramTooLarge { len: program@.len() as usize },
            ) && final(self)@ == old(self)@,
    {
        self.memory.load_program(program)
    }

    /// The number of instructions that one frame runs.
    pub fn instructions_per_frame(&self) -> (n: usize)
        ensures
            n == self.frame_cycles(),
    {
        self.instructions_per_frame
    }

    /// Sets the number of instructions that one frame runs.
    pub fn set_instructions_per_frame(&mut self, n: usize)
        ensures
            final(self)@ == old(self)@,
            final(self).wf() == old(self).wf(),
            final(self).frame_cycles() == n,
    {
        self.instructions_per_frame = n;
    }

    /// Replaces the keypad by what the host has seen.
    pub fn set_keypad(&mut self, keypad: Keypad)
        requires
            old(self).wf(),
            keypad@.wf(),
        ensures
            final(self).wf(),
            final(self)@ == (MachineState { keys: keypad@, ..old(self)@ }),
            final(self).frame_cycles() == old(self).frame_cycles(),
    {
        self.keypad = keypad;
    }

    /// The value of register V`x`.
    pub fn register(&self, x: usize) -> (value: u8)
        requires
            self.wf(),
            x < 16,
        ensures
            value == self@.v[x as int],
    {
        self.registers.get(x)
    }

    /// The value of the index register I.
    pub fn index_register(&self) -> (value: usize)
        requires
            self.wf(),
        ensures
            value == self@.i,
            value < MEMORY_SIZE,
    {
        self.registers.i()
    }

    /// The program counter.
    pub fn program_counter(&self) -> (pc: usize)
        requires
            self.wf(),
        ensures
            pc == self@.pc,
            pc < MEMORY_SIZE,
    {
        self.program_counter
    }

    /// The number of return addresses on the call stack.
    pub fn stack_depth(&self) -> (depth: usize)
        requires
            self.wf(),
        ensures
            depth == self@.stack.len(),
            depth <= 16,
    {
        self.call_stack.depth()
    }

    /// The delay timer.
    pub fn delay_timer(&self) -> (value: u8)
        ensures
            value == self@.delay_timer,
    {
        self.delay_timer
    }

    /// The sound timer. The host sounds the tone while it is not zero.
    pub fn sound_timer(&self) -> (value: u8)
        ensures
            value == self@.sound_timer,
    {
        self.sound_timer
    }

    /// The byte of memory at `address`.
    pub fn memory_at(&self, address: usize) -> (byte: u8)
        requires
            address < MEMORY_SIZE,
        ensures
            byte == self@.memory[address as int],
    {
        self.memory.read(address)
    }

    /// The display, for the host to show.
    pub fn display(&self) -> (display: &Display)
        ensures
            display@ == self@.pixels,
    {
        &self.display
    }

    /// Whether the program counter is inside the loaded program.
    pub fn in_program(&self) -> (b: bool)
        requires
            self.wf(),
        ensures
            b == self@.in_program(),
    {
        let pc = self.program_counter;
        MEMORY_PROGRAM_START <= pc && pc - MEMORY_PROGRAM_START < self.memory.program_len()
    }

    /// The value of register V`x`.
    fn v(&self, x: usize) -> (value: u8)
        requires
            self.wf(),
            x < 16,
        ensures
            value == self@.v[x as int],
    {
        self.registers.get(x)
    }

    /// Sets register V`x` to `value`.
    fn set_v(&mut self, x: usize, value: u8)
        requires
            old(self).wf(),
            x < 16,
        ensures
            final(self).wf(),
            final(self)@ == old(self)@.with_v(x, value),
            final(self).frame_cycles() == old(self).frame_cycles(),
    {
        self.registers.set(x, value);
    }

    /// Sets the index register I to `value`.
    fn set_i(&mut self, value: usize)
        requires
            old(self).wf(),
            value < MEMORY_SIZE,
        ensures
            final(self).wf(),
            final(self)@ == (MachineState { i: value, ..old(self)@ }),
            final(self).frame_cycles() == old(self).frame_cycles(),
    {
        self.registers.set_i(value);
    }

    /// Moves the program counter to the next instruction.
    fn advance(&mut self)
        requires
            old(self).wf(),
        ensures
            final(self).wf(),
            final(self)@ == old(self)@.advance(),
            final(self).frame_cycles() == old(self).frame_cycles(),
    {
        self.program_counter = (self.program_counter + 2) % MEMORY_SIZE;
    }

    /// Moves the program counter past the next instruction if `condition`
    /// holds, and to it otherwise.
    fn skip_if(&mut self, condition: bool)
        requires
            old(self).wf(),
        ensures
            final(self).wf(),
            final(self)@ == old(self)@.skip_if(condition),
            final(self).frame_cycles() == old(self).frame_cycles(),
    {
        if condition {
            self.program_counter = (self.program_counter + 4) % MEMORY_SIZE;
        } else {
            self.program_counter = (self.program_counter + 2) % MEMORY_SIZE;
        }
    }

    /// Lets each timer go down by one unless it is zero, and tells whether
    /// either was running.
    pub fn update_timers(&mut self) -> (ran: bool)
        requires
            old(self).wf(),
        ensures
            final(self).wf(),
            final(self)@ == old(self)@.tick(),
            final(self).frame_cycles() == old(self).frame_cycles(),
            ran == (old(self)@.delay_timer > 0 || old(self)@.sound_timer > 0),
    {
        if self.delay_timer == 0 && self.sound_timer == 0 {
            return false;
        }
        if self.delay_timer > 0 {
            self.delay_timer -= 1;
        }
        if self.sound_timer > 0 {
            self.sound_timer -= 1;
        }
        true
    }

    /// The instruction under the program counter, or the error that its
    /// opcode encodes none.
    pub fn fetch_instruction(&self) -> (r: Result<Instruction, VmError>)
        requires
            self.wf(),
        ensures
            r == match decode(self@.opcode()) {
                Some(instruction) => Ok::<Instruction, VmError>(instruction),
                None => Err::<Instruction, VmError>(
                    VmError::UnknownInstruction { opcode: self@.opcode() },
                ),
            },
            r matches Ok(instruction) ==> instruction.wf(),
    {
        let high = self.memory.read(self.program_counter);
        let low = self.memory.read((self.program_counter + 1) % MEMORY_SIZE);
        let opcode: u16 = (high as u16) * 256 + (low as u16);
        Instruction::from_opcode(opcode)
    }

    /// Does one cycle: fetches, decodes and executes the instruction under
    /// the program counter. Only the random-byte instruction asks the random
    /// source, so the outcome is that of the cycle for some random byte.
    /// After an error the machine is as it was.
    pub fn do_instruction(&mut self) -> (r: Result<(), VmError>)
        requires
            old(self).wf(),
        ensures
            final(self).wf(),
            final(self).frame_cycles() == old(self).frame_cycles(),
            exists|random: u8|
                {
                    let out = #[trigger] old(self)@.cycle(random);
                    final(self)@ == out.state && r == out.result()
                },
    {
        match self.fetch_instruction() {
            Ok(instruction) => {
                let random = match instruction {
                    Instruction::Rnd { x, byte } => random_byte(),
                    _ => 0,
                };
                let r = self.execute(instruction, random);
                proof {
                    let out = old(self)@.cycle(random);
                    assert(self@ == out.state && r == out.result());
                }
                r
            },
            Err(e) => {
                proof {
                    let out = old(self)@.cycle(0);
                    assert(self@ == out.state && Err::<(), VmError>(e) == out.result());
                }
                Err(e)
            },
        }
    }

    /// Runs one frame: as many cycles as the machine runs per frame, then
    /// one tick of the timers. The first error ends the frame at once, with
    /// the machine as it was before the failing cycle.
    pub fn run_frame(&mut self) -> (r: Result<(), VmError>)
        requires
            old(self).wf(),
        ensures
            final(self).wf(),
            final(self).frame_cycles() == old(self).frame_cycles(),
            exists|randoms: Seq<u8>|
                {
                    let out = #[trigger] old(self)@.frame(randoms);
                    randoms.len() <= old(self).frame_cycles() && (out.error is None
                        ==> randoms.len() == old(self).frame_cycles()) && final(self)@ == out.state
                        && r == out.result()
                },
    {
        let ghost mut randoms: Seq<u8> = Seq::empty();
        let mut k: usize = 0;
        while k < self.instructions_per_frame
            invariant
                self.wf(),
                self.frame_cycles() == old(self).frame_cycles(),
                k <= self.frame_cycles(),
                randoms.len() == k,
                old(self)@.cycles(randoms) == done(self@),
            decreases self.instructions_per_frame - k,
        {
            let ghost before = self@;
            let ghost earlier = randoms;
            let r = self.do_instruction();
            proof {
                let random = choose|random: u8|
                    {
                        let out = #[trigger] before.cycle(random);
                        self@ == out.state && r == out.result()
                    };
                randoms = earlier.push(random);
                assert(randoms.drop_last() == earlier);
            }
            match r {
                Ok(()) => {},
                Err(e) => {
                    proof {
                        let out = old(self)@.frame(randoms);
                        assert(self@ == out.state && r == out.result());
                    }
                    return Err(e);
                },
            }
            k += 1;
        }
        self.update_timers();
        proof {
            let out = old(self)@.frame(randoms);
            assert(self@ == out.state && Ok::<(), VmError>(()) == out.result());
        }
        Ok(())
    }

    /// Applies `instruction` to the machine, `random` being the byte that
    /// the random source gave. After an error the machine is as it was.
    pub fn execute(&mut self, instruction: Instruction, random: u8) -> (r: Result<(), VmError>)
        requires
            old(self).wf(),
            instruction.wf(),
        ensures
            final(self).wf(),
            final(self).frame_cycles() == old(self).frame_cycles(),
            final(self)@ == old(self)@.execute(instruction, random).state,
            r == old(self)@.execute(instruction, random).result(),
    {
        match instruction {
            Instruction::Cls => {
                self.clear_screen();
                self.advance();
            },
            Instruction::Ret => {
                return self.return_from_subroutine();
            },
            Instruction::Jp { addr } => {
                self.jump(addr);
            },
            Instruction::Call { addr } => {
                return self.call_subroutine(addr);
            },
            Instruction::SeVxByte { x, byte } => {
                self.skip_if(self.v(x) == byte);
            },
            Instruction::SneVxByte { x, byte } => {
                self.skip_if(self.v(x) != byte);
            },
            Instruction::SeVxVy { x, y } => {
                self.skip_if(self.v(x) == self.v(y));
            },
            Instruction::SneVxVy { x, y } => {
                self.skip_if(self.v(x) != self.v(y));
            },
            Instruction::Skp { x } => {
                let down = self.keypad.is_key_down(self.v(x));
                self.skip_if(down);
            },
            Instruction::Sknp { x } => {
                let down = self.keypad.is_key_down(self.v(x));
                self.skip_if(!down);
            },
            Instruction::LdVxByte { x, byte } => {
                self.set_v(x, byte);
                self.advance();
            },
            Instruction::LdVxVy { x, y } => {
                self.set_v(x, self.v(y));
                self.advance();
            },
            Instruction::LdIAddr { addr } => {
                self.set_i(addr);
                self.advance();
            },
            Instruction::LdVxDt { x } => {
                self.set_v(x, self.delay_timer);
                self.advance();
            },
            Instruction::LdK { x } => {
                self.wait_for_key_and_store_in_vx(x);
            },
            Instruction::LdDt { x } => {
                self.delay_timer = self.v(x);
                self.advance();
            },
            Instruction::LdSt { x } => {
                self.sound_timer = self.v(x);
                self.advance();
            },
            Instruction::LdF { x } => {
                self.set_i((self.v(x) as usize) * 5);
                self.advance();
            },
            Instruction::LdB { x } => {
                self.store_binary_coded_decimal_of_vx_at_i(x);
                self.advance();
            },
            Instruction::LdI { x } => {
                self.store_v0_to_vx_in_memory_at_i(x);
                self.advance();
            },
            Instruction::LdIVx { x } => {
                self.load_v0_to_vx_from_memory_at_i(x);
                self.advance();
            },
            Instruction::Rnd { x, byte } => {
                self.set_v(x, random & byte);
                self.advance();
            },
            Instruction::AddVxByte { x, byte } => {
                let (sum, _) = add_bytes(self.v(x), byte);
                self.set_v(x, sum);
                self.advance();
            },
            Instruction::AddVxVy { x, y } => {
                let (sum, carry) = add_bytes(self.v(x), self.v(y));
                self.set_v(x, sum);
                self.set_v(VF, if carry { 1 } else { 0 });
                self.advance();
            },
            Instruction::AddI { x } => {
                self.set_i((self.registers.i() + self.v(x) as usize) % MEMORY_SIZE);
                self.advance();
            },
            Instruction::Sub { x, y } => {
                let (difference, borrow) = sub_bytes(self.v(x), self.v(y));
                self.set_v(x, difference);
                self.set_v(VF, if !borrow { 1 } else { 0 });
                self.advance();
            },
            Instruction::Subn { x, y } => {
                let (difference, borrow) = sub_bytes(self.v(y), self.v(x));
                self.set_v(x, difference);
                self.set_v(VF, if !borrow { 1 } else { 0 });
                self.advance();
            },
            Instruction::And { x, y } => {
                self.set_v(x, self.v(x) & self.v(y));
                self.advance();
            },
            Instruction::Or { x, y } => {
                self.set_v(x, self.v(x) | self.v(y));
                self.advance();
            },
            Instruction::Xor { x, y } => {
                self.set_v(x, self.v(x) ^ self.v(y));
                self.advance();
            },
            Instruction::Shr { x } => {
                let (shifted, out) = shift_right(self.v(x));
                self.set_v(x, shifted);
                self.set_v(VF, out);
                self.advance();
            },
            Instruction::Shl { x } => {
                let (shifted, out) = shift_left(self.v(x));
                self.set_v(x, shifted);
                self.set_v(VF, out);
                self.advance();
            },
            Instruction::JpV0 { addr } => {
                self.jump_to_nnn_plus_v0(addr);
            },
            Instruction::Drw { x, y, nibble } => {
                self.draw_sprite(x, y, nibble);
                self.advance();
            },
        }
        Ok(())
    }

    /// Turns every pixel dark. Nothing else changes, the program counter
    /// included.
    pub fn clear_screen(&mut self)
        requires
            old(self).wf(),
        ensures
            final(self).wf(),
            final(self)@ == (MachineState { pixels: crate::display::blank(), ..old(self)@ }),
            final(self).frame_cycles() == old(self).frame_cycles(),
    {
        self.display.clear();
    }

    /// Goes back to the newest return address and takes it off the call
    /// stack, or fails, changing nothing, where there is none.
    pub fn return_from_subroutine(&mut self) -> (r: Result<(), VmError>)
        requires
            old(self).wf(),
        ensures
            final(self).wf(),
            final(self).frame_cycles() == old(self).frame_cycles(),
            old(self)@.stack.len() > 0 ==> r == Ok::<(), VmError>(()) && final(self)@ == (
            MachineState {
                pc: old(self)@.stack.last(),
                stack: old(self)@.stack.drop_last(),
                ..old(self)@
            }),
            old(self)@.stack.len() == 0 ==> r == Err::<(), VmError>(VmError::StackUnderflow)
                && final(self)@ == old(self)@,
    {
        match self.call_stack.pop() {
            Ok(addr) => {
                self.program_counter = addr;
                Ok(())
            },
            Err(e) => Err(e),
        }
    }

    /// Goes on at `nnn`.
    fn jump(&mut self, nnn: usize)
        requires
            old(self).wf(),
            nnn < MEMORY_SIZE,
        ensures
            final(self).wf(),
            final(self)@ == (MachineState { pc: nnn, ..old(self)@ }),
            final(self).frame_cycles() == old(self).frame_cycles(),
    {
        self.program_counter = nnn;
    }

    /// Keeps the address of the next instruction on the call stack and goes
    /// on at `nnn`, or fails, changing nothing, where the call stack is full.
    pub fn call_subroutine(&mut self, nnn: usize) -> (r: Result<(), VmError>)
        requires
            old(self).wf(),
            nnn < MEMORY_SIZE,
        ensures
            final(self).wf(),
            final(self).frame_cycles() == old(self).frame_cycles(),
            old(self)@.stack.len() < 16 ==> r == Ok::<(), VmError>(()) && final(self)@ == (
            MachineState {
                pc: nnn,
                stack: old(self)@.stack.push(wrap(old(self)@.pc + 2)),
                ..old(self)@
            }),
            old(self)@.stack.len() >= 16 ==> r == Err::<(), VmError>(
                VmError::StackOverflow { address: wrap(old(self)@.pc + 2) },
            ) && final(self)@ == old(self)@,
    {
        match self.call_stack.push((self.program_counter + 2) % MEMORY_SIZE) {
            Ok(()) => {
                self.program_counter = nnn;
                Ok(())
            },
            Err(e) => Err(e),
        }
    }

    /// Goes on at `nnn` plus V0, reduced to twelve bits.
    fn jump_to_nnn_plus_v0(&mut self, nnn: usize)
        requires
            old(self).wf(),
            nnn < MEMORY_SIZE,
        ensures
            final(self).wf(),
            final(self)@ == (MachineState { pc: wrap(nnn + old(self)@.v[0]), ..old(self)@ }),
            final(self).frame_cycles() == old(self).frame_cycles(),
    {
        self.program_counter = (nnn + self.v(0) as usize) % MEMORY_SIZE;
    }

    /// Stores the released key in V`x` and moves on, or stays on this
    /// instruction where no key was released.
    fn wait_for_key_and_store_in_vx(&mut self, x: usize)
        requires
            old(self).wf(),
            x < 16,
        ensures
            final(self).wf(),
            final(self).frame_cycles() == old(self).frame_cycles(),
            final(self)@ == old(self)@.execute(Instruction::LdK { x }, 0).state,
    {
        match self.keypad.take_released_key() {
            Some(key) => {
                self.set_v(x, key);
                self.advance();
            },
            None => {},
        }
    }

    /// Stores the hundreds, tens and ones of V`x` at I, I+1 and I+2. Nothing
    /// else changes, the program counter included.
    pub fn store_binary_coded_decimal_of_vx_at_i(&mut self, x: usize)
        requires
            old(self).wf(),
            x < 16,
        ensures
            final(self).wf(),
            final(self)@ == old(self)@.store_digits(old(self)@.v[x as int]),
            final(self).frame_cycles() == old(self).frame_cycles(),
    {
        let value = self.v(x);
        let i = self.registers.i();
        self.memory.write(i % MEMORY_SIZE, value / 100);
        self.memory.write((i + 1) % MEMORY_SIZE, (value % 100) / 10);
        self.memory.write((i + 2) % MEMORY_SIZE, value % 10);
    }

    /// Stores V0 to V`x` in memory from I on. I stays as it is, and so does
    /// the program counter.
    pub fn store_v0_to_vx_in_memory_at_i(&mut self, x: usize)
        requires
            old(self).wf(),
            x < 16,
        ensures
            final(self).wf(),
            final(self)@ == old(self)@.store_registers(x),
            final(self).frame_cycles() == old(self).frame_cycles(),
    {
        let i = self.registers.i();
        let ghost before = self@;
        let mut offset: usize = 0;
        while offset <= x
            invariant
                self.wf(),
                self.frame_cycles() == old(self).frame_cycles(),
                x < 16,
                offset <= x + 1,
                i == before.i,
                before.wf(),
                (MachineState { memory: before.memory, ..self@ }) == before,
                forall|a: int|
                    0 <= a < MEMORY_SIZE ==> #[trigger] self@.memory[a] == if (a - i) % (
                    MEMORY_SIZE as int) < offset {
                        before.v[(a - i) % (MEMORY_SIZE as int)]
                    } else {
                        before.memory[a]
                    },
            decreases x + 1 - offset,
        {
            self.memory.write((i + offset) % MEMORY_SIZE, self.registers.get(offset));
            offset += 1;
        }
    }

    /// Loads V0 to V`x` from memory from I on. I stays as it is, and so does
    /// the program counter.
    pub fn load_v0_to_vx_from_memory_at_i(&mut self, x: usize)
        requires
            old(self).wf(),
            x < 16,
        ensures
            final(self).wf(),
            final(self)@ == old(self)@.load_registers(x),
            final(self).frame_cycles() == old(self).frame_cycles(),
    {
        let i = self.registers.i();
        let ghost before = self@;
        let mut offset: usize = 0;
        while offset <= x
            invariant
                self.wf(),
                self.frame_cycles() == old(self).frame_cycles(),
                x < 16,
                offset <= x + 1,
                i == before.i,
                before.wf(),
                (MachineState { v: before.v, ..self@ }) == before,
                forall|k: int|
                    0 <= k < 16 ==> #[trigger] self@.v[k] == if k < offset {
                        before.memory[wrap(i + k) as int]
                    } else {
                        before.v[k]
                    },
            decreases x + 1 - offset,
        {
            self.registers.set(offset, self.memory.read((i + offset) % MEMORY_SIZE));
            offset += 1;
        }
    }

    /// Draws the sprite of `n` rows at I with its corner at (V`x`, V`y`):
    /// every set bit flips its pixel, and VF tells whether a lit pixel went
    /// dark. Coordinates wrap round the edges of the display. The program
    /// counter stays as it is.
    pub fn draw_sprite(&mut self, x: usize, y: usize, n: u8)
        requires
            old(self).wf(),
            x < 16,
            y < 16,
            n < 16,
        ensures
            final(self).wf(),
            final(self)@ == old(self)@.draw(x, y, n),
            final(self).frame_cycles() == old(self).frame_cycles(),
    {
        let ghost before = self@;
        self.registers.set(VF, 0);
        let ghost cleared = self@;
        let sx = (self.registers.get(x) as usize) % DISPLAY_WIDTH;
        let sy = (self.registers.get(y) as usize) % DISPLAY_HEIGHT;
        let i = self.registers.i();
        let mut collision = false;
        let mut row: usize = 0;
        while row < n as usize
            invariant
                self.wf(),
                self.frame_cycles() == old(self).frame_cycles(),
                before.wf(),
                row <= n < 16,
                sx < DISPLAY_WIDTH,
                sy < DISPLAY_HEIGHT,
                i == before.i,
                (MachineState { pixels: before.pixels, ..self@ }) == cleared,
                cleared == before.with_v(VF, 0),
                forall|p: int|
                    0 <= p < DISPLAY_PIXELS ==> #[trigger] self@.pixels[p] == (before.pixels[p]
                        != before.sprite_at(sx as int, sy as int, row as int, p)),
                collision == before.collides(sx as int, sy as int, row as int),
            decreases n - row,
        {
            let y_pos = (sy + row) % DISPLAY_HEIGHT;
            let sprite_byte = self.memory.read((i + row) % MEMORY_SIZE);
            let mut col: u8 = 0;
            proof {
                assert(collides_so_far(before, sx as int, sy as int, row as int, 0)
                    == before.collides(sx as int, sy as int, row as int));
            }
            while col < 8
                invariant
                    self.wf(),
                    self.frame_cycles() == old(self).frame_cycles(),
                    before.wf(),
                    row < n < 16,
                    col <= 8,
                    sx < DISPLAY_WIDTH,
                    sy < DISPLAY_HEIGHT,
                    y_pos == (sy + row) % 32,
                    i == before.i,
                    sprite_byte == before.memory[wrap(i + row) as int],
                    (MachineState { pixels: before.pixels, ..self@ }) == cleared,
                    cleared == before.with_v(VF, 0),
                    forall|p: int|
                        0 <= p < DISPLAY_PIXELS ==> #[trigger] self@.pixels[p] == (
                        before.pixels[p] != sprite_so_far(
                            before,
                            sx as int,
                            sy as int,
                            row as int,
                            col as int,
                            p,
                        )),
                    collision == collides_so_far(
                        before,
                        sx as int,
                        sy as int,
                        row as int,
                        col as int,
                    ),
                decreases 8 - col,
            {
                let x_pos = (sx + col as usize) % DISPLAY_WIDTH;
                let ghost target = y_pos * 64 + x_pos;
                let ghost shown = self@.pixels;
                let ghost collided = collision;
                if sprite_byte & (0x80u8 >> col) != 0 {
                    if self.display.xor_pixel(x_pos, y_pos) {
                        collision = true;
                    }
                }
                proof {
                    let lit = sprite_bit(sprite_byte, col);
                    assert forall|p: int| 0 <= p < DISPLAY_PIXELS implies sprite_so_far(
                        before,
                        sx as int,
                        sy as int,
                        row as int,
                        col + 1,
                        p,
                    ) == (sprite_so_far(before, sx as int, sy as int, row as int, col as int, p)
                        || (p == target && lit)) by {
                        lemma_sprite_step(before, sx as int, sy as int, row as int, col as int, p);
                    }
                    lemma_sprite_step(before, sx as int, sy as int, row as int, col as int, target);
                    if collided {
                        let p = choose|p: int|
                            0 <= p < DISPLAY_PIXELS && #[trigger] before.pixels[p]
                                && sprite_so_far(
                                before,
                                sx as int,
                                sy as int,
                                row as int,
                                col as int,
                                p,
                            );
                        assert(before.pixels[p] && sprite_so_far(
                            before,
                            sx as int,
                            sy as int,
                            row as int,
                            col + 1,
                            p,
                        ));
                    } else if lit && shown[target] {
                        assert(before.pixels[target] && sprite_so_far(
                            before,
                            sx as int,
                            sy as int,
                            row as int,
                            col + 1,
                            target,
                        ));
                    }
                }
                col += 1;
            }
            proof {
                assert forall|p: int| 0 <= p < DISPLAY_PIXELS implies sprite_so_far(
                    before,
                    sx as int,
                    sy as int,
                    row as int,
                    8,
                    p,
                ) == before.sprite_at(sx as int, sy as int, row + 1, p) by {}
                assert(collides_so_far(before, sx as int, sy as int, row as int, 8)
                    == before.collides(sx as int, sy as int, row + 1));
            }
            row += 1;
        }
        self.registers.set(VF, if collision { 1 } else { 0 });
    }
}

} // verus!
