//! A minimal machine that runs a listing: the program is a sequence of
//! instructions, the program counter an index into it, and only jumps and
//! register loads have an effect.

use vstd::prelude::*;
use crate::instruction::Instruction;

verus! {

/// What the minimal machine computes with: the registers, the program
/// counter and the program.
pub struct Chip8State {
    pub registers: Seq<u8>,
    pub pc: usize,
    pub program: Seq<Instruction>,
}

impl Chip8State {
    /// The program counter has left the program.
    pub open spec fn halted(self) -> bool {
        self.pc >= self.program.len()
    }

    /// The state after `instruction`: a jump sets the program counter, a
    /// load sets a register, anything else does nothing, and all but the
    /// jump move on to the next instruction.
    pub open spec fn after(self, instruction: Instruction) -> Chip8State {
        match instruction {
            Instruction::Jp { addr } => Chip8State { pc: addr as usize, ..self },
            Instruction::LdVxByte { vx, byte } => Chip8State {
                registers: self.registers.update(vx as int, byte as u8),
                pc: (self.pc + 1) as usize,
                ..self
            },
            Instruction::LdVxVy { vx, vy } => Chip8State {
                registers: self.registers.update(vx as int, self.registers[vy as int]),
                pc: (self.pc + 1) as usize,
                ..self
            },
            _ => Chip8State { pc: (self.pc + 1) as usize, ..self },
        }
    }

    /// One step: the instruction under the program counter is done, unless
    /// the machine has halted.
    pub open spec fn step(self) -> Chip8State {
        if self.halted() {
            self
        } else {
            self.after(self.program[self.pc as int])
        }
    }

    /// The state after `n` steps.
    pub open spec fn steps(self, n: nat) -> Chip8State
        decreases n,
    {
        if n == 0 {
            self
        } else {
            self.steps((n - 1) as nat).step()
        }
    }

    /// Every instruction of the program has its operands in range.
    pub open spec fn program_wf(self) -> bool {
        forall|k: int| 0 <= k < self.program.len() ==> (#[trigger] self.program[k]).wf()
    }
}

/// A halted machine stays as it is.
pub proof fn lemma_halted_stays(s: Chip8State, k: nat, n: nat)
    requires
        k <= n,
        s.steps(k).halted(),
    ensures
        s.steps(n) == s.steps(k),
    decreases n - k,
{
    if k < n {
        lemma_halted_stays(s, k, (n - 1) as nat);
    }
}

/// Steps keep the program.
pub proof fn lemma_steps_keep_program(s: Chip8State, n: nat)
    ensures
        s.steps(n).program == s.program,
    decreases n,
{
    if n > 0 {
        lemma_steps_keep_program(s, (n - 1) as nat);
    }
}

/// Steps add up.
pub proof fn lemma_steps_add(s: Chip8State, a: nat, b: nat)
    ensures
        s.steps(a + b) == s.steps(a).steps(b),
    decreases b,
{
    if b > 0 {
        lemma_steps_add(s, a, (b - 1) as nat);
        assert(s.steps(a + b) == s.steps((a + b - 1) as nat).step());
    }
}

/// Where the program counter goes depends on the program and the program
/// counter alone: two machines that agree on both agree on both for ever.
pub proof fn lemma_counter_decides(s: Chip8State, t: Chip8State, k: nat)
    requires
        s.program == t.program,
        s.pc == t.pc,
    ensures
        s.steps(k).program == t.steps(k).program,
        s.steps(k).pc == t.steps(k).pc,
    decreases k,
{
    if k > 0 {
        lemma_counter_decides(s, t, (k - 1) as nat);
    }
}

/// Among `n + 1` numbers below `n` two are equal.
proof fn lemma_two_equal(s: Seq<int>, n: int)
    requires
        n >= 0,
        s.len() == n + 1,
        forall|k: int| 0 <= k <= n ==> 0 <= (#[trigger] s[k]) && s[k] < n,
    ensures
        exists|a: int, b: int| 0 <= a < b <= n && s[a] == s[b],
    decreases n,
{
    if n == 0 {
        assert(0 <= s[0] && s[0] < n);
    } else {
        let last = s[n];
        if exists|a: int| 0 <= a < n && s[a] == last {
            let a = choose|a: int| 0 <= a < n && s[a] == last;
            assert(0 <= a < n <= n && s[a] == s[n]);
        } else {
            // none of the others is `last`: let `last` stand in for `n - 1`
            let t = Seq::new(
                n as nat,
                |k: int|
                    if s[k] == n - 1 {
                        last
                    } else {
                        s[k]
                    },
            );
            assert forall|k: int| 0 <= k <= n - 1 implies 0 <= (#[trigger] t[k]) && t[k] < n
                - 1 by {
                assert(0 <= s[k] < n);
                assert(s[k] != last);
            }
            lemma_two_equal(t, n - 1);
            let (a, b) = choose|a: int, b: int| 0 <= a < b <= n - 1 && t[a] == t[b];
            assert(s[a] != last && s[b] != last);
            assert(0 <= a < b <= n && s[a] == s[b]);
        }
    }
}

/// A run that has not left the program after as many steps as the program
/// has instructions never leaves it: by then the program counter has been
/// in one place twice, and from there on the run repeats itself.
pub proof fn lemma_run_bound(s: Chip8State, m: nat)
    requires
        !s.steps(s.program.len()).halted(),
    ensures
        !s.steps(m).halted(),
    decreases m,
{
    let n = s.program.len();
    lemma_steps_keep_program(s, m);
    if m <= n {
        if s.steps(m).halted() {
            lemma_halted_stays(s, m, n);
        }
    } else {
        let counters = Seq::new(n + 1, |k: int| s.steps(k as nat).pc as int);
        assert forall|k: int| 0 <= k <= n implies 0 <= (#[trigger] counters[k]) && counters[k]
            < n by {
            lemma_steps_keep_program(s, k as nat);
            if s.steps(k as nat).halted() {
                lemma_halted_stays(s, k as nat, n);
            }
        }
        lemma_two_equal(counters, n as int);
        let (a, b) = choose|a: int, b: int| 0 <= a < b <= n && counters[a] == counters[b];
        let rest = (m - b) as nat;
        lemma_run_bound(s, (a + rest) as nat);
        lemma_steps_add(s, a as nat, rest);
        lemma_steps_add(s, b as nat, rest);
        lemma_steps_keep_program(s, a as nat);
        lemma_steps_keep_program(s, b as nat);
        lemma_steps_keep_program(s, (a + rest) as nat);
        lemma_counter_decides(s.steps(a as nat), s.steps(b as nat), rest);
    }
}

/// The minimal machine.
pub struct Chip8 {
    pub registers: [u8; 16],
    pub memory: [u8; 4096],
    pub stack: [u16; 16],
    pub sp: usize,
    pub program: Vec<Instruction>,
    pub pc: usize,
}

impl View for Chip8 {
    type V = Chip8State;

    open spec fn view(&self) -> Chip8State {
        Chip8State { registers: self.registers@, pc: self.pc, program: self.program@ }
    }
}

impl Chip8 {
    /// A machine with everything zero and no program.
    pub fn new() -> (chip8: Chip8)
        ensures
            chip8@.registers == Seq::new(16, |k: int| 0u8),
            chip8@.pc == 0,
            chip8@.program == Seq::<Instruction>::empty(),
            chip8.memory@ == Seq::new(4096, |k: int| 0u8),
            chip8.stack@ == Seq::new(16, |k: int| 0u16),
            chip8.sp == 0,
    {
        Chip8 {
            registers: [0; 16],
            memory: [0; 4096],
            stack: [0; 16],
            sp: 0,
            program: Vec::new(),
            pc: 0,
        }
    }

    /// Replaces the program and leaves all else as it was.
    pub fn load_program(&mut self, program: Vec<Instruction>)
        ensures
            final(self)@.program == program@,
            final(self)@.registers == old(self)@.registers,
            final(self)@.pc == old(self)@.pc,
            final(self).memory == old(self).memory,
            final(self).stack == old(self).stack,
            final(self).sp == old(self).sp,
    {
        self.program = program;
    }

    /// Runs the program until the program counter leaves it.
    ///
    /// It takes at most as many steps as the program has instructions: a
    /// program that is still running then would run for ever, and is left
    /// where it is.
    pub fn run(&mut self)
        requires
            old(self)@.program_wf(),
        ensures
            final(self)@ == old(self)@.steps(old(self)@.program.len()),
            final(self)@.halted() || forall|k: nat| !(#[trigger] old(self)@.steps(k).halted()),
            final(self).memory == old(self).memory,
            final(self).stack == old(self).stack,
            final(self).sp == old(self).sp,
    {
        let limit = self.program.len();
        let mut done: usize = 0;
        while done < limit && self.pc < self.program.len()
            invariant
                done <= limit,
                limit == old(self)@.program.len(),
                self@ == old(self)@.steps(done as nat),
                self@.program == old(self)@.program,
                self@.program_wf(),
                self.memory == old(self).memory,
                self.stack == old(self).stack,
                self.sp == old(self).sp,
            decreases limit - done,
        {
            let instruction = self.program[self.pc];
            self.do_instruction(instruction);
            done += 1;
        }
        proof {
            if done < limit {
                lemma_halted_stays(old(self)@, done as nat, limit as nat);
            }
            if !self@.halted() {
                assert forall|k: nat| !(#[trigger] old(self)@.steps(k).halted()) by {
                    lemma_run_bound(old(self)@, k);
                }
            }
        }
    }

    /// Does one instruction.
    pub fn do_instruction(&mut self, instruction: Instruction)
        requires
            instruction.wf(),
            old(self).pc < usize::MAX,
        ensures
            final(self)@ == old(self)@.after(instruction),
            final(self).memory == old(self).memory,
            final(self).stack == old(self).stack,
            final(self).sp == old(self).sp,
    {
        match instruction {
            Instruction::Jp { addr } => {
                self.pc = addr as usize;
            },
            Instruction::LdVxByte { vx, byte } => {
                self.registers[vx as usize] = byte as u8;
                self.pc += 1;
            },
            Instruction::LdVxVy { vx, vy } => {
                self.registers[vx as usize] = self.registers[vy as usize];
                self.pc += 1;
            },
            _ => {
                self.pc += 1;
            },
        }
    }
}

} // verus!
