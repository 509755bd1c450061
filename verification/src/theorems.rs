//! What holds of the machine whatever the program: the invariant that every
//! step keeps, and how instructions act together.

use vstd::prelude::*;
use crate::instructions::{decode, lemma_decode_wf, Instruction};
use crate::machine::{flag, initial_state, wrap, MachineState, VF};
use crate::memory::{MEMORY_PROGRAM_SIZE, MEMORY_SIZE};
use crate::stack::STACK_SIZE;

verus! {

/// The newly powered machine satisfies the invariant.
pub proof fn lemma_initial_state_wf()
    ensures
        initial_state().wf(),
{
}

/// Loading a program that fits keeps the invariant.
pub proof fn lemma_load_keeps_wf(s: MachineState, program: Seq<u8>)
    requires
        s.wf(),
        program.len() <= MEMORY_PROGRAM_SIZE,
    ensures
        s.load(program).wf(),
{
}

/// Every instruction keeps the invariant: afterwards the program counter
/// and the index register still fit in twelve bits and the call stack is
/// still at most sixteen deep, whether the instruction failed or not.
pub proof fn lemma_execute_keeps_wf(s: MachineState, instruction: Instruction, random: u8)
    requires
        s.wf(),
        instruction.wf(),
    ensures
        s.execute(instruction, random).state.wf(),
{
}

/// Every cycle keeps the invariant.
pub proof fn lemma_cycle_keeps_wf(s: MachineState, random: u8)
    requires
        s.wf(),
    ensures
        s.cycle(random).state.wf(),
{
    lemma_decode_wf(s.opcode());
    match decode(s.opcode()) {
        Some(instruction) => {
            lemma_execute_keeps_wf(s, instruction, random);
        },
        None => {},
    }
}

/// Any number of cycles keeps the invariant.
pub proof fn lemma_cycles_keep_wf(s: MachineState, randoms: Seq<u8>)
    requires
        s.wf(),
    ensures
        s.cycles(randoms).state.wf(),
    decreases randoms.len(),
{
    if randoms.len() > 0 {
        lemma_cycles_keep_wf(s, randoms.drop_last());
        let before = s.cycles(randoms.drop_last());
        if before.error is None {
            lemma_cycle_keeps_wf(before.state, randoms.last());
        }
    }
}

/// A whole frame keeps the invariant.
pub proof fn lemma_frame_keeps_wf(s: MachineState, randoms: Seq<u8>)
    requires
        s.wf(),
    ensures
        s.frame(randoms).state.wf(),
{
    lemma_cycles_keep_wf(s, randoms);
}

/// The random byte matters to the random instruction alone: any other
/// instruction has one outcome whatever the byte.
pub proof fn lemma_random_matters_to_rnd_alone(
    s: MachineState,
    instruction: Instruction,
    first: u8,
    second: u8,
)
    requires
        !(instruction is Rnd),
    ensures
        s.execute(instruction, first) == s.execute(instruction, second),
{
}

/// The random instruction leaves in Vx no bit that the mask does not have.
pub proof fn lemma_random_is_masked(s: MachineState, x: usize, byte: u8, random: u8)
    requires
        s.wf(),
        x < 16,
    ensures
        ({
            let value = s.execute(Instruction::Rnd { x, byte }, random).state.v[x as int];
            value & byte == value && value <= byte
        }),
{
    assert((random & byte) & byte == random & byte && random & byte <= byte) by (bit_vector);
}

/// After the clear instruction every pixel is dark, the program counter is
/// on the next instruction, and nothing else has changed.
pub proof fn lemma_clear_darkens(s: MachineState, random: u8)
    requires
        s.wf(),
    ensures
        s.execute(Instruction::Cls, random).error is None,
        s.execute(Instruction::Cls, random).state.pixels.len() == s.pixels.len(),
        forall|p: int|
            0 <= p < s.pixels.len() ==> !(#[trigger] s.execute(Instruction::Cls, random).state.pixels[p]),
        s.execute(Instruction::Cls, random).state == (MachineState {
            pixels: s.execute(Instruction::Cls, random).state.pixels,
            pc: wrap(s.pc + 2),
            ..s
        }),
{
}

/// A return sets the program counter to the newest return address, as it
/// is, and takes that address off the call stack. The older return addresses
/// stay, and so does everything else.
pub proof fn lemma_return_takes_top(s: MachineState, random: u8)
    requires
        s.wf(),
        s.stack.len() > 0,
    ensures
        s.execute(Instruction::Ret, random).error is None,
        s.execute(Instruction::Ret, random).state.pc == s.stack.last(),
        s.execute(Instruction::Ret, random).state.stack == s.stack.drop_last(),
        s.execute(Instruction::Ret, random).state.stack.len() == s.stack.len() - 1,
        forall|k: int|
            0 <= k < s.stack.len() - 1 ==> s.execute(Instruction::Ret, random).state.stack[k]
                == #[trigger] s.stack[k],
        s.execute(Instruction::Ret, random).state == (MachineState {
            pc: s.stack.last(),
            stack: s.stack.drop_last(),
            ..s
        }),
{
}

/// A call puts the address of the instruction after it on top of the call
/// stack, above what was there.
pub proof fn lemma_call_pushes_return_address(s: MachineState, addr: usize, random: u8)
    requires
        s.wf(),
        addr < MEMORY_SIZE,
        s.stack.len() < STACK_SIZE,
    ensures
        s.execute(Instruction::Call { addr }, random).error is None,
        s.execute(Instruction::Call { addr }, random).state.pc == addr,
        s.execute(Instruction::Call { addr }, random).state.stack == s.stack.push(
            wrap(s.pc + 2),
        ),
{
}

/// Only a call and a return touch the call stack. So the top of the call
/// stack is always the address pushed by the newest call that has not
/// returned yet.
pub proof fn lemma_others_keep_stack(s: MachineState, instruction: Instruction, random: u8)
    requires
        s.wf(),
        instruction.wf(),
        !(instruction is Call),
        !(instruction is Ret),
    ensures
        s.execute(instruction, random).state.stack == s.stack,
{
}

/// A call followed at once by a return goes on after the call, with the
/// call stack as it was.
pub proof fn lemma_call_then_return(s: MachineState, addr: usize, random: u8)
    requires
        s.wf(),
        addr < MEMORY_SIZE,
        s.stack.len() < STACK_SIZE,
    ensures
        ({
            let called = s.execute(Instruction::Call { addr }, random).state;
            let returned = called.execute(Instruction::Ret, random);
            &&& returned.error is None
            &&& returned.state.pc == wrap(s.pc + 2)
            &&& returned.state.stack == s.stack
        }),
{
    let called = s.execute(Instruction::Call { addr }, random).state;
    assert(called.stack.drop_last() == s.stack);
}

/// A second draw undoes the first: where the display is as the first draw
/// left it, and I, the bytes of the sprite and the two coordinate registers
/// are as they were, drawing the same sprite again gives back the display
/// from before the first draw, pixel for pixel.
pub proof fn lemma_draw_undoes(s: MachineState, t: MachineState, x: usize, y: usize, n: u8)
    requires
        s.wf(),
        t.wf(),
        x < 16,
        y < 16,
        n < 16,
        t.pixels == s.draw(x, y, n).pixels,
        t.i == s.i,
        forall|row: int|
            0 <= row < n ==> t.memory[#[trigger] wrap(s.i + row) as int] == s.memory[wrap(
                s.i + row,
            ) as int],
        x != VF ==> t.v[x as int] == s.v[x as int],
        y != VF ==> t.v[y as int] == s.v[y as int],
    ensures
        t.draw(x, y, n).pixels == s.pixels,
{
    let sx = s.with_v(VF, 0).v[x as int] as int % 64;
    let sy = s.with_v(VF, 0).v[y as int] as int % 32;
    assert(t.with_v(VF, 0).v[x as int] == s.with_v(VF, 0).v[x as int]);
    assert(t.with_v(VF, 0).v[y as int] == s.with_v(VF, 0).v[y as int]);
    assert forall|p: int| 0 <= p < s.pixels.len() implies t.draw(x, y, n).pixels[p]
        == s.pixels[p] by {
        let row = (p / 64 - sy) % 32;
        if 0 <= row < n {
            assert(t.memory[wrap(s.i + row) as int] == s.memory[wrap(s.i + row) as int]);
        }
        assert(t.sprite_at(sx, sy, n as int, p) == s.sprite_at(sx, sy, n as int, p));
    }
}

/// Drawing the same sprite twice in a row leaves the display as it was:
/// drawing is a pure exclusive or.
pub proof fn lemma_draw_twice(s: MachineState, x: usize, y: usize, n: u8, random: u8)
    requires
        s.wf(),
        x < 16,
        y < 16,
        n < 16,
    ensures
        s.draw(x, y, n).draw(x, y, n).pixels == s.pixels,
        ({
            let once = s.execute(Instruction::Drw { x, y, nibble: n }, random).state;
            once.execute(Instruction::Drw { x, y, nibble: n }, random).state.pixels == s.pixels
        }),
{
    let once = s.draw(x, y, n);
    let twice = once.draw(x, y, n);
    assert(once.with_v(VF, 0).v == s.with_v(VF, 0).v);
    let cleared = s.with_v(VF, 0);
    let sx = cleared.v[x as int] as int % 64;
    let sy = cleared.v[y as int] as int % 32;
    assert forall|p: int| 0 <= p < s.pixels.len() implies twice.pixels[p] == s.pixels[p] by {
        assert(once.sprite_at(sx, sy, n as int, p) == s.sprite_at(sx, sy, n as int, p));
    }
    assert(twice.pixels == s.pixels);
    let once_e = s.execute(Instruction::Drw { x, y, nibble: n }, random).state;
    assert(once_e == once.advance());
    assert(once_e.draw(x, y, n).pixels == twice.pixels) by {
        assert(once_e.with_v(VF, 0).v == once.with_v(VF, 0).v);
        assert forall|p: int| 0 <= p < s.pixels.len() implies once_e.sprite_at(
            sx,
            sy,
            n as int,
            p,
        ) == once.sprite_at(sx, sy, n as int, p) by {}
    }
}

/// After adding Vy to Vx, VF is one exactly if the sum of the two registers
/// as they were did not fit in a byte, and zero otherwise.
pub proof fn lemma_add_sets_carry(s: MachineState, x: usize, y: usize, random: u8)
    requires
        s.wf(),
        x < 16,
        y < 16,
    ensures
        s.execute(Instruction::AddVxVy { x, y }, random).state.v[VF as int] == flag(
            s.v[x as int] + s.v[y as int] >= 256,
        ),
{
}

/// After subtracting Vy from Vx, VF is one exactly if Vx was at least Vy,
/// and zero otherwise.
pub proof fn lemma_sub_sets_not_borrow(s: MachineState, x: usize, y: usize, random: u8)
    requires
        s.wf(),
        x < 16,
        y < 16,
    ensures
        s.execute(Instruction::Sub { x, y }, random).state.v[VF as int] == flag(
            s.v[x as int] >= s.v[y as int],
        ),
{
}

/// After subtracting Vx from Vy into Vx, VF is one exactly if Vy was at
/// least Vx, and zero otherwise.
pub proof fn lemma_subn_sets_not_borrow(s: MachineState, x: usize, y: usize, random: u8)
    requires
        s.wf(),
        x < 16,
        y < 16,
    ensures
        s.execute(Instruction::Subn { x, y }, random).state.v[VF as int] == flag(
            s.v[y as int] >= s.v[x as int],
        ),
{
}

/// After a shift to the right VF is the lowest bit that Vx had, after a
/// shift to the left the highest.
pub proof fn lemma_shift_sets_lost_bit(s: MachineState, x: usize, random: u8)
    requires
        s.wf(),
        x < 16,
    ensures
        s.execute(Instruction::Shr { x }, random).state.v[VF as int] == s.v[x as int] % 2,
        s.execute(Instruction::Shl { x }, random).state.v[VF as int] == s.v[x as int] / 128,
{
}

/// Registers stored from I on come back when they are loaded again: where
/// the bytes that the store wrote are still in memory and I is as it was,
/// loading V0 to Vx gives each of them the value it had when it was stored,
/// whatever the registers held in between. The registers above Vx, memory
/// and I stay as they are.
pub proof fn lemma_load_restores_stored(s: MachineState, t: MachineState, x: usize)
    requires
        s.wf(),
        t.wf(),
        x < 16,
        forall|k: int|
            0 <= k <= x ==> t.memory[#[trigger] wrap(s.i + k) as int] == s.store_registers(
                x,
            ).memory[wrap(s.i + k) as int],
        t.i == s.i,
    ensures
        forall|k: int| 0 <= k <= x ==> #[trigger] t.load_registers(x).v[k] == s.v[k],
        forall|k: int| x < k < 16 ==> #[trigger] t.load_registers(x).v[k] == t.v[k],
        t.load_registers(x).v.len() == 16,
        t.load_registers(x) == (MachineState { v: t.load_registers(x).v, ..t }),
{
    assert forall|k: int| 0 <= k <= x implies #[trigger] t.load_registers(x).v[k] == s.v[k] by {
        let a = wrap(s.i + k) as int;
        assert((a - s.i) % (MEMORY_SIZE as int) == k);
    }
}

/// Storing V0 to Vx and loading them at once leaves every register as it
/// was.
pub proof fn lemma_store_then_load(s: MachineState, x: usize, random: u8)
    requires
        s.wf(),
        x < 16,
    ensures
        ({
            let stored = s.execute(Instruction::LdI { x }, random).state;
            stored.execute(Instruction::LdIVx { x }, random).state.v == s.v
        }),
{
    let stored = s.execute(Instruction::LdI { x }, random).state;
    lemma_execute_keeps_wf(s, Instruction::LdI { x }, random);
    lemma_load_restores_stored(s, stored, x);
    let loaded = stored.execute(Instruction::LdIVx { x }, random).state;
    assert forall|k: int| 0 <= k < 16 implies loaded.v[k] == s.v[k] by {
        if k <= x {
            assert(stored.load_registers(x).v[k] == s.v[k]);
        }
    }
}

/// The three bytes that the decimal store writes are the digits of the
/// value: each is at most nine, and hundreds, tens and ones make up the
/// value again. Every other byte of memory stays, and so does all else.
pub proof fn lemma_digits_make_value(s: MachineState, value: u8)
    requires
        s.wf(),
    ensures
        ({
            let m = s.store_digits(value).memory;
            let hundreds = m[wrap(s.i as int) as int];
            let tens = m[wrap(s.i + 1) as int];
            let ones = m[wrap(s.i + 2) as int];
            &&& hundreds <= 9
            &&& tens <= 9
            &&& ones <= 9
            &&& hundreds * 100 + tens * 10 + ones == value
            &&& m.len() == s.memory.len()
            &&& forall|a: int|
                0 <= a < m.len() && a != wrap(s.i as int) && a != wrap(s.i + 1) && a != wrap(
                    s.i + 2,
                ) ==> #[trigger] m[a] == s.memory[a]
            &&& s.store_digits(value) == (MachineState { memory: m, ..s })
        }),
{
}

} // verus!
