//! Instructions as a program listing holds them: every operand a 16-bit
//! field, named after the part of the opcode it was cut from.

use vstd::prelude::*;
use crate::error::VmError;
use crate::instructions::{decode, lemma_decode_wf};

verus! {

/// One instruction of a listing.
#[derive(Debug, PartialEq, Eq, Clone, Copy, Structural)]
pub enum Instruction {
    /// Jump to location `addr`.
    Jp { addr: u16 },
    /// Jump to location `addr` + V0.
    JpV0 { addr: u16 },
    /// Call subroutine at `addr`.
    Call { addr: u16 },
    /// Return from a subroutine.
    Ret,
    /// Skip next instruction if Vx = `byte`.
    SeVxByte { vx: u16, byte: u16 },
    /// Skip next instruction if Vx != `byte`.
    SneVxByte { vx: u16, byte: u16 },
    /// Skip next instruction if Vx = Vy.
    SeVxVy { vx: u16, vy: u16 },
    /// Skip next instruction if Vx != Vy.
    SneVxVy { vx: u16, vy: u16 },
    /// Skip next instruction if the key with the value of Vx is down.
    Skp { vx: u16 },
    /// Skip next instruction if the key with the value of Vx is not down.
    Sknp { vx: u16 },
    /// Set Vx = `byte`.
    LdVxByte { vx: u16, byte: u16 },
    /// Set Vx = Vy.
    LdVxVy { vx: u16, vy: u16 },
    /// Set I = `addr`.
    LdIAddr { addr: u16 },
    /// Set Vx = delay timer.
    LdVxDt { vx: u16 },
    /// Wait for a key, store its value in Vx.
    LdK { vx: u16 },
    /// Set delay timer = Vx.
    LdDt { vx: u16 },
    /// Set sound timer = Vx.
    LdSt { vx: u16 },
    /// Set I = location of the font sprite for digit Vx.
    LdF { vx: u16 },
    /// Store the decimal digits of Vx at I, I+1 and I+2.
    LdB { vx: u16 },
    /// Store registers V0 through Vx in memory starting at location I.
    LdI { vx: u16 },
    /// Read registers V0 through Vx from memory starting at location I.
    LdIVx { vx: u16 },
    /// Set Vx = random byte AND `byte`.
    Rnd { vx: u16, byte: u16 },
    /// Set Vx = Vx + `byte`.
    AddVxByte { vx: u16, byte: u16 },
    /// Set Vx = Vx + Vy, set VF = carry.
    AddVxVy { vx: u16, vy: u16 },
    /// Set I = I + Vx.
    AddI { vx: u16 },
    /// Set Vx = Vx - Vy, set VF = NOT borrow.
    Sub { vx: u16, vy: u16 },
    /// Set Vx = Vy - Vx, set VF = NOT borrow.
    Subn { vx: u16, vy: u16 },
    /// Set Vx = Vx AND Vy.
    And { vx: u16, vy: u16 },
    /// Set Vx = Vx OR Vy.
    Or { vx: u16, vy: u16 },
    /// Set Vx = Vx XOR Vy.
    Xor { vx: u16, vy: u16 },
    /// Set Vx = Vx SHR 1, set VF = the bit shifted out.
    Shr { vx: u16 },
    /// Set Vx = Vx SHL 1, set VF = the bit shifted out.
    Shl { vx: u16 },
    /// Clear the display.
    Cls,
    /// Display the `nibble`-byte sprite at memory location I at (Vx, Vy), set VF = collision.
    Drw { vx: u16, vy: u16, nibble: u16 },
}

impl Instruction {
    /// Register operands name one of the sixteen registers, an immediate
    /// fits in a byte, an address in twelve bits, a sprite height in four.
    pub open spec fn wf(&self) -> bool {
        match *self {
            Instruction::Jp { addr } => addr <= 0xFFF,
            Instruction::JpV0 { addr } => addr <= 0xFFF,
            Instruction::Call { addr } => addr <= 0xFFF,
            Instruction::Ret => true,
            Instruction::SeVxByte { vx, byte } => vx < 16 && byte <= 0xFF,
            Instruction::SneVxByte { vx, byte } => vx < 16 && byte <= 0xFF,
            Instruction::SeVxVy { vx, vy } => vx < 16 && vy < 16,
            Instruction::SneVxVy { vx, vy } => vx < 16 && vy < 16,
            Instruction::Skp { vx } => vx < 16,
            Instruction::Sknp { vx } => vx < 16,
            Instruction::LdVxByte { vx, byte } => vx < 16 && byte <= 0xFF,
            Instruction::LdVxVy { vx, vy } => vx < 16 && vy < 16,
            Instruction::LdIAddr { addr } => addr <= 0xFFF,
            Instruction::LdVxDt { vx } => vx < 16,
            Instruction::LdK { vx } => vx < 16,
            Instruction::LdDt { vx } => vx < 16,
            Instruction::LdSt { vx } => vx < 16,
            Instruction::LdF { vx } => vx < 16,
            Instruction::LdB { vx } => vx < 16,
            Instruction::LdI { vx } => vx < 16,
            Instruction::LdIVx { vx } => vx < 16,
            Instruction::Rnd { vx, byte } => vx < 16 && byte <= 0xFF,
            Instruction::AddVxByte { vx, byte } => vx < 16 && byte <= 0xFF,
            Instruction::AddVxVy { vx, vy } => vx < 16 && vy < 16,
            Instruction::AddI { vx } => vx < 16,
            Instruction::Sub { vx, vy } => vx < 16 && vy < 16,
            Instruction::Subn { vx, vy } => vx < 16 && vy < 16,
            Instruction::And { vx, vy } => vx < 16 && vy < 16,
            Instruction::Or { vx, vy } => vx < 16 && vy < 16,
            Instruction::Xor { vx, vy } => vx < 16 && vy < 16,
            Instruction::Shr { vx } => vx < 16,
            Instruction::Shl { vx } => vx < 16,
            Instruction::Cls => true,
            Instruction::Drw { vx, vy, nibble } => vx < 16 && vy < 16 && nibble < 16,
        }
    }

    /// The listing form of a decoded instruction: the same operation with
    /// each operand widened or narrowed to sixteen bits.
    pub open spec fn of(decoded: crate::instructions::Instruction) -> Instruction {
        match decoded {
            crate::instructions::Instruction::Jp { addr } => Instruction::Jp {
                addr: addr as u16,
            },
            crate::instructions::Instruction::JpV0 { addr } => Instruction::JpV0 {
                addr: addr as u16,
            },
            crate::instructions::Instruction::Call { addr } => Instruction::Call {
                addr: addr as u16,
            },
            crate::instructions::Instruction::Ret => Instruction::Ret,
            crate::instructions::Instruction::SeVxByte { x, byte } => Instruction::SeVxByte {
                vx: x as u16,
                byte: byte as u16,
            },
            crate::instructions::Instruction::SneVxByte { x, byte } => Instruction::SneVxByte {
                vx: x as u16,
                byte: byte as u16,
            },
            crate::instructions::Instruction::SeVxVy { x, y } => Instruction::SeVxVy {
                vx: x as u16,
                vy: y as u16,
            },
            crate::instructions::Instruction::SneVxVy { x, y } => Instruction::SneVxVy {
                vx: x as u16,
                vy: y as u16,
            },
            crate::instructions::Instruction::Skp { x } => Instruction::Skp {
                vx: x as u16,
            },
            crate::instructions::Instruction::Sknp { x } => Instruction::Sknp {
                vx: x as u16,
            },
            crate::instructions::Instruction::LdVxByte { x, byte } => Instruction::LdVxByte {
                vx: x as u16,
                byte: byte as u16,
            },
            crate::instructions::Instruction::LdVxVy { x, y } => Instruction::LdVxVy {
                vx: x as u16,
                vy: y as u16,
            },
            crate::instructions::Instruction::LdIAddr { addr } => Instruction::LdIAddr {
                addr: addr as u16,
            },
            crate::instructions::Instruction::LdVxDt { x } => Instruction::LdVxDt {
                vx: x as u16,
            },
            crate::instructions::Instruction::LdK { x } => Instruction::LdK {
                vx: x as u16,
            },
            crate::instructions::Instruction::LdDt { x } => Instruction::LdDt {
                vx: x as u16,
            },
            crate::instructions::Instruction::LdSt { x } => Instruction::LdSt {
                vx: x as u16,
            },
            crate::instructions::Instruction::LdF { x } => Instruction::LdF {
                vx: x as u16,
            },
            crate::instructions::Instruction::LdB { x } => Instruction::LdB {
                vx: x as u16,
            },
            crate::instructions::Instruction::LdI { x } => Instruction::LdI {
                vx: x as u16,
            },
            crate::instructions::Instruction::LdIVx { x } => Instruction::LdIVx {
                vx: x as u16,
            },
            crate::instructions::Instruction::Rnd { x, byte } => Instruction::Rnd {
                vx: x as u16,
                byte: byte as u16,
            },
            crate::instructions::Instruction::AddVxByte { x, byte } => Instruction::AddVxByte {
                vx: x as u16,
                byte: byte as u16,
            },
            crate::instructions::Instruction::AddVxVy { x, y } => Instruction::AddVxVy {
                vx: x as u16,
                vy: y as u16,
            },
            crate::instructions::Instruction::AddI { x } => Instruction::AddI {
                vx: x as u16,
            },
            crate::instructions::Instruction::Sub { x, y } => Instruction::Sub {
                vx: x as u16,
                vy: y as u16,
            },
            crate::instructions::Instruction::Subn { x, y } => Instruction::Subn {
                vx: x as u16,
                vy: y as u16,
            },
            crate::instructions::Instruction::And { x, y } => Instruction::And {
                vx: x as u16,
                vy: y as u16,
            },
            crate::instructions::Instruction::Or { x, y } => Instruction::Or {
                vx: x as u16,
                vy: y as u16,
            },
            crate::instructions::Instruction::Xor { x, y } => Instruction::Xor {
                vx: x as u16,
                vy: y as u16,
            },
            crate::instructions::Instruction::Shr { x } => Instruction::Shr {
                vx: x as u16,
            },
            crate::instructions::Instruction::Shl { x } => Instruction::Shl {
                vx: x as u16,
            },
            crate::instructions::Instruction::Cls => Instruction::Cls,
            crate::instructions::Instruction::Drw { x, y, nibble } => Instruction::Drw {
                vx: x as u16,
                vy: y as u16,
                nibble: nibble as u16,
            },
        }
    }

    /// Puts a decoded instruction in listing form.
    pub fn from_decoded(decoded: crate::instructions::Instruction) -> (listed: Instruction)
        requires
            decoded.wf(),
        ensures
            listed == Instruction::of(decoded),
            listed.wf(),
    {
        match decoded {
            crate::instructions::Instruction::Jp { addr } => Instruction::Jp {
                addr: addr as u16,
            },
            crate::instructions::Instruction::JpV0 { addr } => Instruction::JpV0 {
                addr: addr as u16,
            },
            crate::instructions::Instruction::Call { addr } => Instruction::Call {
                addr: addr as u16,
            },
            crate::instructions::Instruction::Ret => Instruction::Ret,
            crate::instructions::Instruction::SeVxByte { x, byte } => Instruction::SeVxByte {
                vx: x as u16,
                byte: byte as u16,
            },
            crate::instructions::Instruction::SneVxByte { x, byte } => Instruction::SneVxByte {
                vx: x as u16,
                byte: byte as u16,
            },
            crate::instructions::Instruction::SeVxVy { x, y } => Instruction::SeVxVy {
                vx: x as u16,
                vy: y as u16,
            },
            crate::instructions::Instruction::SneVxVy { x, y } => Instruction::SneVxVy {
                vx: x as u16,
                vy: y as u16,
            },
            crate::instructions::Instruction::Skp { x } => Instruction::Skp {
                vx: x as u16,
            },
            crate::instructions::Instruction::Sknp { x } => Instruction::Sknp {
                vx: x as u16,
            },
            crate::instructions::Instruction::LdVxByte { x, byte } => Instruction::LdVxByte {
                vx: x as u16,
                byte: byte as u16,
            },
            crate::instructions::Instruction::LdVxVy { x, y } => Instruction::LdVxVy {
                vx: x as u16,
                vy: y as u16,
            },
            crate::instructions::Instruction::LdIAddr { addr } => Instruction::LdIAddr {
                addr: addr as u16,
            },
            crate::instructions::Instruction::LdVxDt { x } => Instruction::LdVxDt {
                vx: x as u16,
            },
            crate::instructions::Instruction::LdK { x } => Instruction::LdK {
                vx: x as u16,
            },
            crate::instructions::Instruction::LdDt { x } => Instruction::LdDt {
                vx: x as u16,
            },
            crate::instructions::Instruction::LdSt { x } => Instruction::LdSt {
                vx: x as u16,
            },
            crate::instructions::Instruction::LdF { x } => Instruction::LdF {
                vx: x as u16,
            },
            crate::instructions::Instruction::LdB { x } => Instruction::LdB {
                vx: x as u16,
            },
            crate::instructions::Instruction::LdI { x } => Instruction::LdI {
                vx: x as u16,
            },
            crate::instructions::Instruction::LdIVx { x } => Instruction::LdIVx {
                vx: x as u16,
            },
            crate::instructions::Instruction::Rnd { x, byte } => Instruction::Rnd {
                vx: x as u16,
                byte: byte as u16,
            },
            crate::instructions::Instruction::AddVxByte { x, byte } => Instruction::AddVxByte {
                vx: x as u16,
                byte: byte as u16,
            },
            crate::instructions::Instruction::AddVxVy { x, y } => Instruction::AddVxVy {
                vx: x as u16,
                vy: y as u16,
            },
            crate::instructions::Instruction::AddI { x } => Instruction::AddI {
                vx: x as u16,
            },
            crate::instructions::Instruction::Sub { x, y } => Instruction::Sub {
                vx: x as u16,
                vy: y as u16,
            },
            crate::instructions::Instruction::Subn { x, y } => Instruction::Subn {
                vx: x as u16,
                vy: y as u16,
            },
            crate::instructions::Instruction::And { x, y } => Instruction::And {
                vx: x as u16,
                vy: y as u16,
            },
            crate::instructions::Instruction::Or { x, y } => Instruction::Or {
                vx: x as u16,
                vy: y as u16,
            },
            crate::instructions::Instruction::Xor { x, y } => Instruction::Xor {
                vx: x as u16,
                vy: y as u16,
            },
            crate::instructions::Instruction::Shr { x } => Instruction::Shr {
                vx: x as u16,
            },
            crate::instructions::Instruction::Shl { x } => Instruction::Shl {
                vx: x as u16,
            },
            crate::instructions::Instruction::Cls => Instruction::Cls,
            crate::instructions::Instruction::Drw { x, y, nibble } => Instruction::Drw {
                vx: x as u16,
                vy: y as u16,
                nibble: nibble as u16,
            },
        }
    }
}

/// Whether every opcode of `opcodes` encodes an instruction.
pub open spec fn all_known(opcodes: Seq<u16>) -> bool {
    forall|k: int| 0 <= k < opcodes.len() ==> decode(#[trigger] opcodes[k]) is Some
}

/// Whether the opcode at index `k` is the first of `opcodes` that encodes
/// no instruction.
pub open spec fn first_unknown(opcodes: Seq<u16>, k: int) -> bool {
    &&& 0 <= k < opcodes.len()
    &&& decode(opcodes[k]) is None
    &&& forall|j: int| 0 <= j < k ==> decode(#[trigger] opcodes[j]) is Some
}

/// The listing of `opcodes`, where each of them encodes an instruction: for
/// every opcode the instruction that it encodes, at the same index.
pub open spec fn listing(opcodes: Seq<u16>) -> Seq<Instruction> {
    Seq::new(opcodes.len(), |k: int| Instruction::of(decode(opcodes[k]).unwrap()))
}

/// Every instruction of a listing has its operands in range.
pub proof fn lemma_listing_wf(opcodes: Seq<u16>)
    requires
        all_known(opcodes),
    ensures
        forall|k: int| 0 <= k < listing(opcodes).len() ==> (#[trigger] listing(opcodes)[k]).wf(),
{
    assert forall|k: int| 0 <= k < listing(opcodes).len() implies (#[trigger] listing(
        opcodes,
    )[k]).wf() by {
        assert(decode(opcodes[k]) is Some);
        lemma_decode_wf(opcodes[k]);
    }
}

/// Decodes `opcodes` into a listing with one instruction for each opcode.
///
/// An opcode that encodes no instruction is an error: the first such opcode
/// is reported and there is no listing.
pub fn parse_instructions_from_opcodes(opcodes: &[u16]) -> (r: Result<Vec<Instruction>, VmError>)
    ensures
        all_known(opcodes@) ==> (r matches Ok(instructions) && instructions@ == listing(opcodes@)
            && forall|k: int|
            0 <= k < instructions@.len() ==> (#[trigger] instructions@[k]).wf()),
        forall|k: int|
            #![trigger opcodes@[k]]
            first_unknown(opcodes@, k) ==> r == Err::<Vec<Instruction>, VmError>(
                VmError::UnknownInstruction { opcode: opcodes@[k] },
            ),
{
    let mut instructions: Vec<Instruction> = Vec::new();
    let mut k: usize = 0;
    while k < opcodes.len()
        invariant
            k <= opcodes@.len(),
            forall|j: int| 0 <= j < k ==> decode(#[trigger] opcodes@[j]) is Some,
            instructions@ == listing(opcodes@.take(k as int)),
        decreases opcodes@.len() - k,
    {
        match crate::instructions::Instruction::from_opcode(opcodes[k]) {
            Ok(decoded) => {
                instructions.push(Instruction::from_decoded(decoded));
            },
            Err(e) => {
                proof {
                    assert(first_unknown(opcodes@, k as int));
                }
                return Err(e);
            },
        }
        proof {
            assert(instructions@ == listing(opcodes@.take(k + 1)));
        }
        k += 1;
    }
    proof {
        assert(opcodes@.take(k as int) == opcodes@);
        lemma_listing_wf(opcodes@);
    }
    Ok(instructions)
}

} // verus!
