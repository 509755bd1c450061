//! The instruction set and its decoder.
//!
//! An opcode is sixteen bits, read as four nibbles `n1 n2 n3 n4`. The first
//! nibble selects the family; the others are operands: `x = n2` and `y = n3`
//! name registers, `n = n4` is a small count, `kk` is the low byte and `nnn`
//! the low twelve bits.

use vstd::prelude::*;
use crate::error::VmError;

verus! {

/// One decoded instruction with its operands.
#[derive(Debug, PartialEq, Eq, Clone, Copy, Structural)]
pub enum Instruction {
    /// Jump to location `addr`.
    Jp { addr: usize },
    /// Jump to location `addr` + V0.
    JpV0 { addr: usize },
    /// Call subroutine at `addr`.
    Call { addr: usize },
    /// Return from a subroutine.
    Ret,
    /// Skip next instruction if Vx = `byte`.
    SeVxByte { x: usize, byte: u8 },
    /// Skip next instruction if Vx != `byte`.
    SneVxByte { x: usize, byte: u8 },
    /// Skip next instruction if Vx = Vy.
    SeVxVy { x: usize, y: usize },
    /// Skip next instruction if Vx != Vy.
    SneVxVy { x: usize, y: usize },
    /// Skip next instruction if the key with the value of Vx is down.
    Skp { x: usize },
    /// Skip next instruction if the key with the value of Vx is not down.
    Sknp { x: usize },
    /// Set Vx = `byte`.
    LdVxByte { x: usize, byte: u8 },
    /// Set Vx = Vy.
    LdVxVy { x: usize, y: usize },
    /// Set I = `addr`.
    LdIAddr { addr: usize },
    /// Set Vx = delay timer.
    LdVxDt { x: usize },
    /// Wait for a key, store its value in Vx.
    LdK { x: usize },
    /// Set delay timer = Vx.
    LdDt { x: usize },
    /// Set sound timer = Vx.
    LdSt { x: usize },
    /// Set I = location of the font sprite for digit Vx.
    LdF { x: usize },
    /// Store the decimal digits of Vx at I, I+1 and I+2.
    LdB { x: usize },
    /// Store registers V0 through Vx in memory starting at location I.
    LdI { x: usize },
    /// Read registers V0 through Vx from memory starting at location I.
    LdIVx { x: usize },
    /// Set Vx = random byte AND `byte`.
    Rnd { x: usize, byte: u8 },
    /// Set Vx = Vx + `byte`.
    AddVxByte { x: usize, byte: u8 },
    /// Set Vx = Vx + Vy, set VF = carry.
    AddVxVy { x: usize, y: usize },
    /// Set I = I + Vx.
    AddI { x: usize },
    /// Set Vx = Vx - Vy, set VF = NOT borrow.
    Sub { x: usize, y: usize },
    /// Set Vx = Vy - Vx, set VF = NOT borrow.
    Subn { x: usize, y: usize },
    /// Set Vx = Vx AND Vy.
    And { x: usize, y: usize },
    /// Set Vx = Vx OR Vy.
    Or { x: usize, y: usize },
    /// Set Vx = Vx XOR Vy.
    Xor { x: usize, y: usize },
    /// Set Vx = Vx SHR 1, set VF = the bit shifted out.
    Shr { x: usize },
    /// Set Vx = Vx SHL 1, set VF = the bit shifted out.
    Shl { x: usize },
    /// Clear the display.
    Cls,
    /// Display the `nibble`-byte sprite at memory location I at (Vx, Vy),
    /// set VF = collision.
    Drw { x: usize, y: usize, nibble: u8 },
}

impl Instruction {
    /// Register operands name one of the sixteen registers, addresses fit in
    /// twelve bits and a sprite height fits in four.
    pub open spec fn wf(&self) -> bool {
        match *self {
            Instruction::Jp { addr } => addr <= 0xFFF,
            Instruction::JpV0 { addr } => addr <= 0xFFF,
            Instruction::Call { addr } => addr <= 0xFFF,
            Instruction::Ret => true,
            Instruction::SeVxByte { x, byte } => x < 16,
            Instruction::SneVxByte { x, byte } => x < 16,
            Instruction::SeVxVy { x, y } => x < 16 && y < 16,
            Instruction::SneVxVy { x, y } => x < 16 && y < 16,
            Instruction::Skp { x } => x < 16,
            Instruction::Sknp { x } => x < 16,
            Instruction::LdVxByte { x, byte } => x < 16,
            Instruction::LdVxVy { x, y } => x < 16 && y < 16,
            Instruction::LdIAddr { addr } => addr <= 0xFFF,
            Instruction::LdVxDt { x } => x < 16,
            Instruction::LdK { x } => x < 16,
            Instruction::LdDt { x } => x < 16,
            Instruction::LdSt { x } => x < 16,
            Instruction::LdF { x } => x < 16,
            Instruction::LdB { x } => x < 16,
            Instruction::LdI { x } => x < 16,
            Instruction::LdIVx { x } => x < 16,
            Instruction::Rnd { x, byte } => x < 16,
            Instruction::AddVxByte { x, byte } => x < 16,
            Instruction::AddVxVy { x, y } => x < 16 && y < 16,
            Instruction::AddI { x } => x < 16,
            Instruction::Sub { x, y } => x < 16 && y < 16,
            Instruction::Subn { x, y } => x < 16 && y < 16,
            Instruction::And { x, y } => x < 16 && y < 16,
            Instruction::Or { x, y } => x < 16 && y < 16,
            Instruction::Xor { x, y } => x < 16 && y < 16,
            Instruction::Shr { x } => x < 16,
            Instruction::Shl { x } => x < 16,
            Instruction::Cls => true,
            Instruction::Drw { x, y, nibble } => x < 16 && y < 16 && nibble < 16,
        }
    }

    /// Decodes `op`, or reports it as unknown.
    pub fn from_opcode(op: u16) -> (r: Result<Instruction, VmError>)
        ensures
            r == match decode(op) {
                Some(instruction) => Ok::<Instruction, VmError>(instruction),
                None => Err::<Instruction, VmError>(VmError::UnknownInstruction { opcode: op }),
            },
            r matches Ok(instruction) ==> instruction.wf(),
    {
        let x = ((op & 0x0F00) >> 8) as usize;
        let y = ((op & 0x00F0) >> 4) as usize;
        let byte = (op & 0x00FF) as u8;
        let addr = (op & 0x0FFF) as usize;
        let e = (op & 0x000F) as u8;
        proof {
            lemma_fields(op);
        }
        let unknown = Err(VmError::UnknownInstruction { opcode: op });
        match op & 0xF000 {
            0x0000 => match op {
                0x00E0 => Ok(Instruction::Cls),
                0x00EE => Ok(Instruction::Ret),
                _ => unknown,
            },
            0x1000 => Ok(Instruction::Jp { addr }),
            0x2000 => Ok(Instruction::Call { addr }),
            0x3000 => Ok(Instruction::SeVxByte { x, byte }),
            0x4000 => Ok(Instruction::SneVxByte { x, byte }),
            0x5000 => Ok(Instruction::SeVxVy { x, y }),
            0x6000 => Ok(Instruction::LdVxByte { x, byte }),
            0x7000 => Ok(Instruction::AddVxByte { x, byte }),
            0x8000 => match e {
                0x0 => Ok(Instruction::LdVxVy { x, y }),
                0x1 => Ok(Instruction::Or { x, y }),
                0x2 => Ok(Instruction::And { x, y }),
                0x3 => Ok(Instruction::Xor { x, y }),
                0x4 => Ok(Instruction::AddVxVy { x, y }),
                0x5 => Ok(Instruction::Sub { x, y }),
                0x6 => Ok(Instruction::Shr { x }),
                0x7 => Ok(Instruction::Subn { x, y }),
                0xE => Ok(Instruction::Shl { x }),
                _ => unknown,
            },
            0x9000 => match e {
                0x0 => Ok(Instruction::SneVxVy { x, y }),
                _ => unknown,
            },
            0xA000 => Ok(Instruction::LdIAddr { addr }),
            0xB000 => Ok(Instruction::JpV0 { addr }),
            0xC000 => Ok(Instruction::Rnd { x, byte }),
            0xD000 => Ok(Instruction::Drw { x, y, nibble: e }),
            0xE000 => match byte {
                0x9E => Ok(Instruction::Skp { x }),
                0xA1 => Ok(Instruction::Sknp { x }),
                _ => unknown,
            },
            0xF000 => match byte {
                0x07 => Ok(Instruction::LdVxDt { x }),
                0x0A => Ok(Instruction::LdK { x }),
                0x15 => Ok(Instruction::LdDt { x }),
                0x18 => Ok(Instruction::LdSt { x }),
                0x1E => Ok(Instruction::AddI { x }),
                0x29 => Ok(Instruction::LdF { x }),
                0x33 => Ok(Instruction::LdB { x }),
                0x55 => Ok(Instruction::LdI { x }),
                0x65 => Ok(Instruction::LdIVx { x }),
                _ => unknown,
            },
            _ => unknown,
        }
    }
}

/// The first nibble of `op`: the instruction family.
pub open spec fn family(op: u16) -> int {
    op as int / 0x1000
}

/// The second nibble of `op`: a register index.
pub open spec fn field_x(op: u16) -> usize {
    ((op as int / 0x100) % 0x10) as usize
}

/// The third nibble of `op`: a register index.
pub open spec fn field_y(op: u16) -> usize {
    ((op as int / 0x10) % 0x10) as usize
}

/// The fourth nibble of `op`.
pub open spec fn field_n(op: u16) -> u8 {
    (op as int % 0x10) as u8
}

/// The low byte of `op`: an immediate value.
pub open spec fn field_kk(op: u16) -> u8 {
    (op as int % 0x100) as u8
}

/// The low twelve bits of `op`: an address.
pub open spec fn field_nnn(op: u16) -> usize {
    (op as int % 0x1000) as usize
}

/// The instruction that `op` encodes, if it encodes one.
pub open spec fn decode(op: u16) -> Option<Instruction> {
    let x = field_x(op);
    let y = field_y(op);
    let n = field_n(op);
    let kk = field_kk(op);
    let nnn = field_nnn(op);
    let f = family(op);
    if op == 0x00E0 {
        Some(Instruction::Cls)
    } else if op == 0x00EE {
        Some(Instruction::Ret)
    } else if f == 0x1 {
        Some(Instruction::Jp { addr: nnn })
    } else if f == 0x2 {
        Some(Instruction::Call { addr: nnn })
    } else if f == 0x3 {
        Some(Instruction::SeVxByte { x, byte: kk })
    } else if f == 0x4 {
        Some(Instruction::SneVxByte { x, byte: kk })
    } else if f == 0x5 {
        Some(Instruction::SeVxVy { x, y })
    } else if f == 0x6 {
        Some(Instruction::LdVxByte { x, byte: kk })
    } else if f == 0x7 {
        Some(Instruction::AddVxByte { x, byte: kk })
    } else if f == 0x8 && n == 0x0 {
        Some(Instruction::LdVxVy { x, y })
    } else if f == 0x8 && n == 0x1 {
        Some(Instruction::Or { x, y })
    } else if f == 0x8 && n == 0x2 {
        Some(Instruction::And { x, y })
    } else if f == 0x8 && n == 0x3 {
        Some(Instruction::Xor { x, y })
    } else if f == 0x8 && n == 0x4 {
        Some(Instruction::AddVxVy { x, y })
    } else if f == 0x8 && n == 0x5 {
        Some(Instruction::Sub { x, y })
    } else if f == 0x8 && n == 0x6 {
        Some(Instruction::Shr { x })
    } else if f == 0x8 && n == 0x7 {
        Some(Instruction::Subn { x, y })
    } else if f == 0x8 && n == 0xE {
        Some(Instruction::Shl { x })
    } else if f == 0x9 && n == 0x0 {
        Some(Instruction::SneVxVy { x, y })
    } else if f == 0xA {
        Some(Instruction::LdIAddr { addr: nnn })
    } else if f == 0xB {
        Some(Instruction::JpV0 { addr: nnn })
    } else if f == 0xC {
        Some(Instruction::Rnd { x, byte: kk })
    } else if f == 0xD {
        Some(Instruction::Drw { x, y, nibble: n })
    } else if f == 0xE && kk == 0x9E {
        Some(Instruction::Skp { x })
    } else if f == 0xE && kk == 0xA1 {
        Some(Instruction::Sknp { x })
    } else if f == 0xF && kk == 0x07 {
        Some(Instruction::LdVxDt { x })
    } else if f == 0xF && kk == 0x0A {
        Some(Instruction::LdK { x })
    } else if f == 0xF && kk == 0x15 {
        Some(Instruction::LdDt { x })
    } else if f == 0xF && kk == 0x18 {
        Some(Instruction::LdSt { x })
    } else if f == 0xF && kk == 0x1E {
        Some(Instruction::AddI { x })
    } else if f == 0xF && kk == 0x29 {
        Some(Instruction::LdF { x })
    } else if f == 0xF && kk == 0x33 {
        Some(Instruction::LdB { x })
    } else if f == 0xF && kk == 0x55 {
        Some(Instruction::LdI { x })
    } else if f == 0xF && kk == 0x65 {
        Some(Instruction::LdIVx { x })
    } else {
        None
    }
}

/// Masking and shifting an opcode yields its nibbles.
proof fn lemma_fields(op: u16)
    ensures
        (op & 0x0F00) >> 8 == (op as int / 0x100) % 0x10,
        (op & 0x00F0) >> 4 == (op as int / 0x10) % 0x10,
        op & 0x000F == op as int % 0x10,
        op & 0x00FF == op as int % 0x100,
        op & 0x0FFF == op as int % 0x1000,
        op & 0xF000 == (op as int / 0x1000) * 0x1000,
        op as int / 0x1000 < 0x10,
{
    assert((op & 0x0F00) >> 8 == (op / 0x100) % 0x10) by (bit_vector);
    assert((op & 0x00F0) >> 4 == (op / 0x10) % 0x10) by (bit_vector);
    assert(op & 0x000F == op % 0x10) by (bit_vector);
    assert(op & 0x00FF == op % 0x100) by (bit_vector);
    assert(op & 0x0FFF == op % 0x1000) by (bit_vector);
    assert(op & 0xF000 == (op / 0x1000) * 0x1000) by (bit_vector);
}

/// Whatever the decoder accepts has operands in range.
pub proof fn lemma_decode_wf(op: u16)
    ensures
        decode(op) matches Some(instruction) ==> instruction.wf(),
{
}

} // verus!
