use chip8::error::VmError;
use chip8::instruction::{parse_instructions_from_opcodes, Instruction};

#[test]
fn no_args() {
    assert_eq!(
        parse_instructions_from_opcodes(&[0x00E0, 0x00EE]),
        Ok(vec![Instruction::Cls, Instruction::Ret]),
    );
}

#[test]
fn addr_args() {
    assert_eq!(
        parse_instructions_from_opcodes(&[0x1abc, 0x2def]),
        Ok(vec![Instruction::Jp { addr: 0xabc }, Instruction::Call { addr: 0xdef }]),
    );
}

#[test]
fn byte_args() {
    assert_eq!(
        parse_instructions_from_opcodes(&[0x3abc, 0x4def]),
        Ok(vec![
            Instruction::SeVxByte { vx: 0xa, byte: 0xbc },
            Instruction::SneVxByte { vx: 0xd, byte: 0xef },
        ]),
    );
}

#[test]
fn vx_vy_args() {
    assert_eq!(
        parse_instructions_from_opcodes(&[0x8ab0, 0x8cd1]),
        Ok(vec![
            Instruction::LdVxVy { vx: 0xa, vy: 0xb },
            Instruction::Or { vx: 0xc, vy: 0xd },
        ]),
    );
}

#[test]
fn f_prefix() {
    assert_eq!(
        parse_instructions_from_opcodes(&[0xFA07, 0xFB0A, 0xFC15]),
        Ok(vec![
            Instruction::LdVxDt { vx: 0xA },
            Instruction::LdK { vx: 0xB },
            Instruction::LdDt { vx: 0xC },
        ]),
    );
}

#[test]
fn e_prefix() {
    assert_eq!(
        parse_instructions_from_opcodes(&[0xEA9E, 0xEBA1]),
        Ok(vec![Instruction::Skp { vx: 0xA }, Instruction::Sknp { vx: 0xB },]),
    );
}

#[test]
fn draw() {
    assert_eq!(
        parse_instructions_from_opcodes(&[0xD123]),
        Ok(vec![Instruction::Drw {
            vx: 0x1,
            vy: 0x2,
            nibble: 0x3
        }]),
    );
}

#[test]
fn listing_reports_the_first_unknown_opcode() {
    assert_eq!(
        parse_instructions_from_opcodes(&[0x0000, 0x6105, 0x9121, 0x8128, 0xE100, 0xF1FF, 0xB123]),
        Err(VmError::UnknownInstruction { opcode: 0x0000 }),
    );
    assert_eq!(
        parse_instructions_from_opcodes(&[0x00E0, 0xFFFF, 0x00EE]),
        Err(VmError::UnknownInstruction { opcode: 0xFFFF }),
    );
    assert_eq!(
        parse_instructions_from_opcodes(&[0x6105, 0xB123, 0x9121, 0x8128]),
        Err(VmError::UnknownInstruction { opcode: 0x9121 }),
    );
    assert_eq!(
        parse_instructions_from_opcodes(&[0x6105, 0xB123, 0x9120]),
        Ok(vec![
            Instruction::LdVxByte { vx: 1, byte: 5 },
            Instruction::JpV0 { addr: 0x123 },
            Instruction::SneVxVy { vx: 1, vy: 2 },
        ]),
    );
    assert_eq!(parse_instructions_from_opcodes(&[]), Ok(Vec::new()));
}

#[test]
fn listing_keeps_every_index() {
    let opcodes: Vec<u16> = vec![0x1002, 0x00E0, 0x6A01, 0x1001];
    let listing = parse_instructions_from_opcodes(&opcodes).unwrap();
    assert_eq!(listing.len(), opcodes.len());
    assert_eq!(listing[3], Instruction::Jp { addr: 1 });
    assert_eq!(listing[2], Instruction::LdVxByte { vx: 0xA, byte: 1 });
}

#[test]
fn listing_form_of_decoded() {
    assert_eq!(
        Instruction::from_decoded(chip8::instructions::Instruction::Drw { x: 0xF, y: 0xE, nibble: 0xD }),
        Instruction::Drw { vx: 0xF, vy: 0xE, nibble: 0xD },
    );
    assert_eq!(
        Instruction::from_decoded(chip8::instructions::Instruction::LdIAddr { addr: 0xFFF }),
        Instruction::LdIAddr { addr: 0xFFF },
    );
    assert_eq!(
        Instruction::from_decoded(chip8::instructions::Instruction::Rnd { x: 3, byte: 0xFF }),
        Instruction::Rnd { vx: 3, byte: 0xFF },
    );
}
