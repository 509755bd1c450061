use chip8::error::VmError;
use chip8::instructions::Instruction;

#[test]
fn decode() {
    let is = |opcode: u16, instruction: Instruction| {
        Instruction::from_opcode(opcode).unwrap() == instruction
    };

    assert!(Instruction::from_opcode(0x0000).is_err());
    assert!(is(0x1234, Instruction::Jp { addr: 0x234 }));
    assert!(is(0xB234, Instruction::JpV0 { addr: 0x234 }));
    assert!(is(0x2345, Instruction::Call { addr: 0x345 }));
    assert!(is(0x00EE, Instruction::Ret));

    assert!(is(0x3122, Instruction::SeVxByte { x: 1, byte: 0x22 }));
    assert!(is(0x4122, Instruction::SneVxByte { x: 1, byte: 0x22 }));
    assert!(is(0x5120, Instruction::SeVxVy { x: 1, y: 2 }));
    assert!(is(0x9120, Instruction::SneVxVy { x: 1, y: 2 }));
    assert!(is(0xE19E, Instruction::Skp { x: 1 }));
    assert!(is(0xE1A1, Instruction::Sknp { x: 1 }));

    assert!(is(0x6122, Instruction::LdVxByte { x: 1, byte: 0x22 }));
    assert!(is(0x8120, Instruction::LdVxVy { x: 1, y: 2 }));
    assert!(is(0xA123, Instruction::LdIAddr { addr: 0x123 }));
    assert!(is(0xF107, Instruction::LdVxDt { x: 1 }));
    assert!(is(0xF10A, Instruction::LdK { x: 1 }));
    assert!(is(0xF115, Instruction::LdDt { x: 1 }));
    assert!(is(0xF118, Instruction::LdSt { x: 1 }));
    assert!(is(0xF11E, Instruction::AddI { x: 1 }));
    assert!(is(0xF129, Instruction::LdF { x: 1 }));
    assert!(is(0xF133, Instruction::LdB { x: 1 }));
    assert!(is(0xF155, Instruction::LdI { x: 1 }));
    assert!(is(0xF165, Instruction::LdIVx { x: 1 }));
    assert!(is(0xC122, Instruction::Rnd { x: 1, byte: 0x22 }));

    assert!(is(0x8121, Instruction::Or { x: 1, y: 2 }));
    assert!(is(0x8122, Instruction::And { x: 1, y: 2 }));
    assert!(is(0x8123, Instruction::Xor { x: 1, y: 2 }));
    assert!(is(0x8126, Instruction::Shr { x: 1 }));
    assert!(is(0x812E, Instruction::Shl { x: 1 }));

    assert!(is(0x7122, Instruction::AddVxByte { x: 1, byte: 0x22 }));
    assert!(is(0x8124, Instruction::AddVxVy { x: 1, y: 2 }));
    assert!(is(0x8125, Instruction::Sub { x: 1, y: 2 }));
    assert!(is(0x8127, Instruction::Subn { x: 1, y: 2 }));

    assert!(is(
        0xD123,
        Instruction::Drw {
            x: 1,
            y: 2,
            nibble: 3
        }
    ));
    assert!(is(0x00E0, Instruction::Cls));
}

#[test]
fn decode_unknown_opcodes() {
    for opcode in [
        0x0000u16, 0x00E1, 0x00EF, 0x0123, 0x8128, 0x812F, 0x9121, 0x912F, 0xE19F, 0xE100, 0xF100,
        0xF108, 0xF1FF, 0xF156,
    ] {
        assert_eq!(
            Instruction::from_opcode(opcode),
            Err(VmError::UnknownInstruction { opcode })
        );
    }
}

#[test]
fn decode_extreme_fields() {
    assert_eq!(Instruction::from_opcode(0x1FFF), Ok(Instruction::Jp { addr: 0xFFF }));
    assert_eq!(Instruction::from_opcode(0x1000), Ok(Instruction::Jp { addr: 0 }));
    assert_eq!(Instruction::from_opcode(0x6FFF), Ok(Instruction::LdVxByte { x: 0xF, byte: 0xFF }));
    assert_eq!(Instruction::from_opcode(0xDFFF), Ok(Instruction::Drw { x: 0xF, y: 0xF, nibble: 0xF }));
    assert_eq!(Instruction::from_opcode(0xD000), Ok(Instruction::Drw { x: 0, y: 0, nibble: 0 }));
    assert_eq!(Instruction::from_opcode(0x5AB7), Ok(Instruction::SeVxVy { x: 0xA, y: 0xB }));
    assert_eq!(Instruction::from_opcode(0x8FE6), Ok(Instruction::Shr { x: 0xF }));
}

#[test]
fn decode_is_total() {
    let mut known = 0u32;
    for opcode in 0..=u16::MAX {
        match Instruction::from_opcode(opcode) {
            Ok(_) => known += 1,
            Err(e) => assert_eq!(e, VmError::UnknownInstruction { opcode }),
        }
    }
    // 2 + 11 families of 4096 + 9 * 256 + 256 + 2 * 16 + 9 * 16
    assert_eq!(known, 2 + 11 * 4096 + 9 * 256 + 256 + 2 * 16 + 9 * 16);
}
