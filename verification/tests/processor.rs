use chip8::error::VmError;
use chip8::instructions::Instruction;
use chip8::memory::MEMORY_PROGRAM_START;
use chip8::processor::Processor;

#[test]
fn processor_load_program() -> Result<(), VmError> {
    let processor = Processor::from_program(&[0x00, 0xE0, 0x00, 0xEE])?;
    assert_eq!(processor.memory().at(MEMORY_PROGRAM_START)?, 0x00);
    assert_eq!(processor.memory().at(MEMORY_PROGRAM_START + 1)?, 0xE0);
    assert_eq!(processor.memory().at(MEMORY_PROGRAM_START + 2)?, 0x00);
    assert_eq!(processor.memory().at(MEMORY_PROGRAM_START + 3)?, 0xEE);
    Ok(())
}

#[test]
fn fetch_instruction() -> Result<(), VmError> {
    let mut processor = Processor::from_program(&[0x00, 0xE0, 0x00, 0xEE])?;

    assert_eq!(processor.fetch_instruction()?, Instruction::Cls);
    assert_eq!(processor.fetch_instruction()?, Instruction::Ret);
    assert!(processor.fetch_instruction().is_err());

    Ok(())
}

#[test]
fn processor_refuses_long_program() {
    let program = vec![0u8; 0xE00];
    assert!(matches!(
        Processor::from_program(&program),
        Err(VmError::ProgramTooLarge { len: 0xE00 })
    ));
}

#[test]
fn fetch_moves_past_unknown_opcode() {
    let mut processor = Processor::from_program(&[0x00, 0x00, 0x61, 0x07]).unwrap();
    assert_eq!(processor.pc(), 0x200);
    assert_eq!(
        processor.fetch_instruction(),
        Err(VmError::UnknownInstruction { opcode: 0 })
    );
    assert_eq!(processor.pc(), 0x202);
    assert_eq!(
        processor.fetch_instruction(),
        Ok(Instruction::LdVxByte { x: 1, byte: 7 })
    );
    assert_eq!(processor.pc(), 0x204);
}

#[test]
fn fetch_stops_at_end_of_memory() {
    let program = vec![0x61u8; 0xDFF];
    let mut processor = Processor::from_program(&program).unwrap();
    let mut fetched = 0;
    while processor.pc() < 0xFFE {
        assert_eq!(
            processor.fetch_instruction(),
            Ok(Instruction::LdVxByte { x: 1, byte: 0x61 })
        );
        fetched += 1;
    }
    assert_eq!(fetched, 0x6FF);
    assert_eq!(processor.pc(), 0xFFE);
    // 0xFFE holds 0x61, 0xFFF holds 0: an opcode that still fits
    assert_eq!(
        processor.fetch_instruction(),
        Ok(Instruction::LdVxByte { x: 1, byte: 0 })
    );
    assert_eq!(processor.pc(), 0x1000);
    assert_eq!(
        processor.fetch_instruction(),
        Err(VmError::AddressOutOfBounds { address: 0x1000 })
    );
    assert_eq!(processor.pc(), 0x1000);
}

#[test]
fn processor_starts_reset() {
    let processor = Processor::from_program(&[0x12, 0x00]).unwrap();
    assert_eq!(processor.pc(), 0x200);
    for x in 0..16 {
        assert_eq!(processor.registers().get(x), 0);
    }
    assert_eq!(processor.registers().i(), 0);
    assert_eq!(processor.stack().depth(), 0);
    assert_eq!(processor.memory().program_len(), 2);
}
