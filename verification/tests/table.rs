use nes_core::cpu::clock::{Clock, ClockMode};
use nes_core::cpu::instruction::{
    Instruction, InstructionInput, InstructionInputLocation, InstructionMode, InstructionOperation,
};
use nes_core::cpu::opcodes::{
    ADC_IMMEDIATE, AND_INDIRECT_Y, ASL_ACCUMULATOR, BRK_IMPLIED, JMP_INDIRECT, LDA_ZERO_PAGE_X,
    LDX_ZERO_PAGE_Y, RTS_IMPLIED, SBC_ABSOLUTE_Y, STA_INDIRECT_X,
};
use nes_core::error::Error;

fn all_modes() -> Vec<InstructionMode> {
    vec![
        InstructionMode::Implied,
        InstructionMode::Accumulator,
        InstructionMode::Immediate,
        InstructionMode::Relative,
        InstructionMode::ZeroPage,
        InstructionMode::ZeroPageX,
        InstructionMode::ZeroPageY,
        InstructionMode::Absolute,
        InstructionMode::AbsoluteX,
        InstructionMode::AbsoluteY,
        InstructionMode::Indirect,
        InstructionMode::IndirectX,
        InstructionMode::IndirectY,
    ]
}

#[test]
fn mode_lengths() {
    let expected = [1u8, 1, 2, 2, 2, 2, 2, 3, 3, 3, 3, 2, 2];
    for (mode, len) in all_modes().iter().zip(expected) {
        assert_eq!(mode.len_bytes(), len);
    }
}

#[test]
fn table_has_151_entries_with_the_length_of_their_mode() {
    let mut known = 0;
    for opcode in 0..=255u8 {
        match Instruction::from_opcode(opcode) {
            Ok(instruction) => {
                known += 1;
                assert!((1..=3).contains(&instruction.len()));
                assert_eq!(instruction.len(), instruction.mode().len_bytes());
                assert!((2..=7).contains(&instruction.cycles_base()));
            }
            Err(e) => assert_eq!(e, Error::UnknownOpcode(opcode)),
        }
    }
    assert_eq!(known, 151);
}

#[test]
fn table_entries() {
    let entry = |opcode: u8| {
        let i = Instruction::from_opcode(opcode).unwrap();
        (i.operation(), i.mode(), i.len(), i.cycles_base())
    };
    assert_eq!(entry(0x69), (InstructionOperation::Adc, InstructionMode::Immediate, 2, 2));
    assert_eq!(entry(0xAD), (InstructionOperation::Lda, InstructionMode::Absolute, 3, 4));
    assert_eq!(entry(0xEA), (InstructionOperation::Nop, InstructionMode::Implied, 1, 2));
    assert_eq!(entry(0x00), (InstructionOperation::Brk, InstructionMode::Implied, 1, 7));
    assert_eq!(entry(0x4C), (InstructionOperation::Jmp, InstructionMode::Absolute, 3, 3));
    assert_eq!(entry(0x6C), (InstructionOperation::Jmp, InstructionMode::Indirect, 3, 5));
    assert_eq!(entry(0x20), (InstructionOperation::Jsr, InstructionMode::Absolute, 3, 6));
    assert_eq!(entry(0x60), (InstructionOperation::Rts, InstructionMode::Implied, 1, 6));
    assert_eq!(entry(0x40), (InstructionOperation::Rti, InstructionMode::Implied, 1, 6));
    assert_eq!(entry(0xE9), (InstructionOperation::Sbc, InstructionMode::Immediate, 2, 2));
    assert_eq!(entry(0xF1), (InstructionOperation::Sbc, InstructionMode::IndirectY, 2, 5));
    assert_eq!(entry(0x18), (InstructionOperation::Clc, InstructionMode::Implied, 1, 2));
    assert_eq!(entry(0x0A), (InstructionOperation::Asl, InstructionMode::Accumulator, 1, 2));
    assert_eq!(entry(0x1E), (InstructionOperation::Asl, InstructionMode::AbsoluteX, 3, 7));
    assert_eq!(entry(0x91), (InstructionOperation::Sta, InstructionMode::IndirectY, 2, 6));
    assert_eq!(entry(0x9D), (InstructionOperation::Sta, InstructionMode::AbsoluteX, 3, 5));
    assert_eq!(entry(0xB6), (InstructionOperation::Ldx, InstructionMode::ZeroPageY, 2, 4));
    assert_eq!(entry(0xBE), (InstructionOperation::Ldx, InstructionMode::AbsoluteY, 3, 4));
    assert_eq!(entry(0x90), (InstructionOperation::Bcc, InstructionMode::Relative, 2, 2));
    assert_eq!(entry(0x24), (InstructionOperation::Bit, InstructionMode::ZeroPage, 2, 3));
    assert_eq!(entry(0x48), (InstructionOperation::Pha, InstructionMode::Implied, 1, 3));
    assert_eq!(entry(0x68), (InstructionOperation::Pla, InstructionMode::Implied, 1, 4));
}

#[test]
fn unknown_opcodes() {
    for opcode in [0x02u8, 0x03, 0x1A, 0x80, 0x9E, 0xFF] {
        assert_eq!(Instruction::from_opcode(opcode), Err(Error::UnknownOpcode(opcode)));
    }
}

#[test]
fn jumps_are_absolute_or_indirect() {
    for opcode in 0..=255u8 {
        if let Ok(instruction) = Instruction::from_opcode(opcode) {
            if instruction.operation() == InstructionOperation::Jmp {
                assert!(opcode == 0x4C || opcode == 0x6C);
            }
            if instruction.mode() == InstructionMode::Indirect {
                assert_eq!(opcode, 0x6C);
            }
        }
    }
}

#[test]
fn input_shapes() {
    let address = InstructionInput::from_address(0x1234);
    assert_eq!(address, InstructionInput::Location(InstructionInputLocation::Address(0x1234)));
    assert_eq!(address.unwrap_location(), Ok(InstructionInputLocation::Address(0x1234)));
    assert_eq!(address.unwrap_address(), Ok(0x1234));

    let accumulator = InstructionInput::Location(InstructionInputLocation::Accumulator);
    assert_eq!(accumulator.unwrap_location(), Ok(InstructionInputLocation::Accumulator));
    assert_eq!(accumulator.unwrap_address(), Err(Error::InputShapeMismatch));

    assert_eq!(InstructionInput::Byte(1).unwrap_location(), Err(Error::InputShapeMismatch));
    assert_eq!(InstructionInput::Byte(1).unwrap_address(), Err(Error::InputShapeMismatch));
    assert_eq!(InstructionInput::Implied.unwrap_location(), Err(Error::InputShapeMismatch));
    assert_eq!(InstructionInput::Implied.unwrap_address(), Err(Error::InputShapeMismatch));
}

#[test]
fn clock_counts_cycles() {
    let mut clock = Clock::new(ClockMode::Ntsc);
    assert_eq!(clock.cycles(), 0);
    assert_eq!(clock.speed, 1_789_773);
    clock.tick(2);
    clock.tick(7);
    assert_eq!(clock.cycles(), 9);
    clock.tick(0);
    assert_eq!(clock.cycles(), 9);
    assert_eq!(Clock::determine_speed(ClockMode::Pal), 1_662_607);
    assert_eq!(Clock::determine_speed(ClockMode::Dendy), 1_773_448);
    assert_eq!(Clock::new(ClockMode::Pal).mode, ClockMode::Pal);
}

#[test]
fn clock_stays_at_its_largest_value() {
    let mut clock = Clock::new(ClockMode::Ntsc);
    clock.cycles = u64::MAX - 3;
    clock.tick(3);
    assert_eq!(clock.cycles(), u64::MAX);
    clock.cycles = u64::MAX - 3;
    clock.tick(4);
    assert_eq!(clock.cycles(), u64::MAX);
    clock.tick(255);
    assert_eq!(clock.cycles(), u64::MAX);
}

#[test]
fn errors_describe_themselves() {
    assert_eq!(Error::UnknownOpcode(2).describe(), "no instruction found for opcode");
    assert_eq!(Error::DeviceNotFound(2).describe(), "no device connected to address");
    assert_eq!(
        Error::OutOfBounds(0xFFFF).describe(),
        "access runs past the end of the address space"
    );
    assert_eq!(Error::InputShapeMismatch.describe(), "input does not have the requested shape");
    assert_eq!(Error::RangeInverted(2, 1).describe(), "range ends before it starts");
    assert_eq!(Error::RangeOverlap(1, 2).describe(), "range overlaps a connected range");
}

#[test]
fn opcodes_by_name() {
    let entry = |opcode: u8| {
        let i = Instruction::from_opcode(opcode).unwrap();
        (i.operation(), i.mode())
    };
    assert_eq!(entry(ADC_IMMEDIATE), (InstructionOperation::Adc, InstructionMode::Immediate));
    assert_eq!(entry(AND_INDIRECT_Y), (InstructionOperation::And, InstructionMode::IndirectY));
    assert_eq!(entry(ASL_ACCUMULATOR), (InstructionOperation::Asl, InstructionMode::Accumulator));
    assert_eq!(entry(BRK_IMPLIED), (InstructionOperation::Brk, InstructionMode::Implied));
    assert_eq!(entry(JMP_INDIRECT), (InstructionOperation::Jmp, InstructionMode::Indirect));
    assert_eq!(entry(LDA_ZERO_PAGE_X), (InstructionOperation::Lda, InstructionMode::ZeroPageX));
    assert_eq!(entry(LDX_ZERO_PAGE_Y), (InstructionOperation::Ldx, InstructionMode::ZeroPageY));
    assert_eq!(entry(RTS_IMPLIED), (InstructionOperation::Rts, InstructionMode::Implied));
    assert_eq!(entry(SBC_ABSOLUTE_Y), (InstructionOperation::Sbc, InstructionMode::AbsoluteY));
    assert_eq!(entry(STA_INDIRECT_X), (InstructionOperation::Sta, InstructionMode::IndirectX));
    assert_eq!(ADC_IMMEDIATE, 0x69);
    assert_eq!(AND_INDIRECT_Y, 0x31);
}
