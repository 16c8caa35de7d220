//! Instruction descriptors, the opcode table, and resolved operands.

use vstd::prelude::*;
use crate::error::Error;

verus! {

/// What an instruction does: one of the 56 mnemonics.
#[derive(Clone, Copy, Debug, PartialEq, Eq, Structural)]
pub enum InstructionOperation {
    Adc, And, Asl, Bcc, Bcs, Beq, Bit, Bmi, Bne, Bpl, Brk, Bvc, Bvs, Clc,
    Cld, Cli, Clv, Cmp, Cpx, Cpy, Dec, Dex, Dey, Eor, Inc, Inx, Iny, Jmp,
    Jsr, Lda, Ldx, Ldy, Lsr, Nop, Ora, Pha, Php, Pla, Plp, Rol, Ror, Rti,
    Rts, Sbc, Sec, Sed, Sei, Sta, Stx, Sty, Tax, Tay, Tsx, Txa, Txs, Tya,
}

/// How an instruction finds its operand: one of the 13 addressing modes.
#[derive(Clone, Copy, Debug, PartialEq, Eq, Structural)]
pub enum InstructionMode {
    Implied,
    Accumulator,
    Immediate,
    Relative,
    ZeroPage,
    ZeroPageX,
    ZeroPageY,
    Absolute,
    AbsoluteX,
    AbsoluteY,
    Indirect,
    IndirectX,
    IndirectY,
}

impl InstructionMode {
    /// The length in bytes, opcode included, of an instruction in this mode.
    pub open spec fn spec_len_bytes(&self) -> u8 {
        match self {
            InstructionMode::Implied | InstructionMode::Accumulator => 1,
            InstructionMode::Immediate
            | InstructionMode::Relative
            | InstructionMode::ZeroPage
            | InstructionMode::ZeroPageX
            | InstructionMode::ZeroPageY
            | InstructionMode::IndirectX
            | InstructionMode::IndirectY => 2,
            InstructionMode::Absolute
            | InstructionMode::AbsoluteX
            | InstructionMode::AbsoluteY
            | InstructionMode::Indirect => 3,
        }
    }

    /// The length in bytes, opcode included, of an instruction in this mode.
    #[verifier::when_used_as_spec(spec_len_bytes)]
    pub fn len_bytes(&self) -> (len: u8)
        ensures
            len == self.spec_len_bytes(),
            1 <= len <= 3,
    {
        match self {
            InstructionMode::Implied | InstructionMode::Accumulator => 1,
            InstructionMode::Immediate
            | InstructionMode::Relative
            | InstructionMode::ZeroPage
            | InstructionMode::ZeroPageX
            | InstructionMode::ZeroPageY
            | InstructionMode::IndirectX
            | InstructionMode::IndirectY => 2,
            InstructionMode::Absolute
            | InstructionMode::AbsoluteX
            | InstructionMode::AbsoluteY
            | InstructionMode::Indirect => 3,
        }
    }
}

/// One entry of the opcode table.
#[derive(Clone, Copy, Debug, PartialEq, Eq, Structural)]
pub struct Instruction {
    pub operation: InstructionOperation,
    pub mode: InstructionMode,
    /// Length in bytes, opcode included; always that of `mode`.
    pub len: u8,
    /// The least number of cycles that the instruction takes.
    pub cycles_base: u8,
}

impl Instruction {
    /// The entry for `operation` in `mode` at a base cost of `cycles_base`.
    pub open spec fn describe(
        operation: InstructionOperation,
        mode: InstructionMode,
        cycles_base: u8,
    ) -> Instruction {
        Instruction { operation, mode, len: mode.spec_len_bytes(), cycles_base }
    }

    /// The opcode table: the entry of each of the 151 documented opcodes, and
    /// nothing for any other byte.
    pub open spec fn table(opcode: u8) -> Option<Instruction> {
        match opcode {
        0x69 => Some(Instruction::describe(InstructionOperation::Adc, InstructionMode::Immediate, 2)),
        0x65 => Some(Instruction::describe(InstructionOperation::Adc, InstructionMode::ZeroPage, 3)),
        0x75 => Some(Instruction::describe(InstructionOperation::Adc, InstructionMode::ZeroPageX, 4)),
        0x6D => Some(Instruction::describe(InstructionOperation::Adc, InstructionMode::Absolute, 4)),
        0x7D => Some(Instruction::describe(InstructionOperation::Adc, InstructionMode::AbsoluteX, 4)),
        0x79 => Some(Instruction::describe(InstructionOperation::Adc, InstructionMode::AbsoluteY, 4)),
        0x61 => Some(Instruction::describe(InstructionOperation::Adc, InstructionMode::IndirectX, 6)),
        0x71 => Some(Instruction::describe(InstructionOperation::Adc, InstructionMode::IndirectY, 5)),
        0x29 => Some(Instruction::describe(InstructionOperation::And, InstructionMode::Immediate, 2)),
        0x25 => Some(Instruction::describe(InstructionOperation::And, InstructionMode::ZeroPage, 3)),
        0x35 => Some(Instruction::describe(InstructionOperation::And, InstructionMode::ZeroPageX, 4)),
        0x2D => Some(Instruction::describe(InstructionOperation::And, InstructionMode::Absolute, 4)),
        0x3D => Some(Instruction::describe(InstructionOperation::And, InstructionMode::AbsoluteX, 4)),
        0x39 => Some(Instruction::describe(InstructionOperation::And, InstructionMode::AbsoluteY, 4)),
        0x21 => Some(Instruction::describe(InstructionOperation::And, InstructionMode::IndirectX, 6)),
        0x31 => Some(Instruction::describe(InstructionOperation::And, InstructionMode::IndirectY, 5)),
        0x0A => Some(Instruction::describe(InstructionOperation::Asl, InstructionMode::Accumulator, 2)),
        0x06 => Some(Instruction::describe(InstructionOperation::Asl, InstructionMode::ZeroPage, 5)),
        0x16 => Some(Instruction::describe(InstructionOperation::Asl, InstructionMode::ZeroPageX, 6)),
        0x0E => Some(Instruction::describe(InstructionOperation::Asl, InstructionMode::Absolute, 6)),
        0x1E => Some(Instruction::describe(InstructionOperation::Asl, InstructionMode::AbsoluteX, 7)),
        0x90 => Some(Instruction::describe(InstructionOperation::Bcc, InstructionMode::Relative, 2)),
        0xB0 => Some(Instruction::describe(InstructionOperation::Bcs, InstructionMode::Relative, 2)),
        0xF0 => Some(Instruction::describe(InstructionOperation::Beq, InstructionMode::Relative, 2)),
        0x24 => Some(Instruction::describe(InstructionOperation::Bit, InstructionMode::ZeroPage, 3)),
        0x2C => Some(Instruction::describe(InstructionOperation::Bit, InstructionMode::Absolute, 4)),
        0x30 => Some(Instruction::describe(InstructionOperation::Bmi, InstructionMode::Relative, 2)),
        0xD0 => Some(Instruction::describe(InstructionOperation::Bne, InstructionMode::Relative, 2)),
        0x10 => Some(Instruction::describe(InstructionOperation::Bpl, InstructionMode::Relative, 2)),
        0x00 => Some(Instruction::describe(InstructionOperation::Brk, InstructionMode::Implied, 7)),
        0x50 => Some(Instruction::describe(InstructionOperation::Bvc, InstructionMode::Relative, 2)),
        0x70 => Some(Instruction::describe(InstructionOperation::Bvs, InstructionMode::Relative, 2)),
        0x18 => Some(Instruction::describe(InstructionOperation::Clc, InstructionMode::Implied, 2)),
        0xD8 => Some(Instruction::describe(InstructionOperation::Cld, InstructionMode::Implied, 2)),
        0x58 => Some(Instruction::describe(InstructionOperation::Cli, InstructionMode::Implied, 2)),
        0xB8 => Some(Instruction::describe(InstructionOperation::Clv, InstructionMode::Implied, 2)),
        0xC9 => Some(Instruction::describe(InstructionOperation::Cmp, InstructionMode::Immediate, 2)),
        0xC5 => Some(Instruction::describe(InstructionOperation::Cmp, InstructionMode::ZeroPage, 3)),
        0xD5 => Some(Instruction::describe(InstructionOperation::Cmp, InstructionMode::ZeroPageX, 4)),
        0xCD => Some(Instruction::describe(InstructionOperation::Cmp, InstructionMode::Absolute, 4)),
        0xDD => Some(Instruction::describe(InstructionOperation::Cmp, InstructionMode::AbsoluteX, 4)),
        0xD9 => Some(Instruction::describe(InstructionOperation::Cmp, InstructionMode::AbsoluteY, 4)),
        0xC1 => Some(Instruction::describe(InstructionOperation::Cmp, InstructionMode::IndirectX, 6)),
        0xD1 => Some(Instruction::describe(InstructionOperation::Cmp, InstructionMode::IndirectY, 5)),
        0xE0 => Some(Instruction::describe(InstructionOperation::Cpx, InstructionMode::Immediate, 2)),
        0xE4 => Some(Instruction::describe(InstructionOperation::Cpx, InstructionMode::ZeroPage, 3)),
        0xEC => Some(Instruction::describe(InstructionOperation::Cpx, InstructionMode::Absolute, 4)),
        0xC0 => Some(Instruction::describe(InstructionOperation::Cpy, InstructionMode::Immediate, 2)),
        0xC4 => Some(Instruction::describe(InstructionOperation::Cpy, InstructionMode::ZeroPage, 3)),
        0xCC => Some(Instruction::describe(InstructionOperation::Cpy, InstructionMode::Absolute, 4)),
        0xC6 => Some(Instruction::describe(InstructionOperation::Dec, InstructionMode::ZeroPage, 5)),
        0xD6 => Some(Instruction::describe(InstructionOperation::Dec, InstructionMode::ZeroPageX, 6)),
        0xCE => Some(Instruction::describe(InstructionOperation::Dec, InstructionMode::Absolute, 6)),
        0xDE => Some(Instruction::describe(InstructionOperation::Dec, InstructionMode::AbsoluteX, 7)),
        0xCA => Some(Instruction::describe(InstructionOperation::Dex, InstructionMode::Implied, 2)),
        0x88 => Some(Instruction::describe(InstructionOperation::Dey, InstructionMode::Implied, 2)),
        0x49 => Some(Instruction::describe(InstructionOperation::Eor, InstructionMode::Immediate, 2)),
        0x45 => Some(Instruction::describe(InstructionOperation::Eor, InstructionMode::ZeroPage, 3)),
        0x55 => Some(Instruction::describe(InstructionOperation::Eor, InstructionMode::ZeroPageX, 4)),
        0x4D => Some(Instruction::describe(InstructionOperation::Eor, InstructionMode::Absolute, 4)),
        0x5D => Some(Instruction::describe(InstructionOperation::Eor, InstructionMode::AbsoluteX, 4)),
        0x59 => Some(Instruction::describe(InstructionOperation::Eor, InstructionMode::AbsoluteY, 4)),
        0x41 => Some(Instruction::describe(InstructionOperation::Eor, InstructionMode::IndirectX, 6)),
        0x51 => Some(Instruction::describe(InstructionOperation::Eor, InstructionMode::IndirectY, 5)),
        0xE6 => Some(Instruction::describe(InstructionOperation::Inc, InstructionMode::ZeroPage, 5)),
        0xF6 => Some(Instruction::describe(InstructionOperation::Inc, InstructionMode::ZeroPageX, 6)),
        0xEE => Some(Instruction::describe(InstructionOperation::Inc, InstructionMode::Absolute, 6)),
        0xFE => Some(Instruction::describe(InstructionOperation::Inc, InstructionMode::AbsoluteX, 7)),
        0xE8 => Some(Instruction::describe(InstructionOperation::Inx, InstructionMode::Implied, 2)),
        0xC8 => Some(Instruction::describe(InstructionOperation::Iny, InstructionMode::Implied, 2)),
        0x4C => Some(Instruction::describe(InstructionOperation::Jmp, InstructionMode::Absolute, 3)),
        0x6C => Some(Instruction::describe(InstructionOperation::Jmp, InstructionMode::Indirect, 5)),
        0x20 => Some(Instruction::describe(InstructionOperation::Jsr, InstructionMode::Absolute, 6)),
        0xA9 => Some(Instruction::describe(InstructionOperation::Lda, InstructionMode::Immediate, 2)),
        0xA5 => Some(Instruction::describe(InstructionOperation::Lda, InstructionMode::ZeroPage, 3)),
        0xB5 => Some(Instruction::describe(InstructionOperation::Lda, InstructionMode::ZeroPageX, 4)),
        0xAD => Some(Instruction::describe(InstructionOperation::Lda, InstructionMode::Absolute, 4)),
        0xBD => Some(Instruction::describe(InstructionOperation::Lda, InstructionMode::AbsoluteX, 4)),
        0xB9 => Some(Instruction::describe(InstructionOperation::Lda, InstructionMode::AbsoluteY, 4)),
        0xA1 => Some(Instruction::describe(InstructionOperation::Lda, InstructionMode::IndirectX, 6)),
        0xB1 => Some(Instruction::describe(InstructionOperation::Lda, InstructionMode::IndirectY, 5)),
        0xA2 => Some(Instruction::describe(InstructionOperation::Ldx, InstructionMode::Immediate, 2)),
        0xA6 => Some(Instruction::describe(InstructionOperation::Ldx, InstructionMode::ZeroPage, 3)),
        0xB6 => Some(Instruction::describe(InstructionOperation::Ldx, InstructionMode::ZeroPageY, 4)),
        0xAE => Some(Instruction::describe(InstructionOperation::Ldx, InstructionMode::Absolute, 4)),
        0xBE => Some(Instruction::describe(InstructionOperation::Ldx, InstructionMode::AbsoluteY, 4)),
        0xA0 => Some(Instruction::describe(InstructionOperation::Ldy, InstructionMode::Immediate, 2)),
        0xA4 => Some(Instruction::describe(InstructionOperation::Ldy, InstructionMode::ZeroPage, 3)),
        0xB4 => Some(Instruction::describe(InstructionOperation::Ldy, InstructionMode::ZeroPageX, 4)),
        0xAC => Some(Instruction::describe(InstructionOperation::Ldy, InstructionMode::Absolute, 4)),
        0xBC => Some(Instruction::describe(InstructionOperation::Ldy, InstructionMode::AbsoluteX, 4)),
        0x4A => Some(Instruction::describe(InstructionOperation::Lsr, InstructionMode::Accumulator, 2)),
        0x46 => Some(Instruction::describe(InstructionOperation::Lsr, InstructionMode::ZeroPage, 5)),
        0x56 => Some(Instruction::describe(InstructionOperation::Lsr, InstructionMode::ZeroPageX, 6)),
        0x4E => Some(Instruction::describe(InstructionOperation::Lsr, InstructionMode::Absolute, 6)),
        0x5E => Some(Instruction::describe(InstructionOperation::Lsr, InstructionMode::AbsoluteX, 7)),
        0xEA => Some(Instruction::describe(InstructionOperation::Nop, InstructionMode::Implied, 2)),
        0x09 => Some(Instruction::describe(InstructionOperation::Ora, InstructionMode::Immediate, 2)),
        0x05 => Some(Instruction::describe(InstructionOperation::Ora, InstructionMode::ZeroPage, 3)),
        0x15 => Some(Instruction::describe(InstructionOperation::Ora, InstructionMode::ZeroPageX, 4)),
        0x0D => Some(Instruction::describe(InstructionOperation::Ora, InstructionMode::Absolute, 4)),
        0x1D => Some(Instruction::describe(InstructionOperation::Ora, InstructionMode::AbsoluteX, 4)),
        0x19 => Some(Instruction::describe(InstructionOperation::Ora, InstructionMode::AbsoluteY, 4)),
        0x01 => Some(Instruction::describe(InstructionOperation::Ora, InstructionMode::IndirectX, 6)),
        0x11 => Some(Instruction::describe(InstructionOperation::Ora, InstructionMode::IndirectY, 5)),
        0x48 => Some(Instruction::describe(InstructionOperation::Pha, InstructionMode::Implied, 3)),
        0x08 => Some(Instruction::describe(InstructionOperation::Php, InstructionMode::Implied, 3)),
        0x68 => Some(Instruction::describe(InstructionOperation::Pla, InstructionMode::Implied, 4)),
        0x28 => Some(Instruction::describe(InstructionOperation::Plp, InstructionMode::Implied, 4)),
        0x2A => Some(Instruction::describe(InstructionOperation::Rol, InstructionMode::Accumulator, 2)),
        0x26 => Some(Instruction::describe(InstructionOperation::Rol, InstructionMode::ZeroPage, 5)),
        0x36 => Some(Instruction::describe(InstructionOperation::Rol, InstructionMode::ZeroPageX, 6)),
        0x2E => Some(Instruction::describe(InstructionOperation::Rol, InstructionMode::Absolute, 6)),
        0x3E => Some(Instruction::describe(InstructionOperation::Rol, InstructionMode::AbsoluteX, 7)),
        0x6A => Some(Instruction::describe(InstructionOperation::Ror, InstructionMode::Accumulator, 2)),
        0x66 => Some(Instruction::describe(InstructionOperation::Ror, InstructionMode::ZeroPage, 5)),
        0x76 => Some(Instruction::describe(InstructionOperation::Ror, InstructionMode::ZeroPageX, 6)),
        0x6E => Some(Instruction::describe(InstructionOperation::Ror, InstructionMode::Absolute, 6)),
        0x7E => Some(Instruction::describe(InstructionOperation::Ror, InstructionMode::AbsoluteX, 7)),
        0x40 => Some(Instruction::describe(InstructionOperation::Rti, InstructionMode::Implied, 6)),
        0x60 => Some(Instruction::describe(InstructionOperation::Rts, InstructionMode::Implied, 6)),
        0xE9 => Some(Instruction::describe(InstructionOperation::Sbc, InstructionMode::Immediate, 2)),
        0xE5 => Some(Instruction::describe(InstructionOperation::Sbc, InstructionMode::ZeroPage, 3)),
        0xF5 => Some(Instruction::describe(InstructionOperation::Sbc, InstructionMode::ZeroPageX, 4)),
        0xED => Some(Instruction::describe(InstructionOperation::Sbc, InstructionMode::Absolute, 4)),
        0xFD => Some(Instruction::describe(InstructionOperation::Sbc, InstructionMode::AbsoluteX, 4)),
        0xF9 => Some(Instruction::describe(InstructionOperation::Sbc, InstructionMode::AbsoluteY, 4)),
        0xE1 => Some(Instruction::describe(InstructionOperation::Sbc, InstructionMode::IndirectX, 6)),
        0xF1 => Some(Instruction::describe(InstructionOperation::Sbc, InstructionMode::IndirectY, 5)),
        0x38 => Some(Instruction::describe(InstructionOperation::Sec, InstructionMode::Implied, 2)),
        0xF8 => Some(Instruction::describe(InstructionOperation::Sed, InstructionMode::Implied, 2)),
        0x78 => Some(Instruction::describe(InstructionOperation::Sei, InstructionMode::Implied, 2)),
        0x85 => Some(Instruction::describe(InstructionOperation::Sta, InstructionMode::ZeroPage, 3)),
        0x95 => Some(Instruction::describe(InstructionOperation::Sta, InstructionMode::ZeroPageX, 4)),
        0x8D => Some(Instruction::describe(InstructionOperation::Sta, InstructionMode::Absolute, 4)),
        0x9D => Some(Instruction::describe(InstructionOperation::Sta, InstructionMode::AbsoluteX, 5)),
        0x99 => Some(Instruction::describe(InstructionOperation::Sta, InstructionMode::AbsoluteY, 5)),
        0x81 => Some(Instruction::describe(InstructionOperation::Sta, InstructionMode::IndirectX, 6)),
        0x91 => Some(Instruction::describe(InstructionOperation::Sta, InstructionMode::IndirectY, 6)),
        0x86 => Some(Instruction::describe(InstructionOperation::Stx, InstructionMode::ZeroPage, 3)),
        0x96 => Some(Instruction::describe(InstructionOperation::Stx, InstructionMode::ZeroPageY, 4)),
        0x8E => Some(Instruction::describe(InstructionOperation::Stx, InstructionMode::Absolute, 4)),
        0x84 => Some(Instruction::describe(InstructionOperation::Sty, InstructionMode::ZeroPage, 3)),
        0x94 => Some(Instruction::describe(InstructionOperation::Sty, InstructionMode::ZeroPageX, 4)),
        0x8C => Some(Instruction::describe(InstructionOperation::Sty, InstructionMode::Absolute, 4)),
        0xAA => Some(Instruction::describe(InstructionOperation::Tax, InstructionMode::Implied, 2)),
        0xA8 => Some(Instruction::describe(InstructionOperation::Tay, InstructionMode::Implied, 2)),
        0xBA => Some(Instruction::describe(InstructionOperation::Tsx, InstructionMode::Implied, 2)),
        0x8A => Some(Instruction::describe(InstructionOperation::Txa, InstructionMode::Implied, 2)),
        0x9A => Some(Instruction::describe(InstructionOperation::Txs, InstructionMode::Implied, 2)),
        0x98 => Some(Instruction::describe(InstructionOperation::Tya, InstructionMode::Implied, 2)),
            _ => None,
        }
    }

    /// Whether the descriptor is consistent: its length is that of its mode,
    /// and its base cost lies between the least and the greatest of the
    /// table.
    pub open spec fn wf(&self) -> bool {
        &&& self.len == self.mode.spec_len_bytes()
        &&& 2 <= self.cycles_base <= 7
    }

    fn build(operation: InstructionOperation, mode: InstructionMode, cycles_base: u8) -> (r:
        Instruction)
        ensures
            r == Instruction::describe(operation, mode, cycles_base),
    {
        Instruction { operation, mode, len: mode.len_bytes(), cycles_base }
    }

    /// Looks `opcode` up in the opcode table. A byte outside the table is
    /// reported as `UnknownOpcode`.
    pub fn from_opcode(opcode: u8) -> (r: Result<Instruction, Error>)
        ensures
            match Instruction::table(opcode) {
                Some(instruction) => r == Ok::<Instruction, Error>(instruction),
                None => r == Err::<Instruction, Error>(Error::UnknownOpcode(opcode)),
            },
            r matches Ok(instruction) ==> instruction.wf() && 1 <= instruction.len <= 3,
    {
        match opcode {
            0x69 => Ok(Instruction::build(InstructionOperation::Adc, InstructionMode::Immediate, 2)),
            0x65 => Ok(Instruction::build(InstructionOperation::Adc, InstructionMode::ZeroPage, 3)),
            0x75 => Ok(Instruction::build(InstructionOperation::Adc, InstructionMode::ZeroPageX, 4)),
            0x6D => Ok(Instruction::build(InstructionOperation::Adc, InstructionMode::Absolute, 4)),
            0x7D => Ok(Instruction::build(InstructionOperation::Adc, InstructionMode::AbsoluteX, 4)),
            0x79 => Ok(Instruction::build(InstructionOperation::Adc, InstructionMode::AbsoluteY, 4)),
            0x61 => Ok(Instruction::build(InstructionOperation::Adc, InstructionMode::IndirectX, 6)),
            0x71 => Ok(Instruction::build(InstructionOperation::Adc, InstructionMode::IndirectY, 5)),
            0x29 => Ok(Instruction::build(InstructionOperation::And, InstructionMode::Immediate, 2)),
            0x25 => Ok(Instruction::build(InstructionOperation::And, InstructionMode::ZeroPage, 3)),
            0x35 => Ok(Instruction::build(InstructionOperation::And, InstructionMode::ZeroPageX, 4)),
            0x2D => Ok(Instruction::build(InstructionOperation::And, InstructionMode::Absolute, 4)),
            0x3D => Ok(Instruction::build(InstructionOperation::And, InstructionMode::AbsoluteX, 4)),
            0x39 => Ok(Instruction::build(InstructionOperation::And, InstructionMode::AbsoluteY, 4)),
            0x21 => Ok(Instruction::build(InstructionOperation::And, InstructionMode::IndirectX, 6)),
            0x31 => Ok(Instruction::build(InstructionOperation::And, InstructionMode::IndirectY, 5)),
            0x0A => Ok(Instruction::build(InstructionOperation::Asl, InstructionMode::Accumulator, 2)),
            0x06 => Ok(Instruction::build(InstructionOperation::Asl, InstructionMode::ZeroPage, 5)),
            0x16 => Ok(Instruction::build(InstructionOperation::Asl, InstructionMode::ZeroPageX, 6)),
            0x0E => Ok(Instruction::build(InstructionOperation::Asl, InstructionMode::Absolute, 6)),
            0x1E => Ok(Instruction::build(InstructionOperation::Asl, InstructionMode::AbsoluteX, 7)),
            0x90 => Ok(Instruction::build(InstructionOperation::Bcc, InstructionMode::Relative, 2)),
            0xB0 => Ok(Instruction::build(InstructionOperation::Bcs, InstructionMode::Relative, 2)),
            0xF0 => Ok(Instruction::build(InstructionOperation::Beq, InstructionMode::Relative, 2)),
            0x24 => Ok(Instruction::build(InstructionOperation::Bit, InstructionMode::ZeroPage, 3)),
            0x2C => Ok(Instruction::build(InstructionOperation::Bit, InstructionMode::Absolute, 4)),
            0x30 => Ok(Instruction::build(InstructionOperation::Bmi, InstructionMode::Relative, 2)),
            0xD0 => Ok(Instruction::build(InstructionOperation::Bne, InstructionMode::Relative, 2)),
            0x10 => Ok(Instruction::build(InstructionOperation::Bpl, InstructionMode::Relative, 2)),
            0x00 => Ok(Instruction::build(InstructionOperation::Brk, InstructionMode::Implied, 7)),
            0x50 => Ok(Instruction::build(InstructionOperation::Bvc, InstructionMode::Relative, 2)),
            0x70 => Ok(Instruction::build(InstructionOperation::Bvs, InstructionMode::Relative, 2)),
            0x18 => Ok(Instruction::build(InstructionOperation::Clc, InstructionMode::Implied, 2)),
            0xD8 => Ok(Instruction::build(InstructionOperation::Cld, InstructionMode::Implied, 2)),
            0x58 => Ok(Instruction::build(InstructionOperation::Cli, InstructionMode::Implied, 2)),
            0xB8 => Ok(Instruction::build(InstructionOperation::Clv, InstructionMode::Implied, 2)),
            0xC9 => Ok(Instruction::build(InstructionOperation::Cmp, InstructionMode::Immediate, 2)),
            0xC5 => Ok(Instruction::build(InstructionOperation::Cmp, InstructionMode::ZeroPage, 3)),
            0xD5 => Ok(Instruction::build(InstructionOperation::Cmp, InstructionMode::ZeroPageX, 4)),
            0xCD => Ok(Instruction::build(InstructionOperation::Cmp, InstructionMode::Absolute, 4)),
            0xDD => Ok(Instruction::build(InstructionOperation::Cmp, InstructionMode::AbsoluteX, 4)),
            0xD9 => Ok(Instruction::build(InstructionOperation::Cmp, InstructionMode::AbsoluteY, 4)),
            0xC1 => Ok(Instruction::build(InstructionOperation::Cmp, InstructionMode::IndirectX, 6)),
            0xD1 => Ok(Instruction::build(InstructionOperation::Cmp, InstructionMode::IndirectY, 5)),
            0xE0 => Ok(Instruction::build(InstructionOperation::Cpx, InstructionMode::Immediate, 2)),
            0xE4 => Ok(Instruction::build(InstructionOperation::Cpx, InstructionMode::ZeroPage, 3)),
            0xEC => Ok(Instruction::build(InstructionOperation::Cpx, InstructionMode::Absolute, 4)),
            0xC0 => Ok(Instruction::build(InstructionOperation::Cpy, InstructionMode::Immediate, 2)),
            0xC4 => Ok(Instruction::build(InstructionOperation::Cpy, InstructionMode::ZeroPage, 3)),
            0xCC => Ok(Instruction::build(InstructionOperation::Cpy, InstructionMode::Absolute, 4)),
            0xC6 => Ok(Instruction::build(InstructionOperation::Dec, InstructionMode::ZeroPage, 5)),
            0xD6 => Ok(Instruction::build(InstructionOperation::Dec, InstructionMode::ZeroPageX, 6)),
            0xCE => Ok(Instruction::build(InstructionOperation::Dec, InstructionMode::Absolute, 6)),
            0xDE => Ok(Instruction::build(InstructionOperation::Dec, InstructionMode::AbsoluteX, 7)),
            0xCA => Ok(Instruction::build(InstructionOperation::Dex, InstructionMode::Implied, 2)),
            0x88 => Ok(Instruction::build(InstructionOperation::Dey, InstructionMode::Implied, 2)),
            0x49 => Ok(Instruction::build(InstructionOperation::Eor, InstructionMode::Immediate, 2)),
            0x45 => Ok(Instruction::build(InstructionOperation::Eor, InstructionMode::ZeroPage, 3)),
            0x55 => Ok(Instruction::build(InstructionOperation::Eor, InstructionMode::ZeroPageX, 4)),
            0x4D => Ok(Instruction::build(InstructionOperation::Eor, InstructionMode::Absolute, 4)),
            0x5D => Ok(Instruction::build(InstructionOperation::Eor, InstructionMode::AbsoluteX, 4)),
            0x59 => Ok(Instruction::build(InstructionOperation::Eor, InstructionMode::AbsoluteY, 4)),
            0x41 => Ok(Instruction::build(InstructionOperation::Eor, InstructionMode::IndirectX, 6)),
            0x51 => Ok(Instruction::build(InstructionOperation::Eor, InstructionMode::IndirectY, 5)),
            0xE6 => Ok(Instruction::build(InstructionOperation::Inc, InstructionMode::ZeroPage, 5)),
            0xF6 => Ok(Instruction::build(InstructionOperation::Inc, InstructionMode::ZeroPageX, 6)),
            0xEE => Ok(Instruction::build(InstructionOperation::Inc, InstructionMode::Absolute, 6)),
            0xFE => Ok(Instruction::build(InstructionOperation::Inc, InstructionMode::AbsoluteX, 7)),
            0xE8 => Ok(Instruction::build(InstructionOperation::Inx, InstructionMode::Implied, 2)),
            0xC8 => Ok(Instruction::build(InstructionOperation::Iny, InstructionMode::Implied, 2)),
            0x4C => Ok(Instruction::build(InstructionOperation::Jmp, InstructionMode::Absolute, 3)),
            0x6C => Ok(Instruction::build(InstructionOperation::Jmp, InstructionMode::Indirect, 5)),
            0x20 => Ok(Instruction::build(InstructionOperation::Jsr, InstructionMode::Absolute, 6)),
            0xA9 => Ok(Instruction::build(InstructionOperation::Lda, InstructionMode::Immediate, 2)),
            0xA5 => Ok(Instruction::build(InstructionOperation::Lda, InstructionMode::ZeroPage, 3)),
            0xB5 => Ok(Instruction::build(InstructionOperation::Lda, InstructionMode::ZeroPageX, 4)),
            0xAD => Ok(Instruction::build(InstructionOperation::Lda, InstructionMode::Absolute, 4)),
            0xBD => Ok(Instruction::build(InstructionOperation::Lda, InstructionMode::AbsoluteX, 4)),
            0xB9 => Ok(Instruction::build(InstructionOperation::Lda, InstructionMode::AbsoluteY, 4)),
            0xA1 => Ok(Instruction::build(InstructionOperation::Lda, InstructionMode::IndirectX, 6)),
            0xB1 => Ok(Instruction::build(InstructionOperation::Lda, InstructionMode::IndirectY, 5)),
            0xA2 => Ok(Instruction::build(InstructionOperation::Ldx, InstructionMode::Immediate, 2)),
            0xA6 => Ok(Instruction::build(InstructionOperation::Ldx, InstructionMode::ZeroPage, 3)),
            0xB6 => Ok(Instruction::build(InstructionOperation::Ldx, InstructionMode::ZeroPageY, 4)),
            0xAE => Ok(Instruction::build(InstructionOperation::Ldx, InstructionMode::Absolute, 4)),
            0xBE => Ok(Instruction::build(InstructionOperation::Ldx, InstructionMode::AbsoluteY, 4)),
            0xA0 => Ok(Instruction::build(InstructionOperation::Ldy, InstructionMode::Immediate, 2)),
            0xA4 => Ok(Instruction::build(InstructionOperation::Ldy, InstructionMode::ZeroPage, 3)),
            0xB4 => Ok(Instruction::build(InstructionOperation::Ldy, InstructionMode::ZeroPageX, 4)),
            0xAC => Ok(Instruction::build(InstructionOperation::Ldy, InstructionMode::Absolute, 4)),
            0xBC => Ok(Instruction::build(InstructionOperation::Ldy, InstructionMode::AbsoluteX, 4)),
            0x4A => Ok(Instruction::build(InstructionOperation::Lsr, InstructionMode::Accumulator, 2)),
            0x46 => Ok(Instruction::build(InstructionOperation::Lsr, InstructionMode::ZeroPage, 5)),
            0x56 => Ok(Instruction::build(InstructionOperation::Lsr, InstructionMode::ZeroPageX, 6)),
            0x4E => Ok(Instruction::build(InstructionOperation::Lsr, InstructionMode::Absolute, 6)),
            0x5E => Ok(Instruction::build(InstructionOperation::Lsr, InstructionMode::AbsoluteX, 7)),
            0xEA => Ok(Instruction::build(InstructionOperation::Nop, InstructionMode::Implied, 2)),
            0x09 => Ok(Instruction::build(InstructionOperation::Ora, InstructionMode::Immediate, 2)),
            0x05 => Ok(Instruction::build(InstructionOperation::Ora, InstructionMode::ZeroPage, 3)),
            0x15 => Ok(Instruction::build(InstructionOperation::Ora, InstructionMode::ZeroPageX, 4)),
            0x0D => Ok(Instruction::build(InstructionOperation::Ora, InstructionMode::Absolute, 4)),
            0x1D => Ok(Instruction::build(InstructionOperation::Ora, InstructionMode::AbsoluteX, 4)),
            0x19 => Ok(Instruction::build(InstructionOperation::Ora, InstructionMode::AbsoluteY, 4)),
            0x01 => Ok(Instruction::build(InstructionOperation::Ora, InstructionMode::IndirectX, 6)),
            0x11 => Ok(Instruction::build(InstructionOperation::Ora, InstructionMode::IndirectY, 5)),
            0x48 => Ok(Instruction::build(InstructionOperation::Pha, InstructionMode::Implied, 3)),
            0x08 => Ok(Instruction::build(InstructionOperation::Php, InstructionMode::Implied, 3)),
            0x68 => Ok(Instruction::build(InstructionOperation::Pla, InstructionMode::Implied, 4)),
            0x28 => Ok(Instruction::build(InstructionOperation::Plp, InstructionMode::Implied, 4)),
            0x2A => Ok(Instruction::build(InstructionOperation::Rol, InstructionMode::Accumulator, 2)),
            0x26 => Ok(Instruction::build(InstructionOperation::Rol, InstructionMode::ZeroPage, 5)),
            0x36 => Ok(Instruction::build(InstructionOperation::Rol, InstructionMode::ZeroPageX, 6)),
            0x2E => Ok(Instruction::build(InstructionOperation::Rol, InstructionMode::Absolute, 6)),
            0x3E => Ok(Instruction::build(InstructionOperation::Rol, InstructionMode::AbsoluteX, 7)),
            0x6A => Ok(Instruction::build(InstructionOperation::Ror, InstructionMode::Accumulator, 2)),
            0x66 => Ok(Instruction::build(InstructionOperation::Ror, InstructionMode::ZeroPage, 5)),
            0x76 => Ok(Instruction::build(InstructionOperation::Ror, InstructionMode::ZeroPageX, 6)),
            0x6E => Ok(Instruction::build(InstructionOperation::Ror, InstructionMode::Absolute, 6)),
            0x7E => Ok(Instruction::build(InstructionOperation::Ror, InstructionMode::AbsoluteX, 7)),
            0x40 => Ok(Instruction::build(InstructionOperation::Rti, InstructionMode::Implied, 6)),
            0x60 => Ok(Instruction::build(InstructionOperation::Rts, InstructionMode::Implied, 6)),
            0xE9 => Ok(Instruction::build(InstructionOperation::Sbc, InstructionMode::Immediate, 2)),
            0xE5 => Ok(Instruction::build(InstructionOperation::Sbc, InstructionMode::ZeroPage, 3)),
            0xF5 => Ok(Instruction::build(InstructionOperation::Sbc, InstructionMode::ZeroPageX, 4)),
            0xED => Ok(Instruction::build(InstructionOperation::Sbc, InstructionMode::Absolute, 4)),
            0xFD => Ok(Instruction::build(InstructionOperation::Sbc, InstructionMode::AbsoluteX, 4)),
            0xF9 => Ok(Instruction::build(InstructionOperation::Sbc, InstructionMode::AbsoluteY, 4)),
            0xE1 => Ok(Instruction::build(InstructionOperation::Sbc, InstructionMode::IndirectX, 6)),
            0xF1 => Ok(Instruction::build(InstructionOperation::Sbc, InstructionMode::IndirectY, 5)),
            0x38 => Ok(Instruction::build(InstructionOperation::Sec, InstructionMode::Implied, 2)),
            0xF8 => Ok(Instruction::build(InstructionOperation::Sed, InstructionMode::Implied, 2)),
            0x78 => Ok(Instruction::build(InstructionOperation::Sei, InstructionMode::Implied, 2)),
            0x85 => Ok(Instruction::build(InstructionOperation::Sta, InstructionMode::ZeroPage, 3)),
            0x95 => Ok(Instruction::build(InstructionOperation::Sta, InstructionMode::ZeroPageX, 4)),
            0x8D => Ok(Instruction::build(InstructionOperation::Sta, InstructionMode::Absolute, 4)),
            0x9D => Ok(Instruction::build(InstructionOperation::Sta, InstructionMode::AbsoluteX, 5)),
            0x99 => Ok(Instruction::build(InstructionOperation::Sta, InstructionMode::AbsoluteY, 5)),
            0x81 => Ok(Instruction::build(InstructionOperation::Sta, InstructionMode::IndirectX, 6)),
            0x91 => Ok(Instruction::build(InstructionOperation::Sta, InstructionMode::IndirectY, 6)),
            0x86 => Ok(Instruction::build(InstructionOperation::Stx, InstructionMode::ZeroPage, 3)),
            0x96 => Ok(Instruction::build(InstructionOperation::Stx, InstructionMode::ZeroPageY, 4)),
            0x8E => Ok(Instruction::build(InstructionOperation::Stx, InstructionMode::Absolute, 4)),
            0x84 => Ok(Instruction::build(InstructionOperation::Sty, InstructionMode::ZeroPage, 3)),
            0x94 => Ok(Instruction::build(InstructionOperation::Sty, InstructionMode::ZeroPageX, 4)),
            0x8C => Ok(Instruction::build(InstructionOperation::Sty, InstructionMode::Absolute, 4)),
            0xAA => Ok(Instruction::build(InstructionOperation::Tax, InstructionMode::Implied, 2)),
            0xA8 => Ok(Instruction::build(InstructionOperation::Tay, InstructionMode::Implied, 2)),
            0xBA => Ok(Instruction::build(InstructionOperation::Tsx, InstructionMode::Implied, 2)),
            0x8A => Ok(Instruction::build(InstructionOperation::Txa, InstructionMode::Implied, 2)),
            0x9A => Ok(Instruction::build(InstructionOperation::Txs, InstructionMode::Implied, 2)),
            0x98 => Ok(Instruction::build(InstructionOperation::Tya, InstructionMode::Implied, 2)),
            _ => Err(Error::UnknownOpcode(opcode)),
        }
    }

    pub fn operation(&self) -> (r: InstructionOperation)
        ensures
            r == self.operation,
    {
        self.operation
    }

    pub fn mode(&self) -> (r: InstructionMode)
        ensures
            r == self.mode,
    {
        self.mode
    }

    pub fn len(&self) -> (r: u8)
        ensures
            r == self.len,
    {
        self.len
    }

    pub fn cycles_base(&self) -> (r: u8)
        ensures
            r == self.cycles_base,
    {
        self.cycles_base
    }
}

/// Where a resolved operand lives.
#[derive(Clone, Copy, Debug, PartialEq, Eq, Structural)]
pub enum InstructionInputLocation {
    Accumulator,
    Address(u16),
}

/// A resolved operand.
#[derive(Clone, Copy, Debug, PartialEq, Eq, Structural)]
pub enum InstructionInput {
    /// The instruction has no operand.
    Implied,
    /// The operand is this byte.
    Byte(u8),
    /// The operand is what the location holds, or the location itself.
    Location(InstructionInputLocation),
}

impl InstructionInput {
    /// The operand at `address`.
    pub fn from_address(address: u16) -> (r: InstructionInput)
        ensures
            r == InstructionInput::Location(InstructionInputLocation::Address(address)),
    {
        InstructionInput::Location(InstructionInputLocation::Address(address))
    }

    /// The location of the operand, if it has one.
    pub open spec fn spec_location(self) -> Result<InstructionInputLocation, Error> {
        match self {
            InstructionInput::Location(location) => Ok(location),
            _ => Err(Error::InputShapeMismatch),
        }
    }

    /// The address of the operand, if it lies in memory.
    pub open spec fn spec_address(self) -> Result<u16, Error> {
        match self {
            InstructionInput::Location(InstructionInputLocation::Address(address)) => Ok(address),
            _ => Err(Error::InputShapeMismatch),
        }
    }

    /// The location of the operand; `InputShapeMismatch` if it has none.
    pub fn unwrap_location(self) -> (r: Result<InstructionInputLocation, Error>)
        ensures
            r == self.spec_location(),
    {
        match self {
            InstructionInput::Location(location) => Ok(location),
            _ => Err(Error::InputShapeMismatch),
        }
    }

    /// The address of the operand; `InputShapeMismatch` if it does not lie in
    /// memory.
    pub fn unwrap_address(self) -> (r: Result<u16, Error>)
        ensures
            r == self.spec_address(),
    {
        match self.unwrap_location() {
            Ok(InstructionInputLocation::Address(address)) => Ok(address),
            _ => Err(Error::InputShapeMismatch),
        }
    }
}

} // verus!
