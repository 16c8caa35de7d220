//! Operand resolution: from an addressing mode and the bytes of an
//! instruction to the operand that the instruction works on.

use vstd::prelude::*;
use crate::cpu::instruction::{InstructionInput, InstructionInputLocation, InstructionMode};
use crate::cpu::registers::RegisterSet;
use crate::cpu::{Cpu, CpuView};
use crate::error::Error;
use crate::types::{high_byte, signed, u16_bytes, u16_le, word};

verus! {

/// The target of a branch: `pc` moved by `offset` read as a signed byte,
/// modulo the size of the address space.
pub open spec fn relative_target(pc: u16, offset: u8) -> u16 {
    ((pc + signed(offset)) % 0x10000) as u16
}

/// The address `index` bytes after `base`, modulo the size of the address
/// space.
pub open spec fn indexed(base: u16, index: u8) -> u16 {
    ((base + index) % 0x10000) as u16
}

/// The address in page zero `index` bytes after `base`, wrapping within the
/// page.
pub open spec fn zero_page_indexed(base: u8, index: u8) -> u8 {
    ((base + index) % 256) as u8
}

/// Whether two addresses lie in different pages.
pub open spec fn pages_differ(a: u16, b: u16) -> bool {
    high_byte(a) != high_byte(b)
}

/// The operand at `address`.
pub open spec fn at(address: u16) -> InstructionInput {
    InstructionInput::Location(InstructionInputLocation::Address(address))
}

impl CpuView {
    /// The operand of an instruction in `mode` whose bytes, opcode first, are
    /// `bytes`. The program counter stands behind the instruction already.
    pub open spec fn resolve(self, mode: InstructionMode, bytes: Seq<u8>) -> Result<
        InstructionInput,
        Error,
    > {
        let r = self.registers;
        match mode {
            InstructionMode::Implied => Ok(InstructionInput::Implied),
            InstructionMode::Accumulator => Ok(
                InstructionInput::Location(InstructionInputLocation::Accumulator),
            ),
            InstructionMode::Immediate => Ok(InstructionInput::Byte(bytes[1])),
            InstructionMode::Relative => Ok(at(relative_target(r.pc, bytes[1]))),
            InstructionMode::ZeroPage => Ok(at(bytes[1] as u16)),
            InstructionMode::ZeroPageX => Ok(at(zero_page_indexed(bytes[1], r.x) as u16)),
            InstructionMode::ZeroPageY => Ok(at(zero_page_indexed(bytes[1], r.y) as u16)),
            InstructionMode::Absolute => Ok(at(word(bytes[1], bytes[2]))),
            InstructionMode::AbsoluteX => Ok(at(indexed(word(bytes[1], bytes[2]), r.x))),
            InstructionMode::AbsoluteY => Ok(at(indexed(word(bytes[1], bytes[2]), r.y))),
            InstructionMode::Indirect => match self.bus.read_u16_buggy(word(bytes[1], bytes[2])) {
                Ok(address) => Ok(at(address)),
                Err(e) => Err(e),
            },
            InstructionMode::IndirectX => match self.bus.read_zp_u16(
                zero_page_indexed(bytes[1], r.x),
            ) {
                Ok(address) => Ok(at(address)),
                Err(e) => Err(e),
            },
            InstructionMode::IndirectY => match self.bus.read_zp_u16(bytes[1]) {
                Ok(base) => Ok(at(indexed(base, r.y))),
                Err(e) => Err(e),
            },
        }
    }

    /// Whether indexing took the operand of an instruction in `mode` into
    /// another page than the one that its base address lies in. Only the
    /// modes that add an index register to a full address can do so.
    pub open spec fn page_crossed(self, mode: InstructionMode, bytes: Seq<u8>) -> bool {
        let r = self.registers;
        match mode {
            InstructionMode::AbsoluteX => pages_differ(
                word(bytes[1], bytes[2]),
                indexed(word(bytes[1], bytes[2]), r.x),
            ),
            InstructionMode::AbsoluteY => pages_differ(
                word(bytes[1], bytes[2]),
                indexed(word(bytes[1], bytes[2]), r.y),
            ),
            InstructionMode::IndirectY => match self.bus.read_zp_u16(bytes[1]) {
                Ok(base) => pages_differ(base, indexed(base, r.y)),
                Err(_) => false,
            },
            _ => false,
        }
    }

    /// The byte that an operation reads through `input`: the byte itself, or
    /// the byte at the address. Neither the accumulator nor a missing operand
    /// has one.
    pub open spec fn operand(self, input: InstructionInput) -> Result<u8, Error> {
        match input {
            InstructionInput::Byte(value) => Ok(value),
            InstructionInput::Location(InstructionInputLocation::Address(address)) => self.bus.read(
                address,
            ),
            _ => Err(Error::InputShapeMismatch),
        }
    }

    /// The byte that `location` holds.
    pub open spec fn load(self, location: InstructionInputLocation) -> Result<u8, Error> {
        match location {
            InstructionInputLocation::Accumulator => Ok(self.registers.a),
            InstructionInputLocation::Address(address) => self.bus.read(address),
        }
    }

    /// The machine after `value` was put into `location`, and the result of
    /// doing so.
    pub open spec fn store(self, location: InstructionInputLocation, value: u8) -> (
        CpuView,
        Result<(), Error>,
    ) {
        match location {
            InstructionInputLocation::Accumulator => (
                CpuView { registers: RegisterSet { a: value, ..self.registers }, ..self },
                Ok(()),
            ),
            InstructionInputLocation::Address(address) => (
                CpuView { bus: self.bus.write(address, value), ..self },
                self.bus.write_result(address),
            ),
        }
    }
}

fn branch_target(pc: u16, offset: u8) -> (target: u16)
    ensures
        target == relative_target(pc, offset),
{
    if offset < 0x80 {
        pc.wrapping_add(offset as u16)
    } else {
        pc.wrapping_sub(0x100 - offset as u16)
    }
}

fn index_address(base: u16, index: u8) -> (address: u16)
    ensures
        address == indexed(base, index),
{
    base.wrapping_add(index as u16)
}

fn index_zero_page(base: u8, index: u8) -> (address: u8)
    ensures
        address == zero_page_indexed(base, index),
{
    base.wrapping_add(index)
}

fn high_of(address: u16) -> (high: u8)
    ensures
        high == high_byte(address),
{
    u16_bytes(address).1
}

impl Cpu {
    /// Resolves the operand of an instruction in `mode` whose bytes, opcode
    /// first, are `bytes`. The program counter must stand behind the
    /// instruction already: a branch counts from there.
    pub fn determine_input(&self, mode: InstructionMode, bytes: &[u8]) -> (r: Result<
        InstructionInput,
        Error,
    >)
        requires
            bytes@.len() == mode.spec_len_bytes(),
        ensures
            r == self@.resolve(mode, bytes@),
    {
        match mode {
            InstructionMode::Implied => Ok(InstructionInput::Implied),
            InstructionMode::Accumulator => Ok(
                InstructionInput::Location(InstructionInputLocation::Accumulator),
            ),
            InstructionMode::Immediate => Ok(InstructionInput::Byte(bytes[1])),
            InstructionMode::Relative => Ok(
                InstructionInput::from_address(branch_target(self.registers.pc, bytes[1])),
            ),
            InstructionMode::ZeroPage => Ok(InstructionInput::from_address(bytes[1] as u16)),
            InstructionMode::ZeroPageX => Ok(
                InstructionInput::from_address(index_zero_page(bytes[1], self.registers.x) as u16),
            ),
            InstructionMode::ZeroPageY => Ok(
                InstructionInput::from_address(index_zero_page(bytes[1], self.registers.y) as u16),
            ),
            InstructionMode::Absolute => Ok(
                InstructionInput::from_address(u16_le(bytes[1], bytes[2])),
            ),
            InstructionMode::AbsoluteX => Ok(
                InstructionInput::from_address(
                    index_address(u16_le(bytes[1], bytes[2]), self.registers.x),
                ),
            ),
            InstructionMode::AbsoluteY => Ok(
                InstructionInput::from_address(
                    index_address(u16_le(bytes[1], bytes[2]), self.registers.y),
                ),
            ),
            InstructionMode::Indirect => {
                match self.bus.read_u16_buggy(u16_le(bytes[1], bytes[2])) {
                    Ok(address) => Ok(InstructionInput::from_address(address)),
                    Err(e) => Err(e),
                }
            },
            InstructionMode::IndirectX => {
                match self.bus.read_zp_u16(index_zero_page(bytes[1], self.registers.x)) {
                    Ok(address) => Ok(InstructionInput::from_address(address)),
                    Err(e) => Err(e),
                }
            },
            InstructionMode::IndirectY => {
                match self.bus.read_zp_u16(bytes[1]) {
                    Ok(base) => Ok(
                        InstructionInput::from_address(
                            index_address(base, self.registers.y),
                        ),
                    ),
                    Err(e) => Err(e),
                }
            },
        }
    }

    /// Whether indexing took the operand of an instruction in `mode` into
    /// another page than the one of its base address.
    pub fn determine_page_crossed(&self, mode: InstructionMode, bytes: &[u8]) -> (r: bool)
        requires
            bytes@.len() == mode.spec_len_bytes(),
        ensures
            r == self@.page_crossed(mode, bytes@),
    {
        match mode {
            InstructionMode::AbsoluteX => {
                let base = u16_le(bytes[1], bytes[2]);
                high_of(base) != high_of(index_address(base, self.registers.x))
            },
            InstructionMode::AbsoluteY => {
                let base = u16_le(bytes[1], bytes[2]);
                high_of(base) != high_of(index_address(base, self.registers.y))
            },
            InstructionMode::IndirectY => {
                match self.bus.read_zp_u16(bytes[1]) {
                    Ok(base) => high_of(base) != high_of(
                        index_address(base, self.registers.y),
                    ),
                    Err(_) => false,
                }
            },
            _ => false,
        }
    }

    /// The byte that an operation reads through `input`; `InputShapeMismatch`
    /// for the accumulator and for a missing operand.
    pub fn resolve_input_byte(&self, input: InstructionInput) -> (r: Result<u8, Error>)
        ensures
            r == self@.operand(input),
    {
        match input {
            InstructionInput::Byte(value) => Ok(value),
            InstructionInput::Location(InstructionInputLocation::Address(address)) => self.bus.read(
                address,
            ),
            _ => Err(Error::InputShapeMismatch),
        }
    }

    /// The byte that `location` holds.
    pub fn read_location(&self, location: InstructionInputLocation) -> (r: Result<u8, Error>)
        ensures
            r == self@.load(location),
    {
        match location {
            InstructionInputLocation::Accumulator => Ok(self.registers.a),
            InstructionInputLocation::Address(address) => self.bus.read(address),
        }
    }

    /// Puts `result` into `target`.
    pub fn persist_result_by_location(&mut self, result: u8, target: InstructionInputLocation) -> (r:
        Result<(), Error>)
        ensures
            (final(self)@, r) == old(self)@.store(target, result),
    {
        match target {
            InstructionInputLocation::Accumulator => {
                self.registers.a = result;
                Ok(())
            },
            InstructionInputLocation::Address(address) => self.bus.write(address, result),
        }
    }
}

} // verus!
