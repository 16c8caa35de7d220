//! The stack: page one of the address space, growing downwards from the
//! stack pointer.

use vstd::prelude::*;
use crate::cpu::registers::{RegisterSet, ADDRESS_STACK};
use crate::cpu::{Cpu, CpuView};
use crate::error::Error;
use crate::types::{high_byte, low_byte, u16_bytes, u16_le, word};

verus! {

/// The address of the stack cell that the stack pointer `s` names.
pub open spec fn stack_address(s: u8) -> u16 {
    (ADDRESS_STACK + s) as u16
}

/// The stack pointer after a push: one less, wrapping from 0x00 to 0xFF.
pub open spec fn pushed_pointer(s: u8) -> u8 {
    ((s + 255) % 256) as u8
}

/// The stack pointer after a pull: one more, wrapping from 0xFF to 0x00.
pub open spec fn pulled_pointer(s: u8) -> u8 {
    ((s + 1) % 256) as u8
}

impl CpuView {
    /// The machine after a push of `value`, and the result of the push. The
    /// byte is written at the stack pointer, and the pointer then moves down.
    /// A stack cell that no device answers for is a fault that leaves the
    /// machine as it was.
    pub open spec fn push(self, value: u8) -> (CpuView, Result<(), Error>) {
        let address = stack_address(self.registers.s);
        if self.bus.mapped(address) {
            (
                CpuView {
                    bus: self.bus.write(address, value),
                    registers: RegisterSet {
                        s: pushed_pointer(self.registers.s),
                        ..self.registers
                    },
                    ..self
                },
                Ok(()),
            )
        } else {
            (self, Err(Error::DeviceNotFound(address)))
        }
    }

    /// The machine after a pull, and the byte pulled. The pointer moves up,
    /// and the byte is read at the pointer; the cell is then cleared to zero.
    /// A stack cell that no device answers for is a fault that leaves the
    /// machine as it was.
    pub open spec fn pull(self) -> (CpuView, Result<u8, Error>) {
        let s = pulled_pointer(self.registers.s);
        let address = stack_address(s);
        match self.bus.read(address) {
            Ok(value) => (
                CpuView {
                    bus: self.bus.write(address, 0),
                    registers: RegisterSet { s, ..self.registers },
                    ..self
                },
                Ok(value),
            ),
            Err(e) => (self, Err(e)),
        }
    }

    /// The machine after a push of the word `value`, high byte first, so that
    /// the low byte lies at the lower address. Nothing is pushed after the
    /// first fault.
    pub open spec fn push_u16(self, value: u16) -> (CpuView, Result<(), Error>) {
        let (after_high, result) = self.push(high_byte(value));
        if result is Ok {
            after_high.push(low_byte(value))
        } else {
            (after_high, result)
        }
    }

    /// The machine after a pull of a word, low byte first, and the word
    /// pulled. Nothing is pulled after the first fault.
    pub open spec fn pull_u16(self) -> (CpuView, Result<u16, Error>) {
        let (after_low, low) = self.pull();
        match low {
            Ok(lo) => {
                let (after_high, high) = after_low.pull();
                match high {
                    Ok(hi) => (after_high, Ok(word(lo, hi))),
                    Err(e) => (after_high, Err(e)),
                }
            },
            Err(e) => (after_low, Err(e)),
        }
    }
}

impl Cpu {
    /// The address of the top of the stack.
    pub fn stack_determine_address(&self) -> (address: u16)
        ensures
            address == stack_address(self.registers.s),
    {
        ADDRESS_STACK + self.registers.s as u16
    }

    /// Pushes a byte.
    pub fn stack_push(&mut self, value: u8) -> (r: Result<(), Error>)
        ensures
            (final(self)@, r) == old(self)@.push(value),
    {
        let address = self.stack_determine_address();
        match self.bus.write(address, value) {
            Ok(()) => {},
            Err(e) => {
                return Err(e);
            },
        }
        self.registers.s = self.registers.s.wrapping_sub(1);
        Ok(())
    }

    /// Pushes a word, high byte first.
    pub fn stack_push_u16(&mut self, value: u16) -> (r: Result<(), Error>)
        ensures
            (final(self)@, r) == old(self)@.push_u16(value),
    {
        let (low, high) = u16_bytes(value);
        match self.stack_push(high) {
            Ok(()) => {},
            Err(e) => {
                return Err(e);
            },
        }
        self.stack_push(low)
    }

    /// Pulls a byte.
    pub fn stack_pull(&mut self) -> (r: Result<u8, Error>)
        ensures
            (final(self)@, r) == old(self)@.pull(),
    {
        let s = self.registers.s.wrapping_add(1);
        let address = ADDRESS_STACK + s as u16;
        let value = match self.bus.read(address) {
            Ok(value) => value,
            Err(e) => {
                return Err(e);
            },
        };
        let _ = self.bus.write(address, 0);
        self.registers.s = s;
        Ok(value)
    }

    /// Pulls a word, low byte first.
    pub fn stack_pull_u16(&mut self) -> (r: Result<u16, Error>)
        ensures
            (final(self)@, r) == old(self)@.pull_u16(),
    {
        let low = match self.stack_pull() {
            Ok(low) => low,
            Err(e) => {
                return Err(e);
            },
        };
        let high = match self.stack_pull() {
            Ok(high) => high,
            Err(e) => {
                return Err(e);
            },
        };
        Ok(u16_le(low, high))
    }
}

} // verus!
