//! The register file and the interrupt vectors.

use vstd::prelude::*;
use crate::cpu::flags::StatusFlags;

verus! {

/// Where the vector of the non-maskable interrupt is stored.
pub const ADDRESS_VECTOR_NMI: u16 = 0xFFFA;

/// Where the vector of a reset is stored.
pub const ADDRESS_VECTOR_RESET: u16 = 0xFFFC;

/// Where the vector of an interrupt request, and of `BRK`, is stored.
pub const ADDRESS_VECTOR_IRQ: u16 = 0xFFFE;

/// The first address of the stack page.
pub const ADDRESS_STACK: u16 = 0x0100;

/// The registers of the processor.
#[derive(Clone, Copy, Debug, PartialEq, Eq, Structural)]
pub struct RegisterSet {
    /// The accumulator.
    pub a: u8,
    /// The first index register.
    pub x: u8,
    /// The second index register.
    pub y: u8,
    /// The stack pointer: the top of the stack is at 0x0100 + `s`.
    pub s: u8,
    /// The status word.
    pub p: StatusFlags,
    /// The program counter.
    pub pc: u16,
}

impl RegisterSet {
    /// The registers at power-on, before the program counter is loaded from
    /// the reset vector.
    pub open spec fn initial() -> RegisterSet {
        RegisterSet {
            a: 0,
            x: 0,
            y: 0,
            s: 0xFF,
            p: StatusFlags { bits: StatusFlags::INTERRUPT_DISABLE },
            pc: 0,
        }
    }

    /// The registers at power-on: everything zero, but the stack pointer at
    /// the top of the stack page and interrupts disabled.
    pub fn new() -> (registers: RegisterSet)
        ensures
            registers == Self::initial(),
    {
        RegisterSet { a: 0, x: 0, y: 0, s: 0xFF, p: StatusFlags::default(), pc: 0 }
    }
}

/// The addresses at which execution goes on after each kind of interrupt,
/// as read from the bus at power-on.
#[derive(Clone, Copy, Debug, PartialEq, Eq, Structural)]
pub struct VectorSet {
    pub nmi: u16,
    pub reset: u16,
    pub irq: u16,
}

} // verus!
