//! The processor status word: eight named flags in one byte.

use vstd::prelude::*;

verus! {

/// The status word `P`. From the most significant bit down: negative,
/// overflow, the two break bits, decimal, interrupt disable, zero, carry.
///
/// A flag, or a group of flags, is named by its mask.
#[derive(Clone, Copy, Debug, PartialEq, Eq, Structural)]
pub struct StatusFlags {
    pub bits: u8,
}

/// Which source a pushed status word names in its break bits.
#[derive(Clone, Copy, Debug, PartialEq, Eq, Structural)]
pub enum BreakType {
    /// An interrupt line: the left break bit alone.
    Internal,
    /// A `BRK` or `PHP` instruction: both break bits.
    Program,
}

impl StatusFlags {
    pub const NEGATIVE: u8 = 0x80;

    pub const OVERFLOW: u8 = 0x40;

    /// Always published as one when the status word is pushed.
    pub const BREAK_LEFT: u8 = 0x20;

    /// Set in a pushed status word when the push came from an instruction
    /// rather than from an interrupt line.
    pub const BREAK_RIGHT: u8 = 0x10;

    pub const DECIMAL: u8 = 0x08;

    pub const INTERRUPT_DISABLE: u8 = 0x04;

    pub const ZERO: u8 = 0x02;

    pub const CARRY: u8 = 0x01;

    /// Whether every flag of `mask` is set.
    pub open spec fn has(self, mask: u8) -> bool {
        self.bits & mask == mask
    }

    /// The word with the flags of `mask` set.
    pub open spec fn with(self, mask: u8) -> StatusFlags {
        StatusFlags { bits: self.bits | mask }
    }

    /// The word with the flags of `mask` cleared.
    pub open spec fn without(self, mask: u8) -> StatusFlags {
        StatusFlags { bits: self.bits & !mask }
    }

    /// The word with the flags of `mask` set if `on`, cleared otherwise.
    pub open spec fn assign(self, mask: u8, on: bool) -> StatusFlags {
        if on {
            self.with(mask)
        } else {
            self.without(mask)
        }
    }

    /// The word with its break bits naming `break_type`.
    pub open spec fn with_break(self, break_type: BreakType) -> StatusFlags {
        match break_type {
            BreakType::Internal => self.with(Self::BREAK_LEFT).without(Self::BREAK_RIGHT),
            BreakType::Program => self.with(Self::BREAK_LEFT).with(Self::BREAK_RIGHT),
        }
    }

    /// The word with both break bits cleared.
    pub open spec fn without_break(self) -> StatusFlags {
        self.without(Self::BREAK_LEFT).without(Self::BREAK_RIGHT)
    }

    /// The word that a pull from the stack leaves in the register: every bit
    /// of the pulled byte but the break bits; the right break bit cleared, the
    /// left one as the register held it.
    pub open spec fn pulled(self, byte: u8) -> StatusFlags {
        StatusFlags {
            bits: (byte & !(Self::BREAK_LEFT | Self::BREAK_RIGHT)) | (self.bits
                & Self::BREAK_LEFT),
        }
    }

    /// The carry flag as a number: one if set, zero otherwise.
    pub open spec fn carry(self) -> int {
        if self.has(Self::CARRY) {
            1
        } else {
            0
        }
    }

    /// No flag set.
    pub fn empty() -> (r: StatusFlags)
        ensures
            r.bits == 0,
    {
        StatusFlags { bits: 0 }
    }

    /// The word that holds exactly the bits of `bits`.
    pub fn from_bits(bits: u8) -> (r: StatusFlags)
        ensures
            r.bits == bits,
    {
        StatusFlags { bits }
    }

    /// The status word as a byte.
    pub fn bits(&self) -> (r: u8)
        ensures
            r == self.bits,
    {
        self.bits
    }

    /// Whether every flag of `mask` is set.
    pub fn contains(&self, mask: u8) -> (r: bool)
        ensures
            r == self.has(mask),
    {
        self.bits & mask == mask
    }

    /// Sets the flags of `mask`.
    pub fn insert(&mut self, mask: u8)
        ensures
            *final(self) == old(self).with(mask),
    {
        self.bits = self.bits | mask;
    }

    /// Clears the flags of `mask`.
    pub fn remove(&mut self, mask: u8)
        ensures
            *final(self) == old(self).without(mask),
    {
        self.bits = self.bits & !mask;
    }

    /// Sets the flags of `mask` if `on`, clears them otherwise.
    pub fn set(&mut self, mask: u8, on: bool)
        ensures
            *final(self) == old(self).assign(mask, on),
    {
        if on {
            self.insert(mask);
        } else {
            self.remove(mask);
        }
    }

    /// Makes the break bits name `break_type`.
    pub fn set_break(&mut self, break_type: BreakType)
        ensures
            *final(self) == old(self).with_break(break_type),
    {
        match break_type {
            BreakType::Internal => {
                self.insert(Self::BREAK_LEFT);
                self.remove(Self::BREAK_RIGHT);
            },
            BreakType::Program => {
                self.insert(Self::BREAK_LEFT);
                self.insert(Self::BREAK_RIGHT);
            },
        }
    }

    /// Clears both break bits.
    pub fn clear_break(&mut self)
        ensures
            *final(self) == old(self).without_break(),
    {
        self.remove(Self::BREAK_LEFT);
        self.remove(Self::BREAK_RIGHT);
    }
}

impl Default for StatusFlags {
    /// The status word at power-on: interrupts disabled, nothing else set.
    fn default() -> (r: StatusFlags)
        ensures
            r.bits == StatusFlags::INTERRUPT_DISABLE,
    {
        StatusFlags { bits: Self::INTERRUPT_DISABLE }
    }
}

} // verus!
