//! The faults that the bus and the processor report.

use vstd::prelude::*;

verus! {

/// A fault of the core. Nothing is recovered from inside: the first fault of
/// an operation is handed to the caller.
#[derive(Clone, Copy, Debug, PartialEq, Eq, Structural)]
pub enum Error {
    /// The byte names no instruction.
    UnknownOpcode(u8),
    /// No device is connected at the address.
    DeviceNotFound(u16),
    /// A multi-byte access that starts at the address would run past the end
    /// of the address space.
    OutOfBounds(u16),
    /// An operation asked a resolved operand for a shape that it does not
    /// have: a byte of a bare location, an address of the accumulator.
    InputShapeMismatch,
    /// The range, given by its first and last address, is empty: it ends
    /// before it starts.
    RangeInverted(u16, u16),
    /// The range, given by its first and last address, shares an address with
    /// a range that is connected already.
    RangeOverlap(u16, u16),
}

impl Error {
    /// A short description of the kind of fault.
    pub fn describe(&self) -> (r: &'static str)
        ensures
            r@ == self.description(),
    {
        match self {
            Error::UnknownOpcode(_) => "no instruction found for opcode",
            Error::DeviceNotFound(_) => "no device connected to address",
            Error::OutOfBounds(_) => "access runs past the end of the address space",
            Error::InputShapeMismatch => "input does not have the requested shape",
            Error::RangeInverted(_, _) => "range ends before it starts",
            Error::RangeOverlap(_, _) => "range overlaps a connected range",
        }
    }

    /// The text of `describe`.
    pub open spec fn description(&self) -> Seq<char> {
        match self {
            Error::UnknownOpcode(_) => "no instruction found for opcode"@,
            Error::DeviceNotFound(_) => "no device connected to address"@,
            Error::OutOfBounds(_) => "access runs past the end of the address space"@,
            Error::InputShapeMismatch => "input does not have the requested shape"@,
            Error::RangeInverted(_, _) => "range ends before it starts"@,
            Error::RangeOverlap(_, _) => "range overlaps a connected range"@,
        }
    }
}

} // verus!
