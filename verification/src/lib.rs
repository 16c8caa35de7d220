//! An instruction-level model of the MOS 6502 as found in the NES (no decimal
//! mode), together with the memory bus it drives.
//!
//! Every executable function carries a contract over a mathematical model of
//! the machine: bytes and words as integers, memory as sequences, and the
//! processor as a record of registers, bus, clock and interrupt lines.

pub mod apu;
pub mod bus;
pub mod constants;
pub mod cpu;
pub mod device;
pub mod error;
pub mod palette;
pub mod ppu;
pub mod ram;
pub mod rom;
pub mod types;
