//! Plain read-write memory.

use vstd::prelude::*;
use crate::device::{DeviceRead, DeviceWrite};

verus! {

/// A block of read-write memory whose first cell answers at `base`.
pub struct Ram {
    base: u16,
    bytes: Vec<u8>,
}

/// What a block of memory is: where it starts and what its cells hold.
pub struct RamView {
    pub base: u16,
    pub bytes: Seq<u8>,
}

impl RamView {
    /// Whether the block has a cell for `address`.
    pub open spec fn holds(self, address: u16) -> bool {
        self.base <= address < self.base + self.bytes.len()
    }

    /// The byte in the cell for `address`; zero where there is no such cell.
    pub open spec fn read(self, address: u16) -> u8 {
        if self.holds(address) {
            self.bytes[address - self.base]
        } else {
            0
        }
    }

    /// The block after `value` was put in the cell for `address`; the block
    /// unchanged where there is no such cell.
    pub open spec fn write(self, address: u16, value: u8) -> RamView {
        if self.holds(address) {
            RamView { base: self.base, bytes: self.bytes.update(address - self.base, value) }
        } else {
            self
        }
    }
}

impl View for Ram {
    type V = RamView;

    closed spec fn view(&self) -> RamView {
        RamView { base: self.base, bytes: self.bytes@ }
    }
}

impl Ram {
    /// A block of `size` cells, all zero, the first of which answers at
    /// `base`.
    pub fn new(base: u16, size: usize) -> (ram: Ram)
        ensures
            ram@.base == base,
            ram@.bytes.len() == size,
            forall|i: int| 0 <= i < size ==> ram@.bytes[i] == 0,
    {
        let bytes: Vec<u8> = vec![0u8; size];
        Ram { base, bytes }
    }

    /// The address at which the first cell answers.
    pub fn base(&self) -> (base: u16)
        ensures
            base == self@.base,
    {
        self.base
    }

    /// The number of cells.
    pub fn size(&self) -> (size: usize)
        ensures
            size == self@.bytes.len(),
    {
        self.bytes.len()
    }
}

impl DeviceRead for Ram {
    open spec fn spec_device_read(state: RamView, address: u16) -> u8 {
        state.read(address)
    }

    fn device_read(&self, address: u16) -> (value: u8) {
        if address >= self.base {
            let offset: usize = (address - self.base) as usize;
            if offset < self.bytes.len() {
                return self.bytes[offset];
            }
        }
        0
    }
}

impl DeviceWrite for Ram {
    open spec fn spec_device_write(state: RamView, address: u16, value: u8) -> RamView {
        state.write(address, value)
    }

    fn device_write(&mut self, address: u16, value: u8) {
        if address >= self.base {
            let offset: usize = (address - self.base) as usize;
            if offset < self.bytes.len() {
                self.bytes[offset] = value;
            }
        }
    }
}

} // verus!
