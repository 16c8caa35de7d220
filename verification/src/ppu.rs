//! The register surface of the picture unit.

use vstd::prelude::*;
use crate::constants::PPUADDR;
use crate::device::{DeviceRead, DeviceWrite};

verus! {

/// The picture unit as the bus sees it: the address latch that writes to
/// `PPUADDR` fill, one byte at a time.
#[derive(Clone, Copy, Debug, PartialEq, Eq, Structural)]
pub struct Ppu {
    /// The last two bytes written to `PPUADDR`, the earlier one high.
    pub address_active: u16,
}

impl Ppu {
    pub fn new() -> (ppu: Ppu)
        ensures
            ppu.address_active == 0,
    {
        Ppu { address_active: 0 }
    }

    /// The address latch after `value` was shifted in from below: its old low
    /// byte has become the high byte, and `value` the low byte.
    pub open spec fn shifted_in(address_active: u16, value: u8) -> u16 {
        ((address_active % 256) * 256 + value) as u16
    }

    fn update_address_active(&mut self, value: u8)
        ensures
            final(self).address_active == Self::shifted_in(old(self).address_active, value),
    {
        let low: u16 = self.address_active % 256;
        self.address_active = low * 256 + value as u16;
    }
}

impl View for Ppu {
    type V = Ppu;

    open spec fn view(&self) -> Ppu {
        *self
    }
}

impl DeviceRead for Ppu {
    open spec fn spec_device_read(state: Ppu, address: u16) -> u8 {
        0
    }

    fn device_read(&self, address: u16) -> (value: u8) {
        0
    }
}

impl DeviceWrite for Ppu {
    /// A write to `PPUADDR` shifts the byte into the address latch. A write to
    /// any other register leaves the latch as it is.
    open spec fn spec_device_write(state: Ppu, address: u16, value: u8) -> Ppu {
        if address == PPUADDR {
            Ppu { address_active: Ppu::shifted_in(state.address_active, value) }
        } else {
            state
        }
    }

    fn device_write(&mut self, address: u16, value: u8) {
        if address == PPUADDR {
            self.update_address_active(value);
        }
    }
}

} // verus!
