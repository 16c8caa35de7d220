//! The register surface of the audio unit.

use vstd::prelude::*;
use crate::device::{DeviceRead, DeviceWrite};

verus! {

/// The audio unit as the bus sees it. Its registers read as zero and take
/// writes without any effect that the bus could observe.
#[derive(Clone, Copy, Debug, PartialEq, Eq, Structural)]
pub struct Apu {}

impl Apu {
    pub fn new() -> (apu: Apu)
        ensures
            apu == (Apu {}),
    {
        Apu {}
    }
}

impl View for Apu {
    type V = Apu;

    open spec fn view(&self) -> Apu {
        *self
    }
}

impl DeviceRead for Apu {
    open spec fn spec_device_read(state: Apu, address: u16) -> u8 {
        0
    }

    fn device_read(&self, address: u16) -> (value: u8) {
        0
    }
}

impl DeviceWrite for Apu {
    open spec fn spec_device_write(state: Apu, address: u16, value: u8) -> Apu {
        state
    }

    fn device_write(&mut self, address: u16, value: u8) {
    }
}

} // verus!
