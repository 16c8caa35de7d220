//! What the bus asks of a device: to answer a read and to take a write, both
//! by absolute address.

use vstd::prelude::*;

verus! {

/// A device that answers reads. The bus hands it the absolute address; the
/// device folds it to its own window as it sees fit. A read changes nothing.
pub trait DeviceRead: View {
    /// The byte that a device in state `state` answers at `address`.
    spec fn spec_device_read(state: Self::V, address: u16) -> u8;

    fn device_read(&self, address: u16) -> (value: u8)
        ensures
            value == Self::spec_device_read(self@, address),
    ;
}

/// A device that takes writes, with whatever effect on its own state the
/// written register implies.
pub trait DeviceWrite: View {
    /// The state that a device in state `state` is in after `value` was
    /// written at `address`.
    spec fn spec_device_write(state: Self::V, address: u16, value: u8) -> Self::V;

    fn device_write(&mut self, address: u16, value: u8)
        ensures
            final(self)@ == Self::spec_device_write(old(self)@, address, value),
    ;
}

} // verus!
