//! The memory bus: a 16-bit address space shared out among devices by
//! ranges, with byte and little-endian word access.

pub mod laws;

use vstd::prelude::*;
use crate::apu::Apu;
use crate::device::{DeviceRead, DeviceWrite};
use crate::error::Error;
use crate::ppu::Ppu;
use crate::ram::{Ram, RamView};
use crate::rom::{Rom, RomView};
use crate::types::{u16_bytes, u16_le, word, low_byte, high_byte};

verus! {

/// A device on the bus: one of a closed set.
pub enum Device {
    Ram(Ram),
    Ppu(Ppu),
    Apu(Apu),
    Rom(Rom),
}

/// The state of a device on the bus.
pub enum DeviceView {
    Ram(RamView),
    Ppu(Ppu),
    Apu(Apu),
    Rom(RomView),
}

impl DeviceView {
    /// The byte that the device answers at `address`.
    pub open spec fn read(self, address: u16) -> u8 {
        match self {
            DeviceView::Ram(ram) => Ram::spec_device_read(ram, address),
            DeviceView::Ppu(ppu) => Ppu::spec_device_read(ppu, address),
            DeviceView::Apu(apu) => Apu::spec_device_read(apu, address),
            DeviceView::Rom(rom) => Rom::spec_device_read(rom, address),
        }
    }

    /// The device after `value` was written at `address`. An image is
    /// read-only: a write leaves it as it is.
    pub open spec fn write(self, address: u16, value: u8) -> DeviceView {
        match self {
            DeviceView::Ram(ram) => DeviceView::Ram(Ram::spec_device_write(ram, address, value)),
            DeviceView::Ppu(ppu) => DeviceView::Ppu(Ppu::spec_device_write(ppu, address, value)),
            DeviceView::Apu(apu) => DeviceView::Apu(Apu::spec_device_write(apu, address, value)),
            DeviceView::Rom(rom) => DeviceView::Rom(rom),
        }
    }
}

impl View for Device {
    type V = DeviceView;

    open spec fn view(&self) -> DeviceView {
        match self {
            Device::Ram(ram) => DeviceView::Ram(ram@),
            Device::Ppu(ppu) => DeviceView::Ppu(ppu@),
            Device::Apu(apu) => DeviceView::Apu(apu@),
            Device::Rom(rom) => DeviceView::Rom(rom@),
        }
    }
}

impl DeviceRead for Device {
    open spec fn spec_device_read(state: DeviceView, address: u16) -> u8 {
        state.read(address)
    }

    fn device_read(&self, address: u16) -> (value: u8) {
        match self {
            Device::Ram(ram) => ram.device_read(address),
            Device::Ppu(ppu) => ppu.device_read(address),
            Device::Apu(apu) => apu.device_read(address),
            Device::Rom(rom) => rom.device_read(address),
        }
    }
}

impl DeviceWrite for Device {
    open spec fn spec_device_write(state: DeviceView, address: u16, value: u8) -> DeviceView {
        state.write(address, value)
    }

    fn device_write(&mut self, address: u16, value: u8) {
        match self {
            Device::Ram(ram) => ram.device_write(address, value),
            Device::Ppu(ppu) => ppu.device_write(address, value),
            Device::Apu(apu) => apu.device_write(address, value),
            Device::Rom(_) => {},
        }
    }
}

/// A range of addresses, both ends included.
#[derive(Clone, Copy, Debug, PartialEq, Eq, Structural)]
pub struct Range {
    pub start: u16,
    pub end: u16,
}

/// The state of one range of the bus.
pub struct MappingView {
    pub start: u16,
    pub end: u16,
    pub device: DeviceView,
}

impl MappingView {
    /// Whether `address` lies in the range.
    pub open spec fn covers(self, address: u16) -> bool {
        self.start <= address <= self.end
    }

    /// Whether the range shares an address with the range from `start` to
    /// `end`.
    pub open spec fn meets(self, start: u16, end: u16) -> bool {
        self.start <= end && start <= self.end
    }
}

/// The state of the bus: its ranges, in the order in which they were
/// connected.
pub struct BusView {
    pub mappings: Seq<MappingView>,
}

impl BusView {
    /// The first range at or after position `from` that covers `address`.
    pub open spec fn lookup_from(self, address: u16, from: int) -> Option<int>
        decreases self.mappings.len() - from,
    {
        if from < 0 || from >= self.mappings.len() {
            None
        } else if self.mappings[from].covers(address) {
            Some(from)
        } else {
            self.lookup_from(address, from + 1)
        }
    }

    /// The position of the range that answers at `address`: the first that
    /// covers it.
    pub open spec fn lookup(self, address: u16) -> Option<int> {
        self.lookup_from(address, 0)
    }

    /// Whether a device answers at `address`.
    pub open spec fn mapped(self, address: u16) -> bool {
        self.lookup(address) is Some
    }

    /// Whether every range is non-empty and no two ranges share an address.
    pub open spec fn wf(self) -> bool {
        &&& forall|i: int|
            0 <= i < self.mappings.len() ==> (#[trigger] self.mappings[i]).start
                <= self.mappings[i].end
        &&& forall|i: int, j: int|
            0 <= i < j < self.mappings.len() ==> !(#[trigger] self.mappings[i]).meets(
                (#[trigger] self.mappings[j]).start,
                self.mappings[j].end,
            )
    }

    /// Whether some connected range shares an address with the range from
    /// `start` to `end`.
    pub open spec fn occupied(self, start: u16, end: u16) -> bool {
        exists|i: int| 0 <= i < self.mappings.len() && (#[trigger] self.mappings[i]).meets(start, end)
    }

    /// The result of reading one byte.
    pub open spec fn read(self, address: u16) -> Result<u8, Error> {
        match self.lookup(address) {
            Some(i) => Ok(self.mappings[i].device.read(address)),
            None => Err(Error::DeviceNotFound(address)),
        }
    }

    /// The result of writing one byte: whether a device took it.
    pub open spec fn write_result(self, address: u16) -> Result<(), Error> {
        if self.mapped(address) {
            Ok(())
        } else {
            Err(Error::DeviceNotFound(address))
        }
    }

    /// The bus after `value` was written at `address`: the device that
    /// answers there has taken the write; a bus without such a device is
    /// unchanged.
    pub open spec fn write(self, address: u16, value: u8) -> BusView {
        match self.lookup(address) {
            Some(i) => BusView {
                mappings: self.mappings.update(
                    i,
                    MappingView {
                        start: self.mappings[i].start,
                        end: self.mappings[i].end,
                        device: self.mappings[i].device.write(address, value),
                    },
                ),
            },
            None => self,
        }
    }

    /// The bus after a device was connected to the range from `start` to
    /// `end`.
    pub open spec fn connect(self, device: DeviceView, start: u16, end: u16) -> BusView {
        BusView { mappings: self.mappings.push(MappingView { start, end, device }) }
    }

    /// The bus of the machine with the given devices.
    pub open spec fn machine(ppu: Ppu, apu: Apu, rom: RomView) -> BusView {
        BusView { mappings: Seq::empty() }.connect(DeviceView::Ppu(ppu), 0x2000, 0x3FFF).connect(
            DeviceView::Apu(apu),
            0x4000,
            0x401F,
        ).connect(DeviceView::Rom(rom), 0x4200, 0xFFFF)
    }

    /// Whether a range from `start` to `end` can be connected, and if not,
    /// why.
    pub open spec fn connect_result(self, start: u16, end: u16) -> Result<(), Error> {
        if start > end {
            Err(Error::RangeInverted(start, end))
        } else if self.occupied(start, end) {
            Err(Error::RangeOverlap(start, end))
        } else {
            Ok(())
        }
    }

    /// The result of reading the word whose low byte is at `low` and whose
    /// high byte is at `high`, in that order.
    pub open spec fn read_pair(self, low: u16, high: u16) -> Result<u16, Error> {
        match self.read(low) {
            Err(e) => Err(e),
            Ok(lo) => match self.read(high) {
                Err(e) => Err(e),
                Ok(hi) => Ok(word(lo, hi)),
            },
        }
    }

    /// The result of reading the little-endian word at `address`.
    pub open spec fn read_u16(self, address: u16) -> Result<u16, Error> {
        if address == 0xFFFF {
            Err(Error::OutOfBounds(address))
        } else {
            self.read_pair(address, (address + 1) as u16)
        }
    }

    /// The address next to `address` within the page of `address`: after the
    /// last byte of a page comes the first byte of the same page.
    pub open spec fn next_in_page(address: u16) -> u16 {
        word(((low_byte(address) + 1) % 256) as u8, high_byte(address))
    }

    /// The result of reading a word as an indirect jump does: the high byte
    /// comes from the next address within the page of `address`.
    pub open spec fn read_u16_buggy(self, address: u16) -> Result<u16, Error> {
        self.read_pair(address, Self::next_in_page(address))
    }

    /// The result of reading one byte of page zero.
    pub open spec fn read_zp(self, address: u8) -> Result<u8, Error> {
        self.read(address as u16)
    }

    /// The result of reading a word of page zero: the high byte comes from the
    /// next address within page zero.
    pub open spec fn read_zp_u16(self, address: u8) -> Result<u16, Error> {
        self.read_pair(address as u16, ((address + 1) % 256) as u16)
    }

    /// The result of reading the `n` bytes from `address` on, in ascending
    /// order: the bytes, or the first fault.
    pub open spec fn read_n(self, address: u16, n: nat) -> Result<Seq<u8>, Error>
        decreases n,
    {
        if address + n > 0x10000 {
            Err(Error::OutOfBounds(address))
        } else if n == 0 {
            Ok(Seq::empty())
        } else {
            match self.read_n(address, (n - 1) as nat) {
                Err(e) => Err(e),
                Ok(bytes) => match self.read((address + n - 1) as u16) {
                    Err(e) => Err(e),
                    Ok(byte) => Ok(bytes.push(byte)),
                },
            }
        }
    }

    /// The bus after the word `value` was written, low byte at `low` first,
    /// then high byte at `high`, and the result of doing so. Nothing is
    /// written after the first fault.
    pub open spec fn write_pair(self, low: u16, high: u16, value: u16) -> (BusView, Result<
        (),
        Error,
    >) {
        if self.mapped(low) {
            let bus = self.write(low, low_byte(value));
            (bus.write(high, high_byte(value)), bus.write_result(high))
        } else {
            (self, Err(Error::DeviceNotFound(low)))
        }
    }

    /// The bus after the little-endian word `value` was written at `address`,
    /// and the result of doing so.
    pub open spec fn write_u16(self, address: u16, value: u16) -> (BusView, Result<(), Error>) {
        if address == 0xFFFF {
            (self, Err(Error::OutOfBounds(address)))
        } else {
            self.write_pair(address, (address + 1) as u16, value)
        }
    }

    /// The bus after `value` was written to page zero.
    pub open spec fn write_zp(self, address: u8, value: u8) -> BusView {
        self.write(address as u16, value)
    }

    /// The bus after the word `value` was written to page zero, the high byte
    /// at the next address within page zero, and the result of doing so.
    pub open spec fn write_zp_u16(self, address: u8, value: u16) -> (BusView, Result<
        (),
        Error,
    >) {
        self.write_pair(address as u16, ((address + 1) % 256) as u16, value)
    }

    /// The bus after `bytes` were written from `address` on, in ascending
    /// order, and the result of doing so. Nothing is written if the bytes
    /// would run past the end of the address space, and nothing after the
    /// first fault.
    pub open spec fn write_n(self, address: u16, bytes: Seq<u8>) -> (BusView, Result<(), Error>)
        decreases bytes.len(),
    {
        if address + bytes.len() > 0x10000 {
            (self, Err(Error::OutOfBounds(address)))
        } else if bytes.len() == 0 {
            (self, Ok(()))
        } else {
            let (bus, result) = self.write_n(address, bytes.drop_last());
            if result is Ok {
                let last = (address + bytes.len() - 1) as u16;
                (bus.write(last, bytes.last()), bus.write_result(last))
            } else {
                (bus, result)
            }
        }
    }

    /// A fault among the first `k` bytes of a read is the fault of every
    /// longer read from the same address.
    pub proof fn lemma_read_n_fault(self, address: u16, k: nat, n: nat)
        requires
            k <= n,
            address + n <= 0x10000,
            self.read_n(address, k) is Err,
        ensures
            self.read_n(address, n) == self.read_n(address, k),
        decreases n,
    {
        if k < n {
            self.lemma_read_n_fault(address, k, (n - 1) as nat);
        }
    }

    /// A fault among the first `k` bytes of a write is the fault of the whole
    /// write, and nothing after it is written.
    pub proof fn lemma_write_n_fault(self, address: u16, bytes: Seq<u8>, k: int)
        requires
            0 <= k <= bytes.len(),
            address + bytes.len() <= 0x10000,
            self.write_n(address, bytes.take(k)).1 is Err,
        ensures
            self.write_n(address, bytes) == self.write_n(address, bytes.take(k)),
        decreases bytes.len(),
    {
        if k < bytes.len() {
            assert(bytes.drop_last().take(k) =~= bytes.take(k));
            self.lemma_write_n_fault(address, bytes.drop_last(), k);
        } else {
            assert(bytes.take(k) =~= bytes);
        }
    }
}

/// The bus. Range `i` belongs to device `i`.
pub struct Bus {
    ranges: Vec<Range>,
    devices: Vec<Device>,
}

impl View for Bus {
    type V = BusView;

    closed spec fn view(&self) -> BusView {
        BusView {
            mappings: Seq::new(
                self.ranges@.len(),
                |i: int|
                    MappingView {
                        start: self.ranges@[i].start,
                        end: self.ranges@[i].end,
                        device: self.devices@[i]@,
                    },
            ),
        }
    }
}

impl Bus {
    /// Every range has a device, is non-empty, and shares no address with
    /// another range.
    #[verifier::type_invariant]
    closed spec fn inv(&self) -> bool {
        &&& self.ranges@.len() == self.devices@.len()
        &&& forall|i: int|
            0 <= i < self.ranges@.len() ==> (#[trigger] self.ranges@[i]).start <= self.ranges@[i].end
        &&& forall|i: int, j: int|
            0 <= i < j < self.ranges@.len() ==> !((#[trigger] self.ranges@[i]).start
                <= (#[trigger] self.ranges@[j]).end && self.ranges@[j].start <= self.ranges@[i].end)
    }

    /// A bus with nothing connected.
    pub fn new() -> (bus: Bus)
        ensures
            bus@.mappings.len() == 0,
            bus@.wf(),
    {
        Bus { ranges: Vec::new(), devices: Vec::new() }
    }

    /// The bus of the machine: the picture unit's registers and their
    /// mirrors from 0x2000 to 0x3FFF, the audio unit's registers from 0x4000
    /// to 0x401F, and the cartridge from 0x4200 to the end of the address
    /// space.
    pub fn with_devices(ppu: Ppu, apu: Apu, rom: Rom) -> (bus: Bus)
        ensures
            bus@ == BusView::machine(ppu, apu, rom@),
            bus@.wf(),
    {
        let mut bus = Bus::new();
        assert(bus@.mappings =~= Seq::empty());
        assert(!bus@.occupied(0x2000, 0x3FFF));
        let _ = bus.connect(Device::Ppu(ppu), 0x2000, 0x3FFF);
        assert(!bus@.occupied(0x4000, 0x401F));
        let _ = bus.connect(Device::Apu(apu), 0x4000, 0x401F);
        assert(!bus@.occupied(0x4200, 0xFFFF));
        let _ = bus.connect(Device::Rom(rom), 0x4200, 0xFFFF);
        bus
    }

    fn find(&self, address: u16) -> (r: Option<usize>)
        ensures
            match r {
                Some(i) => self@.lookup(address) == Some(i as int) && i < self.ranges@.len(),
                None => self@.lookup(address) is None,
            },
            self.ranges@.len() == self.devices@.len(),
            self@.wf(),
    {
        proof {
            use_type_invariant(self);
        }
        let mut i: usize = 0;
        while i < self.ranges.len()
            invariant
                i <= self.ranges@.len(),
                self.ranges@.len() == self.devices@.len(),
                self@.wf(),
                self@.lookup(address) == self@.lookup_from(address, i as int),
            decreases self.ranges@.len() - i,
        {
            if self.ranges[i].start <= address && address <= self.ranges[i].end {
                return Some(i);
            }
            i = i + 1;
        }
        None
    }

    /// Reads the byte at `address` from the device that answers there.
    pub fn read(&self, address: u16) -> (r: Result<u8, Error>)
        ensures
            r == self@.read(address),
            self@.wf(),
    {
        match self.find(address) {
            Some(i) => Ok(self.devices[i].device_read(address)),
            None => Err(Error::DeviceNotFound(address)),
        }
    }

    /// Hands `value` to the device that answers at `address`.
    pub fn write(&mut self, address: u16, value: u8) -> (r: Result<(), Error>)
        ensures
            r == old(self)@.write_result(address),
            final(self)@ == old(self)@.write(address, value),
            final(self)@.wf(),
    {
        proof {
            use_type_invariant(&*self);
            self@.lemma_write_keeps_wf(address, value);
        }
        match self.find(address) {
            Some(i) => {
                proof {
                    use_type_invariant(&*self);
                }
                let device = &mut self.devices[i];
                device.device_write(address, value);
                assert(self@.mappings =~= old(self)@.write(address, value).mappings);
                Ok(())
            },
            None => Err(Error::DeviceNotFound(address)),
        }
    }

    /// Connects `device` to the addresses from `start` to `end`, both
    /// included. A range that ends before it starts, or that shares an
    /// address with a connected range, is refused and the bus left as it was.
    pub fn connect(&mut self, device: Device, start: u16, end: u16) -> (r: Result<(), Error>)
        ensures
            r == old(self)@.connect_result(start, end),
            r is Ok ==> final(self)@ == old(self)@.connect(device@, start, end),
            r is Err ==> final(self)@ == old(self)@,
            final(self)@.wf(),
    {
        proof {
            use_type_invariant(&*self);
        }
        if start > end {
            return Err(Error::RangeInverted(start, end));
        }
        let mut i: usize = 0;
        while i < self.ranges.len()
            invariant
                i <= self.ranges@.len(),
                self.ranges@.len() == self.devices@.len(),
                *self == *old(self),
                self.inv(),
                start <= end,
                forall|j: int|
                    0 <= j < i ==> !((#[trigger] self.ranges@[j]).start <= end && start
                        <= self.ranges@[j].end),
            decreases self.ranges@.len() - i,
        {
            if self.ranges[i].start <= end && start <= self.ranges[i].end {
                assert(self@.mappings[i as int].meets(start, end));
                return Err(Error::RangeOverlap(start, end));
            }
            i = i + 1;
        }
        assert forall|j: int| 0 <= j < self@.mappings.len() implies !(
        #[trigger] self@.mappings[j]).meets(start, end) by {
            assert(!(self.ranges@[j].start <= end && start <= self.ranges@[j].end));
        }
        let mut bus = Bus::new();
        core::mem::swap(self, &mut bus);
        let Bus { mut ranges, mut devices } = bus;
        ranges.push(Range { start, end });
        devices.push(device);
        *self = Bus { ranges, devices };
        assert(self@.mappings =~= old(self)@.connect(device@, start, end).mappings);
        Ok(())
    }

    /// The number of connected ranges.
    pub fn len(&self) -> (n: usize)
        ensures
            n == self@.mappings.len(),
            self@.wf(),
    {
        proof {
            use_type_invariant(self);
        }
        self.ranges.len()
    }

    fn read_pair(&self, low: u16, high: u16) -> (r: Result<u16, Error>)
        ensures
            r == self@.read_pair(low, high),
    {
        let lo = match self.read(low) {
            Ok(lo) => lo,
            Err(e) => {
                return Err(e);
            },
        };
        let hi = match self.read(high) {
            Ok(hi) => hi,
            Err(e) => {
                return Err(e);
            },
        };
        Ok(u16_le(lo, hi))
    }

    /// Reads the little-endian word at `address`: low byte at `address`, high
    /// byte at the next address. There is no next address after 0xFFFF: a
    /// read there is `OutOfBounds`.
    pub fn read_u16(&self, address: u16) -> (r: Result<u16, Error>)
        ensures
            r == self@.read_u16(address),
    {
        if address == 0xFFFF {
            return Err(Error::OutOfBounds(address));
        }
        self.read_pair(address, address + 1)
    }

    /// Reads a word as an indirect jump does: the low byte at `address`, the
    /// high byte at the next address within the same page, so that for the
    /// last byte of a page the high byte comes from the page's first byte.
    pub fn read_u16_buggy(&self, address: u16) -> (r: Result<u16, Error>)
        ensures
            r == self@.read_u16_buggy(address),
    {
        let (low, high) = u16_bytes(address);
        self.read_pair(address, u16_le(low.wrapping_add(1), high))
    }

    /// Reads the bytes from `address` to `address + n - 1`, in ascending
    /// order. Bytes that would run past the end of the address space are
    /// `OutOfBounds`.
    pub fn read_n(&self, address: u16, n: u16) -> (r: Result<Vec<u8>, Error>)
        ensures
            match self@.read_n(address, n as nat) {
                Ok(bytes) => r is Ok && r->Ok_0@ == bytes,
                Err(e) => r is Err && r->Err_0 == e,
            },
            r matches Ok(bytes) ==> bytes@.len() == n,
    {
        if address as u32 + n as u32 > 0x10000 {
            return Err(Error::OutOfBounds(address));
        }
        let mut bytes: Vec<u8> = Vec::new();
        let mut i: u16 = 0;
        while i < n
            invariant
                i <= n,
                address + n <= 0x10000,
                bytes@.len() == i,
                self@.read_n(address, i as nat) == Ok::<Seq<u8>, Error>(bytes@),
            decreases n - i,
        {
            match self.read(address + i) {
                Ok(byte) => {
                    bytes.push(byte);
                },
                Err(e) => {
                    proof {
                        self@.lemma_read_n_fault(address, (i + 1) as nat, n as nat);
                    }
                    return Err(e);
                },
            }
            i = i + 1;
        }
        Ok(bytes)
    }

    /// Reads a byte of page zero.
    pub fn read_zp(&self, address: u8) -> (r: Result<u8, Error>)
        ensures
            r == self@.read_zp(address),
    {
        self.read(address as u16)
    }

    /// Reads a word of page zero. The pointer wraps within the page: the high
    /// byte of the word at 0xFF comes from 0x00.
    pub fn read_zp_u16(&self, address: u8) -> (r: Result<u16, Error>)
        ensures
            r == self@.read_zp_u16(address),
    {
        self.read_pair(address as u16, address.wrapping_add(1) as u16)
    }

    fn write_pair(&mut self, low: u16, high: u16, value: u16) -> (r: Result<(), Error>)
        ensures
            (final(self)@, r) == old(self)@.write_pair(low, high, value),
    {
        let (lo, hi) = u16_bytes(value);
        match self.write(low, lo) {
            Ok(()) => {},
            Err(e) => {
                return Err(e);
            },
        }
        self.write(high, hi)
    }

    /// Writes the little-endian word `value` at `address`: low byte first.
    /// A write at 0xFFFF is `OutOfBounds` and writes nothing.
    pub fn write_u16(&mut self, address: u16, value: u16) -> (r: Result<(), Error>)
        ensures
            (final(self)@, r) == old(self)@.write_u16(address, value),
    {
        if address == 0xFFFF {
            return Err(Error::OutOfBounds(address));
        }
        self.write_pair(address, address + 1, value)
    }

    /// Writes a byte of page zero.
    pub fn write_zp(&mut self, address: u8, value: u8) -> (r: Result<(), Error>)
        ensures
            r == old(self)@.write_result(address as u16),
            final(self)@ == old(self)@.write_zp(address, value),
    {
        self.write(address as u16, value)
    }

    /// Writes a word of page zero, low byte first. The pointer wraps within
    /// the page: the high byte of the word at 0xFF goes to 0x00.
    pub fn write_zp_u16(&mut self, address: u8, value: u16) -> (r: Result<(), Error>)
        ensures
            (final(self)@, r) == old(self)@.write_zp_u16(address, value),
    {
        self.write_pair(address as u16, address.wrapping_add(1) as u16, value)
    }

    /// Writes `bytes` from `address` on, in ascending order. Bytes that would
    /// run past the end of the address space are `OutOfBounds`, and none of
    /// them is written.
    pub fn write_n(&mut self, address: u16, bytes: &[u8]) -> (r: Result<(), Error>)
        ensures
            (final(self)@, r) == old(self)@.write_n(address, bytes@),
    {
        if bytes.len() > 0x10000 || address as usize + bytes.len() > 0x10000 {
            return Err(Error::OutOfBounds(address));
        }
        let mut i: usize = 0;
        while i < bytes.len()
            invariant
                i <= bytes@.len(),
                address + bytes@.len() <= 0x10000,
                (self@, Ok::<(), Error>(())) == old(self)@.write_n(address, bytes@.take(i as int)),
            decreases bytes@.len() - i,
        {
            let target: u16 = (address as usize + i) as u16;
            let ghost before = self@;
            let r = self.write(target, bytes[i]);
            proof {
                assert(bytes@.take(i + 1).drop_last() =~= bytes@.take(i as int));
                assert((self@, r) == old(self)@.write_n(address, bytes@.take(i + 1)));
            }
            match r {
                Ok(()) => {},
                Err(e) => {
                    proof {
                        old(self)@.lemma_write_n_fault(address, bytes@, i + 1);
                    }
                    return Err(e);
                },
            }
            i = i + 1;
        }
        assert(bytes@.take(i as int) =~= bytes@);
        Ok(())
    }
}

} // verus!
