//! What holds of every bus: which address a write can reach, and what is read
//! back from plain memory.

use vstd::prelude::*;
use crate::bus::{BusView, DeviceView};
use crate::types::{high_byte, low_byte};

verus! {

impl BusView {
    /// Whether plain memory answers at `address`, with a cell of its own for
    /// it.
    pub open spec fn ram_at(self, address: u16) -> bool {
        match self.lookup(address) {
            Some(i) => self.mappings[i].device matches DeviceView::Ram(ram) && ram.holds(address),
            None => false,
        }
    }

    /// A range that `lookup_from` finds lies at or behind the position where
    /// the search began, and covers the address.
    pub proof fn lemma_lookup_bounds(self, address: u16, from: int)
        requires
            0 <= from,
        ensures
            self.lookup_from(address, from) matches Some(i) ==> from <= i < self.mappings.len()
                && self.mappings[i].covers(address),
        decreases self.mappings.len() - from,
    {
        if from < self.mappings.len() && !self.mappings[from].covers(address) {
            self.lemma_lookup_bounds(address, from + 1);
        }
    }

    /// A write moves no range: after it, every address is answered by the
    /// range that answered before.
    pub proof fn lemma_write_keeps_lookup(self, address: u16, value: u8, other: u16, from: int)
        requires
            0 <= from,
        ensures
            self.write(address, value).lookup_from(other, from) == self.lookup_from(other, from),
            self.write(address, value).mappings.len() == self.mappings.len(),
        decreases self.mappings.len() - from,
    {
        self.lemma_lookup_bounds(address, 0);
        if from < self.mappings.len() {
            self.lemma_write_keeps_lookup(address, value, other, from + 1);
        }
    }

    /// A write keeps the ranges well-formed.
    pub proof fn lemma_write_keeps_wf(self, address: u16, value: u8)
        requires
            self.wf(),
        ensures
            self.write(address, value).wf(),
    {
        self.lemma_lookup_bounds(address, 0);
    }

    /// On a well-formed bus the range that answers at an address is the only
    /// one that covers it.
    pub proof fn lemma_lookup_unique(self, address: u16, i: int)
        requires
            self.wf(),
            0 <= i < self.mappings.len(),
            self.mappings[i].covers(address),
        ensures
            self.lookup(address) == Some(i),
    {
        self.lemma_lookup_first(address, 0, i);
        self.lemma_lookup_bounds(address, 0);
        let found = self.lookup(address)->Some_0;
        if found < i {
            assert(self.mappings[found].meets(self.mappings[i].start, self.mappings[i].end));
        }
    }

    /// A search that begins at or before a range that covers the address
    /// finds a range at or before that one.
    pub proof fn lemma_lookup_first(self, address: u16, from: int, i: int)
        requires
            0 <= from <= i < self.mappings.len(),
            self.mappings[i].covers(address),
        ensures
            self.lookup_from(address, from) matches Some(found) && found <= i,
        decreases i - from,
    {
        if from < i && !self.mappings[from].covers(address) {
            self.lemma_lookup_first(address, from + 1, i);
        }
    }

    /// What was written to plain memory is read back: after `value` was
    /// written at `address`, a read at `address` gives `value`.
    pub proof fn lemma_read_after_write(self, address: u16, value: u8)
        requires
            self.ram_at(address),
        ensures
            self.write_result(address) is Ok,
            self.write(address, value).read(address) == Ok::<u8, crate::error::Error>(value),
            self.write(address, value).ram_at(address),
    {
        self.lemma_lookup_bounds(address, 0);
        self.lemma_write_keeps_lookup(address, value, address, 0);
    }

    /// A write reaches one address only: what is read at any other address is
    /// what was read there before, and plain memory stays plain memory.
    pub proof fn lemma_write_frame(self, address: u16, value: u8, other: u16)
        requires
            other != address,
        ensures
            self.write(address, value).read(other) == self.read(other),
            self.write(address, value).ram_at(other) == self.ram_at(other),
            self.write(address, value).mapped(other) == self.mapped(other),
    {
        self.lemma_lookup_bounds(address, 0);
        self.lemma_lookup_bounds(other, 0);
        self.lemma_write_keeps_lookup(address, value, other, 0);
    }

    /// A word written to plain memory is read back: after the little-endian
    /// word `value` was written at `address`, below the last address, a read
    /// of the word at `address` gives `value`.
    pub proof fn lemma_read_u16_after_write_u16(self, address: u16, value: u16)
        requires
            address <= 0xFFFE,
            self.ram_at(address),
            self.ram_at((address + 1) as u16),
        ensures
            self.write_u16(address, value).1 is Ok,
            self.write_u16(address, value).0.read_u16(address) == Ok::<u16, crate::error::Error>(
                value,
            ),
    {
        let next = (address + 1) as u16;
        let first = self.write(address, low_byte(value));
        self.lemma_read_after_write(address, low_byte(value));
        self.lemma_write_frame(address, low_byte(value), next);
        first.lemma_read_after_write(next, high_byte(value));
        first.lemma_write_frame(next, high_byte(value), address);
    }

    /// A word written to page zero of plain memory is read back, also where
    /// it wraps from the last byte of the page to the first.
    pub proof fn lemma_read_zp_u16_after_write_zp_u16(self, address: u8, value: u16)
        requires
            self.ram_at(address as u16),
            self.ram_at(((address + 1) % 256) as u16),
        ensures
            self.write_zp_u16(address, value).1 is Ok,
            self.write_zp_u16(address, value).0.read_zp_u16(address) == Ok::<
                u16,
                crate::error::Error,
            >(value),
    {
        let low = address as u16;
        let next = ((address + 1) % 256) as u16;
        let first = self.write(low, low_byte(value));
        self.lemma_read_after_write(low, low_byte(value));
        self.lemma_write_frame(low, low_byte(value), next);
        first.lemma_read_after_write(next, high_byte(value));
        first.lemma_write_frame(next, high_byte(value), low);
    }

    /// The high byte of an indirect jump's target comes from the pointer's
    /// own page: behind the last byte of a page comes the first byte of the
    /// same page, not of the next.
    pub proof fn lemma_next_in_page(address: u16)
        ensures
            high_byte(Self::next_in_page(address)) == high_byte(address),
            low_byte(address) == 0xFF ==> Self::next_in_page(address) == address - 0xFF,
            low_byte(address) != 0xFF ==> Self::next_in_page(address) == address + 1,
            Self::next_in_page(0x02FF) == 0x0200,
    {
    }
}

} // verus!
