//! Snapshots of the machine: the registers, the cycle count, and what is read
//! at each of the 65536 addresses.

use vstd::prelude::*;
use crate::bus::BusView;
use crate::cpu::clock::Clock;
use crate::cpu::registers::RegisterSet;
use crate::cpu::{Cpu, CpuView};

verus! {

/// The size of the address space.
pub const ADDRESS_SPACE: usize = 0x10000;

/// What a machine held at one moment.
pub struct Snapshot {
    pub registers: RegisterSet,
    pub cycles: u64,
    /// The byte read at each address; zero where no device answered.
    pub memory: Vec<u8>,
}

impl BusView {
    /// The byte that a snapshot records for `address`: what is read there, or
    /// zero where no device answers.
    pub open spec fn peek(self, address: u16) -> u8 {
        match self.read(address) {
            Ok(value) => value,
            Err(_) => 0,
        }
    }

    /// The bus after the first `n` bytes of `image` were written, byte `i` at
    /// address `i`, in ascending order. Bytes for addresses at which no
    /// device answers are dropped.
    pub open spec fn load(self, image: Seq<u8>, n: nat) -> BusView
        decreases n,
    {
        if n == 0 {
            self
        } else {
            self.load(image, (n - 1) as nat).write((n - 1) as u16, image[n - 1])
        }
    }
}

impl CpuView {
    /// The machine after a snapshot was restored: the registers and the
    /// cycle count are those of the snapshot, and the first `n` bytes of
    /// `memory` have been written to the bus.
    pub open spec fn restored(self, registers: RegisterSet, cycles: u64, memory: Seq<u8>, n: nat)
        -> CpuView {
        CpuView {
            bus: self.bus.load(memory, n),
            registers,
            clock: Clock { cycles, ..self.clock },
            ..self
        }
    }
}

/// The number of bytes of an image of `len` bytes that have an address.
pub open spec fn addressable(len: nat) -> nat {
    if len < ADDRESS_SPACE {
        len
    } else {
        ADDRESS_SPACE as nat
    }
}

impl Cpu {
    /// Takes a snapshot: the registers, the cycle count, and the byte read at
    /// each address, zero where no device answers.
    pub fn snapshot(&self) -> (snapshot: Snapshot)
        ensures
            snapshot.registers == self.registers,
            snapshot.cycles == self.clock.cycles,
            snapshot.memory@.len() == ADDRESS_SPACE,
            forall|address: u16| snapshot.memory@[address as int] == self.bus@.peek(address),
    {
        let mut memory: Vec<u8> = Vec::new();
        let mut i: usize = 0;
        while i < ADDRESS_SPACE
            invariant
                i <= ADDRESS_SPACE,
                memory@.len() == i,
                forall|address: u16| address < i ==> memory@[address as int] == self.bus@.peek(address),
            decreases ADDRESS_SPACE - i,
        {
            let value = match self.bus.read(i as u16) {
                Ok(value) => value,
                Err(_) => 0,
            };
            memory.push(value);
            i = i + 1;
        }
        Snapshot { registers: self.registers, cycles: self.clock.cycles, memory }
    }

    /// Restores a snapshot: sets the registers and the cycle count, and
    /// writes the bytes of `snapshot.memory` to the bus, byte `i` at address
    /// `i`, in ascending order. Bytes for addresses at which no device
    /// answers, and bytes beyond the address space, are dropped.
    pub fn restore(&mut self, snapshot: &Snapshot)
        ensures
            final(self)@ == old(self)@.restored(
                snapshot.registers,
                snapshot.cycles,
                snapshot.memory@,
                addressable(snapshot.memory@.len()),
            ),
    {
        self.registers = snapshot.registers;
        self.clock.cycles = snapshot.cycles;
        let n: usize = if snapshot.memory.len() < ADDRESS_SPACE {
            snapshot.memory.len()
        } else {
            ADDRESS_SPACE
        };
        let mut i: usize = 0;
        while i < n
            invariant
                i <= n <= ADDRESS_SPACE,
                n <= snapshot.memory@.len(),
                self@ == old(self)@.restored(
                    snapshot.registers,
                    snapshot.cycles,
                    snapshot.memory@,
                    i as nat,
                ),
            decreases n - i,
        {
            let _ = self.bus.write(i as u16, snapshot.memory[i]);
            i = i + 1;
        }
    }
}

} // verus!
