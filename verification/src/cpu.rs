//! The processor: registers, status flags, instruction table, operand
//! resolution and the execution engine.

pub mod alu;
pub mod clock;
pub mod engine;
pub mod flags;
pub mod instruction;
pub mod laws;
pub mod opcodes;
pub mod operations;
pub mod registers;
pub mod resolve;
pub mod run;
pub mod snapshot;
pub mod stack;

use vstd::prelude::*;
use crate::bus::{Bus, BusView};
use crate::cpu::clock::{Clock, ClockMode};
use crate::cpu::registers::{
    RegisterSet,
    VectorSet,
    ADDRESS_VECTOR_IRQ,
    ADDRESS_VECTOR_NMI,
    ADDRESS_VECTOR_RESET,
};
use crate::error::Error;

verus! {

/// The processor together with the bus that it drives. The processor owns the
/// bus: nothing else writes to a device while the processor lives.
pub struct Cpu {
    pub bus: Bus,
    pub registers: RegisterSet,
    pub vectors: VectorSet,
    pub clock: Clock,
    /// Whether a non-maskable interrupt was requested and not yet served.
    pub nmi_pending: bool,
    /// Whether the interrupt request line is asserted.
    pub irq_line: bool,
}

/// The state of the machine: what the processor holds, and the state of the
/// bus.
pub struct CpuView {
    pub bus: BusView,
    pub registers: RegisterSet,
    pub vectors: VectorSet,
    pub clock: Clock,
    pub nmi_pending: bool,
    pub irq_line: bool,
}

impl View for Cpu {
    type V = CpuView;

    open spec fn view(&self) -> CpuView {
        CpuView {
            bus: self.bus@,
            registers: self.registers,
            vectors: self.vectors,
            clock: self.clock,
            nmi_pending: self.nmi_pending,
            irq_line: self.irq_line,
        }
    }
}

impl CpuView {
    /// The vectors that `bus` holds, read in the order NMI, reset, IRQ; or the
    /// first fault of reading them.
    pub open spec fn read_vectors(bus: BusView) -> Result<VectorSet, Error> {
        match bus.read_u16(ADDRESS_VECTOR_NMI) {
            Err(e) => Err(e),
            Ok(nmi) => match bus.read_u16(ADDRESS_VECTOR_RESET) {
                Err(e) => Err(e),
                Ok(reset) => match bus.read_u16(ADDRESS_VECTOR_IRQ) {
                    Err(e) => Err(e),
                    Ok(irq) => Ok(VectorSet { nmi, reset, irq }),
                },
            },
        }
    }

    /// The machine at power-on with the given vectors: the registers in their
    /// initial state, the program counter at the reset vector, no cycle
    /// passed, no interrupt waiting.
    pub open spec fn power_on(bus: BusView, vectors: VectorSet, mode: ClockMode) -> CpuView {
        CpuView {
            bus,
            registers: RegisterSet { pc: vectors.reset, ..RegisterSet::initial() },
            vectors,
            clock: Clock { mode, speed: Clock::spec_determine_speed(mode), cycles: 0 },
            nmi_pending: false,
            irq_line: false,
        }
    }

    /// The machine with other registers.
    pub open spec fn with_registers(self, registers: RegisterSet) -> CpuView {
        CpuView { registers, ..self }
    }

    /// The machine with another bus.
    pub open spec fn with_bus(self, bus: BusView) -> CpuView {
        CpuView { bus, ..self }
    }
}

impl Cpu {
    /// Powers a processor of the NTSC machine on: reads the three interrupt
    /// vectors from `bus` and starts at the reset vector, with interrupts
    /// disabled. A bus that does not answer at one of the vectors is a fault.
    pub fn new(bus: Bus) -> (r: Result<Cpu, Error>)
        ensures
            match CpuView::read_vectors(bus@) {
                Ok(vectors) => r is Ok && r->Ok_0@ == CpuView::power_on(
                    bus@,
                    vectors,
                    ClockMode::Ntsc,
                ),
                Err(e) => r is Err && r->Err_0 == e,
            },
    {
        Self::with_mode(bus, ClockMode::Ntsc)
    }

    /// Powers a processor on whose clock follows the television standard
    /// `mode`.
    pub fn with_mode(bus: Bus, mode: ClockMode) -> (r: Result<Cpu, Error>)
        ensures
            match CpuView::read_vectors(bus@) {
                Ok(vectors) => r is Ok && r->Ok_0@ == CpuView::power_on(bus@, vectors, mode),
                Err(e) => r is Err && r->Err_0 == e,
            },
    {
        let nmi = match bus.read_u16(ADDRESS_VECTOR_NMI) {
            Ok(nmi) => nmi,
            Err(e) => {
                return Err(e);
            },
        };
        let reset = match bus.read_u16(ADDRESS_VECTOR_RESET) {
            Ok(reset) => reset,
            Err(e) => {
                return Err(e);
            },
        };
        let irq = match bus.read_u16(ADDRESS_VECTOR_IRQ) {
            Ok(irq) => irq,
            Err(e) => {
                return Err(e);
            },
        };
        let vectors = VectorSet { nmi, reset, irq };
        let mut registers = RegisterSet::new();
        registers.pc = vectors.reset;
        Ok(
            Cpu {
                bus,
                registers,
                vectors,
                clock: Clock::new(mode),
                nmi_pending: false,
                irq_line: false,
            },
        )
    }

    /// Requests a non-maskable interrupt: it is served before the next
    /// instruction.
    pub fn request_nmi(&mut self)
        ensures
            final(self)@ == (CpuView { nmi_pending: true, ..old(self)@ }),
    {
        self.nmi_pending = true;
    }

    /// Asserts or releases the interrupt request line.
    pub fn set_irq_line(&mut self, asserted: bool)
        ensures
            final(self)@ == (CpuView { irq_line: asserted, ..old(self)@ }),
    {
        self.irq_line = asserted;
    }
}

} // verus!
