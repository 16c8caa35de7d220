//! What each operation does to the machine, given its resolved operand.

use vstd::prelude::*;
use crate::cpu::alu::{
    add_with_carry,
    adc,
    bit_test,
    bit_tested,
    compare,
    compared,
    nz,
    sbc,
    set_nz,
    shift_byte,
    shifted,
    subtract_with_borrow,
    Shift,
};
use crate::cpu::flags::{BreakType, StatusFlags};
use crate::cpu::instruction::InstructionInputLocation;
use crate::cpu::registers::RegisterSet;
use crate::cpu::resolve::pages_differ;
use crate::cpu::{Cpu, CpuView};
use crate::error::Error;
use crate::types::{is_negative, u16_bytes};

verus! {

/// The byte after `value`, wrapping from 0xFF to 0x00.
pub open spec fn incremented(value: u8) -> u8 {
    ((value + 1) % 256) as u8
}

/// The byte before `value`, wrapping from 0x00 to 0xFF.
pub open spec fn decremented(value: u8) -> u8 {
    ((value + 255) % 256) as u8
}

/// The address after `address`, wrapping at the end of the address space.
pub open spec fn address_after(address: u16) -> u16 {
    ((address + 1) % 0x10000) as u16
}

/// The address before `address`, wrapping at the start of the address space.
pub open spec fn address_before(address: u16) -> u16 {
    ((address + 0xFFFF) % 0x10000) as u16
}

/// The cycles that a branch costs beyond its base cost: none if it is not
/// taken, one if it is, and one more if the target lies in another page than
/// the instruction behind the branch.
pub open spec fn branch_cycles(taken: bool, next: u16, target: u16) -> u8 {
    if !taken {
        0
    } else if pages_differ(next, target) {
        2
    } else {
        1
    }
}

impl RegisterSet {
    /// The registers with the status word `p`.
    pub open spec fn with_p(self, p: StatusFlags) -> RegisterSet {
        RegisterSet { p, ..self }
    }

    /// The registers after `value` was loaded into the accumulator.
    pub open spec fn load_a(self, value: u8) -> RegisterSet {
        RegisterSet { a: value, p: nz(self.p, value), ..self }
    }

    /// The registers after `value` was loaded into `x`.
    pub open spec fn load_x(self, value: u8) -> RegisterSet {
        RegisterSet { x: value, p: nz(self.p, value), ..self }
    }

    /// The registers after `value` was loaded into `y`.
    pub open spec fn load_y(self, value: u8) -> RegisterSet {
        RegisterSet { y: value, p: nz(self.p, value), ..self }
    }

    /// The registers after `value` and the carry were added to the
    /// accumulator.
    pub open spec fn add(self, value: u8) -> RegisterSet {
        RegisterSet { a: adc(self.a, value, self.p).0, p: adc(self.a, value, self.p).1, ..self }
    }

    /// The registers after `value` and the borrow were subtracted from the
    /// accumulator.
    pub open spec fn subtract(self, value: u8) -> RegisterSet {
        RegisterSet { a: sbc(self.a, value, self.p).0, p: sbc(self.a, value, self.p).1, ..self }
    }

    /// The registers with the stack pointer `s`.
    pub open spec fn with_s(self, s: u8) -> RegisterSet {
        RegisterSet { s, ..self }
    }

    /// The registers after the accumulator was combined with `value` by a
    /// bitwise and.
    pub open spec fn and_a(self, value: u8) -> RegisterSet {
        self.load_a(self.a & value)
    }

    /// The registers after the accumulator was combined with `value` by a
    /// bitwise or.
    pub open spec fn or_a(self, value: u8) -> RegisterSet {
        self.load_a(self.a | value)
    }

    /// The registers after the accumulator was combined with `value` by a
    /// bitwise exclusive or.
    pub open spec fn xor_a(self, value: u8) -> RegisterSet {
        self.load_a(self.a ^ value)
    }

    /// The registers after the bits of `value` were tested against the
    /// accumulator.
    pub open spec fn bit_test(self, value: u8) -> RegisterSet {
        self.with_p(bit_tested(self.a, value, self.p))
    }

    /// The registers after the accumulator was compared with `value`.
    pub open spec fn compare_a(self, value: u8) -> RegisterSet {
        self.with_p(compared(self.a, value, self.p))
    }

    /// The registers after `x` was compared with `value`.
    pub open spec fn compare_x(self, value: u8) -> RegisterSet {
        self.with_p(compared(self.x, value, self.p))
    }

    /// The registers after `y` was compared with `value`.
    pub open spec fn compare_y(self, value: u8) -> RegisterSet {
        self.with_p(compared(self.y, value, self.p))
    }

    /// The registers after a branch to `target` on `condition`.
    pub open spec fn branch(self, condition: bool, target: u16) -> RegisterSet {
        if condition {
            RegisterSet { pc: target, ..self }
        } else {
            self
        }
    }
}

impl CpuView {
    /// The machine with the status word `p`.
    pub open spec fn with_p(self, p: StatusFlags) -> CpuView {
        CpuView { registers: self.registers.with_p(p), ..self }
    }

    /// The machine with the program counter at `pc`.
    pub open spec fn with_pc(self, pc: u16) -> CpuView {
        CpuView { registers: RegisterSet { pc, ..self.registers }, ..self }
    }

    /// The machine after the register `register` was stored at `address`, and
    /// the result of the store. No flag changes.
    pub open spec fn store_register(self, address: u16, register: u8) -> (CpuView, Result<
        (),
        Error,
    >) {
        (self.with_bus(self.bus.write(address, register)), self.bus.write_result(address))
    }

    /// The machine after `value` was written at `address`, with zero and
    /// negative set from `value`.
    pub open spec fn replace(self, address: u16, value: u8) -> CpuView {
        self.with_bus(self.bus.write(address, value)).with_p(nz(self.registers.p, value))
    }

    /// The machine after one was added to the byte at `address`, wrapping,
    /// with zero and negative set from the new byte.
    pub open spec fn increment(self, address: u16) -> (CpuView, Result<(), Error>) {
        match self.bus.read(address) {
            Ok(value) => (self.replace(address, incremented(value)), Ok(())),
            Err(e) => (self, Err(e)),
        }
    }

    /// The machine after one was taken from the byte at `address`, wrapping,
    /// with zero and negative set from the new byte.
    pub open spec fn decrement(self, address: u16) -> (CpuView, Result<(), Error>) {
        match self.bus.read(address) {
            Ok(value) => (self.replace(address, decremented(value)), Ok(())),
            Err(e) => (self, Err(e)),
        }
    }

    /// The machine after the byte in `target` was shifted or rotated by one
    /// bit, with carry, zero and negative set from the shift.
    pub open spec fn shift(self, shift: Shift, target: InstructionInputLocation) -> (
        CpuView,
        Result<(), Error>,
    ) {
        match self.load(target) {
            Ok(value) => {
                let (result, p) = shifted(shift, value, self.registers.p);
                let (stored, outcome) = self.store(target, result);
                if outcome is Ok {
                    (stored.with_p(p), Ok(()))
                } else {
                    (stored, outcome)
                }
            },
            Err(e) => (self, Err(e)),
        }
    }

    /// The machine after the accumulator was pulled from the stack, with zero
    /// and negative set from it.
    pub open spec fn pull_a(self) -> (CpuView, Result<(), Error>) {
        let (pulled, outcome) = self.pull();
        match outcome {
            Ok(value) => (pulled.with_registers(pulled.registers.load_a(value)), Ok(())),
            Err(e) => (pulled, Err(e)),
        }
    }

    /// The machine after the status word was pulled from the stack. The break
    /// bits of the pulled byte do not reach the register.
    pub open spec fn pull_p(self) -> (CpuView, Result<(), Error>) {
        let (pulled, outcome) = self.pull();
        match outcome {
            Ok(value) => (pulled.with_p(pulled.registers.p.pulled(value)), Ok(())),
            Err(e) => (pulled, Err(e)),
        }
    }

    /// The machine after the status word was pushed with its break bits
    /// naming `break_type`. The register itself keeps its break bits.
    pub open spec fn push_p(self, break_type: BreakType) -> (CpuView, Result<(), Error>) {
        self.push(self.registers.p.with_break(break_type).bits)
    }

    /// The machine after a jump to the subroutine at `target`: the address of
    /// the last byte of the jump instruction is pushed, and execution goes on
    /// at `target`. A fault leaves the program counter behind the jump.
    pub open spec fn jump_subroutine(self, target: u16) -> (CpuView, Result<(), Error>) {
        let (pushed, outcome) = self.push_u16(address_before(self.registers.pc));
        if outcome is Ok {
            (pushed.with_pc(target), Ok(()))
        } else {
            (pushed, outcome)
        }
    }

    /// The machine after a return from a subroutine: execution goes on behind
    /// the address that is pulled.
    pub open spec fn return_subroutine(self) -> (CpuView, Result<(), Error>) {
        let (pulled, outcome) = self.pull_u16();
        match outcome {
            Ok(address) => (pulled.with_pc(address_after(address)), Ok(())),
            Err(e) => (pulled, Err(e)),
        }
    }

    /// The machine after an interrupt was entered: the program counter
    /// `return_to` and then the status word, its break bits naming
    /// `break_type`, are pushed; interrupts are disabled; execution goes on at
    /// `vector`. Nothing more happens after the first fault.
    pub open spec fn interrupt(self, return_to: u16, break_type: BreakType, vector: u16) -> (
        CpuView,
        Result<(), Error>,
    ) {
        let (after_pc, outcome_pc) = self.push_u16(return_to);
        if outcome_pc is Ok {
            let (after_p, outcome_p) = after_pc.push_p(break_type);
            if outcome_p is Ok {
                (
                    after_p.with_p(
                        after_p.registers.p.with(StatusFlags::INTERRUPT_DISABLE),
                    ).with_pc(vector),
                    Ok(()),
                )
            } else {
                (after_p, outcome_p)
            }
        } else {
            (after_pc, outcome_pc)
        }
    }

    /// The machine after a `BRK`: an interrupt through the IRQ vector that
    /// returns to the byte behind the padding byte of the instruction, and
    /// that no flag can mask.
    pub open spec fn software_interrupt(self) -> (CpuView, Result<(), Error>) {
        self.interrupt(address_after(self.registers.pc), BreakType::Program, self.vectors.irq)
    }

    /// The machine after a return from an interrupt: the status word is
    /// pulled, then the program counter, and execution goes on exactly there.
    pub open spec fn return_interrupt(self) -> (CpuView, Result<(), Error>) {
        let (after_p, outcome_p) = self.pull_p();
        if outcome_p is Ok {
            let (after_pc, outcome_pc) = after_p.pull_u16();
            match outcome_pc {
                Ok(address) => (after_pc.with_pc(address), Ok(())),
                Err(e) => (after_pc, Err(e)),
            }
        } else {
            (after_p, outcome_p)
        }
    }
}

impl Cpu {
    /// Sets the zero flag if `value` is zero, and clears it otherwise.
    pub fn set_status_flag_zero(&mut self, value: u8)
        ensures
            final(self)@ == old(self)@.with_p(
                old(self).registers.p.assign(StatusFlags::ZERO, value == 0),
            ),
    {
        self.registers.p.set(StatusFlags::ZERO, value == 0);
    }

    /// Sets the negative flag if bit 7 of `value` is set, and clears it
    /// otherwise.
    pub fn set_status_flag_negative(&mut self, value: u8)
        ensures
            final(self)@ == old(self)@.with_p(
                old(self).registers.p.assign(StatusFlags::NEGATIVE, value >= 0x80),
            ),
    {
        self.registers.p.set(StatusFlags::NEGATIVE, is_negative(value));
    }

    fn branch(&mut self, condition: bool, target: u16) -> (cycles: u8)
        ensures
            final(self)@ == old(self)@.with_registers(old(self).registers.branch(condition, target)),
            cycles == branch_cycles(condition, old(self).registers.pc, target),
    {
        if condition {
            let crossed = u16_bytes(self.registers.pc).1 != u16_bytes(target).1;
            self.registers.pc = target;
            if crossed {
                2
            } else {
                1
            }
        } else {
            0
        }
    }

    /// `ADC`: adds `input` and the carry to the accumulator.
    pub fn run_adc(&mut self, input: u8)
        ensures
            final(self)@ == old(self)@.with_registers(old(self).registers.add(input)),
    {
        let (a, p) = add_with_carry(self.registers.a, input, self.registers.p);
        self.registers.a = a;
        self.registers.p = p;
    }

    /// `SBC`: subtracts `input` and the borrow from the accumulator.
    pub fn run_sbc(&mut self, input: u8)
        ensures
            final(self)@ == old(self)@.with_registers(old(self).registers.subtract(input)),
    {
        let (a, p) = subtract_with_borrow(self.registers.a, input, self.registers.p);
        self.registers.a = a;
        self.registers.p = p;
    }

    /// `AND`: the bitwise and of the accumulator and `input`.
    pub fn run_and(&mut self, input: u8)
        ensures
            final(self)@ == old(self)@.with_registers(old(self).registers.and_a(input)),
    {
        self.registers.a = self.registers.a & input;
        set_nz(&mut self.registers.p, self.registers.a);
    }

    /// `ORA`: the bitwise or of the accumulator and `input`.
    pub fn run_ora(&mut self, input: u8)
        ensures
            final(self)@ == old(self)@.with_registers(old(self).registers.or_a(input)),
    {
        self.registers.a = self.registers.a | input;
        set_nz(&mut self.registers.p, self.registers.a);
    }

    /// `EOR`: the bitwise exclusive or of the accumulator and `input`.
    pub fn run_eor(&mut self, input: u8)
        ensures
            final(self)@ == old(self)@.with_registers(old(self).registers.xor_a(input)),
    {
        self.registers.a = self.registers.a ^ input;
        set_nz(&mut self.registers.p, self.registers.a);
    }

    /// `BIT`: tests the bits of `input` against the accumulator, which stays as it is.
    pub fn run_bit(&mut self, input: u8)
        ensures
            final(self)@ == old(self)@.with_registers(old(self).registers.bit_test(input)),
    {
        self.registers.p = bit_test(self.registers.a, input, self.registers.p);
    }

    /// `CMP`: compares the accumulator with `input`.
    pub fn run_cmp(&mut self, input: u8)
        ensures
            final(self)@ == old(self)@.with_registers(old(self).registers.compare_a(input)),
    {
        self.registers.p = compare(self.registers.a, input, self.registers.p);
    }

    /// `CPX`: compares `x` with `input`.
    pub fn run_cpx(&mut self, input: u8)
        ensures
            final(self)@ == old(self)@.with_registers(old(self).registers.compare_x(input)),
    {
        self.registers.p = compare(self.registers.x, input, self.registers.p);
    }

    /// `CPY`: compares `y` with `input`.
    pub fn run_cpy(&mut self, input: u8)
        ensures
            final(self)@ == old(self)@.with_registers(old(self).registers.compare_y(input)),
    {
        self.registers.p = compare(self.registers.y, input, self.registers.p);
    }

    /// `LDA`: loads `input` into the accumulator.
    pub fn run_lda(&mut self, input: u8)
        ensures
            final(self)@ == old(self)@.with_registers(old(self).registers.load_a(input)),
    {
        self.registers.a = input;
        set_nz(&mut self.registers.p, input);
    }

    /// `LDX`: loads `input` into `x`.
    pub fn run_ldx(&mut self, input: u8)
        ensures
            final(self)@ == old(self)@.with_registers(old(self).registers.load_x(input)),
    {
        self.registers.x = input;
        set_nz(&mut self.registers.p, input);
    }

    /// `LDY`: loads `input` into `y`.
    pub fn run_ldy(&mut self, input: u8)
        ensures
            final(self)@ == old(self)@.with_registers(old(self).registers.load_y(input)),
    {
        self.registers.y = input;
        set_nz(&mut self.registers.p, input);
    }

    /// `TAX`: copies the accumulator to `x`.
    pub fn run_tax(&mut self)
        ensures
            final(self)@ == old(self)@.with_registers(old(self).registers.load_x(old(self).registers.a)),
    {
        self.registers.x = self.registers.a;
        set_nz(&mut self.registers.p, self.registers.x);
    }

    /// `TAY`: copies the accumulator to `y`.
    pub fn run_tay(&mut self)
        ensures
            final(self)@ == old(self)@.with_registers(old(self).registers.load_y(old(self).registers.a)),
    {
        self.registers.y = self.registers.a;
        set_nz(&mut self.registers.p, self.registers.y);
    }

    /// `TSX`: copies the stack pointer to `x`.
    pub fn run_tsx(&mut self)
        ensures
            final(self)@ == old(self)@.with_registers(old(self).registers.load_x(old(self).registers.s)),
    {
        self.registers.x = self.registers.s;
        set_nz(&mut self.registers.p, self.registers.x);
    }

    /// `TXA`: copies `x` to the accumulator.
    pub fn run_txa(&mut self)
        ensures
            final(self)@ == old(self)@.with_registers(old(self).registers.load_a(old(self).registers.x)),
    {
        self.registers.a = self.registers.x;
        set_nz(&mut self.registers.p, self.registers.a);
    }

    /// `TYA`: copies `y` to the accumulator.
    pub fn run_tya(&mut self)
        ensures
            final(self)@ == old(self)@.with_registers(old(self).registers.load_a(old(self).registers.y)),
    {
        self.registers.a = self.registers.y;
        set_nz(&mut self.registers.p, self.registers.a);
    }

    /// `TXS`: copies `x` to the stack pointer. No flag changes.
    pub fn run_txs(&mut self)
        ensures
            final(self)@ == old(self)@.with_registers(old(self).registers.with_s(old(self).registers.x)),
    {
        self.registers.s = self.registers.x;
    }

    /// `INX`: adds one to `x`, wrapping.
    pub fn run_inx(&mut self)
        ensures
            final(self)@ == old(self)@.with_registers(old(self).registers.load_x(incremented(old(self).registers.x))),
    {
        self.registers.x = self.registers.x.wrapping_add(1);
        set_nz(&mut self.registers.p, self.registers.x);
    }

    /// `INY`: adds one to `y`, wrapping.
    pub fn run_iny(&mut self)
        ensures
            final(self)@ == old(self)@.with_registers(old(self).registers.load_y(incremented(old(self).registers.y))),
    {
        self.registers.y = self.registers.y.wrapping_add(1);
        set_nz(&mut self.registers.p, self.registers.y);
    }

    /// `DEX`: takes one from `x`, wrapping.
    pub fn run_dex(&mut self)
        ensures
            final(self)@ == old(self)@.with_registers(old(self).registers.load_x(decremented(old(self).registers.x))),
    {
        self.registers.x = self.registers.x.wrapping_sub(1);
        set_nz(&mut self.registers.p, self.registers.x);
    }

    /// `DEY`: takes one from `y`, wrapping.
    pub fn run_dey(&mut self)
        ensures
            final(self)@ == old(self)@.with_registers(old(self).registers.load_y(decremented(old(self).registers.y))),
    {
        self.registers.y = self.registers.y.wrapping_sub(1);
        set_nz(&mut self.registers.p, self.registers.y);
    }

    /// `CLC`: clears the carry flag.
    pub fn run_clc(&mut self)
        ensures
            final(self)@ == old(self)@.with_registers(old(self).registers.with_p(old(self).registers.p.without(StatusFlags::CARRY))),
    {
        self.registers.p.remove(StatusFlags::CARRY);
    }

    /// `CLD`: clears the decimal flag.
    pub fn run_cld(&mut self)
        ensures
            final(self)@ == old(self)@.with_registers(old(self).registers.with_p(old(self).registers.p.without(StatusFlags::DECIMAL))),
    {
        self.registers.p.remove(StatusFlags::DECIMAL);
    }

    /// `CLI`: clears the interrupt-disable flag.
    pub fn run_cli(&mut self)
        ensures
            final(self)@ == old(self)@.with_registers(old(self).registers.with_p(old(self).registers.p.without(StatusFlags::INTERRUPT_DISABLE))),
    {
        self.registers.p.remove(StatusFlags::INTERRUPT_DISABLE);
    }

    /// `CLV`: clears the overflow flag.
    pub fn run_clv(&mut self)
        ensures
            final(self)@ == old(self)@.with_registers(old(self).registers.with_p(old(self).registers.p.without(StatusFlags::OVERFLOW))),
    {
        self.registers.p.remove(StatusFlags::OVERFLOW);
    }

    /// `SEC`: sets the carry flag.
    pub fn run_sec(&mut self)
        ensures
            final(self)@ == old(self)@.with_registers(old(self).registers.with_p(old(self).registers.p.with(StatusFlags::CARRY))),
    {
        self.registers.p.insert(StatusFlags::CARRY);
    }

    /// `SED`: sets the decimal flag.
    pub fn run_sed(&mut self)
        ensures
            final(self)@ == old(self)@.with_registers(old(self).registers.with_p(old(self).registers.p.with(StatusFlags::DECIMAL))),
    {
        self.registers.p.insert(StatusFlags::DECIMAL);
    }

    /// `SEI`: sets the interrupt-disable flag.
    pub fn run_sei(&mut self)
        ensures
            final(self)@ == old(self)@.with_registers(old(self).registers.with_p(old(self).registers.p.with(StatusFlags::INTERRUPT_DISABLE))),
    {
        self.registers.p.insert(StatusFlags::INTERRUPT_DISABLE);
    }

    /// `BCC`: goes on at `target` if the carry flag is clear. Returns the cycles that the
    /// branch costs beyond its base cost.
    pub fn run_bcc(&mut self, target: u16) -> (cycles: u8)
        ensures
            final(self)@ == old(self)@.with_registers(
                old(self).registers.branch(!old(self).registers.p.has(StatusFlags::CARRY), target),
            ),
            cycles == branch_cycles(!old(self).registers.p.has(StatusFlags::CARRY), old(self).registers.pc, target),
    {
        self.branch(!self.registers.p.contains(StatusFlags::CARRY), target)
    }

    /// `BCS`: goes on at `target` if the carry flag is set. Returns the cycles that the
    /// branch costs beyond its base cost.
    pub fn run_bcs(&mut self, target: u16) -> (cycles: u8)
        ensures
            final(self)@ == old(self)@.with_registers(
                old(self).registers.branch(old(self).registers.p.has(StatusFlags::CARRY), target),
            ),
            cycles == branch_cycles(old(self).registers.p.has(StatusFlags::CARRY), old(self).registers.pc, target),
    {
        self.branch(self.registers.p.contains(StatusFlags::CARRY), target)
    }

    /// `BEQ`: goes on at `target` if the zero flag is set. Returns the cycles that the
    /// branch costs beyond its base cost.
    pub fn run_beq(&mut self, target: u16) -> (cycles: u8)
        ensures
            final(self)@ == old(self)@.with_registers(
                old(self).registers.branch(old(self).registers.p.has(StatusFlags::ZERO), target),
            ),
            cycles == branch_cycles(old(self).registers.p.has(StatusFlags::ZERO), old(self).registers.pc, target),
    {
        self.branch(self.registers.p.contains(StatusFlags::ZERO), target)
    }

    /// `BNE`: goes on at `target` if the zero flag is clear. Returns the cycles that the
    /// branch costs beyond its base cost.
    pub fn run_bne(&mut self, target: u16) -> (cycles: u8)
        ensures
            final(self)@ == old(self)@.with_registers(
                old(self).registers.branch(!old(self).registers.p.has(StatusFlags::ZERO), target),
            ),
            cycles == branch_cycles(!old(self).registers.p.has(StatusFlags::ZERO), old(self).registers.pc, target),
    {
        self.branch(!self.registers.p.contains(StatusFlags::ZERO), target)
    }

    /// `BMI`: goes on at `target` if the negative flag is set. Returns the cycles that the
    /// branch costs beyond its base cost.
    pub fn run_bmi(&mut self, target: u16) -> (cycles: u8)
        ensures
            final(self)@ == old(self)@.with_registers(
                old(self).registers.branch(old(self).registers.p.has(StatusFlags::NEGATIVE), target),
            ),
            cycles == branch_cycles(old(self).registers.p.has(StatusFlags::NEGATIVE), old(self).registers.pc, target),
    {
        self.branch(self.registers.p.contains(StatusFlags::NEGATIVE), target)
    }

    /// `BPL`: goes on at `target` if the negative flag is clear. Returns the cycles that the
    /// branch costs beyond its base cost.
    pub fn run_bpl(&mut self, target: u16) -> (cycles: u8)
        ensures
            final(self)@ == old(self)@.with_registers(
                old(self).registers.branch(!old(self).registers.p.has(StatusFlags::NEGATIVE), target),
            ),
            cycles == branch_cycles(!old(self).registers.p.has(StatusFlags::NEGATIVE), old(self).registers.pc, target),
    {
        self.branch(!self.registers.p.contains(StatusFlags::NEGATIVE), target)
    }

    /// `BVC`: goes on at `target` if the overflow flag is clear. Returns the cycles that the
    /// branch costs beyond its base cost.
    pub fn run_bvc(&mut self, target: u16) -> (cycles: u8)
        ensures
            final(self)@ == old(self)@.with_registers(
                old(self).registers.branch(!old(self).registers.p.has(StatusFlags::OVERFLOW), target),
            ),
            cycles == branch_cycles(!old(self).registers.p.has(StatusFlags::OVERFLOW), old(self).registers.pc, target),
    {
        self.branch(!self.registers.p.contains(StatusFlags::OVERFLOW), target)
    }

    /// `BVS`: goes on at `target` if the overflow flag is set. Returns the cycles that the
    /// branch costs beyond its base cost.
    pub fn run_bvs(&mut self, target: u16) -> (cycles: u8)
        ensures
            final(self)@ == old(self)@.with_registers(
                old(self).registers.branch(old(self).registers.p.has(StatusFlags::OVERFLOW), target),
            ),
            cycles == branch_cycles(old(self).registers.p.has(StatusFlags::OVERFLOW), old(self).registers.pc, target),
    {
        self.branch(self.registers.p.contains(StatusFlags::OVERFLOW), target)
    }

    /// `JMP`: goes on at `target`.
    pub fn run_jmp(&mut self, target: u16)
        ensures
            final(self)@ == old(self)@.with_registers(old(self).registers.branch(true, target)),
    {
        self.registers.pc = target;
    }

    fn run_shift(&mut self, shift: Shift, target: InstructionInputLocation) -> (r: Result<(), Error>)
        ensures
            (final(self)@, r) == old(self)@.shift(shift, target),
    {
        let value = match self.read_location(target) {
            Ok(value) => value,
            Err(e) => {
                return Err(e);
            },
        };
        let (result, p) = shift_byte(shift, value, self.registers.p);
        match self.persist_result_by_location(result, target) {
            Ok(()) => {},
            Err(e) => {
                return Err(e);
            },
        }
        self.registers.p = p;
        Ok(())
    }

    /// `ASL`: shifts the byte in `target` one bit to the left.
    pub fn run_asl(&mut self, target: InstructionInputLocation) -> (r: Result<(), Error>)
        ensures
            (final(self)@, r) == old(self)@.shift(Shift::Asl, target),
    {
        self.run_shift(Shift::Asl, target)
    }

    /// `LSR`: shifts the byte in `target` one bit to the right.
    pub fn run_lsr(&mut self, target: InstructionInputLocation) -> (r: Result<(), Error>)
        ensures
            (final(self)@, r) == old(self)@.shift(Shift::Lsr, target),
    {
        self.run_shift(Shift::Lsr, target)
    }

    /// `ROL`: rotates the byte in `target` one bit to the left through the
    /// carry.
    pub fn run_rol(&mut self, target: InstructionInputLocation) -> (r: Result<(), Error>)
        ensures
            (final(self)@, r) == old(self)@.shift(Shift::Rol, target),
    {
        self.run_shift(Shift::Rol, target)
    }

    /// `ROR`: rotates the byte in `target` one bit to the right through the
    /// carry.
    pub fn run_ror(&mut self, target: InstructionInputLocation) -> (r: Result<(), Error>)
        ensures
            (final(self)@, r) == old(self)@.shift(Shift::Ror, target),
    {
        self.run_shift(Shift::Ror, target)
    }

    /// `INC`: adds one to the byte at `target`, wrapping.
    pub fn run_inc(&mut self, target: u16) -> (r: Result<(), Error>)
        ensures
            (final(self)@, r) == old(self)@.increment(target),
    {
        let result = match self.bus.read(target) {
            Ok(value) => value.wrapping_add(1),
            Err(e) => {
                return Err(e);
            },
        };
        let _ = self.bus.write(target, result);
        set_nz(&mut self.registers.p, result);
        Ok(())
    }

    /// `DEC`: takes one from the byte at `target`, wrapping.
    pub fn run_dec(&mut self, target: u16) -> (r: Result<(), Error>)
        ensures
            (final(self)@, r) == old(self)@.decrement(target),
    {
        let result = match self.bus.read(target) {
            Ok(value) => value.wrapping_sub(1),
            Err(e) => {
                return Err(e);
            },
        };
        let _ = self.bus.write(target, result);
        set_nz(&mut self.registers.p, result);
        Ok(())
    }

    /// `STA`: stores the accumulator at `target`.
    pub fn run_sta(&mut self, target: u16) -> (r: Result<(), Error>)
        ensures
            (final(self)@, r) == old(self)@.store_register(target, old(self).registers.a),
    {
        self.bus.write(target, self.registers.a)
    }

    /// `STX`: stores `x` at `target`.
    pub fn run_stx(&mut self, target: u16) -> (r: Result<(), Error>)
        ensures
            (final(self)@, r) == old(self)@.store_register(target, old(self).registers.x),
    {
        self.bus.write(target, self.registers.x)
    }

    /// `STY`: stores `y` at `target`.
    pub fn run_sty(&mut self, target: u16) -> (r: Result<(), Error>)
        ensures
            (final(self)@, r) == old(self)@.store_register(target, old(self).registers.y),
    {
        self.bus.write(target, self.registers.y)
    }

    /// `PHA`: pushes the accumulator.
    pub fn run_pha(&mut self) -> (r: Result<(), Error>)
        ensures
            (final(self)@, r) == old(self)@.push(old(self).registers.a),
    {
        self.stack_push(self.registers.a)
    }

    /// `PHP`: pushes the status word with both break bits set.
    pub fn run_php(&mut self) -> (r: Result<(), Error>)
        ensures
            (final(self)@, r) == old(self)@.push_p(BreakType::Program),
    {
        self.push_status(BreakType::Program)
    }

    /// `PLA`: pulls the accumulator.
    pub fn run_pla(&mut self) -> (r: Result<(), Error>)
        ensures
            (final(self)@, r) == old(self)@.pull_a(),
    {
        let value = match self.stack_pull() {
            Ok(value) => value,
            Err(e) => {
                return Err(e);
            },
        };
        self.registers.a = value;
        set_nz(&mut self.registers.p, value);
        Ok(())
    }

    /// `PLP`: pulls the status word. Of the break bits, the right one is
    /// cleared and the left one stays as the register held it.
    pub fn run_plp(&mut self) -> (r: Result<(), Error>)
        ensures
            (final(self)@, r) == old(self)@.pull_p(),
    {
        let value = match self.stack_pull() {
            Ok(value) => value,
            Err(e) => {
                return Err(e);
            },
        };
        self.registers.p = StatusFlags::from_bits(
            (value & !(StatusFlags::BREAK_LEFT | StatusFlags::BREAK_RIGHT)) | (self.registers.p.bits
                & StatusFlags::BREAK_LEFT),
        );
        Ok(())
    }

    fn push_status(&mut self, break_type: BreakType) -> (r: Result<(), Error>)
        ensures
            (final(self)@, r) == old(self)@.push_p(break_type),
    {
        let mut p = self.registers.p;
        p.set_break(break_type);
        self.stack_push(p.bits())
    }

    /// `JSR`: pushes the address of the last byte of the instruction, and
    /// goes on at `target`. The program counter must stand behind the
    /// instruction.
    pub fn run_jsr(&mut self, target: u16) -> (r: Result<(), Error>)
        ensures
            (final(self)@, r) == old(self)@.jump_subroutine(target),
    {
        match self.stack_push_u16(self.registers.pc.wrapping_sub(1)) {
            Ok(()) => {},
            Err(e) => {
                return Err(e);
            },
        }
        self.registers.pc = target;
        Ok(())
    }

    /// `RTS`: pulls an address and goes on behind it.
    pub fn run_rts(&mut self) -> (r: Result<(), Error>)
        ensures
            (final(self)@, r) == old(self)@.return_subroutine(),
    {
        let address = match self.stack_pull_u16() {
            Ok(address) => address,
            Err(e) => {
                return Err(e);
            },
        };
        self.registers.pc = address.wrapping_add(1);
        Ok(())
    }

    /// Enters an interrupt: pushes `return_to` and the status word, its break
    /// bits naming `break_type`, disables interrupts, and goes on at `vector`.
    pub fn generate_interrupt(&mut self, return_to: u16, break_type: BreakType, vector: u16) -> (r:
        Result<(), Error>)
        ensures
            (final(self)@, r) == old(self)@.interrupt(return_to, break_type, vector),
    {
        match self.stack_push_u16(return_to) {
            Ok(()) => {},
            Err(e) => {
                return Err(e);
            },
        }
        match self.push_status(break_type) {
            Ok(()) => {},
            Err(e) => {
                return Err(e);
            },
        }
        self.registers.p.insert(StatusFlags::INTERRUPT_DISABLE);
        self.registers.pc = vector;
        Ok(())
    }

    /// `BRK`: enters an interrupt through the IRQ vector, whatever the
    /// interrupt-disable flag says. The return address is the byte behind the
    /// padding byte that follows the opcode. The program counter must stand
    /// behind the opcode.
    pub fn run_brk(&mut self) -> (r: Result<(), Error>)
        ensures
            (final(self)@, r) == old(self)@.software_interrupt(),
    {
        let return_to = self.registers.pc.wrapping_add(1);
        let vector = self.vectors.irq;
        self.generate_interrupt(return_to, BreakType::Program, vector)
    }

    /// `RTI`: pulls the status word and the program counter, and goes on
    /// exactly there.
    pub fn run_rti(&mut self) -> (r: Result<(), Error>)
        ensures
            (final(self)@, r) == old(self)@.return_interrupt(),
    {
        match self.run_plp() {
            Ok(()) => {},
            Err(e) => {
                return Err(e);
            },
        }
        let address = match self.stack_pull_u16() {
            Ok(address) => address,
            Err(e) => {
                return Err(e);
            },
        };
        self.registers.pc = address;
        Ok(())
    }
}

} // verus!
