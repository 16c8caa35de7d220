//! What holds of every machine: of the flags that arithmetic sets, of the
//! opcode table, of the program counter, of the television standard, and of
//! the stack.

use vstd::prelude::*;
use crate::cpu::alu::{
    adc,
    compared,
    difference,
    sbc,
    shifted_byte,
    shifted_out,
    spec_has_overflown,
    spec_is_carry,
    sum,
    sum_byte,
    Shift,
};
use crate::cpu::clock::{Clock, ClockMode};
use crate::cpu::engine::{advanced, OperandShape};
use crate::cpu::flags::{BreakType, StatusFlags};
use crate::cpu::instruction::{Instruction, InstructionInput, InstructionOperation};
use crate::cpu::operations::{address_after, address_before};
use crate::cpu::stack::{pulled_pointer, pushed_pointer, stack_address};
use crate::cpu::CpuView;
use crate::error::Error;
use crate::types::{low_byte, signed};

verus! {

/// Whether `mask` names exactly one flag.
pub open spec fn single_flag(mask: u8) -> bool {
    mask == 0x01 || mask == 0x02 || mask == 0x04 || mask == 0x08 || mask == 0x10 || mask == 0x20
        || mask == 0x40 || mask == 0x80
}

/// A flag that was assigned holds what was assigned, and every other flag
/// holds what it held.
pub proof fn lemma_assign(p: StatusFlags, mask: u8, on: bool, other: u8)
    requires
        single_flag(mask),
        single_flag(other),
    ensures
        p.assign(mask, on).has(mask) == on,
        other != mask ==> p.assign(mask, on).has(other) == p.has(other),
{
    let b = p.bits;
    assert((b | mask) & mask == mask) by (bit_vector);
    assert(mask != 0 ==> (b & !mask) & mask != mask) by (bit_vector);
    assert((mask == 0x01 || mask == 0x02 || mask == 0x04 || mask == 0x08 || mask == 0x10 || mask
        == 0x20 || mask == 0x40 || mask == 0x80) && (other == 0x01 || other == 0x02 || other == 0x04
        || other == 0x08 || other == 0x10 || other == 0x20 || other == 0x40 || other == 0x80)
        && other != mask ==> ((b | mask) & other == other) == (b & other == other) && ((b & !mask)
        & other == other) == (b & other == other)) by (bit_vector);
}

/// The flags after an addition say what the addition did: carry, that the
/// sum did not fit in a byte; zero, that the byte left is zero; negative,
/// that its bit 7 is set; overflow, what `spec_has_overflown` says. The
/// accumulator holds the sum modulo 256.
pub proof fn lemma_adc_flags(a: u8, b: u8, p: StatusFlags)
    ensures
        adc(a, b, p).0 == sum_byte(a, b, p.has(StatusFlags::CARRY)),
        adc(a, b, p).1.has(StatusFlags::CARRY) == (sum(a, b, p.has(StatusFlags::CARRY)) > 255),
        adc(a, b, p).1.has(StatusFlags::ZERO) == (adc(a, b, p).0 == 0),
        adc(a, b, p).1.has(StatusFlags::NEGATIVE) == (adc(a, b, p).0 >= 0x80),
        adc(a, b, p).1.has(StatusFlags::OVERFLOW) == spec_has_overflown(a, b, adc(a, b, p).0),
{
    let carry = p.has(StatusFlags::CARRY);
    let result = sum_byte(a, b, carry);
    let p1 = p.assign(StatusFlags::CARRY, spec_is_carry(a, b, carry));
    let p2 = p1.assign(StatusFlags::OVERFLOW, spec_has_overflown(a, b, result));
    let p3 = p2.assign(StatusFlags::ZERO, result == 0);
    let p4 = p3.assign(StatusFlags::NEGATIVE, result >= 0x80);
    assert(adc(a, b, p).1 == p4);
    lemma_assign(p, StatusFlags::CARRY, spec_is_carry(a, b, carry), StatusFlags::CARRY);
    lemma_assign(p1, StatusFlags::OVERFLOW, spec_has_overflown(a, b, result), StatusFlags::CARRY);
    lemma_assign(p2, StatusFlags::ZERO, result == 0, StatusFlags::CARRY);
    lemma_assign(p2, StatusFlags::ZERO, result == 0, StatusFlags::OVERFLOW);
    lemma_assign(p3, StatusFlags::NEGATIVE, result >= 0x80, StatusFlags::CARRY);
    lemma_assign(p3, StatusFlags::NEGATIVE, result >= 0x80, StatusFlags::OVERFLOW);
    lemma_assign(p3, StatusFlags::NEGATIVE, result >= 0x80, StatusFlags::ZERO);
}

/// The overflow law of addition: for every accumulator, operand and carry,
/// the overflow flag is set after the addition exactly when both operands
/// have the same sign and the result has the other.
pub proof fn lemma_adc_overflow(a: u8, b: u8, p: StatusFlags)
    ensures
        adc(a, b, p).1.has(StatusFlags::OVERFLOW) <==> ((a >= 0x80) == (b >= 0x80) && (adc(
            a,
            b,
            p,
        ).0 >= 0x80) != (a >= 0x80)),
{
    lemma_adc_flags(a, b, p);
    let r = adc(a, b, p).0;
    assert((((a ^ r) & (b ^ r) & 0x80) != 0) <==> ((a >= 0x80) == (b >= 0x80) && (r >= 0x80) != (a
        >= 0x80))) by (bit_vector);
}

/// The overflow flag after an addition says that the sum, taken as a sum of
/// signed numbers, does not fit in a signed byte.
pub proof fn lemma_adc_signed_overflow(a: u8, b: u8, p: StatusFlags)
    ensures
        adc(a, b, p).1.has(StatusFlags::OVERFLOW) <==> !(-128 <= signed(a) + signed(b) + p.carry()
            <= 127),
{
    lemma_adc_overflow(a, b, p);
    lemma_adc_flags(a, b, p);
}

/// A subtraction with borrow is a subtraction: the accumulator holds the
/// difference, less one if the carry flag was clear, modulo 256; and the
/// carry flag says that nothing had to be borrowed.
pub proof fn lemma_sbc_difference(a: u8, b: u8, p: StatusFlags)
    ensures
        sbc(a, b, p).0 == ((a - b - (1 - p.carry())) % 256) as u8,
        sbc(a, b, p).1.has(StatusFlags::CARRY) <==> a - b - (1 - p.carry()) >= 0,
        sbc(a, b, p).1.has(StatusFlags::ZERO) <==> sbc(a, b, p).0 == 0,
        sbc(a, b, p).1.has(StatusFlags::NEGATIVE) <==> sbc(a, b, p).0 >= 0x80,
{
    assert(!b == 255 - b) by (bit_vector);
    lemma_adc_flags(a, !b, p);
}

/// The flags after a comparison: carry, that the register is not below the
/// operand; zero, that both are equal; negative, bit 7 of their difference.
/// No other flag changes.
pub proof fn lemma_compared_flags(register: u8, b: u8, p: StatusFlags)
    ensures
        compared(register, b, p).has(StatusFlags::CARRY) == (register >= b),
        compared(register, b, p).has(StatusFlags::ZERO) == (register == b),
        compared(register, b, p).has(StatusFlags::NEGATIVE) == (difference(register, b) >= 0x80),
        compared(register, b, p).has(StatusFlags::OVERFLOW) == p.has(StatusFlags::OVERFLOW),
        compared(register, b, p).has(StatusFlags::DECIMAL) == p.has(StatusFlags::DECIMAL),
        compared(register, b, p).has(StatusFlags::INTERRUPT_DISABLE) == p.has(
            StatusFlags::INTERRUPT_DISABLE,
        ),
{
    let p1 = p.assign(StatusFlags::CARRY, register >= b);
    let p2 = p1.assign(StatusFlags::ZERO, register == b);
    let negative = difference(register, b) >= 0x80;
    lemma_assign(p, StatusFlags::CARRY, register >= b, StatusFlags::CARRY);
    lemma_assign(p, StatusFlags::CARRY, register >= b, StatusFlags::OVERFLOW);
    lemma_assign(p, StatusFlags::CARRY, register >= b, StatusFlags::DECIMAL);
    lemma_assign(p, StatusFlags::CARRY, register >= b, StatusFlags::INTERRUPT_DISABLE);
    lemma_assign(p1, StatusFlags::ZERO, register == b, StatusFlags::CARRY);
    lemma_assign(p1, StatusFlags::ZERO, register == b, StatusFlags::OVERFLOW);
    lemma_assign(p1, StatusFlags::ZERO, register == b, StatusFlags::DECIMAL);
    lemma_assign(p1, StatusFlags::ZERO, register == b, StatusFlags::INTERRUPT_DISABLE);
    lemma_assign(p2, StatusFlags::NEGATIVE, negative, StatusFlags::CARRY);
    lemma_assign(p2, StatusFlags::NEGATIVE, negative, StatusFlags::ZERO);
    lemma_assign(p2, StatusFlags::NEGATIVE, negative, StatusFlags::OVERFLOW);
    lemma_assign(p2, StatusFlags::NEGATIVE, negative, StatusFlags::DECIMAL);
    lemma_assign(p2, StatusFlags::NEGATIVE, negative, StatusFlags::INTERRUPT_DISABLE);
}

/// Shifts and rotations as arithmetic: a shift to the left doubles, modulo
/// 256, and moves bit 7 out; a shift to the right halves and moves bit 0 out;
/// a rotation does the same and moves the old carry in at the other end. A
/// shift to the right never leaves a negative byte.
pub proof fn lemma_shift_arithmetic(value: u8, carry: bool)
    ensures
        shifted_byte(Shift::Asl, value, carry) == (2 * value) % 256,
        shifted_byte(Shift::Lsr, value, carry) == value / 2,
        shifted_byte(Shift::Lsr, value, carry) < 0x80,
        shifted_byte(Shift::Rol, value, carry) == (2 * value + if carry {
            1int
        } else {
            0int
        }) % 256,
        shifted_byte(Shift::Ror, value, carry) == value / 2 + if carry {
            128int
        } else {
            0int
        },
        shifted_out(Shift::Asl, value) == (value >= 0x80),
        shifted_out(Shift::Rol, value) == (value >= 0x80),
        shifted_out(Shift::Lsr, value) == (value % 2 == 1),
        shifted_out(Shift::Ror, value) == (value % 2 == 1),
{
    let c: u8 = if carry {
        1
    } else {
        0
    };
    assert((value << 1u8) == (2 * value) % 256) by (bit_vector);
    assert((value >> 1u8) == value / 2) by (bit_vector);
    assert(c <= 1 ==> ((value << 1u8) | c) == (2 * value + c) % 256) by (bit_vector);
    assert(c <= 1 ==> ((value >> 1u8) | (c << 7u8)) == value / 2 + 128 * c) by (bit_vector);
    assert((value & (1u8 << 7u8) != 0) == (value >= 0x80)) by (bit_vector);
    assert((value & (1u8 << 0u8) != 0) == (value % 2 == 1)) by (bit_vector);
}

/// The lengths of the opcode table: every instruction is one, two or three
/// bytes long, as its mode says. Implied and accumulator instructions have
/// one byte; immediate, relative, zero-page and indexed-indirect ones two;
/// absolute and indirect ones three.
pub proof fn lemma_table_lengths(opcode: u8)
    ensures
        Instruction::table(opcode) matches Some(instruction) ==> {
            &&& instruction.wf()
            &&& 1 <= instruction.len <= 3
            &&& instruction.len == 1 <==> (instruction.mode is Implied || instruction.mode
                is Accumulator)
            &&& instruction.len == 3 <==> (instruction.mode is Absolute || instruction.mode
                is AbsoluteX || instruction.mode is AbsoluteY || instruction.mode is Indirect)
        },
{
}

/// A jump has two forms only: absolute and indirect.
pub proof fn lemma_jump_modes(opcode: u8)
    ensures
        Instruction::table(opcode) matches Some(instruction) ==> (instruction.operation
            is Jmp ==> instruction.mode is Absolute || instruction.mode is Indirect),
        Instruction::table(opcode) matches Some(instruction) ==> (instruction.mode
            is Indirect ==> instruction.operation is Jmp),
{
}

/// An operation that does not redirect leaves the program counter where it
/// found it, whatever else it does and whether or not it succeeds.
pub proof fn lemma_execute_keeps_pc(
    cpu: CpuView,
    operation: InstructionOperation,
    input: InstructionInput,
)
    requires
        !operation.redirects(),
    ensures
        cpu.execute(operation, input).0.registers.pc == cpu.registers.pc,
{
}

/// After an instruction that is neither a branch nor a jump, a return or a
/// `BRK`, the program counter stands behind the instruction: it has moved by
/// the length of the instruction.
pub proof fn lemma_process_advances_pc(cpu: CpuView, instruction: Instruction)
    requires
        !instruction.operation.redirects(),
        cpu.process(instruction).1 is Ok,
    ensures
        cpu.process(instruction).0.registers.pc == advanced(cpu.registers.pc, instruction.len),
        cpu.registers.pc + instruction.len <= 0x10000,
{
    let bytes = cpu.bus.read_n(cpu.registers.pc, instruction.len as nat)->Ok_0;
    let fetched = cpu.with_pc(advanced(cpu.registers.pc, instruction.len)).ticked(
        instruction.cycles_base,
    );
    let input = fetched.resolve(instruction.mode, bytes)->Ok_0;
    lemma_execute_keeps_pc(fetched, instruction.operation, input);
}

/// After a step that serves no interrupt and runs neither a branch nor a
/// jump, a return or a `BRK`, the program counter has moved by the length of
/// the instruction that was run.
pub proof fn lemma_step_advances_pc(cpu: CpuView)
    requires
        !cpu.interrupt_due(),
        cpu.fetch() matches Ok(instruction) && !instruction.operation.redirects(),
        cpu.step().1 is Ok,
    ensures
        cpu.step().0.registers.pc == advanced(cpu.registers.pc, cpu.fetch()->Ok_0.len),
        cpu.step().0.registers.pc == (cpu.registers.pc + cpu.fetch()->Ok_0.len) % 0x10000,
{
    lemma_process_advances_pc(cpu, cpu.fetch()->Ok_0);
}

impl CpuView {
    /// The machine with a clock of another television standard and
    /// frequency, at the same count of cycles.
    pub open spec fn with_standard(self, mode: ClockMode, speed: u32) -> CpuView {
        CpuView { clock: Clock { mode, speed, cycles: self.clock.cycles }, ..self }
    }

    /// The television standard decides nothing about a push or a pull.
    pub proof fn lemma_stack_ignores_standard(self, mode: ClockMode, speed: u32, value: u16)
        ensures
            self.with_standard(mode, speed).push(low_byte(value)).1 == self.push(
                low_byte(value),
            ).1,
            self.with_standard(mode, speed).push(low_byte(value)).0 == self.push(
                low_byte(value),
            ).0.with_standard(mode, speed),
            self.with_standard(mode, speed).pull().1 == self.pull().1,
            self.with_standard(mode, speed).pull().0 == self.pull().0.with_standard(mode, speed),
            self.with_standard(mode, speed).push_u16(value).1 == self.push_u16(value).1,
            self.with_standard(mode, speed).push_u16(value).0 == self.push_u16(
                value,
            ).0.with_standard(mode, speed),
            self.with_standard(mode, speed).pull_u16().1 == self.pull_u16().1,
            self.with_standard(mode, speed).pull_u16().0 == self.pull_u16().0.with_standard(
                mode,
                speed,
            ),
    {
    }

    /// The television standard decides nothing about the entry into an
    /// interrupt.
    pub proof fn lemma_interrupt_ignores_standard(
        self,
        mode: ClockMode,
        speed: u32,
        return_to: u16,
        break_type: BreakType,
        vector: u16,
    )
        ensures
            self.with_standard(mode, speed).interrupt(return_to, break_type, vector).1
                == self.interrupt(return_to, break_type, vector).1,
            self.with_standard(mode, speed).interrupt(return_to, break_type, vector).0
                == self.interrupt(return_to, break_type, vector).0.with_standard(mode, speed),
    {
        self.lemma_stack_ignores_standard(mode, speed, return_to);
    }

    /// The television standard decides nothing about an operation without
    /// an operand.
    pub proof fn lemma_implied_ignores_standard(
        self,
        mode: ClockMode,
        speed: u32,
        operation: InstructionOperation,
    )
        ensures
            self.with_standard(mode, speed).execute_implied(operation).1 == self.execute_implied(
                operation,
            ).1,
            self.with_standard(mode, speed).execute_implied(operation).0 == self.execute_implied(
                operation,
            ).0.with_standard(mode, speed),
    {
        match operation {
            InstructionOperation::Brk => {
                self.lemma_interrupt_ignores_standard(
                    mode,
                    speed,
                    address_after(self.registers.pc),
                    BreakType::Program,
                    self.vectors.irq,
                );
            },
            InstructionOperation::Rti => {
                self.lemma_stack_ignores_standard(mode, speed, 0);
                self.pull_p().0.lemma_stack_ignores_standard(mode, speed, 0);
            },
            InstructionOperation::Pha
            | InstructionOperation::Php
            | InstructionOperation::Pla
            | InstructionOperation::Plp
            | InstructionOperation::Rts => {
                self.lemma_stack_ignores_standard(mode, speed, 0);
            },
            _ => {},
        }
    }

    /// The television standard decides nothing about an operation on an
    /// address.
    pub proof fn lemma_address_ignores_standard(
        self,
        mode: ClockMode,
        speed: u32,
        operation: InstructionOperation,
        address: u16,
    )
        ensures
            self.with_standard(mode, speed).execute_address(operation, address).1
                == self.execute_address(operation, address).1,
            self.with_standard(mode, speed).execute_address(operation, address).0
                == self.execute_address(operation, address).0.with_standard(mode, speed),
    {
        if operation is Jsr {
            self.lemma_stack_ignores_standard(mode, speed, address_before(self.registers.pc));
        }
    }

    /// The television standard decides nothing about what an operation does.
    pub proof fn lemma_execute_ignores_standard(
        self,
        mode: ClockMode,
        speed: u32,
        operation: InstructionOperation,
        input: InstructionInput,
    )
        ensures
            self.with_standard(mode, speed).execute(operation, input).1 == self.execute(
                operation,
                input,
            ).1,
            self.with_standard(mode, speed).execute(operation, input).0 == self.execute(
                operation,
                input,
            ).0.with_standard(mode, speed),
    {
        match operation.shape() {
            OperandShape::Nothing => {
                self.lemma_implied_ignores_standard(mode, speed, operation);
            },
            OperandShape::Address => {
                if input.spec_address() is Ok {
                    self.lemma_address_ignores_standard(
                        mode,
                        speed,
                        operation,
                        input.spec_address()->Ok_0,
                    );
                }
            },
            _ => {},
        }
    }

    /// The television standard decides nothing about what an instruction
    /// does: two machines that differ in the standard and the frequency of
    /// their clocks alone differ in nothing else after the instruction, and
    /// the instruction has the same result and the same cost.
    pub proof fn lemma_process_ignores_standard(
        self,
        mode: ClockMode,
        speed: u32,
        instruction: Instruction,
    )
        ensures
            self.with_standard(mode, speed).process(instruction).1 == self.process(instruction).1,
            self.with_standard(mode, speed).process(instruction).0 == self.process(
                instruction,
            ).0.with_standard(mode, speed),
    {
        let other = self.with_standard(mode, speed);
        if self.bus.read_n(self.registers.pc, instruction.len as nat) is Ok {
            let bytes = self.bus.read_n(self.registers.pc, instruction.len as nat)->Ok_0;
            let fetched = self.with_pc(advanced(self.registers.pc, instruction.len)).ticked(
                instruction.cycles_base,
            );
            let fetched_other = other.with_pc(advanced(self.registers.pc, instruction.len)).ticked(
                instruction.cycles_base,
            );
            assert(fetched_other == fetched.with_standard(mode, speed));
            if fetched.resolve(instruction.mode, bytes) is Ok {
                fetched.lemma_execute_ignores_standard(
                    mode,
                    speed,
                    instruction.operation,
                    fetched.resolve(instruction.mode, bytes)->Ok_0,
                );
            }
            assert(fetched_other.call(instruction, bytes).1 == fetched.call(instruction, bytes).1);
            assert(fetched_other.call(instruction, bytes).0 == fetched.call(
                instruction,
                bytes,
            ).0.with_standard(mode, speed));
        }
    }

    /// The television standard decides nothing about a step.
    pub proof fn lemma_step_ignores_standard(self, mode: ClockMode, speed: u32)
        ensures
            self.with_standard(mode, speed).step().1 == self.step().1,
            self.with_standard(mode, speed).step().0 == self.step().0.with_standard(mode, speed),
    {
        let other = self.with_standard(mode, speed);
        if self.interrupt_due() {
            let cleared = CpuView { nmi_pending: false, ..self };
            cleared.lemma_interrupt_ignores_standard(
                mode,
                speed,
                self.registers.pc,
                BreakType::Internal,
                self.vectors.nmi,
            );
            self.lemma_interrupt_ignores_standard(
                mode,
                speed,
                self.registers.pc,
                BreakType::Internal,
                self.vectors.irq,
            );
            assert(other.serve_interrupt().1 == self.serve_interrupt().1);
            assert(other.serve_interrupt().0 == self.serve_interrupt().0.with_standard(
                mode,
                speed,
            ));
            let entered = self.serve_interrupt().0;
            if entered.fetch() is Ok {
                entered.lemma_process_ignores_standard(mode, speed, entered.fetch()->Ok_0);
            }
        } else {
            if self.fetch() is Ok {
                self.lemma_process_ignores_standard(mode, speed, self.fetch()->Ok_0);
            }
        }
    }

    /// Whether the whole stack page is plain memory.
    pub open spec fn stack_is_ram(self) -> bool {
        forall|s: u8| #[trigger] self.bus.ram_at(stack_address(s))
    }

    /// The machine after the bytes of `values` were pushed, the first one
    /// first, and the result of the pushes. Nothing is pushed after the first
    /// fault.
    pub open spec fn push_all(self, values: Seq<u8>) -> (CpuView, Result<(), Error>)
        decreases values.len(),
    {
        if values.len() == 0 {
            (self, Ok(()))
        } else {
            let (before, outcome) = self.push_all(values.drop_last());
            if outcome is Ok {
                before.push(values.last())
            } else {
                (before, outcome)
            }
        }
    }

    /// The machine after `n` bytes were pulled, and the bytes in the order in
    /// which they came. Nothing is pulled after the first fault.
    pub open spec fn pull_n(self, n: nat) -> (CpuView, Result<Seq<u8>, Error>)
        decreases n,
    {
        if n == 0 {
            (self, Ok(Seq::empty()))
        } else {
            let (pulled, first) = self.pull();
            match first {
                Ok(value) => {
                    let (after, rest) = pulled.pull_n((n - 1) as nat);
                    match rest {
                        Ok(values) => (after, Ok(seq![value] + values)),
                        Err(e) => (after, Err(e)),
                    }
                },
                Err(e) => (pulled, Err(e)),
            }
        }
    }

    /// Whether two machines hold the same bytes in the `n` stack cells above
    /// the stack pointer `s`.
    pub open spec fn same_stack_above(self, other: CpuView, s: u8, n: nat) -> bool {
        forall|j: int|
            1 <= j <= n ==> self.bus.read(#[trigger] stack_address(((s + j) % 256) as u8))
                == other.bus.read(stack_address(((s + j) % 256) as u8))
    }

    /// A push onto a stack of plain memory succeeds, moves the stack pointer
    /// down by one and nothing else in the registers, and leaves the stack
    /// page plain memory.
    pub proof fn lemma_push(self, value: u8)
        requires
            self.stack_is_ram(),
        ensures
            self.push(value).1 is Ok,
            self.push(value).0.stack_is_ram(),
            self.push(value).0.registers == self.registers.with_s(
                pushed_pointer(self.registers.s),
            ),
            self.push(value).0.bus == self.bus.write(stack_address(self.registers.s), value),
    {
        let address = stack_address(self.registers.s);
        assert(self.bus.ram_at(address));
        self.bus.lemma_read_after_write(address, value);
        assert forall|s: u8| #[trigger]
            self.push(value).0.bus.ram_at(stack_address(s)) by {
            assert(self.bus.ram_at(stack_address(s)));
            if stack_address(s) != address {
                self.bus.lemma_write_frame(address, value, stack_address(s));
            }
        }
    }

    /// A pull from a stack of plain memory succeeds, gives the byte above the
    /// stack pointer, moves the stack pointer up by one and nothing else in
    /// the registers, and leaves the stack page plain memory.
    pub proof fn lemma_pull(self)
        requires
            self.stack_is_ram(),
        ensures
            self.pull().1 == self.bus.read(stack_address(pulled_pointer(self.registers.s))),
            self.pull().1 is Ok,
            self.pull().0.stack_is_ram(),
            self.pull().0.registers == self.registers.with_s(pulled_pointer(self.registers.s)),
            self.pull().0.bus == self.bus.write(
                stack_address(pulled_pointer(self.registers.s)),
                0,
            ),
    {
        let address = stack_address(pulled_pointer(self.registers.s));
        assert(self.bus.ram_at(address));
        self.bus.lemma_read_after_write(address, 0);
        self.bus.lemma_lookup_bounds(address, 0);
        assert forall|s: u8| #[trigger]
            self.pull().0.bus.ram_at(stack_address(s)) by {
            assert(self.bus.ram_at(stack_address(s)));
            if stack_address(s) != address {
                self.bus.lemma_write_frame(address, 0, stack_address(s));
            }
        }
    }

    /// Pushes onto a stack of plain memory succeed, move the stack pointer
    /// down by their number, modulo 256, and nothing else in the registers.
    pub proof fn lemma_push_all(self, values: Seq<u8>)
        requires
            self.stack_is_ram(),
        ensures
            self.push_all(values).1 is Ok,
            self.push_all(values).0.stack_is_ram(),
            self.push_all(values).0.registers == self.registers.with_s(
                ((self.registers.s - values.len()) % 256) as u8,
            ),
        decreases values.len(),
    {
        if values.len() > 0 {
            self.lemma_push_all(values.drop_last());
            self.push_all(values.drop_last()).0.lemma_push(values.last());
        }
    }

    /// What the pulls from a stack of plain memory give depends on the bytes
    /// above the stack pointer alone: two machines with the same registers
    /// and the same bytes in those cells give the same bytes, and end with
    /// the same registers.
    pub proof fn lemma_pull_n_same(self, other: CpuView, n: nat)
        requires
            n <= 256,
            self.stack_is_ram(),
            other.stack_is_ram(),
            self.registers == other.registers,
            self.same_stack_above(other, self.registers.s, n),
        ensures
            self.pull_n(n).1 is Ok,
            self.pull_n(n).1 == other.pull_n(n).1,
            self.pull_n(n).0.registers == other.pull_n(n).0.registers,
            self.pull_n(n).0.registers == self.registers.with_s(
                ((self.registers.s + n) % 256) as u8,
            ),
            self.pull_n(n).1->Ok_0.len() == n,
        decreases n,
    {
        if n > 0 {
            let s = self.registers.s;
            let top = pulled_pointer(s);
            let address = stack_address(top);
            self.lemma_pull();
            other.lemma_pull();
            assert(address == stack_address(((s + 1) % 256) as u8));
            let a = self.pull().0;
            let b = other.pull().0;
            assert forall|j: int| 1 <= j <= n - 1 implies a.bus.read(
                #[trigger] stack_address(((top + j) % 256) as u8),
            ) == b.bus.read(stack_address(((top + j) % 256) as u8)) by {
                let cell = stack_address(((top + j) % 256) as u8);
                assert(((top + j) % 256) as u8 == ((s + (j + 1)) % 256) as u8);
                assert(cell == stack_address(((s + (j + 1)) % 256) as u8));
                assert(cell != address);
                self.bus.lemma_write_frame(address, 0, cell);
                other.bus.lemma_write_frame(address, 0, cell);
            }
            a.lemma_pull_n_same(b, (n - 1) as nat);
        }
    }

    /// The stack gives back what was put on it, last in, first out: after
    /// the bytes of `values`, at most 256 of them, were pushed onto a stack
    /// of plain memory, as many pulls give the same bytes in reverse order,
    /// and leave the stack pointer, and every other register, as it was
    /// before the pushes.
    pub proof fn lemma_stack_round_trip(self, values: Seq<u8>)
        requires
            values.len() <= 256,
            self.stack_is_ram(),
        ensures
            self.push_all(values).1 is Ok,
            self.push_all(values).0.pull_n(values.len()).1 == Ok::<Seq<u8>, Error>(
                values.reverse(),
            ),
            self.push_all(values).0.pull_n(values.len()).0.registers == self.registers,
        decreases values.len(),
    {
        self.lemma_push_all(values);
        if values.len() == 0 {
            assert(values.reverse() =~= Seq::<u8>::empty());
        } else {
            let n = values.len();
            let init = values.drop_last();
            let before = self.push_all(init).0;
            self.lemma_push_all(init);
            self.lemma_stack_round_trip(init);
            before.lemma_push(values.last());
            let pushed = before.push(values.last()).0;
            assert(pushed == self.push_all(values).0);
            let s = before.registers.s;
            let address = stack_address(s);
            pushed.lemma_pull();
            assert(pulled_pointer(pushed.registers.s) == s);
            before.bus.lemma_read_after_write(address, values.last());
            let pulled = pushed.pull().0;
            assert(pushed.pull().1 == Ok::<u8, Error>(values.last()));
            assert(pulled.registers == before.registers);
            assert forall|j: int| 1 <= j <= n - 1 implies pulled.bus.read(
                #[trigger] stack_address(((s + j) % 256) as u8),
            ) == before.bus.read(stack_address(((s + j) % 256) as u8)) by {
                let cell = stack_address(((s + j) % 256) as u8);
                assert(cell != address);
                before.bus.lemma_write_frame(address, values.last(), cell);
                pushed.bus.lemma_write_frame(address, 0, cell);
            }
            pulled.lemma_pull_n_same(before, (n - 1) as nat);
            let rest = before.pull_n((n - 1) as nat).1->Ok_0;
            assert(rest == init.reverse());
            assert(seq![values.last()] + init.reverse() =~= values.reverse());
        }
    }
}

} // verus!
