//! The execution engine: fetch, decode, resolve and dispatch, one instruction
//! at a time, with interrupts served between instructions.

use vstd::prelude::*;
use crate::cpu::alu::Shift;
use crate::cpu::flags::{BreakType, StatusFlags};
use crate::cpu::instruction::{Instruction, InstructionInput, InstructionOperation};
use crate::cpu::operations::{branch_cycles, decremented, incremented};
use crate::cpu::registers::ADDRESS_VECTOR_NMI;
use crate::cpu::{Cpu, CpuView};
use crate::error::Error;

verus! {

/// The cycles that entering an interrupt takes.
pub const INTERRUPT_CYCLES: u8 = 7;

/// What an operation asks of its resolved operand.
#[derive(Clone, Copy, Debug, PartialEq, Eq, Structural)]
pub enum OperandShape {
    /// Nothing: the operation works on registers and the stack alone.
    Nothing,
    /// A byte to read: an immediate byte, or the byte at an address.
    Byte,
    /// A place to read and write: the accumulator or an address.
    Location,
    /// An address, to write to or to go on at.
    Address,
}

impl InstructionOperation {
    /// What the operation asks of its operand.
    pub open spec fn shape(self) -> OperandShape {
        match self {
            InstructionOperation::Adc
            | InstructionOperation::And
            | InstructionOperation::Bit
            | InstructionOperation::Cmp
            | InstructionOperation::Cpx
            | InstructionOperation::Cpy
            | InstructionOperation::Eor
            | InstructionOperation::Lda
            | InstructionOperation::Ldx
            | InstructionOperation::Ldy
            | InstructionOperation::Ora
            | InstructionOperation::Sbc => OperandShape::Byte,
            InstructionOperation::Asl
            | InstructionOperation::Lsr
            | InstructionOperation::Rol
            | InstructionOperation::Ror => OperandShape::Location,
            InstructionOperation::Bcc
            | InstructionOperation::Bcs
            | InstructionOperation::Beq
            | InstructionOperation::Bmi
            | InstructionOperation::Bne
            | InstructionOperation::Bpl
            | InstructionOperation::Bvc
            | InstructionOperation::Bvs
            | InstructionOperation::Dec
            | InstructionOperation::Inc
            | InstructionOperation::Jmp
            | InstructionOperation::Jsr
            | InstructionOperation::Sta
            | InstructionOperation::Stx
            | InstructionOperation::Sty => OperandShape::Address,
            _ => OperandShape::Nothing,
        }
    }

    /// Whether the operation pays one cycle more when indexing takes its
    /// operand into another page. The operations that only read their operand
    /// do; those that write pay for the crossing in their base cost.
    pub open spec fn spec_pays_page_cross(self) -> bool {
        match self {
            InstructionOperation::Adc
            | InstructionOperation::And
            | InstructionOperation::Bit
            | InstructionOperation::Cmp
            | InstructionOperation::Eor
            | InstructionOperation::Lda
            | InstructionOperation::Ldx
            | InstructionOperation::Ldy
            | InstructionOperation::Ora
            | InstructionOperation::Sbc => true,
            _ => false,
        }
    }

    /// Whether the operation can leave the program counter anywhere but
    /// behind its own instruction: the branches, the jumps, the returns, and
    /// `BRK`.
    pub open spec fn redirects(self) -> bool {
        match self {
            InstructionOperation::Bcc
            | InstructionOperation::Bcs
            | InstructionOperation::Beq
            | InstructionOperation::Bmi
            | InstructionOperation::Bne
            | InstructionOperation::Bpl
            | InstructionOperation::Bvc
            | InstructionOperation::Bvs
            | InstructionOperation::Brk
            | InstructionOperation::Jmp
            | InstructionOperation::Jsr
            | InstructionOperation::Rti
            | InstructionOperation::Rts => true,
            _ => false,
        }
    }

    /// Whether the operation pays one cycle more when indexing takes its
    /// operand into another page.
    #[verifier::when_used_as_spec(spec_pays_page_cross)]
    pub fn pays_page_cross(self) -> (r: bool)
        ensures
            r == self.spec_pays_page_cross(),
    {
        match self {
            InstructionOperation::Adc
            | InstructionOperation::And
            | InstructionOperation::Bit
            | InstructionOperation::Cmp
            | InstructionOperation::Eor
            | InstructionOperation::Lda
            | InstructionOperation::Ldx
            | InstructionOperation::Ldy
            | InstructionOperation::Ora
            | InstructionOperation::Sbc => true,
            _ => false,
        }
    }
}

/// The outcome of an operation that costs no cycle beyond its base cost.
pub open spec fn plain(outcome: (CpuView, Result<(), Error>)) -> (CpuView, Result<u8, Error>) {
    match outcome.1 {
        Ok(_) => (outcome.0, Ok(0u8)),
        Err(e) => (outcome.0, Err(e)),
    }
}

/// The program counter behind an instruction of `len` bytes at `pc`.
pub open spec fn advanced(pc: u16, len: u8) -> u16 {
    ((pc + len) % 0x10000) as u16
}

fn advance(pc: u16, len: u8) -> (next: u16)
    ensures
        next == advanced(pc, len),
{
    pc.wrapping_add(len as u16)
}

impl CpuView {
    /// The machine after `cycles` more cycles.
    pub open spec fn ticked(self, cycles: u8) -> CpuView {
        CpuView { clock: self.clock.ticked(cycles), ..self }
    }

    /// The machine after an operation on the byte `value`.
    pub open spec fn execute_byte(self, operation: InstructionOperation, value: u8) -> CpuView {
        let r = self.registers;
        self.with_registers(
            match operation {
                InstructionOperation::Adc => r.add(value),
                InstructionOperation::And => r.and_a(value),
                InstructionOperation::Bit => r.bit_test(value),
                InstructionOperation::Cmp => r.compare_a(value),
                InstructionOperation::Cpx => r.compare_x(value),
                InstructionOperation::Cpy => r.compare_y(value),
                InstructionOperation::Eor => r.xor_a(value),
                InstructionOperation::Lda => r.load_a(value),
                InstructionOperation::Ldx => r.load_x(value),
                InstructionOperation::Ldy => r.load_y(value),
                InstructionOperation::Ora => r.or_a(value),
                InstructionOperation::Sbc => r.subtract(value),
                _ => r,
            },
        )
    }

    /// The machine after a branch to `target` on `condition`, and the cycles
    /// that the branch costs beyond its base cost.
    pub open spec fn execute_branch(self, condition: bool, target: u16) -> (CpuView, Result<
        u8,
        Error,
    >) {
        (
            self.with_registers(self.registers.branch(condition, target)),
            Ok(branch_cycles(condition, self.registers.pc, target)),
        )
    }

    /// The machine after an operation on the address `address`, and the
    /// cycles that it costs beyond its base cost.
    pub open spec fn execute_address(self, operation: InstructionOperation, address: u16) -> (
        CpuView,
        Result<u8, Error>,
    ) {
        let p = self.registers.p;
        match operation {
            InstructionOperation::Bcc => self.execute_branch(!p.has(StatusFlags::CARRY), address),
            InstructionOperation::Bcs => self.execute_branch(p.has(StatusFlags::CARRY), address),
            InstructionOperation::Beq => self.execute_branch(p.has(StatusFlags::ZERO), address),
            InstructionOperation::Bmi => self.execute_branch(
                p.has(StatusFlags::NEGATIVE),
                address,
            ),
            InstructionOperation::Bne => self.execute_branch(!p.has(StatusFlags::ZERO), address),
            InstructionOperation::Bpl => self.execute_branch(
                !p.has(StatusFlags::NEGATIVE),
                address,
            ),
            InstructionOperation::Bvc => self.execute_branch(
                !p.has(StatusFlags::OVERFLOW),
                address,
            ),
            InstructionOperation::Bvs => self.execute_branch(
                p.has(StatusFlags::OVERFLOW),
                address,
            ),
            InstructionOperation::Dec => plain(self.decrement(address)),
            InstructionOperation::Inc => plain(self.increment(address)),
            InstructionOperation::Jmp => (self.with_pc(address), Ok(0u8)),
            InstructionOperation::Jsr => plain(self.jump_subroutine(address)),
            InstructionOperation::Sta => plain(self.store_register(address, self.registers.a)),
            InstructionOperation::Stx => plain(self.store_register(address, self.registers.x)),
            InstructionOperation::Sty => plain(self.store_register(address, self.registers.y)),
            _ => (self, Ok(0u8)),
        }
    }

    /// The machine after an operation that has no operand.
    pub open spec fn execute_implied(self, operation: InstructionOperation) -> (CpuView, Result<
        (),
        Error,
    >) {
        let r = self.registers;
        match operation {
            InstructionOperation::Brk => self.software_interrupt(),
            InstructionOperation::Pha => self.push(r.a),
            InstructionOperation::Php => self.push_p(BreakType::Program),
            InstructionOperation::Pla => self.pull_a(),
            InstructionOperation::Plp => self.pull_p(),
            InstructionOperation::Rti => self.return_interrupt(),
            InstructionOperation::Rts => self.return_subroutine(),
            _ => (
                self.with_registers(
                    match operation {
                        InstructionOperation::Clc => r.with_p(r.p.without(StatusFlags::CARRY)),
                        InstructionOperation::Cld => r.with_p(r.p.without(StatusFlags::DECIMAL)),
                        InstructionOperation::Cli => r.with_p(
                            r.p.without(StatusFlags::INTERRUPT_DISABLE),
                        ),
                        InstructionOperation::Clv => r.with_p(r.p.without(StatusFlags::OVERFLOW)),
                        InstructionOperation::Sec => r.with_p(r.p.with(StatusFlags::CARRY)),
                        InstructionOperation::Sed => r.with_p(r.p.with(StatusFlags::DECIMAL)),
                        InstructionOperation::Sei => r.with_p(
                            r.p.with(StatusFlags::INTERRUPT_DISABLE),
                        ),
                        InstructionOperation::Dex => r.load_x(decremented(r.x)),
                        InstructionOperation::Dey => r.load_y(decremented(r.y)),
                        InstructionOperation::Inx => r.load_x(incremented(r.x)),
                        InstructionOperation::Iny => r.load_y(incremented(r.y)),
                        InstructionOperation::Tax => r.load_x(r.a),
                        InstructionOperation::Tay => r.load_y(r.a),
                        InstructionOperation::Tsx => r.load_x(r.s),
                        InstructionOperation::Txa => r.load_a(r.x),
                        InstructionOperation::Txs => r.with_s(r.x),
                        InstructionOperation::Tya => r.load_a(r.y),
                        _ => r,
                    },
                ),
                Ok(()),
            ),
        }
    }

    /// The machine after `operation` ran on the resolved operand `input`, and
    /// the cycles that it costs beyond its base cost. An operand of another
    /// shape than the operation asks for is a fault that changes nothing.
    pub open spec fn execute(self, operation: InstructionOperation, input: InstructionInput) -> (
        CpuView,
        Result<u8, Error>,
    ) {
        match operation.shape() {
            OperandShape::Nothing => plain(self.execute_implied(operation)),
            OperandShape::Byte => match self.operand(input) {
                Ok(value) => (self.execute_byte(operation, value), Ok(0u8)),
                Err(e) => (self, Err(e)),
            },
            OperandShape::Location => match input.spec_location() {
                Ok(location) => plain(
                    self.shift(
                        match operation {
                            InstructionOperation::Asl => Shift::Asl,
                            InstructionOperation::Lsr => Shift::Lsr,
                            InstructionOperation::Rol => Shift::Rol,
                            _ => Shift::Ror,
                        },
                        location,
                    ),
                ),
                Err(e) => (self, Err(e)),
            },
            OperandShape::Address => match input.spec_address() {
                Ok(address) => self.execute_address(operation, address),
                Err(e) => (self, Err(e)),
            },
        }
    }

    /// The machine after an instruction was resolved and run, and the cycles
    /// that it costs beyond its base cost: those of a branch, and one for an
    /// operand that is only read and that indexing took into another page.
    /// The program counter stands behind the instruction already; `bytes` are
    /// the bytes of the instruction.
    pub open spec fn call(self, instruction: Instruction, bytes: Seq<u8>) -> (CpuView, Result<
        u8,
        Error,
    >) {
        match self.resolve(instruction.mode, bytes) {
            Ok(input) => {
                let (after, outcome) = self.execute(instruction.operation, input);
                match outcome {
                    Ok(cycles) => (
                        after,
                        Ok(
                            if instruction.operation.spec_pays_page_cross() && self.page_crossed(
                                instruction.mode,
                                bytes,
                            ) {
                                (cycles + 1) as u8
                            } else {
                                cycles
                            },
                        ),
                    ),
                    Err(e) => (after, Err(e)),
                }
            },
            Err(e) => (self, Err(e)),
        }
    }

    /// The machine after the instruction at the program counter, known to be
    /// `instruction`, was run, and the cycles that it took. In order: the
    /// bytes of the instruction are read; the program counter moves behind
    /// them; the base cost is billed; the operand is resolved and the
    /// operation run; what it costs beyond the base cost is billed. The first
    /// fault ends the instruction where it stands.
    pub open spec fn process(self, instruction: Instruction) -> (CpuView, Result<u8, Error>) {
        match self.bus.read_n(self.registers.pc, instruction.len as nat) {
            Ok(bytes) => {
                let fetched = self.with_pc(advanced(self.registers.pc, instruction.len)).ticked(
                    instruction.cycles_base,
                );
                let (after, outcome) = fetched.call(instruction, bytes);
                match outcome {
                    Ok(cycles) => (
                        after.ticked(cycles),
                        Ok((instruction.cycles_base + cycles) as u8),
                    ),
                    Err(e) => (after, Err(e)),
                }
            },
            Err(e) => (self, Err(e)),
        }
    }

    /// The instruction at the program counter.
    pub open spec fn fetch(self) -> Result<Instruction, Error> {
        match self.bus.read(self.registers.pc) {
            Ok(opcode) => match Instruction::table(opcode) {
                Some(instruction) => Ok(instruction),
                None => Err(Error::UnknownOpcode(opcode)),
            },
            Err(e) => Err(e),
        }
    }

    /// The instruction at the program counter, if the program has not run
    /// into the interrupt vectors: an instruction that ends at or behind the
    /// first vector is none.
    pub open spec fn next_instruction(self) -> Result<Option<Instruction>, Error> {
        match self.fetch() {
            Ok(instruction) => if self.registers.pc + instruction.len < ADDRESS_VECTOR_NMI {
                Ok(Some(instruction))
            } else {
                Ok(None)
            },
            Err(e) => Err(e),
        }
    }

    /// The machine after the instruction at the program counter was fetched
    /// and run, and the cycles that it took.
    pub open spec fn run_next(self) -> (CpuView, Result<u8, Error>) {
        match self.fetch() {
            Ok(instruction) => self.process(instruction),
            Err(e) => (self, Err(e)),
        }
    }

    /// Whether an interrupt is served before the next instruction: a pending
    /// non-maskable interrupt always, an asserted request line unless
    /// interrupts are disabled.
    pub open spec fn interrupt_due(self) -> bool {
        self.nmi_pending || (self.irq_line && !self.registers.p.has(StatusFlags::INTERRUPT_DISABLE))
    }

    /// The machine after the interrupt that is due was entered: the
    /// non-maskable one first, which is thereby served. The program counter
    /// as it stands is what the interrupt returns to.
    pub open spec fn serve_interrupt(self) -> (CpuView, Result<(), Error>) {
        let (entered, outcome) = if self.nmi_pending {
            CpuView { nmi_pending: false, ..self }.interrupt(
                self.registers.pc,
                BreakType::Internal,
                self.vectors.nmi,
            )
        } else {
            self.interrupt(self.registers.pc, BreakType::Internal, self.vectors.irq)
        };
        if outcome is Ok {
            (entered.ticked(INTERRUPT_CYCLES), Ok(()))
        } else {
            (entered, outcome)
        }
    }

    /// The machine after one step, and the cycles that the step took: an
    /// interrupt, if one is due, is entered; then one instruction is run.
    pub open spec fn step(self) -> (CpuView, Result<u8, Error>) {
        if self.interrupt_due() {
            let (entered, outcome) = self.serve_interrupt();
            match outcome {
                Ok(_) => {
                    let (after, cycles) = entered.run_next();
                    match cycles {
                        Ok(cycles) => (after, Ok((INTERRUPT_CYCLES + cycles) as u8)),
                        Err(e) => (after, Err(e)),
                    }
                },
                Err(e) => (entered, Err(e)),
            }
        } else {
            self.run_next()
        }
    }
}

impl Cpu {
    /// Fetches and decodes the instruction at the program counter.
    pub fn fetch_instruction(&self) -> (r: Result<Instruction, Error>)
        ensures
            r == self@.fetch(),
            r matches Ok(instruction) ==> instruction.wf(),
    {
        let opcode = match self.bus.read(self.registers.pc) {
            Ok(opcode) => opcode,
            Err(e) => {
                return Err(e);
            },
        };
        Instruction::from_opcode(opcode)
    }

    /// Fetches and decodes the instruction at the program counter, unless
    /// the program has run into the interrupt vectors: an instruction that
    /// ends at or behind the first vector is not handed out.
    pub fn determine_instruction_next(&self) -> (r: Result<Option<Instruction>, Error>)
        ensures
            r == self@.next_instruction(),
            r matches Ok(Some(instruction)) ==> instruction.wf(),
    {
        let instruction = match self.fetch_instruction() {
            Ok(instruction) => instruction,
            Err(e) => {
                return Err(e);
            },
        };
        let len: u32 = instruction.len as u32;
        let pc: u32 = self.registers.pc as u32;
        if pc + len < 0xFFFA {
            Ok(Some(instruction))
        } else {
            Ok(None)
        }
    }

    /// Runs the instruction at the program counter, which the caller has
    /// decoded as `instruction`. Returns the cycles that it took.
    pub fn process_instruction(&mut self, instruction: Instruction) -> (r: Result<u8, Error>)
        requires
            instruction.wf(),
        ensures
            (final(self)@, r) == old(self)@.process(instruction),
            r matches Ok(cycles) ==> cycles <= 9,
    {
        let len: u16 = instruction.len as u16;
        let bytes = match self.bus.read_n(self.registers.pc, len) {
            Ok(bytes) => bytes,
            Err(e) => {
                return Err(e);
            },
        };
        self.registers.pc = advance(self.registers.pc, instruction.len);
        self.clock.tick(instruction.cycles_base);
        let cycles = match self.call_instruction(instruction, bytes.as_slice()) {
            Ok(cycles) => cycles,
            Err(e) => {
                return Err(e);
            },
        };
        self.clock.tick(cycles);
        Ok(instruction.cycles_base + cycles)
    }

    fn run_next(&mut self) -> (r: Result<u8, Error>)
        ensures
            (final(self)@, r) == old(self)@.run_next(),
            r matches Ok(cycles) ==> cycles <= 9,
    {
        let instruction = match self.fetch_instruction() {
            Ok(instruction) => instruction,
            Err(e) => {
                return Err(e);
            },
        };
        self.process_instruction(instruction)
    }

    fn serve_interrupt(&mut self) -> (r: Result<(), Error>)
        requires
            old(self)@.interrupt_due(),
        ensures
            (final(self)@, r) == old(self)@.serve_interrupt(),
    {
        let return_to = self.registers.pc;
        let vector = if self.nmi_pending {
            self.nmi_pending = false;
            self.vectors.nmi
        } else {
            self.vectors.irq
        };
        match self.generate_interrupt(return_to, BreakType::Internal, vector) {
            Ok(()) => {},
            Err(e) => {
                return Err(e);
            },
        }
        self.clock.tick(INTERRUPT_CYCLES);
        Ok(())
    }

    /// Runs one step: enters an interrupt if one is due, a pending
    /// non-maskable one before an asserted request line, and then runs one
    /// instruction. Returns the cycles that the step took. The first fault
    /// ends the step where it stands.
    pub fn step(&mut self) -> (r: Result<u8, Error>)
        ensures
            (final(self)@, r) == old(self)@.step(),
    {
        let due = self.nmi_pending || (self.irq_line && !self.registers.p.contains(
            StatusFlags::INTERRUPT_DISABLE,
        ));
        if due {
            match self.serve_interrupt() {
                Ok(()) => {},
                Err(e) => {
                    return Err(e);
                },
            }
            match self.run_next() {
                Ok(cycles) => Ok(INTERRUPT_CYCLES + cycles),
                Err(e) => Err(e),
            }
        } else {
            self.run_next()
        }
    }

    /// Runs `instruction.operation` on the operand that `instruction.mode`
    /// resolves to. Returns the cycles that the instruction costs beyond its
    /// base cost. The program counter must stand behind the instruction;
    /// `bytes` are the bytes of the instruction, opcode first.
    pub fn call_instruction(&mut self, instruction: Instruction, bytes: &[u8]) -> (r: Result<
        u8,
        Error,
    >)
        requires
            bytes@.len() == instruction.mode.spec_len_bytes(),
        ensures
            (final(self)@, r) == old(self)@.call(instruction, bytes@),
            r matches Ok(cycles) ==> cycles <= 2,
    {
        let input = match self.determine_input(instruction.mode, bytes) {
            Ok(input) => input,
            Err(e) => {
                return Err(e);
            },
        };
        let crossed = instruction.operation.pays_page_cross() && self.determine_page_crossed(
            instruction.mode,
            bytes,
        );
        let cycles = match self.run_instruction(instruction.operation, input) {
            Ok(cycles) => cycles,
            Err(e) => {
                return Err(e);
            },
        };
        if crossed {
            Ok(cycles + 1)
        } else {
            Ok(cycles)
        }
    }

    /// Runs `operation` on the resolved operand `input`. Returns the cycles
    /// that the operation costs beyond its base cost: those of a branch that
    /// is taken. An operand of another shape than the operation asks for is
    /// `InputShapeMismatch`, and nothing is changed.
    pub fn run_instruction(&mut self, operation: InstructionOperation, input: InstructionInput) -> (r:
        Result<u8, Error>)
        ensures
            (final(self)@, r) == old(self)@.execute(operation, input),
            r matches Ok(cycles) ==> cycles <= 2 && (operation.spec_pays_page_cross() ==> cycles
                == 0),
    {
        match operation {
            InstructionOperation::Adc
            | InstructionOperation::And
            | InstructionOperation::Bit
            | InstructionOperation::Cmp
            | InstructionOperation::Cpx
            | InstructionOperation::Cpy
            | InstructionOperation::Eor
            | InstructionOperation::Lda
            | InstructionOperation::Ldx
            | InstructionOperation::Ldy
            | InstructionOperation::Ora
            | InstructionOperation::Sbc => {
                let value = match self.resolve_input_byte(input) {
                    Ok(value) => value,
                    Err(e) => {
                        return Err(e);
                    },
                };
                match operation {
                    InstructionOperation::Adc => self.run_adc(value),
                    InstructionOperation::And => self.run_and(value),
                    InstructionOperation::Bit => self.run_bit(value),
                    InstructionOperation::Cmp => self.run_cmp(value),
                    InstructionOperation::Cpx => self.run_cpx(value),
                    InstructionOperation::Cpy => self.run_cpy(value),
                    InstructionOperation::Eor => self.run_eor(value),
                    InstructionOperation::Lda => self.run_lda(value),
                    InstructionOperation::Ldx => self.run_ldx(value),
                    InstructionOperation::Ldy => self.run_ldy(value),
                    InstructionOperation::Ora => self.run_ora(value),
                    _ => self.run_sbc(value),
                }
                Ok(0)
            },
            InstructionOperation::Asl
            | InstructionOperation::Lsr
            | InstructionOperation::Rol
            | InstructionOperation::Ror => {
                let location = match input.unwrap_location() {
                    Ok(location) => location,
                    Err(e) => {
                        return Err(e);
                    },
                };
                let outcome = match operation {
                    InstructionOperation::Asl => self.run_asl(location),
                    InstructionOperation::Lsr => self.run_lsr(location),
                    InstructionOperation::Rol => self.run_rol(location),
                    _ => self.run_ror(location),
                };
                match outcome {
                    Ok(()) => Ok(0),
                    Err(e) => Err(e),
                }
            },
            InstructionOperation::Bcc
            | InstructionOperation::Bcs
            | InstructionOperation::Beq
            | InstructionOperation::Bmi
            | InstructionOperation::Bne
            | InstructionOperation::Bpl
            | InstructionOperation::Bvc
            | InstructionOperation::Bvs
            | InstructionOperation::Dec
            | InstructionOperation::Inc
            | InstructionOperation::Jmp
            | InstructionOperation::Jsr
            | InstructionOperation::Sta
            | InstructionOperation::Stx
            | InstructionOperation::Sty => {
                let address = match input.unwrap_address() {
                    Ok(address) => address,
                    Err(e) => {
                        return Err(e);
                    },
                };
                let outcome = match operation {
                    InstructionOperation::Bcc => {
                        return Ok(self.run_bcc(address));
                    },
                    InstructionOperation::Bcs => {
                        return Ok(self.run_bcs(address));
                    },
                    InstructionOperation::Beq => {
                        return Ok(self.run_beq(address));
                    },
                    InstructionOperation::Bmi => {
                        return Ok(self.run_bmi(address));
                    },
                    InstructionOperation::Bne => {
                        return Ok(self.run_bne(address));
                    },
                    InstructionOperation::Bpl => {
                        return Ok(self.run_bpl(address));
                    },
                    InstructionOperation::Bvc => {
                        return Ok(self.run_bvc(address));
                    },
                    InstructionOperation::Bvs => {
                        return Ok(self.run_bvs(address));
                    },
                    InstructionOperation::Jmp => {
                        self.run_jmp(address);
                        return Ok(0);
                    },
                    InstructionOperation::Dec => self.run_dec(address),
                    InstructionOperation::Inc => self.run_inc(address),
                    InstructionOperation::Jsr => self.run_jsr(address),
                    InstructionOperation::Sta => self.run_sta(address),
                    InstructionOperation::Stx => self.run_stx(address),
                    _ => self.run_sty(address),
                };
                match outcome {
                    Ok(()) => Ok(0),
                    Err(e) => Err(e),
                }
            },
            _ => {
                let outcome = match operation {
                    InstructionOperation::Brk => self.run_brk(),
                    InstructionOperation::Pha => self.run_pha(),
                    InstructionOperation::Php => self.run_php(),
                    InstructionOperation::Pla => self.run_pla(),
                    InstructionOperation::Plp => self.run_plp(),
                    InstructionOperation::Rti => self.run_rti(),
                    InstructionOperation::Rts => self.run_rts(),
                    _ => {
                        match operation {
                            InstructionOperation::Clc => self.run_clc(),
                            InstructionOperation::Cld => self.run_cld(),
                            InstructionOperation::Cli => self.run_cli(),
                            InstructionOperation::Clv => self.run_clv(),
                            InstructionOperation::Sec => self.run_sec(),
                            InstructionOperation::Sed => self.run_sed(),
                            InstructionOperation::Sei => self.run_sei(),
                            InstructionOperation::Dex => self.run_dex(),
                            InstructionOperation::Dey => self.run_dey(),
                            InstructionOperation::Inx => self.run_inx(),
                            InstructionOperation::Iny => self.run_iny(),
                            InstructionOperation::Tax => self.run_tax(),
                            InstructionOperation::Tay => self.run_tay(),
                            InstructionOperation::Tsx => self.run_tsx(),
                            InstructionOperation::Txa => self.run_txa(),
                            InstructionOperation::Txs => self.run_txs(),
                            InstructionOperation::Tya => self.run_tya(),
                            _ => {},
                        }
                        Ok(())
                    },
                };
                match outcome {
                    Ok(()) => Ok(0),
                    Err(e) => Err(e),
                }
            },
        }
    }
}

} // verus!
