use nes_core::bus::{Bus, Device};
use nes_core::cpu::clock::ClockMode;
use nes_core::cpu::flags::{BreakType, StatusFlags};
use nes_core::cpu::instruction::{
    Instruction, InstructionInput, InstructionInputLocation, InstructionMode, InstructionOperation,
};
use nes_core::cpu::registers::{
    RegisterSet, ADDRESS_VECTOR_IRQ, ADDRESS_VECTOR_NMI, ADDRESS_VECTOR_RESET,
};
use nes_core::cpu::Cpu;
use nes_core::error::Error;
use nes_core::ram::Ram;

const PRG: u16 = 0x8000;
const N: u8 = StatusFlags::NEGATIVE;
const V: u8 = StatusFlags::OVERFLOW;
const B1: u8 = StatusFlags::BREAK_LEFT;
const B0: u8 = StatusFlags::BREAK_RIGHT;
const D: u8 = StatusFlags::DECIMAL;
const I: u8 = StatusFlags::INTERRUPT_DISABLE;
const Z: u8 = StatusFlags::ZERO;
const C: u8 = StatusFlags::CARRY;

fn status(bits: u8) -> StatusFlags {
    StatusFlags::from_bits(bits)
}

fn flat_bus() -> Bus {
    let mut bus = Bus::new();
    bus.connect(Device::Ram(Ram::new(0x0000, 0x10000)), 0x0000, 0xFFFF).unwrap();
    bus.write_u16(ADDRESS_VECTOR_RESET, PRG).unwrap();
    bus
}

/// A machine on 64 KiB of plain memory, reset to 0x8000, with interrupts
/// enabled.
fn machine(program: &[u8]) -> Cpu {
    let mut bus = flat_bus();
    bus.write_n(PRG, program).unwrap();
    let mut cpu = Cpu::new(bus).unwrap();
    cpu.registers.p = status(0);
    cpu
}

#[test]
fn power_on_state() {
    let mut bus = flat_bus();
    bus.write_u16(ADDRESS_VECTOR_NMI, 0x1111).unwrap();
    bus.write_u16(ADDRESS_VECTOR_IRQ, 0x5555).unwrap();
    let cpu = Cpu::new(bus).unwrap();
    assert_eq!(
        cpu.registers,
        RegisterSet { a: 0, x: 0, y: 0, s: 0xFF, p: status(I), pc: 0x8000 }
    );
    assert_eq!(cpu.vectors.nmi, 0x1111);
    assert_eq!(cpu.vectors.reset, 0x8000);
    assert_eq!(cpu.vectors.irq, 0x5555);
    assert_eq!(cpu.clock.cycles(), 0);
    assert_eq!(cpu.clock.mode, ClockMode::Ntsc);
    assert!(!cpu.nmi_pending);
    assert!(!cpu.irq_line);
    assert_eq!(RegisterSet::new().p, StatusFlags::default());
}

#[test]
fn power_on_needs_the_vectors() {
    assert!(matches!(Cpu::new(Bus::new()), Err(Error::DeviceNotFound(0xFFFA))));
    let mut bus = Bus::new();
    bus.connect(Device::Ram(Ram::new(0xFFFA, 2)), 0xFFFA, 0xFFFB).unwrap();
    assert!(matches!(Cpu::new(bus), Err(Error::DeviceNotFound(0xFFFC))));
    let mut bus = Bus::new();
    bus.connect(Device::Ram(Ram::new(0xFFFA, 5)), 0xFFFA, 0xFFFE).unwrap();
    assert!(matches!(Cpu::new(bus), Err(Error::DeviceNotFound(0xFFFF))));
}

#[test]
fn scenario_adc_immediate_chain() {
    let mut cpu = machine(&[0x69, 0x10, 0x69, 0x70, 0x69, 0x80, 0x69, 0x10]);
    assert_eq!(cpu.step(), Ok(2));
    assert_eq!((cpu.registers.a, cpu.registers.p), (0x10, status(0)));
    assert_eq!(cpu.step(), Ok(2));
    assert_eq!((cpu.registers.a, cpu.registers.p), (0x80, status(N | V)));
    assert_eq!(cpu.step(), Ok(2));
    assert_eq!((cpu.registers.a, cpu.registers.p), (0x00, status(V | Z | C)));
    assert_eq!(cpu.step(), Ok(2));
    assert_eq!((cpu.registers.a, cpu.registers.p), (0x11, status(0)));
    assert_eq!(cpu.registers.pc, 0x8008);
    assert_eq!(cpu.clock.cycles(), 8);
}

#[test]
fn scenario_lda_absolute() {
    let mut cpu = machine(&[0xAD, 0x20, 0x40, 0xAD, 0x21, 0x40, 0xAD, 0x22, 0x40]);
    cpu.bus.write_n(0x4020, &[0x10, 0x00, 0x80]).unwrap();
    assert_eq!(cpu.step(), Ok(4));
    assert_eq!((cpu.registers.a, cpu.registers.p), (0x10, status(0)));
    assert_eq!(cpu.step(), Ok(4));
    assert_eq!((cpu.registers.a, cpu.registers.p), (0x00, status(Z)));
    assert_eq!(cpu.step(), Ok(4));
    assert_eq!((cpu.registers.a, cpu.registers.p), (0x80, status(N)));
}

#[test]
fn scenario_indirect_jmp_bug() {
    let mut cpu = machine(&[0x6C, 0xFF, 0x02]);
    cpu.bus.write(0x02FF, 0x34).unwrap();
    cpu.bus.write(0x0200, 0x12).unwrap();
    cpu.bus.write(0x0300, 0xFF).unwrap();
    assert_eq!(cpu.step(), Ok(5));
    assert_eq!(cpu.registers.pc, 0x1234);
}

#[test]
fn scenario_brk_rti_round_trip() {
    let mut bus = flat_bus();
    bus.write_u16(ADDRESS_VECTOR_IRQ, 0x5555).unwrap();
    bus.write(PRG, 0x00).unwrap();
    bus.write(0x5555, 0x40).unwrap();
    let mut cpu = Cpu::new(bus).unwrap();
    cpu.registers.p = status(Z);

    assert_eq!(cpu.step(), Ok(7));
    assert_eq!(cpu.registers.pc, 0x5555);
    assert_eq!(cpu.registers.s, 0xFC);
    assert_eq!(cpu.registers.p, status(Z | I));
    assert_eq!(cpu.bus.read(0x01FD), Ok(Z | B0 | B1));
    assert_eq!(cpu.bus.read(0x01FE), Ok(0x02));
    assert_eq!(cpu.bus.read(0x01FF), Ok(0x80));

    assert_eq!(cpu.step(), Ok(6));
    assert_eq!(cpu.registers.p, status(Z));
    assert_eq!(cpu.registers.pc, 0x8002);
    assert_eq!(cpu.registers.s, 0xFF);
}

#[test]
fn scenario_jsr_rts() {
    let mut cpu = machine(&[0x20, 0x34, 0x12]);
    cpu.bus.write(0x1234, 0x60).unwrap();
    assert_eq!(cpu.step(), Ok(6));
    assert_eq!(cpu.registers.pc, 0x1234);
    assert_eq!(cpu.registers.s, 0xFD);
    assert_eq!(cpu.bus.read(0x01FE), Ok(0x02));
    assert_eq!(cpu.bus.read(0x01FF), Ok(0x80));
    assert_eq!(cpu.bus.read_u16(0x01FE), Ok(0x8002));
    assert_eq!(cpu.step(), Ok(6));
    assert_eq!(cpu.registers.pc, 0x8003);
    assert_eq!(cpu.registers.s, 0xFF);
}

#[test]
fn scenario_branch_timing() {
    let mut cpu = machine(&[]);
    cpu.registers.pc = 0x80FC;
    cpu.bus.write_n(0x80FC, &[0x90, 0x10]).unwrap();
    assert_eq!(cpu.step(), Ok(4));
    assert_eq!(cpu.registers.pc, 0x810E);
    assert_eq!(cpu.clock.cycles(), 4);
}

#[test]
fn branch_costs() {
    // not taken
    let mut cpu = machine(&[0xB0, 0x10]);
    assert_eq!(cpu.step(), Ok(2));
    assert_eq!(cpu.registers.pc, 0x8002);
    // taken within the page
    let mut cpu = machine(&[0x90, 0x10]);
    assert_eq!(cpu.step(), Ok(3));
    assert_eq!(cpu.registers.pc, 0x8012);
    // taken backwards into the page before
    let mut cpu = machine(&[0x90, 0xF0]);
    assert_eq!(cpu.step(), Ok(4));
    assert_eq!(cpu.registers.pc, 0x7FF2);
    // the cycles that a branch returns
    let mut cpu = machine(&[]);
    cpu.registers.pc = 0x80FE;
    assert_eq!(cpu.run_bne(0x8100), 2);
    assert_eq!(cpu.registers.pc, 0x8100);
    assert_eq!(cpu.run_beq(0x9000), 0);
    assert_eq!(cpu.registers.pc, 0x8100);
    assert_eq!(cpu.run_bpl(0x81FF), 1);
    assert_eq!(cpu.run_bvc(0x8100), 1);
    assert_eq!(cpu.run_bmi(0x0000), 0);
    assert_eq!(cpu.run_bvs(0x0000), 0);
    assert_eq!(cpu.run_bcs(0x0000), 0);
    assert_eq!(cpu.run_bcc(0x0000), 2);
}

#[test]
fn page_crossing_reads_cost_a_cycle() {
    // LDA $40F0,X
    let mut cpu = machine(&[0xBD, 0xF0, 0x40, 0xBD, 0xF0, 0x40]);
    cpu.bus.write(0x40FF, 0x11).unwrap();
    cpu.bus.write(0x4100, 0x22).unwrap();
    cpu.registers.x = 0x0F;
    assert_eq!(cpu.step(), Ok(4));
    assert_eq!(cpu.registers.a, 0x11);
    cpu.registers.x = 0x10;
    assert_eq!(cpu.step(), Ok(5));
    assert_eq!(cpu.registers.a, 0x22);
    assert_eq!(cpu.clock.cycles(), 9);

    // LDA ($40),Y
    let mut cpu = machine(&[0xB1, 0x40, 0xB1, 0x40]);
    cpu.bus.write_u16(0x0040, 0x40F0).unwrap();
    cpu.bus.write(0x4100, 0x33).unwrap();
    cpu.registers.y = 0x01;
    assert_eq!(cpu.step(), Ok(5));
    cpu.registers.y = 0x10;
    assert_eq!(cpu.step(), Ok(6));
    assert_eq!(cpu.registers.a, 0x33);

    // LDX $40F0,Y
    let mut cpu = machine(&[0xBE, 0xF0, 0x40]);
    cpu.registers.y = 0x20;
    assert_eq!(cpu.step(), Ok(5));
}

#[test]
fn page_crossing_writes_cost_nothing_more() {
    // STA $40F0,X and ASL $40F0,X
    let mut cpu = machine(&[0x9D, 0xF0, 0x40, 0x1E, 0xF0, 0x40]);
    cpu.registers.x = 0x10;
    cpu.registers.a = 0x41;
    assert_eq!(cpu.step(), Ok(5));
    assert_eq!(cpu.bus.read(0x4100), Ok(0x41));
    assert_eq!(cpu.step(), Ok(7));
    assert_eq!(cpu.bus.read(0x4100), Ok(0x82));
    assert_eq!(cpu.registers.p, status(N));
    assert!(cpu.determine_page_crossed(InstructionMode::AbsoluteX, &[0x9D, 0xF0, 0x40]));
    assert!(!cpu.determine_page_crossed(InstructionMode::AbsoluteY, &[0x99, 0xF0, 0x40]));
    assert!(!cpu.determine_page_crossed(InstructionMode::ZeroPageX, &[0x95, 0xF0]));
}

#[test]
fn index_modes_wrap() {
    let mut cpu = machine(&[]);
    cpu.registers.x = 0x20;
    cpu.registers.y = 0x30;
    let at = InstructionInput::from_address;
    assert_eq!(cpu.determine_input(InstructionMode::ZeroPageX, &[0, 0xF0]), Ok(at(0x0010)));
    assert_eq!(cpu.determine_input(InstructionMode::ZeroPageY, &[0, 0xF0]), Ok(at(0x0020)));
    assert_eq!(cpu.determine_input(InstructionMode::AbsoluteX, &[0, 0xF0, 0xFF]), Ok(at(0x0010)));
    assert_eq!(cpu.determine_input(InstructionMode::AbsoluteY, &[0, 0xF0, 0xFF]), Ok(at(0x0020)));
    // the pointer of (zp,X) wraps within page zero
    cpu.bus.write(0x00FF, 0x34).unwrap();
    cpu.bus.write(0x0000, 0x12).unwrap();
    assert_eq!(cpu.determine_input(InstructionMode::IndirectX, &[0, 0xDF]), Ok(at(0x1234)));
    // (zp),Y adds y to what the pointer holds
    assert_eq!(cpu.determine_input(InstructionMode::IndirectY, &[0, 0xFF]), Ok(at(0x1264)));
    cpu.bus.write_zp_u16(0x80, 0xFFF0).unwrap();
    assert_eq!(cpu.determine_input(InstructionMode::IndirectY, &[0, 0x80]), Ok(at(0x0020)));
    // a branch counts from the program counter, both ways
    cpu.registers.pc = 0x0005;
    assert_eq!(cpu.determine_input(InstructionMode::Relative, &[0, 0x80]), Ok(at(0xFF85)));
    cpu.registers.pc = 0xFFF0;
    assert_eq!(cpu.determine_input(InstructionMode::Relative, &[0, 0x7F]), Ok(at(0x006F)));
    // the indirect pointer wraps within its page
    cpu.bus.write(0x02FF, 0x78).unwrap();
    cpu.bus.write(0x0200, 0x56).unwrap();
    assert_eq!(cpu.determine_input(InstructionMode::Indirect, &[0, 0xFF, 0x02]), Ok(at(0x5678)));
}

#[test]
fn operand_shapes() {
    let mut cpu = machine(&[]);
    cpu.bus.write(0x4020, 0x99).unwrap();
    cpu.registers.a = 0x55;
    assert_eq!(cpu.resolve_input_byte(InstructionInput::Byte(7)), Ok(7));
    assert_eq!(cpu.resolve_input_byte(InstructionInput::from_address(0x4020)), Ok(0x99));
    assert_eq!(
        cpu.resolve_input_byte(InstructionInput::Location(InstructionInputLocation::Accumulator)),
        Err(Error::InputShapeMismatch)
    );
    assert_eq!(cpu.resolve_input_byte(InstructionInput::Implied), Err(Error::InputShapeMismatch));
    assert_eq!(cpu.read_location(InstructionInputLocation::Accumulator), Ok(0x55));
    assert_eq!(cpu.read_location(InstructionInputLocation::Address(0x4020)), Ok(0x99));
    cpu.persist_result_by_location(0x11, InstructionInputLocation::Accumulator).unwrap();
    cpu.persist_result_by_location(0x22, InstructionInputLocation::Address(0x4020)).unwrap();
    assert_eq!(cpu.registers.a, 0x11);
    assert_eq!(cpu.bus.read(0x4020), Ok(0x22));
}

#[test]
fn mismatched_operand_is_a_fault() {
    // an addition in implied mode, a store of an immediate byte, a shift of nothing
    let mut cpu = machine(&[0xEA, 0x00, 0x00]);
    let before = cpu.registers;
    let odd = |operation, mode: InstructionMode| Instruction {
        operation,
        mode,
        len: mode.len_bytes(),
        cycles_base: 2,
    };
    let adc = odd(InstructionOperation::Adc, InstructionMode::Implied);
    assert_eq!(cpu.call_instruction(adc, &[0xEA]), Err(Error::InputShapeMismatch));
    let sta = odd(InstructionOperation::Sta, InstructionMode::Immediate);
    assert_eq!(cpu.call_instruction(sta, &[0xEA, 0x00]), Err(Error::InputShapeMismatch));
    let asl = odd(InstructionOperation::Asl, InstructionMode::Implied);
    assert_eq!(cpu.call_instruction(asl, &[0xEA]), Err(Error::InputShapeMismatch));
    let jmp = odd(InstructionOperation::Jmp, InstructionMode::Accumulator);
    assert_eq!(cpu.call_instruction(jmp, &[0xEA]), Err(Error::InputShapeMismatch));
    assert_eq!(cpu.registers, before);
    assert_eq!(cpu.process_instruction(adc), Err(Error::InputShapeMismatch));
    assert_eq!(cpu.registers.pc, 0x8001);
    assert_eq!(cpu.clock.cycles(), 2);
}

#[test]
fn unknown_opcode_is_a_fault() {
    let mut cpu = machine(&[0x02]);
    let before = cpu.registers;
    assert_eq!(cpu.step(), Err(Error::UnknownOpcode(0x02)));
    assert_eq!(cpu.registers, before);
    assert_eq!(cpu.clock.cycles(), 0);
    assert_eq!(cpu.fetch_instruction(), Err(Error::UnknownOpcode(0x02)));
    assert_eq!(cpu.determine_instruction_next(), Err(Error::UnknownOpcode(0x02)));
}

#[test]
fn unmapped_memory_is_a_fault() {
    let mut bus = Bus::new();
    bus.connect(Device::Ram(Ram::new(0x8000, 0x8000)), 0x8000, 0xFFFF).unwrap();
    bus.write_u16(ADDRESS_VECTOR_RESET, PRG).unwrap();
    // LDA $4020; PHA; STA $10; INC $10; JSR $9000; JMP ($0200)
    bus.write_n(PRG, &[0xAD, 0x20, 0x40]).unwrap();
    let mut cpu = Cpu::new(bus).unwrap();
    assert_eq!(cpu.step(), Err(Error::DeviceNotFound(0x4020)));
    assert_eq!(cpu.registers.pc, 0x8003);
    assert_eq!(cpu.clock.cycles(), 4);

    assert_eq!(cpu.stack_push(1), Err(Error::DeviceNotFound(0x01FF)));
    assert_eq!(cpu.stack_pull(), Err(Error::DeviceNotFound(0x0100)));
    assert_eq!(cpu.stack_push_u16(1), Err(Error::DeviceNotFound(0x01FF)));
    assert_eq!(cpu.stack_pull_u16(), Err(Error::DeviceNotFound(0x0100)));
    assert_eq!(cpu.registers.s, 0xFF);
    assert_eq!(cpu.run_pha(), Err(Error::DeviceNotFound(0x01FF)));
    assert_eq!(cpu.run_php(), Err(Error::DeviceNotFound(0x01FF)));
    assert_eq!(cpu.run_pla(), Err(Error::DeviceNotFound(0x0100)));
    assert_eq!(cpu.run_plp(), Err(Error::DeviceNotFound(0x0100)));
    assert_eq!(cpu.run_rts(), Err(Error::DeviceNotFound(0x0100)));
    assert_eq!(cpu.run_rti(), Err(Error::DeviceNotFound(0x0100)));
    assert_eq!(cpu.run_brk(), Err(Error::DeviceNotFound(0x01FF)));
    assert_eq!(cpu.run_jsr(0x9000), Err(Error::DeviceNotFound(0x01FF)));
    assert_eq!(cpu.registers.pc, 0x8003);
    assert_eq!(cpu.run_sta(0x0010), Err(Error::DeviceNotFound(0x0010)));
    assert_eq!(cpu.run_stx(0x0010), Err(Error::DeviceNotFound(0x0010)));
    assert_eq!(cpu.run_sty(0x0010), Err(Error::DeviceNotFound(0x0010)));
    assert_eq!(cpu.run_inc(0x0010), Err(Error::DeviceNotFound(0x0010)));
    assert_eq!(cpu.run_dec(0x0010), Err(Error::DeviceNotFound(0x0010)));
    assert_eq!(
        cpu.run_asl(InstructionInputLocation::Address(0x0010)),
        Err(Error::DeviceNotFound(0x0010))
    );
    assert_eq!(
        cpu.determine_input(InstructionMode::Indirect, &[0x6C, 0x00, 0x02]),
        Err(Error::DeviceNotFound(0x0200))
    );
    assert_eq!(
        cpu.determine_input(InstructionMode::IndirectX, &[0x61, 0x00]),
        Err(Error::DeviceNotFound(0x0000))
    );
    assert_eq!(
        cpu.determine_input(InstructionMode::IndirectY, &[0x71, 0x00]),
        Err(Error::DeviceNotFound(0x0000))
    );
}

#[test]
fn instruction_past_the_end_is_out_of_bounds() {
    let mut cpu = machine(&[]);
    cpu.bus.write(0xFFFF, 0xA9).unwrap();
    cpu.registers.pc = 0xFFFF;
    assert_eq!(cpu.step(), Err(Error::OutOfBounds(0xFFFF)));
    assert_eq!(cpu.registers.pc, 0xFFFF);
    // an instruction that ends with the address space wraps the program counter
    cpu.bus.write(0xFFFF, 0xEA).unwrap();
    assert_eq!(cpu.step(), Ok(2));
    assert_eq!(cpu.registers.pc, 0x0000);
}

#[test]
fn program_counter_moves_by_the_length() {
    for opcode in 0..=255u8 {
        let Ok(instruction) = Instruction::from_opcode(opcode) else {
            continue;
        };
        let redirects = matches!(
            instruction.operation(),
            InstructionOperation::Bcc
                | InstructionOperation::Bcs
                | InstructionOperation::Beq
                | InstructionOperation::Bmi
                | InstructionOperation::Bne
                | InstructionOperation::Bpl
                | InstructionOperation::Bvc
                | InstructionOperation::Bvs
                | InstructionOperation::Brk
                | InstructionOperation::Jmp
                | InstructionOperation::Jsr
                | InstructionOperation::Rti
                | InstructionOperation::Rts
        );
        if redirects {
            continue;
        }
        let mut cpu = machine(&[opcode, 0x10, 0x20]);
        cpu.registers.x = 3;
        cpu.registers.y = 5;
        let cycles = cpu.step().unwrap();
        assert_eq!(cpu.registers.pc, 0x8000 + instruction.len() as u16);
        assert_eq!(cycles, instruction.cycles_base());
        assert_eq!(cpu.clock.cycles(), cycles as u64);
    }
}

#[test]
fn stack_round_trip() {
    for start in [0xFFu8, 0x80, 0x02, 0x00] {
        for count in [0usize, 1, 2, 3, 200, 256] {
            let mut cpu = machine(&[]);
            cpu.registers.s = start;
            let values: Vec<u8> = (0..count).map(|i| (i * 7 + 1) as u8).collect();
            for value in &values {
                cpu.stack_push(*value).unwrap();
            }
            assert_eq!(cpu.registers.s, start.wrapping_sub(count as u8));
            let mut pulled = Vec::new();
            for _ in 0..count {
                pulled.push(cpu.stack_pull().unwrap());
            }
            pulled.reverse();
            assert_eq!(pulled, values);
            assert_eq!(cpu.registers.s, start);
        }
    }
}

#[test]
fn stack_stays_in_its_page() {
    let mut cpu = machine(&[]);
    cpu.registers.s = 0x00;
    cpu.stack_push(0xAB).unwrap();
    assert_eq!(cpu.bus.read(0x0100), Ok(0xAB));
    assert_eq!(cpu.registers.s, 0xFF);
    assert_eq!(cpu.stack_determine_address(), 0x01FF);
    assert_eq!(cpu.stack_pull(), Ok(0xAB));
    assert_eq!(cpu.registers.s, 0x00);
    assert_eq!(cpu.bus.read(0x0200), Ok(0));
    // a word across the wrap
    cpu.stack_push_u16(0x1234).unwrap();
    assert_eq!(cpu.bus.read(0x0100), Ok(0x12));
    assert_eq!(cpu.bus.read(0x01FF), Ok(0x34));
    assert_eq!(cpu.registers.s, 0xFE);
    assert_eq!(cpu.stack_pull_u16(), Ok(0x1234));
}

#[test]
fn status_word_on_the_stack() {
    let mut cpu = machine(&[0x08, 0x28]);
    cpu.registers.p = status(N | C);
    assert_eq!(cpu.step(), Ok(3));
    assert_eq!(cpu.bus.read(0x01FF), Ok(N | C | B0 | B1));
    assert_eq!(cpu.registers.p, status(N | C));
    // the break bits of the pulled byte do not reach the register
    cpu.registers.p = status(0);
    assert_eq!(cpu.step(), Ok(4));
    assert_eq!(cpu.registers.p, status(N | C));
    // the left break bit stays as the register held it
    cpu.stack_push(0xFF).unwrap();
    cpu.registers.p = status(B1);
    cpu.run_plp().unwrap();
    assert_eq!(cpu.registers.p, status(0xFF & !B0));
    cpu.stack_push(0x00).unwrap();
    cpu.registers.p = status(B0 | B1 | C);
    cpu.run_plp().unwrap();
    assert_eq!(cpu.registers.p, status(B1));
}

#[test]
fn interrupt_request_is_served_when_enabled() {
    let mut bus = flat_bus();
    bus.write_u16(ADDRESS_VECTOR_IRQ, 0x5555).unwrap();
    bus.write_n(PRG, &[0xEA, 0xEA]).unwrap();
    bus.write_n(0x5555, &[0xE8, 0x40]).unwrap();
    let mut cpu = Cpu::new(bus).unwrap();
    cpu.set_irq_line(true);

    // masked: the instruction at the program counter runs
    assert_eq!(cpu.registers.p, status(I));
    assert_eq!(cpu.step(), Ok(2));
    assert_eq!(cpu.registers.pc, 0x8001);

    // enabled: the interrupt is entered and the first instruction behind the vector runs
    cpu.registers.p = status(Z | B0);
    assert_eq!(cpu.step(), Ok(9));
    assert_eq!(cpu.registers.pc, 0x5556);
    assert_eq!(cpu.registers.x, 1);
    assert_eq!(cpu.registers.p, status(I | B0));
    assert_eq!(cpu.bus.read(0x01FD), Ok(Z | B1));
    assert_eq!(cpu.bus.read_u16(0x01FE), Ok(0x8001));
    assert_eq!(cpu.clock.cycles(), 11);
    assert!(cpu.irq_line);

    // the handler has disabled interrupts: it returns
    assert_eq!(cpu.step(), Ok(6));
    assert_eq!(cpu.registers.pc, 0x8001);
    assert_eq!(cpu.registers.p, status(Z));
    cpu.set_irq_line(false);
    assert_eq!(cpu.step(), Ok(2));
    assert_eq!(cpu.registers.pc, 0x8002);
}

#[test]
fn non_maskable_interrupt_is_served_once() {
    let mut bus = flat_bus();
    bus.write_u16(ADDRESS_VECTOR_NMI, 0x1111).unwrap();
    bus.write_u16(ADDRESS_VECTOR_IRQ, 0x5555).unwrap();
    bus.write_n(0x1111, &[0xC8, 0xC8]).unwrap();
    let mut cpu = Cpu::new(bus).unwrap();
    cpu.set_irq_line(true);
    cpu.request_nmi();
    assert!(cpu.nmi_pending);

    assert_eq!(cpu.registers.p, status(I));
    assert_eq!(cpu.step(), Ok(9));
    assert!(!cpu.nmi_pending);
    assert_eq!(cpu.registers.pc, 0x1112);
    assert_eq!(cpu.registers.y, 1);
    assert_eq!(cpu.registers.p, status(I));
    assert_eq!(cpu.bus.read(0x01FD), Ok(I | B1));
    assert_eq!(cpu.bus.read_u16(0x01FE), Ok(0x8000));

    assert_eq!(cpu.step(), Ok(2));
    assert_eq!(cpu.registers.pc, 0x1113);
    assert_eq!(cpu.registers.s, 0xFC);
}

#[test]
fn interrupt_entry() {
    let mut cpu = machine(&[]);
    cpu.registers.p = status(C | B0);
    cpu.generate_interrupt(0xABCD, BreakType::Internal, 0x4000).unwrap();
    assert_eq!(cpu.registers.pc, 0x4000);
    assert_eq!(cpu.registers.p, status(C | B0 | I));
    assert_eq!(cpu.stack_pull(), Ok(C | B1));
    assert_eq!(cpu.stack_pull_u16(), Ok(0xABCD));
    cpu.generate_interrupt(0x0001, BreakType::Program, 0x4000).unwrap();
    assert_eq!(cpu.stack_pull(), Ok(C | B0 | B1 | I));
}

#[test]
fn subtraction_through_the_engine() {
    // SEC; LDA #$50; SBC #$F0; SBC #$70
    let mut cpu = machine(&[0x38, 0xA9, 0x50, 0xE9, 0xF0, 0xE9, 0x70]);
    cpu.step().unwrap();
    cpu.step().unwrap();
    assert_eq!(cpu.step(), Ok(2));
    assert_eq!((cpu.registers.a, cpu.registers.p), (0x60, status(0)));
    assert_eq!(cpu.step(), Ok(2));
    assert_eq!((cpu.registers.a, cpu.registers.p), (0xEF, status(N)));
}

#[test]
fn memory_shifts_and_counts() {
    // ASL $10; LSR $10; ROL $10; ROR $10; INC $10; DEC $10
    let mut cpu = machine(&[0x06, 0x10, 0x46, 0x10, 0x26, 0x10, 0x66, 0x10, 0xE6, 0x10, 0xC6, 0x10]);
    cpu.bus.write(0x0010, 0xC1).unwrap();
    assert_eq!(cpu.step(), Ok(5));
    assert_eq!((cpu.bus.read(0x0010), cpu.registers.p), (Ok(0x82), status(N | C)));
    assert_eq!(cpu.step(), Ok(5));
    assert_eq!((cpu.bus.read(0x0010), cpu.registers.p), (Ok(0x41), status(0)));
    cpu.registers.p = status(C);
    assert_eq!(cpu.step(), Ok(5));
    assert_eq!((cpu.bus.read(0x0010), cpu.registers.p), (Ok(0x83), status(N)));
    assert_eq!(cpu.step(), Ok(5));
    assert_eq!((cpu.bus.read(0x0010), cpu.registers.p), (Ok(0x41), status(C)));
    assert_eq!(cpu.step(), Ok(5));
    assert_eq!((cpu.bus.read(0x0010), cpu.registers.p), (Ok(0x42), status(C)));
    assert_eq!(cpu.step(), Ok(5));
    assert_eq!((cpu.bus.read(0x0010), cpu.registers.p), (Ok(0x41), status(C)));
    assert_eq!(cpu.registers.a, 0);
}

#[test]
fn single_flags_follow_the_value() {
    let mut cpu = machine(&[]);
    cpu.registers.p = status(C);
    cpu.set_status_flag_zero(0);
    assert_eq!(cpu.registers.p, status(C | Z));
    cpu.set_status_flag_zero(1);
    assert_eq!(cpu.registers.p, status(C));
    cpu.set_status_flag_negative(0x80);
    assert_eq!(cpu.registers.p, status(C | N));
    cpu.set_status_flag_negative(0x7F);
    assert_eq!(cpu.registers.p, status(C));
    cpu.registers.p = status(D);
    cpu.run_sbc(0);
    assert_eq!((cpu.registers.a, cpu.registers.p), (0xFF, status(D | N)));
}

#[test]
fn start_runs_until_the_vectors() {
    // INX; INX; JMP $FFF6 ... the instruction at $FFF7 would end at the first vector
    let mut cpu = machine(&[0xE8, 0xE8, 0x4C, 0xF6, 0xFF]);
    cpu.bus.write_n(0xFFF6, &[0xE8, 0xAD, 0x00, 0x00]).unwrap();
    assert_eq!(cpu.start(100), Ok(4));
    assert_eq!(cpu.registers.x, 3);
    assert_eq!(cpu.registers.pc, 0xFFF7);
    assert_eq!(cpu.determine_instruction_next(), Ok(None));
    assert_eq!(cpu.start(100), Ok(0));
}

#[test]
fn start_stops_at_its_limit_and_at_a_fault() {
    // loop: INX; JMP loop
    let mut cpu = machine(&[0xE8, 0x4C, 0x00, 0x80]);
    assert_eq!(cpu.start(0), Ok(0));
    assert_eq!(cpu.start(7), Ok(7));
    assert_eq!(cpu.registers.x, 4);
    assert_eq!(cpu.registers.pc, 0x8001);
    let mut cpu = machine(&[0xE8, 0xE8, 0x02]);
    assert_eq!(cpu.start(10), Err(Error::UnknownOpcode(0x02)));
    assert_eq!(cpu.registers.x, 2);
    assert_eq!(cpu.registers.pc, 0x8002);
}

#[test]
fn run_until_stops_when_the_condition_holds() {
    // loop: INX; JMP loop
    let mut cpu = machine(&[0xE8, 0x4C, 0x00, 0x80]);
    assert_eq!(cpu.run_until(|r: &RegisterSet| r.x == 3, 100), Ok(5));
    assert_eq!(cpu.registers.x, 3);
    assert_eq!(cpu.registers.pc, 0x8001);
    assert_eq!(cpu.run_until(|r: &RegisterSet| r.x == 3, 100), Ok(0));
    assert_eq!(cpu.run_until(|_: &RegisterSet| false, 4), Ok(4));
    assert_eq!(cpu.registers.x, 5);
    assert_eq!(cpu.run_until(|_: &RegisterSet| false, 0), Ok(0));
    let mut cpu = machine(&[0xE8, 0x02]);
    assert_eq!(cpu.run_until(|_: &RegisterSet| false, 10), Err(Error::UnknownOpcode(0x02)));
    assert_eq!(cpu.registers.x, 1);
}

#[test]
fn snapshot_and_restore() {
    let mut cpu = machine(&[0xA9, 0x42, 0x8D, 0x20, 0x40, 0x48]);
    let before = cpu.snapshot();
    assert_eq!(before.memory.len(), 0x10000);
    assert_eq!(before.memory[0x8000], 0xA9);
    assert_eq!(before.memory[0x4020], 0x00);
    assert_eq!(before.memory[0xFFFD], 0x80);
    assert_eq!(before.cycles, 0);

    cpu.step().unwrap();
    cpu.step().unwrap();
    cpu.step().unwrap();
    let after = cpu.snapshot();
    assert_eq!(after.registers.a, 0x42);
    assert_eq!(after.registers.s, 0xFE);
    assert_eq!(after.registers.pc, 0x8006);
    assert_eq!(after.cycles, 9);
    assert_eq!(after.memory[0x4020], 0x42);
    assert_eq!(after.memory[0x01FF], 0x42);

    cpu.restore(&before);
    assert_eq!(cpu.registers, before.registers);
    assert_eq!(cpu.clock.cycles(), 0);
    assert_eq!(cpu.bus.read(0x4020), Ok(0x00));
    assert_eq!(cpu.bus.read(0x01FF), Ok(0x00));
    assert_eq!(cpu.snapshot().memory, before.memory);
}

#[test]
fn snapshot_of_a_partly_mapped_bus() {
    let mut bus = Bus::new();
    bus.connect(Device::Ram(Ram::new(0xFF00, 0x0100)), 0xFF00, 0xFFFF).unwrap();
    bus.write_u16(ADDRESS_VECTOR_RESET, 0xFF00).unwrap();
    let mut cpu = Cpu::new(bus).unwrap();
    let mut snapshot = cpu.snapshot();
    assert_eq!(snapshot.memory[0x0000], 0);
    assert_eq!(snapshot.memory[0xFFFD], 0xFF);
    snapshot.memory[0x0000] = 0x55;
    snapshot.memory[0xFF10] = 0x66;
    snapshot.memory.truncate(0xFF11);
    snapshot.cycles = 77;
    cpu.restore(&snapshot);
    assert_eq!(cpu.bus.read(0x0000), Err(Error::DeviceNotFound(0x0000)));
    assert_eq!(cpu.bus.read(0xFF10), Ok(0x66));
    assert_eq!(cpu.bus.read(0xFFFD), Ok(0xFF));
    assert_eq!(cpu.clock.cycles(), 77);
}

#[test]
fn television_standard_changes_the_frequency_only() {
    let program = [0xA9, 0x7F, 0x69, 0x01, 0x48, 0x20, 0x00, 0x90, 0x00];
    let mut machines = Vec::new();
    for mode in [ClockMode::Ntsc, ClockMode::Pal, ClockMode::Dendy] {
        let mut bus = flat_bus();
        bus.write_n(PRG, &program).unwrap();
        bus.write(0x9000, 0x60).unwrap();
        let mut cpu = Cpu::with_mode(bus, mode).unwrap();
        assert_eq!(cpu.clock.mode, mode);
        let mut cycles = Vec::new();
        for _ in 0..6 {
            cycles.push(cpu.step());
        }
        machines.push((cpu.registers, cpu.clock.cycles(), cpu.snapshot().memory, cycles));
    }
    assert_eq!(machines[0], machines[1]);
    assert_eq!(machines[0], machines[2]);
    assert_eq!(machines[0].0.a, 0x80);
    assert_eq!(machines[0].1, 2 + 2 + 3 + 6 + 6 + 7);
}
