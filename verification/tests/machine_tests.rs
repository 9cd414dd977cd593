//! Addressing modes, memory, stack, stepping and the bus, on concrete values.

use nes_cpu::bus::{Bus, Mem};
use nes_cpu::cpu::{CPU, RunResult, StepResult};
use nes_cpu::opcodes::{AddressingMode, Instruction, decode};

#[test]
fn new_cpu_is_cleared() {
    let cpu = CPU::new();
    assert_eq!(cpu.register_a, 0);
    assert_eq!(cpu.register_x, 0);
    assert_eq!(cpu.register_y, 0);
    assert_eq!(cpu.stack_pointer, 0xFF);
    assert_eq!(cpu.status, 0);
    assert_eq!(cpu.program_counter, 0);
    assert_eq!(cpu.mem_read(0x1234), 0);
}

#[test]
fn read_after_write() {
    let mut cpu = CPU::new();
    cpu.mem_write(0x4000, 0x99);
    cpu.mem_write(0x4001, 0x11);
    assert_eq!(cpu.mem_read(0x4000), 0x99);
    assert_eq!(cpu.mem_read(0x4001), 0x11);
    assert_eq!(cpu.mem_read(0x3FFF), 0);
}

#[test]
fn word_read_after_write_is_little_endian() {
    let mut cpu = CPU::new();
    cpu.mem_write_u16(0x2000, 0xBEEF);
    assert_eq!(cpu.mem_read(0x2000), 0xEF);
    assert_eq!(cpu.mem_read(0x2001), 0xBE);
    assert_eq!(cpu.mem_read_u16(0x2000), 0xBEEF);
}

#[test]
fn word_at_top_of_memory_wraps() {
    let mut cpu = CPU::new();
    cpu.mem_write_u16(0xFFFF, 0x1234);
    assert_eq!(cpu.mem_read(0xFFFF), 0x34);
    assert_eq!(cpu.mem_read(0x0000), 0x12);
    assert_eq!(cpu.mem_read_u16(0xFFFF), 0x1234);
}

#[test]
fn push_then_pop() {
    let mut cpu = CPU::new();
    assert_eq!(cpu.get_stack_addr(), 0x01FF);
    cpu.stack_push(0x42);
    assert_eq!(cpu.stack_pointer, 0xFE);
    assert_eq!(cpu.mem_read(0x01FF), 0x42);
    cpu.stack_push(0x43);
    assert_eq!(cpu.stack_pop(), 0x43);
    assert_eq!(cpu.stack_pop(), 0x42);
    assert_eq!(cpu.stack_pointer, 0xFF);
}

#[test]
fn stack_pointer_wraps() {
    let mut cpu = CPU::new();
    cpu.stack_pointer = 0x00;
    cpu.stack_push(7);
    assert_eq!(cpu.mem_read(0x0100), 7);
    assert_eq!(cpu.stack_pointer, 0xFF);
    assert_eq!(cpu.stack_pop(), 7);
    assert_eq!(cpu.stack_pointer, 0x00);
}

#[test]
fn load_then_reset_starts_at_program() {
    let mut cpu = CPU::new();
    cpu.register_a = 5;
    cpu.status = 0xFF;
    cpu.load(vec![0xa9, 0x01, 0x00]);
    assert_eq!(cpu.mem_read(0x8000), 0xa9);
    assert_eq!(cpu.mem_read(0x8002), 0x00);
    assert_eq!(cpu.mem_read_u16(0xFFFC), 0x8000);
    cpu.reset();
    assert_eq!(cpu.program_counter, 0x8000);
    assert_eq!(cpu.register_a, 0);
    assert_eq!(cpu.status, 0);
    assert_eq!(cpu.stack_pointer, 0xFF);
}

#[test]
fn full_size_program_loses_reset_vector_bytes() {
    let mut cpu = CPU::new();
    let program = vec![0xEA; 0x8000];
    cpu.load(program);
    assert_eq!(cpu.mem_read(0xFFFB), 0xEA);
    assert_eq!(cpu.mem_read(0xFFFC), 0x00);
    assert_eq!(cpu.mem_read(0xFFFD), 0x80);
    assert_eq!(cpu.mem_read(0xFFFE), 0xEA);
}

#[test]
fn brk_stops_after_its_opcode() {
    let mut cpu = CPU::new();
    cpu.load_and_run(vec![0x00]);
    assert_eq!(cpu.program_counter, 0x8001);
}

#[test]
fn step_by_step() {
    let mut cpu = CPU::new();
    cpu.load(vec![0xa9, 0x07, 0xaa, 0x00]);
    cpu.reset();
    assert_eq!(cpu.step(), StepResult::Continue);
    assert_eq!(cpu.register_a, 7);
    assert_eq!(cpu.program_counter, 0x8002);
    assert_eq!(cpu.step(), StepResult::Continue);
    assert_eq!(cpu.register_x, 7);
    assert_eq!(cpu.program_counter, 0x8003);
    assert_eq!(cpu.step(), StepResult::Halted);
    assert_eq!(cpu.program_counter, 0x8004);
}

#[test]
fn unsupported_opcode_faults() {
    let mut cpu = CPU::new();
    // NOP is not among the instructions carried out
    cpu.load(vec![0xEA, 0x00]);
    cpu.reset();
    assert_eq!(cpu.step(), StepResult::Fault);
    assert_eq!(cpu.program_counter, 0x8000);
    assert_eq!(cpu.run_with_limit(10), RunResult::Faulted);
}

#[test]
fn program_counter_at_top_faults() {
    let mut cpu = CPU::new();
    cpu.program_counter = 0xFFFF;
    assert_eq!(cpu.step(), StepResult::Fault);
    assert_eq!(cpu.program_counter, 0xFFFF);
}

#[test]
fn run_with_limit_stops_an_endless_loop() {
    let mut cpu = CPU::new();
    // JMP $8003; JMP $8000
    cpu.load(vec![0x4c, 0x03, 0x80, 0x4c, 0x00, 0x80]);
    cpu.reset();
    assert_eq!(cpu.run_with_limit(5), RunResult::Running);
    assert_eq!(cpu.program_counter, 0x8003);
}

#[test]
fn run_with_limit_reaches_brk() {
    let mut cpu = CPU::new();
    cpu.load(vec![0xe8, 0xe8, 0x00]);
    cpu.reset();
    assert_eq!(cpu.run_with_limit(3), RunResult::Halted);
    assert_eq!(cpu.register_x, 2);
    let mut short = CPU::new();
    short.load(vec![0xe8, 0xe8, 0x00]);
    short.reset();
    assert_eq!(short.run_with_limit(2), RunResult::Running);
    assert_eq!(short.register_x, 2);
}

#[test]
fn branch_with_offset_minus_one_passes_over_its_offset() {
    let mut cpu = CPU::new();
    // CLC; BCC -1; BRK
    cpu.load_and_run(vec![0x18, 0x90, 0xFF, 0x00]);
    assert_eq!(cpu.program_counter, 0x8004);
}

#[test]
fn branch_backward_loop() {
    let mut cpu = CPU::new();
    // LDX #3; DEX; BNE -3; BRK
    cpu.load_and_run(vec![0xa2, 0x03, 0xca, 0xd0, 0xfd, 0x00]);
    assert_eq!(cpu.register_x, 0);
    assert!(cpu.status & 0b0000_0010 != 0);
}

#[test]
fn zero_page_x_wraps_in_page_zero() {
    let mut cpu = CPU::new();
    cpu.mem_write(0x0004, 0x77);
    // LDX #5; LDA $FF,X -> reads $04
    cpu.load_and_run(vec![0xa2, 0x05, 0xb5, 0xff, 0x00]);
    assert_eq!(cpu.register_a, 0x77);
}

#[test]
fn zero_page_y_store_and_load() {
    let mut cpu = CPU::new();
    // LDY #2; LDX #9; STX $10,Y; LDA $12
    cpu.load_and_run(vec![0xa0, 0x02, 0xa2, 0x09, 0x96, 0x10, 0xa5, 0x12, 0x00]);
    assert_eq!(cpu.register_a, 9);
    assert_eq!(cpu.mem_read(0x12), 9);
}

#[test]
fn absolute_indexed_modes() {
    let mut cpu = CPU::new();
    cpu.mem_write(0x1235, 0x11);
    cpu.mem_write(0x1236, 0x22);
    // LDX #1; LDY #2; LDA $1234,X; STA $3000; LDA $1234,Y
    cpu.load_and_run(vec![
        0xa2, 0x01, 0xa0, 0x02, 0xbd, 0x34, 0x12, 0x8d, 0x00, 0x30, 0xb9, 0x34, 0x12, 0x00,
    ]);
    assert_eq!(cpu.mem_read(0x3000), 0x11);
    assert_eq!(cpu.register_a, 0x22);
}

#[test]
fn absolute_x_wraps_around_memory() {
    let mut cpu = CPU::new();
    cpu.mem_write(0x0001, 0x5A);
    // LDX #2; LDA $FFFF,X -> reads $0001
    cpu.load_and_run(vec![0xa2, 0x02, 0xbd, 0xff, 0xff, 0x00]);
    assert_eq!(cpu.register_a, 0x5A);
}

#[test]
fn indirect_x_mode() {
    let mut cpu = CPU::new();
    cpu.mem_write(0x24, 0x74);
    cpu.mem_write(0x25, 0x20);
    cpu.mem_write(0x2074, 0x66);
    // LDX #4; LDA ($20,X)
    cpu.load_and_run(vec![0xa2, 0x04, 0xa1, 0x20, 0x00]);
    assert_eq!(cpu.register_a, 0x66);
}

#[test]
fn indirect_x_pointer_wraps_in_page_zero() {
    let mut cpu = CPU::new();
    cpu.mem_write(0xFF, 0x00);
    cpu.mem_write(0x00, 0x30);
    cpu.mem_write(0x3000, 0x44);
    // LDX #0; LDA ($FF,X): low byte at $FF, high byte at $00
    cpu.load_and_run(vec![0xa2, 0x00, 0xa1, 0xff, 0x00]);
    assert_eq!(cpu.register_a, 0x44);
}

#[test]
fn indirect_y_mode() {
    let mut cpu = CPU::new();
    cpu.mem_write(0x86, 0x28);
    cpu.mem_write(0x87, 0x40);
    cpu.mem_write(0x4038, 0x3C);
    // LDY #$10; LDA ($86),Y
    cpu.load_and_run(vec![0xa0, 0x10, 0xb1, 0x86, 0x00]);
    assert_eq!(cpu.register_a, 0x3C);
}

#[test]
fn store_indirect_y() {
    let mut cpu = CPU::new();
    cpu.mem_write(0x40, 0x00);
    cpu.mem_write(0x41, 0x50);
    // LDA #$AB; LDY #3; STA ($40),Y
    cpu.load_and_run(vec![0xa9, 0xab, 0xa0, 0x03, 0x91, 0x40, 0x00]);
    assert_eq!(cpu.mem_read(0x5003), 0xAB);
}

#[test]
fn transfers_and_counters() {
    let mut cpu = CPU::new();
    // LDA #$80; TAY; INY; TYA; TAX; DEX; DEY; TXA
    cpu.load_and_run(vec![0xa9, 0x80, 0xa8, 0xc8, 0x98, 0xaa, 0xca, 0x88, 0x8a, 0x00]);
    assert_eq!(cpu.register_y, 0x80);
    assert_eq!(cpu.register_x, 0x80);
    assert_eq!(cpu.register_a, 0x80);
    assert!(cpu.status & 0b1000_0000 != 0);
}

#[test]
fn decrement_wraps() {
    let mut cpu = CPU::new();
    // DEY from 0
    cpu.load_and_run(vec![0x88, 0x00]);
    assert_eq!(cpu.register_y, 0xFF);
    assert!(cpu.status & 0b1000_0000 != 0);
}

#[test]
fn increment_then_decrement_memory() {
    let mut cpu = CPU::new();
    cpu.mem_write(0x0300, 0xFF);
    // INC $0300
    cpu.load_and_run(vec![0xee, 0x00, 0x03, 0x00]);
    assert_eq!(cpu.mem_read(0x0300), 0x00);
    assert!(cpu.status & 0b0000_0010 != 0);
    // DEC $0300
    cpu.load_and_run(vec![0xce, 0x00, 0x03, 0x00]);
    assert_eq!(cpu.mem_read(0x0300), 0xFF);
    assert!(cpu.status & 0b1000_0000 != 0);
}

#[test]
fn store_y_and_load_y() {
    let mut cpu = CPU::new();
    // LDY #$21; STY $30; LDX $30
    cpu.load_and_run(vec![0xa0, 0x21, 0x84, 0x30, 0xa6, 0x30, 0x00]);
    assert_eq!(cpu.register_x, 0x21);
}

#[test]
fn adc_signed_overflow_both_ways() {
    // 0x80 + 0xFF = 0x17F: carry, and -128 + -1 leaves the signed range
    let mut cpu = CPU::new();
    cpu.load_and_run(vec![0xa9, 0x80, 0x69, 0xff, 0x00]);
    assert_eq!(cpu.register_a, 0x7F);
    assert!(cpu.status & 0b0000_0001 != 0);
    assert!(cpu.status & 0b0100_0000 != 0);
    // 0x40 + 0x40 = 0x80: no carry, but 64 + 64 leaves the signed range
    let mut cpu = CPU::new();
    cpu.load_and_run(vec![0xa9, 0x40, 0x69, 0x40, 0x00]);
    assert_eq!(cpu.register_a, 0x80);
    assert!(cpu.status & 0b0000_0001 == 0);
    assert!(cpu.status & 0b0100_0000 != 0);
}

#[test]
fn sbc_borrow_and_overflow() {
    // SEC; LDA #$80; SBC #1 -> 0x7F, -128 - 1 overflows, no borrow
    let mut cpu = CPU::new();
    cpu.load_and_run(vec![0x38, 0xa9, 0x80, 0xe9, 0x01, 0x00]);
    assert_eq!(cpu.register_a, 0x7F);
    assert!(cpu.status & 0b0100_0000 != 0);
    assert!(cpu.status & 0b0000_0001 != 0);
}

#[test]
fn rol_then_ror_restores_accumulator_and_carry() {
    for start in [0u8, 1, 0x7F, 0x80, 0xA5, 0xFF] {
        for carry in [0u8, 1] {
            let mut cpu = CPU::new();
            cpu.load(vec![0xa9, start, 0x2a, 0x6a, 0x00]);
            cpu.reset();
            cpu.status = carry;
            cpu.run();
            assert_eq!(cpu.register_a, start);
            assert_eq!(cpu.status & 1, carry);
        }
    }
}

#[test]
fn eor_twice_restores_accumulator() {
    let mut cpu = CPU::new();
    cpu.load_and_run(vec![0xa9, 0x5c, 0x49, 0x3a, 0x49, 0x3a, 0x00]);
    assert_eq!(cpu.register_a, 0x5c);
}

#[test]
fn shifts_in_memory_set_flags() {
    let mut cpu = CPU::new();
    cpu.mem_write(0x0200, 0x80);
    // ASL $0200 -> 0, carry, zero
    cpu.load_and_run(vec![0x0e, 0x00, 0x02, 0x00]);
    assert_eq!(cpu.mem_read(0x0200), 0);
    assert!(cpu.status & 0b0000_0011 == 0b0000_0011);
}

#[test]
fn rotate_right_in_memory_takes_carry() {
    let mut cpu = CPU::new();
    cpu.mem_write(0x10, 0x02);
    // SEC; ROR $10 -> 0x81, carry clear, negative
    cpu.load_and_run(vec![0x38, 0x66, 0x10, 0x00]);
    assert_eq!(cpu.mem_read(0x10), 0x81);
    assert!(cpu.status & 0b0000_0001 == 0);
    assert!(cpu.status & 0b1000_0000 != 0);
}

#[test]
fn bit_absolute_keeps_registers() {
    let mut cpu = CPU::new();
    cpu.mem_write(0x4400, 0xC0);
    // LDA #$3F; BIT $4400
    cpu.load_and_run(vec![0xa9, 0x3f, 0x2c, 0x00, 0x44, 0x00]);
    assert_eq!(cpu.register_a, 0x3F);
    assert!(cpu.status & 0b1100_0010 == 0b1100_0010);
}

#[test]
fn compare_absolute_x() {
    let mut cpu = CPU::new();
    cpu.mem_write(0x0600, 0x10);
    // LDX #$0F; CPX $0600 -> borrow, negative
    cpu.load_and_run(vec![0xa2, 0x0f, 0xec, 0x00, 0x06, 0x00]);
    assert!(cpu.status & 0b0000_0001 == 0);
    assert!(cpu.status & 0b1000_0000 != 0);
    assert!(cpu.status & 0b0000_0010 == 0);
}

#[test]
fn clc_and_sec_touch_only_carry() {
    let mut cpu = CPU::new();
    cpu.load(vec![0x38, 0x00]);
    cpu.reset();
    cpu.status = 0b1100_0010;
    cpu.run();
    assert_eq!(cpu.status, 0b1100_0011);
    cpu.load(vec![0x18, 0x00]);
    cpu.reset();
    cpu.status = 0b1100_0011;
    cpu.run();
    assert_eq!(cpu.status, 0b1100_0010);
}

#[test]
fn jmp_to_own_operand_passes_over_it() {
    let mut cpu = CPU::new();
    // JMP $8001 lands where the program counter already stands, so the step
    // moves on past the operand: to $8003, a BRK.
    cpu.load_and_run(vec![0x4c, 0x01, 0x80, 0x00]);
    assert_eq!(cpu.program_counter, 0x8004);
}

#[test]
fn decode_table_rows() {
    let lda = decode(0xA9).unwrap();
    assert_eq!(lda.code, 0xA9);
    assert_eq!(lda.instruction, Instruction::Lda);
    assert_eq!(lda.bytes, 2);
    assert_eq!(lda.mode, AddressingMode::Immediate);
    let jmp = decode(0x6C).unwrap();
    assert_eq!(jmp.instruction, Instruction::Jmp);
    assert_eq!(jmp.bytes, 3);
    assert_eq!(jmp.mode, AddressingMode::NoneAddressing);
    let asl = decode(0x0A).unwrap();
    assert_eq!(asl.mode, AddressingMode::Accumulator);
    assert_eq!(asl.bytes, 1);
    assert!(decode(0xEA).is_none());
    assert!(decode(0x02).is_none());
}

#[test]
fn bus_starts_cleared() {
    let bus = Bus::new();
    assert_eq!(bus.mem_read(0x0000), 0);
    assert_eq!(bus.mem_read(0x07FF), 0);
}

#[test]
fn bus_ram_is_mirrored() {
    let mut bus = Bus::new();
    bus.mem_write(0x0123, 0x5A);
    assert_eq!(bus.mem_read(0x0123), 0x5A);
    assert_eq!(bus.mem_read(0x0923), 0x5A);
    assert_eq!(bus.mem_read(0x1123), 0x5A);
    assert_eq!(bus.mem_read(0x1923), 0x5A);
    bus.mem_write(0x1FFF, 0x01);
    assert_eq!(bus.mem_read(0x07FF), 0x01);
}

#[test]
fn bus_outside_ram_reads_low_address_byte() {
    let mut bus = Bus::new();
    assert_eq!(bus.mem_read(0x2000), 0x00);
    assert_eq!(bus.mem_read(0x2007), 0x07);
    assert_eq!(bus.mem_read(0x8034), 0x34);
    bus.mem_write(0x2007, 0xFF);
    assert_eq!(bus.mem_read(0x2007), 0x07);
}
