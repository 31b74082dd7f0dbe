//! Tests of the CPU: reset scenarios, arithmetic round trips, boundary
//! flags, stack behaviour and the relative-jump tight loop.

use gb_core::bus::Bus;
use gb_core::cpu::CPU;
use gb_core::instructions::{
    add_a_b, daa, dec_b, inc_b, instruction_info, op_len, pop_af, push_af, sub_b,
};

/// A bus whose ROM holds `program` starting at the reset address 0x0100.
fn bus_with_program(program: &[u8]) -> Bus {
    let mut rom: Vec<u8> = vec![0u8; 0x8000];
    for (i, b) in program.iter().enumerate() {
        rom[0x100 + i] = *b;
    }
    Bus::new_bus(&rom)
}

/// Runs one full instruction: the executing tick plus the draining ticks.
fn step(cpu: &mut CPU, bus: &mut Bus) {
    assert!(!cpu.next_op_illegal(bus), "illegal opcode reached");
    cpu.tick(bus);
    while cpu.get_clock_cycles() > 0 {
        cpu.tick(bus);
    }
}

#[test]
fn nop_advances_pc_and_counts_one_cycle() {
    let mut bus = bus_with_program(&[0x00]);
    let mut cpu = CPU::new_cpu();
    assert!(!cpu.next_op_illegal(&bus));
    cpu.tick(&mut bus);
    assert_eq!(cpu.pc, 0x0101);
    assert_eq!(cpu.af.low, 0x00);
    assert_eq!(cpu.get_clock_cycles(), 1);
}

#[test]
fn ld_a_d8_loads_the_immediate() {
    let mut bus = bus_with_program(&[0x3E, 0x42]);
    let mut cpu = CPU::new_cpu();
    step(&mut cpu, &mut bus);
    assert_eq!(cpu.af.high, 0x42);
    assert_eq!(cpu.pc, 0x0102);
}

#[test]
fn xor_a_zeroes_a_and_sets_only_z() {
    let mut bus = bus_with_program(&[0xAF]);
    let mut cpu = CPU::new_cpu();
    cpu.af.high = 0x35;
    step(&mut cpu, &mut bus);
    assert_eq!(cpu.af.high, 0x00);
    assert_eq!(cpu.af.low, 0x80);
}

#[test]
fn add_then_sub_restores_a_for_all_operands() {
    let mut bus = bus_with_program(&[0x00]);
    let mut cpu = CPU::new_cpu();
    for a in 0..=255u8 {
        for b in 0..=255u8 {
            cpu.af.high = a;
            cpu.bc.high = b;
            add_a_b(&mut cpu);
            sub_b(&mut cpu);
            assert_eq!(cpu.af.high, a);
            assert_eq!(cpu.af.low & 0x0F, 0);
        }
    }
    let _ = &mut bus;
}

#[test]
fn inc_then_dec_restores_b_for_all_values() {
    let mut cpu = CPU::new_cpu();
    for b in 0..=255u8 {
        cpu.bc.high = b;
        inc_b(&mut cpu);
        dec_b(&mut cpu);
        assert_eq!(cpu.bc.high, b);
    }
}

#[test]
fn inc_wraps_ff_to_zero_with_z_and_h() {
    let mut cpu = CPU::new_cpu();
    cpu.bc.high = 0xFF;
    inc_b(&mut cpu);
    assert_eq!(cpu.bc.high, 0x00);
    assert_ne!(cpu.af.low & 0x80, 0, "Z must be set");
    assert_ne!(cpu.af.low & 0x20, 0, "H must be set");
    assert_eq!(cpu.af.low & 0x40, 0, "N must be clear");
}

#[test]
fn dec_wraps_zero_to_ff_with_h_borrow() {
    let mut cpu = CPU::new_cpu();
    cpu.bc.high = 0x00;
    dec_b(&mut cpu);
    assert_eq!(cpu.bc.high, 0xFF);
    assert_eq!(cpu.af.low & 0x80, 0, "Z must be clear");
    assert_ne!(cpu.af.low & 0x20, 0, "H must be set");
    assert_ne!(cpu.af.low & 0x40, 0, "N must be set");
}

#[test]
fn jr_with_fe_operand_is_a_tight_loop() {
    let mut bus = bus_with_program(&[0x18, 0xFE]);
    let mut cpu = CPU::new_cpu();
    step(&mut cpu, &mut bus);
    assert_eq!(cpu.pc, 0x0100);
    step(&mut cpu, &mut bus);
    assert_eq!(cpu.pc, 0x0100);
}

#[test]
fn push_pop_restores_every_register_pair() {
    let mut bus = bus_with_program(&[
        0xC5, 0xC1, // PUSH BC; POP BC
        0xD5, 0xD1, // PUSH DE; POP DE
        0xE5, 0xE1, // PUSH HL; POP HL
    ]);
    let mut cpu = CPU::new_cpu();
    cpu.sp = 0xD000;
    cpu.bc.set_word(0x1234);
    cpu.de.set_word(0x5678);
    cpu.hl.set_word(0x9ABC);
    for _ in 0..6 {
        step(&mut cpu, &mut bus);
    }
    assert_eq!(cpu.bc.get_combined(), 0x1234);
    assert_eq!(cpu.de.get_combined(), 0x5678);
    assert_eq!(cpu.hl.get_combined(), 0x9ABC);
    assert_eq!(cpu.sp, 0xD000);
}

#[test]
fn pop_af_zeroes_the_low_flag_nibble() {
    let mut bus = bus_with_program(&[0x00]);
    let mut cpu = CPU::new_cpu();
    cpu.sp = 0xD000;
    cpu.af.high = 0x12;
    cpu.af.low = 0xB5; // a corrupted flag byte, pushed as-is
    push_af(&mut cpu, &mut bus);
    pop_af(&mut cpu, &bus);
    assert_eq!(cpu.af.high, 0x12);
    assert_eq!(cpu.af.low, 0xB0);
    assert_eq!(cpu.sp, 0xD000);
}

#[test]
fn daa_adjusts_bcd_addition() {
    let mut cpu = CPU::new_cpu();
    // 19 + 28 = 47 in decimal.
    cpu.af.high = 0x19;
    cpu.bc.high = 0x28;
    add_a_b(&mut cpu);
    daa(&mut cpu);
    assert_eq!(cpu.af.high, 0x47);
    assert_eq!(cpu.af.low & 0x10, 0, "no decimal carry");
    // 90 + 90 = 180: result 80 with the carry set.
    cpu.af.high = 0x90;
    cpu.bc.high = 0x90;
    add_a_b(&mut cpu);
    daa(&mut cpu);
    assert_eq!(cpu.af.high, 0x80);
    assert_ne!(cpu.af.low & 0x10, 0, "decimal carry");
}

#[test]
fn call_pushes_the_return_address_and_ret_uses_it() {
    let mut bus = bus_with_program(&[0xCD, 0x00, 0x20]); // CALL 0x2000
    let mut cpu = CPU::new_cpu();
    cpu.sp = 0xD000;
    step(&mut cpu, &mut bus);
    assert_eq!(cpu.pc, 0x2000);
    assert_eq!(cpu.sp, 0xCFFE);
    assert_eq!(bus.fetch_word(0xCFFE), 0x0103);
    gb_core::instructions::ret(&mut cpu, &bus);
    assert_eq!(cpu.pc, 0x0103);
    assert_eq!(cpu.sp, 0xD000);
}

#[test]
fn rst_jumps_to_its_vector() {
    let mut bus = bus_with_program(&[0xEF]); // RST 5 -> 0x28
    let mut cpu = CPU::new_cpu();
    cpu.sp = 0xD000;
    step(&mut cpu, &mut bus);
    assert_eq!(cpu.pc, 0x0028);
    assert_eq!(bus.fetch_word(0xCFFE), 0x0101);
}

#[test]
fn conditional_jumps_follow_the_flags() {
    // JR NZ, +2 taken (Z clear), then from 0x104: JR NZ not taken once Z set.
    let mut bus = bus_with_program(&[0x20, 0x02, 0x00, 0x00, 0xAF, 0x20, 0x02]);
    let mut cpu = CPU::new_cpu();
    step(&mut cpu, &mut bus);
    assert_eq!(cpu.pc, 0x0104);
    step(&mut cpu, &mut bus); // XOR A: sets Z
    step(&mut cpu, &mut bus); // JR NZ not taken
    assert_eq!(cpu.pc, 0x0107);
}

#[test]
fn cb_swap_and_set_work_through_the_prefix() {
    let mut bus = bus_with_program(&[0xCB, 0x37, 0xCB, 0xC7]); // SWAP A; SET 0,A
    let mut cpu = CPU::new_cpu();
    cpu.af.high = 0xAB;
    step(&mut cpu, &mut bus);
    assert_eq!(cpu.af.high, 0xBA);
    assert_eq!(cpu.pc, 0x0102);
    step(&mut cpu, &mut bus);
    assert_eq!(cpu.af.high, 0xBB);
    assert_eq!(cpu.pc, 0x0104);
}

#[test]
fn cb_bit_sets_z_from_the_tested_bit() {
    let mut bus = bus_with_program(&[0xCB, 0x40]); // BIT 0,B
    let mut cpu = CPU::new_cpu();
    cpu.bc.high = 0xFE;
    step(&mut cpu, &mut bus);
    assert_ne!(cpu.af.low & 0x80, 0, "bit 0 clear: Z set");
    assert_ne!(cpu.af.low & 0x20, 0, "H set by BIT");
}

#[test]
fn halt_stops_execution_until_an_interrupt_pends() {
    let mut bus = bus_with_program(&[0x76, 0x00]); // HALT; NOP
    let mut cpu = CPU::new_cpu();
    step(&mut cpu, &mut bus);
    assert!(cpu.halted);
    let pc = cpu.pc;
    step(&mut cpu, &mut bus);
    assert!(cpu.halted);
    assert_eq!(cpu.pc, pc, "no instruction runs while halted");
    bus.set_byte(0xFFFF, 0x01);
    bus.set_byte(0xFF0F, 0x01);
    cpu.tick(&mut bus); // pending interrupt releases the halt
    assert!(!cpu.halted);
}

#[test]
fn illegal_opcode_is_reported_before_execution() {
    let bus = bus_with_program(&[0xD3]);
    let cpu = CPU::new_cpu();
    assert!(cpu.next_op_illegal(&bus));
}

#[test]
fn the_opcode_table_matches_the_reference_lengths() {
    assert_eq!(instruction_info(0x00).disassembly, "NOP");
    assert_eq!(instruction_info(0x00).clock_cycles, 1);
    assert_eq!(instruction_info(0x01).op_len, 3);
    assert_eq!(instruction_info(0x3E).op_len, 2);
    assert_eq!(op_len(0xD3), 0);
    assert_eq!(op_len(0xCB), 2);
    assert_eq!(instruction_info(0xCD).clock_cycles, 6);
}

#[test]
fn register_print_formats_as_fixed_width_hex() {
    let mut cpu = CPU::new_cpu();
    cpu.bc.set_word(0x1234);
    assert_eq!(cpu.bc.print(), "0x12:0x34     0x1234");
}

#[test]
fn flag_helpers_set_and_clear_single_bits() {
    let mut cpu = CPU::new_cpu();
    cpu.set_flag('z');
    cpu.set_flag('c');
    assert!(cpu.extract_flag('z'));
    assert!(cpu.extract_flag('c'));
    assert!(!cpu.extract_flag('n'));
    cpu.update_flag('z', false);
    assert!(!cpu.extract_flag('z'));
    cpu.clear_flag('c');
    assert!(!cpu.extract_flag('c'));
    assert_eq!(cpu.af.low, 0);
}
