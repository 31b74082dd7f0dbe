//! Further instruction tests: 16-bit arithmetic, memory operands,
//! high-page loads, rotates, signed stack arithmetic and interrupt
//! priority.

use gb_core::bus::Bus;
use gb_core::cpu::CPU;
use gb_core::instructions::{add_bc_to_hl, rlca, rra};

fn bus_with_program(program: &[u8]) -> Bus {
    let mut rom: Vec<u8> = vec![0u8; 0x8000];
    for (i, b) in program.iter().enumerate() {
        rom[0x100 + i] = *b;
    }
    Bus::new_bus(&rom)
}

fn step(cpu: &mut CPU, bus: &mut Bus) {
    assert!(!cpu.next_op_illegal(bus), "illegal opcode reached");
    cpu.tick(bus);
    while cpu.get_clock_cycles() > 0 {
        cpu.tick(bus);
    }
}

#[test]
fn add_hl_bc_sets_the_16_bit_carries() {
    let mut cpu = CPU::new_cpu();
    cpu.hl.set_word(0x0FFF);
    cpu.bc.set_word(0x0001);
    add_bc_to_hl(&mut cpu);
    assert_eq!(cpu.hl.get_combined(), 0x1000);
    assert_ne!(cpu.af.low & 0x20, 0, "carry out of bit 11");
    assert_eq!(cpu.af.low & 0x10, 0, "no carry out of bit 15");
    cpu.hl.set_word(0xFFFF);
    cpu.bc.set_word(0x0001);
    add_bc_to_hl(&mut cpu);
    assert_eq!(cpu.hl.get_combined(), 0x0000);
    assert_ne!(cpu.af.low & 0x10, 0, "carry out of bit 15");
}

#[test]
fn sixteen_bit_inc_and_dec_wrap() {
    let mut bus = bus_with_program(&[0x03, 0x0B, 0x0B]); // INC BC; DEC BC; DEC BC
    let mut cpu = CPU::new_cpu();
    cpu.bc.set_word(0xFFFF);
    step(&mut cpu, &mut bus);
    assert_eq!(cpu.bc.get_combined(), 0x0000);
    step(&mut cpu, &mut bus);
    step(&mut cpu, &mut bus);
    assert_eq!(cpu.bc.get_combined(), 0xFFFE);
    assert_eq!(cpu.af.low, 0, "16-bit steps leave the flags alone");
}

#[test]
fn inc_hl_ptr_touches_memory_and_flags() {
    let mut bus = bus_with_program(&[0x34, 0x35]); // INC (HL); DEC (HL)
    let mut cpu = CPU::new_cpu();
    cpu.hl.set_word(0xC123);
    bus.set_byte(0xC123, 0xFF);
    step(&mut cpu, &mut bus);
    assert_eq!(bus.fetch_byte(0xC123), 0x00);
    assert_ne!(cpu.af.low & 0x80, 0, "Z after 0xFF -> 0x00");
    step(&mut cpu, &mut bus);
    assert_eq!(bus.fetch_byte(0xC123), 0xFF);
    assert_ne!(cpu.af.low & 0x40, 0, "N after a decrement");
}

#[test]
fn ldh_moves_a_through_the_high_page() {
    let mut bus = bus_with_program(&[0xE0, 0x80, 0xF0, 0x80]); // LDH (0x80),A; LDH A,(0x80)
    let mut cpu = CPU::new_cpu();
    cpu.af.high = 0x5A;
    step(&mut cpu, &mut bus);
    assert_eq!(bus.fetch_byte(0xFF80), 0x5A);
    cpu.af.high = 0;
    step(&mut cpu, &mut bus);
    assert_eq!(cpu.af.high, 0x5A);
}

#[test]
fn ld_a16_stores_and_loads_a() {
    let mut bus = bus_with_program(&[0xEA, 0x34, 0xC2, 0xFA, 0x34, 0xC2]);
    let mut cpu = CPU::new_cpu();
    cpu.af.high = 0x77;
    step(&mut cpu, &mut bus);
    assert_eq!(bus.fetch_byte(0xC234), 0x77);
    cpu.af.high = 0;
    step(&mut cpu, &mut bus);
    assert_eq!(cpu.af.high, 0x77);
    assert_eq!(cpu.pc, 0x0106);
}

#[test]
fn rotates_move_the_edge_bits_through_carry() {
    let mut cpu = CPU::new_cpu();
    cpu.af.high = 0x81;
    rlca(&mut cpu);
    assert_eq!(cpu.af.high, 0x03);
    assert_ne!(cpu.af.low & 0x10, 0, "bit 7 went to the carry");
    cpu.af.high = 0x01;
    cpu.af.low = 0; // carry clear
    rra(&mut cpu);
    assert_eq!(cpu.af.high, 0x00);
    assert_ne!(cpu.af.low & 0x10, 0, "bit 0 went to the carry");
    rra(&mut cpu);
    assert_eq!(cpu.af.high, 0x80, "the old carry came back in at bit 7");
}

#[test]
fn add_sp_s8_handles_negative_operands() {
    let mut bus = bus_with_program(&[0xE8, 0xFE]); // ADD SP,-2
    let mut cpu = CPU::new_cpu();
    cpu.sp = 0xD000;
    step(&mut cpu, &mut bus);
    assert_eq!(cpu.sp, 0xCFFE);
    assert_eq!(cpu.af.low & 0x80, 0, "Z is always cleared");
}

#[test]
fn ld_hl_sp_s8_computes_the_offset_sum() {
    let mut bus = bus_with_program(&[0xF8, 0x05]); // LD HL,SP+5
    let mut cpu = CPU::new_cpu();
    cpu.sp = 0xCFFB;
    step(&mut cpu, &mut bus);
    assert_eq!(cpu.hl.get_combined(), 0xD000);
    assert_ne!(cpu.af.low & 0x20, 0, "H from the low-byte addition");
}

#[test]
fn jp_hl_jumps_to_the_register() {
    let mut bus = bus_with_program(&[0xE9]);
    let mut cpu = CPU::new_cpu();
    cpu.hl.set_word(0x4321);
    step(&mut cpu, &mut bus);
    assert_eq!(cpu.pc, 0x4321);
}

#[test]
fn ld_hl_plus_walks_the_pointer() {
    let mut bus = bus_with_program(&[0x22, 0x22, 0x3A]); // LD (HL+),A x2; LD A,(HL-)
    let mut cpu = CPU::new_cpu();
    cpu.hl.set_word(0xC000);
    cpu.af.high = 0x11;
    step(&mut cpu, &mut bus);
    cpu.af.high = 0x22;
    step(&mut cpu, &mut bus);
    assert_eq!(bus.fetch_byte(0xC000), 0x11);
    assert_eq!(bus.fetch_byte(0xC001), 0x22);
    assert_eq!(cpu.hl.get_combined(), 0xC002);
    bus.set_byte(0xC002, 0x33);
    step(&mut cpu, &mut bus);
    assert_eq!(cpu.af.high, 0x33);
    assert_eq!(cpu.hl.get_combined(), 0xC001);
}

#[test]
fn interrupts_dispatch_in_priority_order() {
    let mut bus = bus_with_program(&[0x00, 0x00]);
    let mut cpu = CPU::new_cpu();
    cpu.sp = 0xD000;
    cpu.ime = true;
    bus.set_byte(0xFFFF, 0x06); // LCD STAT and Timer enabled
    bus.set_byte(0xFF0F, 0x06); // both requested
    step(&mut cpu, &mut bus);
    assert_eq!(cpu.pc, 0x0048, "LCD STAT comes before Timer");
    assert_eq!(bus.fetch_byte(0xFF0F), 0x04, "only the served bit is cleared");
    assert!(!cpu.ime);
    // With IME off, the remaining request stays pending.
    step(&mut cpu, &mut bus);
    assert_eq!(bus.fetch_byte(0xFF0F), 0x04);
}

#[test]
fn di_and_ei_toggle_the_master_enable() {
    let mut bus = bus_with_program(&[0xFB, 0xF3]); // EI; DI
    let mut cpu = CPU::new_cpu();
    step(&mut cpu, &mut bus);
    assert!(cpu.ime);
    step(&mut cpu, &mut bus);
    assert!(!cpu.ime);
}

#[test]
fn stop_freezes_the_cpu_until_a_joypad_interrupt() {
    let mut bus = bus_with_program(&[0x10, 0x00, 0x00]);
    let mut cpu = CPU::new_cpu();
    step(&mut cpu, &mut bus);
    assert!(cpu.stopped);
    let pc = cpu.pc;
    step(&mut cpu, &mut bus);
    assert!(cpu.stopped);
    assert_eq!(cpu.pc, pc);
    bus.set_byte(0xFFFF, 0x10);
    bus.set_byte(0xFF0F, 0x10);
    cpu.tick(&mut bus);
    assert!(!cpu.stopped);
}

#[test]
fn scf_ccf_and_cpl_follow_the_manual() {
    let mut bus = bus_with_program(&[0x37, 0x3F, 0x2F]); // SCF; CCF; CPL
    let mut cpu = CPU::new_cpu();
    cpu.af.high = 0x0F;
    step(&mut cpu, &mut bus);
    assert_ne!(cpu.af.low & 0x10, 0, "SCF sets C");
    step(&mut cpu, &mut bus);
    assert_eq!(cpu.af.low & 0x10, 0, "CCF flips C");
    step(&mut cpu, &mut bus);
    assert_eq!(cpu.af.high, 0xF0);
    assert_ne!(cpu.af.low & 0x40, 0, "CPL sets N");
    assert_ne!(cpu.af.low & 0x20, 0, "CPL sets H");
}

#[test]
fn adc_and_sbc_chain_the_carry() {
    // 0xFF + 0x01 leaves a carry, which ADC then adds.
    let mut bus = bus_with_program(&[0xC6, 0x01, 0xCE, 0x00, 0xDE, 0x00]);
    let mut cpu = CPU::new_cpu();
    cpu.af.high = 0xFF;
    step(&mut cpu, &mut bus); // ADD A,0x01 -> 0x00, carry
    assert_eq!(cpu.af.high, 0x00);
    assert_ne!(cpu.af.low & 0x10, 0);
    step(&mut cpu, &mut bus); // ADC A,0x00 -> 0x01
    assert_eq!(cpu.af.high, 0x01);
    assert_eq!(cpu.af.low & 0x10, 0);
    cpu.af.low = 0x10; // carry set
    step(&mut cpu, &mut bus); // SBC A,0x00 -> 0x00
    assert_eq!(cpu.af.high, 0x00);
}

#[test]
fn cp_compares_without_touching_a() {
    let mut bus = bus_with_program(&[0xFE, 0x42, 0xFE, 0x50]); // CP 0x42; CP 0x50
    let mut cpu = CPU::new_cpu();
    cpu.af.high = 0x42;
    step(&mut cpu, &mut bus);
    assert_eq!(cpu.af.high, 0x42);
    assert_ne!(cpu.af.low & 0x80, 0, "equal: Z set");
    step(&mut cpu, &mut bus);
    assert_eq!(cpu.af.low & 0x80, 0);
    assert_ne!(cpu.af.low & 0x10, 0, "smaller: borrow sets C");
}
