//! The primary opcode table: one handler per opcode, a pure decoder for
//! instruction length and base machine-cycle count, and the closed-set
//! dispatcher that the CPU drives.
//!
//! Each handler's contract gives the exact new processor state (and, where
//! memory is touched, the exact new bus contents) as one equation over the
//! state before the call.  The program counter seen by a handler points at
//! the byte after the opcode, so immediate operands live at `pc`, `pc + 1`.
//! Flag rules follow the LR35902 manual: half-carries and carries come from
//! the pre-operation operands.

use vstd::prelude::*;

use crate::alu::{
    adc8, adc_carry, adc_half, add8, add_carry, add_half, alu_adc, alu_add, alu_and, alu_dec,
    alu_inc, alu_or, alu_sbc, alu_sub, alu_xor, dec8, f_c, f_n, f_h, f_z, flags, inc8, make_flags,
    sub8, sub_carry, sub_half, sbc8, sbc_carry, sbc_half,
};
use crate::bus::{spec_read, spec_read_word, spec_write, spec_write_word, Bus};
use crate::cpu::{Register, CPU};

verus! {

broadcast use crate::alu::lemma_flags_low_nibble;

/// One entry of the opcode table: mnemonic, instruction length in bytes
/// (0 marks an illegal opcode) and base machine-cycle count.
pub struct Instruction {
    pub disassembly: &'static str,
    pub op_len: u16,
    pub clock_cycles: u8,
}

/// Low byte of a 16-bit value.
pub open spec fn word_lo(w: u16) -> u8 {
    (w % 256) as u8
}

/// High byte of a 16-bit value.
pub open spec fn word_hi(w: u16) -> u8 {
    (w / 256) as u8
}

/// 16-bit addition, wrapping modulo 2^16.
pub open spec fn add16(a: u16, b: u16) -> u16 {
    ((a + b) % 0x10000) as u16
}

/// ADD HL,rr half-carry: carry out of bit 11.
pub open spec fn add16_half(a: u16, b: u16) -> bool {
    (a & 0xFFF) + (b & 0xFFF) > 0xFFF
}

/// ADD HL,rr carry: carry out of bit 15.
pub open spec fn add16_carry(a: u16, b: u16) -> bool {
    a + b > 0xFFFF
}

/// Target of a relative jump: `pc + signed(e) + 1`, wrapping.
pub open spec fn jr_target(pc: u16, e: u8) -> u16 {
    pc.wrapping_add(1).wrapping_add(e as u16).wrapping_sub(
        if e >= 128 {
            256u16
        } else {
            0u16
        },
    )
}

/// `sp + signed(e)`, wrapping: the value of ADD SP,s8 and LD HL,SP+s8.
pub open spec fn sp_s8_target(sp: u16, e: u8) -> u16 {
    sp.wrapping_add(e as u16).wrapping_sub(
        if e >= 128 {
            256u16
        } else {
            0u16
        },
    )
}

/// ADD SP,s8 half-carry: from the low-byte unsigned addition, bit 3.
pub open spec fn s8_half(sp: u16, e: u8) -> bool {
    (sp & 0xF) + (e & 0xF) > 0xF
}

/// ADD SP,s8 carry: from the low-byte unsigned addition, bit 7.
pub open spec fn s8_carry(sp: u16, e: u8) -> bool {
    (sp & 0xFF) + (e & 0xFF) > 0xFF
}

/// The decimal-adjust amount DAA adds to (after additions) or subtracts
/// from (after subtractions) the accumulator.
pub open spec fn daa_adj(a: u8, n: bool, h: bool, c: bool) -> u8 {
    if !n {
        ((if h || (a & 0xF) > 9 {
            0x06u8
        } else {
            0u8
        }) + (if c || a > 0x99 {
            0x60u8
        } else {
            0u8
        })) as u8
    } else {
        ((if h {
            0x06u8
        } else {
            0u8
        }) + (if c {
            0x60u8
        } else {
            0u8
        })) as u8
    }
}

/// The accumulator after DAA.
pub open spec fn daa_res(a: u8, n: bool, h: bool, c: bool) -> u8 {
    if !n {
        add8(a, daa_adj(a, n, h, c))
    } else {
        sub8(a, daa_adj(a, n, h, c))
    }
}

/// The carry flag after DAA: set when the decimal adjustment overflowed.
pub open spec fn daa_carry(a: u8, n: bool, h: bool, c: bool) -> bool {
    if !n {
        c || a > 0x99
    } else {
        c
    }
}

/// Instruction length in bytes; 0 marks an illegal opcode.
pub open spec fn spec_op_len(op: u8) -> u16 {
    match op {
        0x00 => 1,
        0x01 => 3,
        0x02 => 1,
        0x03 => 1,
        0x04 => 1,
        0x05 => 1,
        0x06 => 2,
        0x07 => 1,
        0x08 => 3,
        0x09 => 1,
        0x0A => 1,
        0x0B => 1,
        0x0C => 1,
        0x0D => 1,
        0x0E => 2,
        0x0F => 1,
        0x10 => 2,
        0x11 => 3,
        0x12 => 1,
        0x13 => 1,
        0x14 => 1,
        0x15 => 1,
        0x16 => 2,
        0x17 => 1,
        0x18 => 2,
        0x19 => 1,
        0x1A => 1,
        0x1B => 1,
        0x1C => 1,
        0x1D => 1,
        0x1E => 2,
        0x1F => 1,
        0x20 => 2,
        0x21 => 3,
        0x22 => 1,
        0x23 => 1,
        0x24 => 1,
        0x25 => 1,
        0x26 => 2,
        0x27 => 1,
        0x28 => 2,
        0x29 => 1,
        0x2A => 1,
        0x2B => 1,
        0x2C => 1,
        0x2D => 1,
        0x2E => 2,
        0x2F => 1,
        0x30 => 2,
        0x31 => 3,
        0x32 => 1,
        0x33 => 1,
        0x34 => 1,
        0x35 => 1,
        0x36 => 2,
        0x37 => 1,
        0x38 => 2,
        0x39 => 1,
        0x3A => 1,
        0x3B => 1,
        0x3C => 1,
        0x3D => 1,
        0x3E => 2,
        0x3F => 1,
        0x40 => 1,
        0x41 => 1,
        0x42 => 1,
        0x43 => 1,
        0x44 => 1,
        0x45 => 1,
        0x46 => 1,
        0x47 => 1,
        0x48 => 1,
        0x49 => 1,
        0x4A => 1,
        0x4B => 1,
        0x4C => 1,
        0x4D => 1,
        0x4E => 1,
        0x4F => 1,
        0x50 => 1,
        0x51 => 1,
        0x52 => 1,
        0x53 => 1,
        0x54 => 1,
        0x55 => 1,
        0x56 => 1,
        0x57 => 1,
        0x58 => 1,
        0x59 => 1,
        0x5A => 1,
        0x5B => 1,
        0x5C => 1,
        0x5D => 1,
        0x5E => 1,
        0x5F => 1,
        0x60 => 1,
        0x61 => 1,
        0x62 => 1,
        0x63 => 1,
        0x64 => 1,
        0x65 => 1,
        0x66 => 1,
        0x67 => 1,
        0x68 => 1,
        0x69 => 1,
        0x6A => 1,
        0x6B => 1,
        0x6C => 1,
        0x6D => 1,
        0x6E => 1,
        0x6F => 1,
        0x70 => 1,
        0x71 => 1,
        0x72 => 1,
        0x73 => 1,
        0x74 => 1,
        0x75 => 1,
        0x76 => 1,
        0x77 => 1,
        0x78 => 1,
        0x79 => 1,
        0x7A => 1,
        0x7B => 1,
        0x7C => 1,
        0x7D => 1,
        0x7E => 1,
        0x7F => 1,
        0x80 => 1,
        0x81 => 1,
        0x82 => 1,
        0x83 => 1,
        0x84 => 1,
        0x85 => 1,
        0x86 => 1,
        0x87 => 1,
        0x88 => 1,
        0x89 => 1,
        0x8A => 1,
        0x8B => 1,
        0x8C => 1,
        0x8D => 1,
        0x8E => 1,
        0x8F => 1,
        0x90 => 1,
        0x91 => 1,
        0x92 => 1,
        0x93 => 1,
        0x94 => 1,
        0x95 => 1,
        0x96 => 1,
        0x97 => 1,
        0x98 => 1,
        0x99 => 1,
        0x9A => 1,
        0x9B => 1,
        0x9C => 1,
        0x9D => 1,
        0x9E => 1,
        0x9F => 1,
        0xA0 => 1,
        0xA1 => 1,
        0xA2 => 1,
        0xA3 => 1,
        0xA4 => 1,
        0xA5 => 1,
        0xA6 => 1,
        0xA7 => 1,
        0xA8 => 1,
        0xA9 => 1,
        0xAA => 1,
        0xAB => 1,
        0xAC => 1,
        0xAD => 1,
        0xAE => 1,
        0xAF => 1,
        0xB0 => 1,
        0xB1 => 1,
        0xB2 => 1,
        0xB3 => 1,
        0xB4 => 1,
        0xB5 => 1,
        0xB6 => 1,
        0xB7 => 1,
        0xB8 => 1,
        0xB9 => 1,
        0xBA => 1,
        0xBB => 1,
        0xBC => 1,
        0xBD => 1,
        0xBE => 1,
        0xBF => 1,
        0xC0 => 1,
        0xC1 => 1,
        0xC2 => 3,
        0xC3 => 3,
        0xC4 => 3,
        0xC5 => 1,
        0xC6 => 2,
        0xC7 => 1,
        0xC8 => 1,
        0xC9 => 1,
        0xCA => 3,
        0xCB => 2,
        0xCC => 3,
        0xCD => 3,
        0xCE => 2,
        0xCF => 1,
        0xD0 => 1,
        0xD1 => 1,
        0xD2 => 3,
        0xD3 => 0,
        0xD4 => 3,
        0xD5 => 1,
        0xD6 => 2,
        0xD7 => 1,
        0xD8 => 1,
        0xD9 => 1,
        0xDA => 3,
        0xDB => 0,
        0xDC => 3,
        0xDD => 0,
        0xDE => 2,
        0xDF => 1,
        0xE0 => 2,
        0xE1 => 1,
        0xE2 => 1,
        0xE3 => 0,
        0xE4 => 0,
        0xE5 => 1,
        0xE6 => 2,
        0xE7 => 1,
        0xE8 => 2,
        0xE9 => 1,
        0xEA => 3,
        0xEB => 0,
        0xEC => 0,
        0xED => 0,
        0xEE => 2,
        0xEF => 1,
        0xF0 => 2,
        0xF1 => 1,
        0xF2 => 1,
        0xF3 => 1,
        0xF4 => 0,
        0xF5 => 1,
        0xF6 => 2,
        0xF7 => 1,
        0xF8 => 2,
        0xF9 => 1,
        0xFA => 3,
        0xFB => 1,
        0xFC => 0,
        0xFD => 0,
        0xFE => 2,
        _ => 1,
    }
}

/// Instruction length in bytes; 0 marks an illegal opcode.
pub fn op_len(op: u8) -> (r: u16)
    ensures
        r == spec_op_len(op),
{
    match op {
        0x00 => 1,
        0x01 => 3,
        0x02 => 1,
        0x03 => 1,
        0x04 => 1,
        0x05 => 1,
        0x06 => 2,
        0x07 => 1,
        0x08 => 3,
        0x09 => 1,
        0x0A => 1,
        0x0B => 1,
        0x0C => 1,
        0x0D => 1,
        0x0E => 2,
        0x0F => 1,
        0x10 => 2,
        0x11 => 3,
        0x12 => 1,
        0x13 => 1,
        0x14 => 1,
        0x15 => 1,
        0x16 => 2,
        0x17 => 1,
        0x18 => 2,
        0x19 => 1,
        0x1A => 1,
        0x1B => 1,
        0x1C => 1,
        0x1D => 1,
        0x1E => 2,
        0x1F => 1,
        0x20 => 2,
        0x21 => 3,
        0x22 => 1,
        0x23 => 1,
        0x24 => 1,
        0x25 => 1,
        0x26 => 2,
        0x27 => 1,
        0x28 => 2,
        0x29 => 1,
        0x2A => 1,
        0x2B => 1,
        0x2C => 1,
        0x2D => 1,
        0x2E => 2,
        0x2F => 1,
        0x30 => 2,
        0x31 => 3,
        0x32 => 1,
        0x33 => 1,
        0x34 => 1,
        0x35 => 1,
        0x36 => 2,
        0x37 => 1,
        0x38 => 2,
        0x39 => 1,
        0x3A => 1,
        0x3B => 1,
        0x3C => 1,
        0x3D => 1,
        0x3E => 2,
        0x3F => 1,
        0x40 => 1,
        0x41 => 1,
        0x42 => 1,
        0x43 => 1,
        0x44 => 1,
        0x45 => 1,
        0x46 => 1,
        0x47 => 1,
        0x48 => 1,
        0x49 => 1,
        0x4A => 1,
        0x4B => 1,
        0x4C => 1,
        0x4D => 1,
        0x4E => 1,
        0x4F => 1,
        0x50 => 1,
        0x51 => 1,
        0x52 => 1,
        0x53 => 1,
        0x54 => 1,
        0x55 => 1,
        0x56 => 1,
        0x57 => 1,
        0x58 => 1,
        0x59 => 1,
        0x5A => 1,
        0x5B => 1,
        0x5C => 1,
        0x5D => 1,
        0x5E => 1,
        0x5F => 1,
        0x60 => 1,
        0x61 => 1,
        0x62 => 1,
        0x63 => 1,
        0x64 => 1,
        0x65 => 1,
        0x66 => 1,
        0x67 => 1,
        0x68 => 1,
        0x69 => 1,
        0x6A => 1,
        0x6B => 1,
        0x6C => 1,
        0x6D => 1,
        0x6E => 1,
        0x6F => 1,
        0x70 => 1,
        0x71 => 1,
        0x72 => 1,
        0x73 => 1,
        0x74 => 1,
        0x75 => 1,
        0x76 => 1,
        0x77 => 1,
        0x78 => 1,
        0x79 => 1,
        0x7A => 1,
        0x7B => 1,
        0x7C => 1,
        0x7D => 1,
        0x7E => 1,
        0x7F => 1,
        0x80 => 1,
        0x81 => 1,
        0x82 => 1,
        0x83 => 1,
        0x84 => 1,
        0x85 => 1,
        0x86 => 1,
        0x87 => 1,
        0x88 => 1,
        0x89 => 1,
        0x8A => 1,
        0x8B => 1,
        0x8C => 1,
        0x8D => 1,
        0x8E => 1,
        0x8F => 1,
        0x90 => 1,
        0x91 => 1,
        0x92 => 1,
        0x93 => 1,
        0x94 => 1,
        0x95 => 1,
        0x96 => 1,
        0x97 => 1,
        0x98 => 1,
        0x99 => 1,
        0x9A => 1,
        0x9B => 1,
        0x9C => 1,
        0x9D => 1,
        0x9E => 1,
        0x9F => 1,
        0xA0 => 1,
        0xA1 => 1,
        0xA2 => 1,
        0xA3 => 1,
        0xA4 => 1,
        0xA5 => 1,
        0xA6 => 1,
        0xA7 => 1,
        0xA8 => 1,
        0xA9 => 1,
        0xAA => 1,
        0xAB => 1,
        0xAC => 1,
        0xAD => 1,
        0xAE => 1,
        0xAF => 1,
        0xB0 => 1,
        0xB1 => 1,
        0xB2 => 1,
        0xB3 => 1,
        0xB4 => 1,
        0xB5 => 1,
        0xB6 => 1,
        0xB7 => 1,
        0xB8 => 1,
        0xB9 => 1,
        0xBA => 1,
        0xBB => 1,
        0xBC => 1,
        0xBD => 1,
        0xBE => 1,
        0xBF => 1,
        0xC0 => 1,
        0xC1 => 1,
        0xC2 => 3,
        0xC3 => 3,
        0xC4 => 3,
        0xC5 => 1,
        0xC6 => 2,
        0xC7 => 1,
        0xC8 => 1,
        0xC9 => 1,
        0xCA => 3,
        0xCB => 2,
        0xCC => 3,
        0xCD => 3,
        0xCE => 2,
        0xCF => 1,
        0xD0 => 1,
        0xD1 => 1,
        0xD2 => 3,
        0xD3 => 0,
        0xD4 => 3,
        0xD5 => 1,
        0xD6 => 2,
        0xD7 => 1,
        0xD8 => 1,
        0xD9 => 1,
        0xDA => 3,
        0xDB => 0,
        0xDC => 3,
        0xDD => 0,
        0xDE => 2,
        0xDF => 1,
        0xE0 => 2,
        0xE1 => 1,
        0xE2 => 1,
        0xE3 => 0,
        0xE4 => 0,
        0xE5 => 1,
        0xE6 => 2,
        0xE7 => 1,
        0xE8 => 2,
        0xE9 => 1,
        0xEA => 3,
        0xEB => 0,
        0xEC => 0,
        0xED => 0,
        0xEE => 2,
        0xEF => 1,
        0xF0 => 2,
        0xF1 => 1,
        0xF2 => 1,
        0xF3 => 1,
        0xF4 => 0,
        0xF5 => 1,
        0xF6 => 2,
        0xF7 => 1,
        0xF8 => 2,
        0xF9 => 1,
        0xFA => 3,
        0xFB => 1,
        0xFC => 0,
        0xFD => 0,
        0xFE => 2,
        _ => 1,
    }
}

/// Base machine-cycle count of the opcode.
pub open spec fn spec_op_cycles(op: u8) -> u8 {
    match op {
        0x00 => 1,
        0x01 => 3,
        0x02 => 2,
        0x03 => 2,
        0x04 => 1,
        0x05 => 1,
        0x06 => 2,
        0x07 => 1,
        0x08 => 5,
        0x09 => 2,
        0x0A => 2,
        0x0B => 2,
        0x0C => 1,
        0x0D => 1,
        0x0E => 2,
        0x0F => 1,
        0x10 => 1,
        0x11 => 3,
        0x12 => 2,
        0x13 => 2,
        0x14 => 1,
        0x15 => 1,
        0x16 => 2,
        0x17 => 1,
        0x18 => 3,
        0x19 => 2,
        0x1A => 2,
        0x1B => 2,
        0x1C => 1,
        0x1D => 1,
        0x1E => 2,
        0x1F => 1,
        0x20 => 3,
        0x21 => 3,
        0x22 => 2,
        0x23 => 2,
        0x24 => 1,
        0x25 => 1,
        0x26 => 2,
        0x27 => 1,
        0x28 => 3,
        0x29 => 2,
        0x2A => 2,
        0x2B => 2,
        0x2C => 1,
        0x2D => 1,
        0x2E => 2,
        0x2F => 1,
        0x30 => 3,
        0x31 => 3,
        0x32 => 2,
        0x33 => 2,
        0x34 => 3,
        0x35 => 3,
        0x36 => 3,
        0x37 => 1,
        0x38 => 3,
        0x39 => 2,
        0x3A => 2,
        0x3B => 2,
        0x3C => 1,
        0x3D => 1,
        0x3E => 2,
        0x3F => 1,
        0x40 => 1,
        0x41 => 1,
        0x42 => 1,
        0x43 => 1,
        0x44 => 1,
        0x45 => 1,
        0x46 => 2,
        0x47 => 1,
        0x48 => 1,
        0x49 => 1,
        0x4A => 1,
        0x4B => 1,
        0x4C => 1,
        0x4D => 1,
        0x4E => 2,
        0x4F => 1,
        0x50 => 1,
        0x51 => 1,
        0x52 => 1,
        0x53 => 1,
        0x54 => 1,
        0x55 => 1,
        0x56 => 2,
        0x57 => 1,
        0x58 => 1,
        0x59 => 1,
        0x5A => 1,
        0x5B => 1,
        0x5C => 1,
        0x5D => 1,
        0x5E => 2,
        0x5F => 1,
        0x60 => 1,
        0x61 => 1,
        0x62 => 1,
        0x63 => 1,
        0x64 => 1,
        0x65 => 1,
        0x66 => 2,
        0x67 => 1,
        0x68 => 1,
        0x69 => 1,
        0x6A => 1,
        0x6B => 1,
        0x6C => 1,
        0x6D => 1,
        0x6E => 2,
        0x6F => 1,
        0x70 => 2,
        0x71 => 2,
        0x72 => 2,
        0x73 => 2,
        0x74 => 2,
        0x75 => 2,
        0x76 => 1,
        0x77 => 2,
        0x78 => 1,
        0x79 => 1,
        0x7A => 1,
        0x7B => 1,
        0x7C => 1,
        0x7D => 1,
        0x7E => 2,
        0x7F => 1,
        0x80 => 1,
        0x81 => 1,
        0x82 => 1,
        0x83 => 1,
        0x84 => 1,
        0x85 => 1,
        0x86 => 2,
        0x87 => 1,
        0x88 => 1,
        0x89 => 1,
        0x8A => 1,
        0x8B => 1,
        0x8C => 1,
        0x8D => 1,
        0x8E => 2,
        0x8F => 1,
        0x90 => 1,
        0x91 => 1,
        0x92 => 1,
        0x93 => 1,
        0x94 => 1,
        0x95 => 1,
        0x96 => 2,
        0x97 => 1,
        0x98 => 1,
        0x99 => 1,
        0x9A => 1,
        0x9B => 1,
        0x9C => 1,
        0x9D => 1,
        0x9E => 2,
        0x9F => 1,
        0xA0 => 1,
        0xA1 => 1,
        0xA2 => 1,
        0xA3 => 1,
        0xA4 => 1,
        0xA5 => 1,
        0xA6 => 2,
        0xA7 => 1,
        0xA8 => 1,
        0xA9 => 1,
        0xAA => 1,
        0xAB => 1,
        0xAC => 1,
        0xAD => 1,
        0xAE => 2,
        0xAF => 1,
        0xB0 => 1,
        0xB1 => 1,
        0xB2 => 1,
        0xB3 => 1,
        0xB4 => 1,
        0xB5 => 1,
        0xB6 => 2,
        0xB7 => 1,
        0xB8 => 1,
        0xB9 => 1,
        0xBA => 1,
        0xBB => 1,
        0xBC => 1,
        0xBD => 1,
        0xBE => 2,
        0xBF => 1,
        0xC0 => 5,
        0xC1 => 3,
        0xC2 => 4,
        0xC3 => 4,
        0xC4 => 6,
        0xC5 => 4,
        0xC6 => 2,
        0xC7 => 4,
        0xC8 => 5,
        0xC9 => 4,
        0xCA => 4,
        0xCB => 1,
        0xCC => 6,
        0xCD => 6,
        0xCE => 2,
        0xCF => 4,
        0xD0 => 5,
        0xD1 => 3,
        0xD2 => 4,
        0xD3 => 0,
        0xD4 => 6,
        0xD5 => 4,
        0xD6 => 2,
        0xD7 => 4,
        0xD8 => 5,
        0xD9 => 4,
        0xDA => 4,
        0xDB => 0,
        0xDC => 6,
        0xDD => 0,
        0xDE => 2,
        0xDF => 4,
        0xE0 => 3,
        0xE1 => 3,
        0xE2 => 2,
        0xE3 => 0,
        0xE4 => 0,
        0xE5 => 4,
        0xE6 => 2,
        0xE7 => 4,
        0xE8 => 4,
        0xE9 => 1,
        0xEA => 4,
        0xEB => 0,
        0xEC => 0,
        0xED => 0,
        0xEE => 2,
        0xEF => 4,
        0xF0 => 3,
        0xF1 => 3,
        0xF2 => 2,
        0xF3 => 1,
        0xF4 => 0,
        0xF5 => 4,
        0xF6 => 2,
        0xF7 => 4,
        0xF8 => 3,
        0xF9 => 2,
        0xFA => 4,
        0xFB => 1,
        0xFC => 0,
        0xFD => 0,
        0xFE => 2,
        _ => 4,
    }
}

/// Base machine-cycle count of the opcode.
pub fn op_cycles(op: u8) -> (r: u8)
    ensures
        r == spec_op_cycles(op),
{
    match op {
        0x00 => 1,
        0x01 => 3,
        0x02 => 2,
        0x03 => 2,
        0x04 => 1,
        0x05 => 1,
        0x06 => 2,
        0x07 => 1,
        0x08 => 5,
        0x09 => 2,
        0x0A => 2,
        0x0B => 2,
        0x0C => 1,
        0x0D => 1,
        0x0E => 2,
        0x0F => 1,
        0x10 => 1,
        0x11 => 3,
        0x12 => 2,
        0x13 => 2,
        0x14 => 1,
        0x15 => 1,
        0x16 => 2,
        0x17 => 1,
        0x18 => 3,
        0x19 => 2,
        0x1A => 2,
        0x1B => 2,
        0x1C => 1,
        0x1D => 1,
        0x1E => 2,
        0x1F => 1,
        0x20 => 3,
        0x21 => 3,
        0x22 => 2,
        0x23 => 2,
        0x24 => 1,
        0x25 => 1,
        0x26 => 2,
        0x27 => 1,
        0x28 => 3,
        0x29 => 2,
        0x2A => 2,
        0x2B => 2,
        0x2C => 1,
        0x2D => 1,
        0x2E => 2,
        0x2F => 1,
        0x30 => 3,
        0x31 => 3,
        0x32 => 2,
        0x33 => 2,
        0x34 => 3,
        0x35 => 3,
        0x36 => 3,
        0x37 => 1,
        0x38 => 3,
        0x39 => 2,
        0x3A => 2,
        0x3B => 2,
        0x3C => 1,
        0x3D => 1,
        0x3E => 2,
        0x3F => 1,
        0x40 => 1,
        0x41 => 1,
        0x42 => 1,
        0x43 => 1,
        0x44 => 1,
        0x45 => 1,
        0x46 => 2,
        0x47 => 1,
        0x48 => 1,
        0x49 => 1,
        0x4A => 1,
        0x4B => 1,
        0x4C => 1,
        0x4D => 1,
        0x4E => 2,
        0x4F => 1,
        0x50 => 1,
        0x51 => 1,
        0x52 => 1,
        0x53 => 1,
        0x54 => 1,
        0x55 => 1,
        0x56 => 2,
        0x57 => 1,
        0x58 => 1,
        0x59 => 1,
        0x5A => 1,
        0x5B => 1,
        0x5C => 1,
        0x5D => 1,
        0x5E => 2,
        0x5F => 1,
        0x60 => 1,
        0x61 => 1,
        0x62 => 1,
        0x63 => 1,
        0x64 => 1,
        0x65 => 1,
        0x66 => 2,
        0x67 => 1,
        0x68 => 1,
        0x69 => 1,
        0x6A => 1,
        0x6B => 1,
        0x6C => 1,
        0x6D => 1,
        0x6E => 2,
        0x6F => 1,
        0x70 => 2,
        0x71 => 2,
        0x72 => 2,
        0x73 => 2,
        0x74 => 2,
        0x75 => 2,
        0x76 => 1,
        0x77 => 2,
        0x78 => 1,
        0x79 => 1,
        0x7A => 1,
        0x7B => 1,
        0x7C => 1,
        0x7D => 1,
        0x7E => 2,
        0x7F => 1,
        0x80 => 1,
        0x81 => 1,
        0x82 => 1,
        0x83 => 1,
        0x84 => 1,
        0x85 => 1,
        0x86 => 2,
        0x87 => 1,
        0x88 => 1,
        0x89 => 1,
        0x8A => 1,
        0x8B => 1,
        0x8C => 1,
        0x8D => 1,
        0x8E => 2,
        0x8F => 1,
        0x90 => 1,
        0x91 => 1,
        0x92 => 1,
        0x93 => 1,
        0x94 => 1,
        0x95 => 1,
        0x96 => 2,
        0x97 => 1,
        0x98 => 1,
        0x99 => 1,
        0x9A => 1,
        0x9B => 1,
        0x9C => 1,
        0x9D => 1,
        0x9E => 2,
        0x9F => 1,
        0xA0 => 1,
        0xA1 => 1,
        0xA2 => 1,
        0xA3 => 1,
        0xA4 => 1,
        0xA5 => 1,
        0xA6 => 2,
        0xA7 => 1,
        0xA8 => 1,
        0xA9 => 1,
        0xAA => 1,
        0xAB => 1,
        0xAC => 1,
        0xAD => 1,
        0xAE => 2,
        0xAF => 1,
        0xB0 => 1,
        0xB1 => 1,
        0xB2 => 1,
        0xB3 => 1,
        0xB4 => 1,
        0xB5 => 1,
        0xB6 => 2,
        0xB7 => 1,
        0xB8 => 1,
        0xB9 => 1,
        0xBA => 1,
        0xBB => 1,
        0xBC => 1,
        0xBD => 1,
        0xBE => 2,
        0xBF => 1,
        0xC0 => 5,
        0xC1 => 3,
        0xC2 => 4,
        0xC3 => 4,
        0xC4 => 6,
        0xC5 => 4,
        0xC6 => 2,
        0xC7 => 4,
        0xC8 => 5,
        0xC9 => 4,
        0xCA => 4,
        0xCB => 1,
        0xCC => 6,
        0xCD => 6,
        0xCE => 2,
        0xCF => 4,
        0xD0 => 5,
        0xD1 => 3,
        0xD2 => 4,
        0xD3 => 0,
        0xD4 => 6,
        0xD5 => 4,
        0xD6 => 2,
        0xD7 => 4,
        0xD8 => 5,
        0xD9 => 4,
        0xDA => 4,
        0xDB => 0,
        0xDC => 6,
        0xDD => 0,
        0xDE => 2,
        0xDF => 4,
        0xE0 => 3,
        0xE1 => 3,
        0xE2 => 2,
        0xE3 => 0,
        0xE4 => 0,
        0xE5 => 4,
        0xE6 => 2,
        0xE7 => 4,
        0xE8 => 4,
        0xE9 => 1,
        0xEA => 4,
        0xEB => 0,
        0xEC => 0,
        0xED => 0,
        0xEE => 2,
        0xEF => 4,
        0xF0 => 3,
        0xF1 => 3,
        0xF2 => 2,
        0xF3 => 1,
        0xF4 => 0,
        0xF5 => 4,
        0xF6 => 2,
        0xF7 => 4,
        0xF8 => 3,
        0xF9 => 2,
        0xFA => 4,
        0xFB => 1,
        0xFC => 0,
        0xFD => 0,
        0xFE => 2,
        _ => 4,
    }
}

/// The table entry for an opcode, as the debugger shows it.
pub fn instruction_info(op: u8) -> (r: Instruction)
    ensures
        r.op_len == spec_op_len(op),
        r.clock_cycles == spec_op_cycles(op),
{
    match op {
        0x00 => Instruction { disassembly: "NOP", op_len: 1, clock_cycles: 1 },
        0x01 => Instruction { disassembly: "LD BC d16", op_len: 3, clock_cycles: 3 },
        0x02 => Instruction { disassembly: "LD (BC) A", op_len: 1, clock_cycles: 2 },
        0x03 => Instruction { disassembly: "INC BC", op_len: 1, clock_cycles: 2 },
        0x04 => Instruction { disassembly: "INC B", op_len: 1, clock_cycles: 1 },
        0x05 => Instruction { disassembly: "DEC B", op_len: 1, clock_cycles: 1 },
        0x06 => Instruction { disassembly: "LD B d8", op_len: 2, clock_cycles: 2 },
        0x07 => Instruction { disassembly: "RLCA", op_len: 1, clock_cycles: 1 },
        0x08 => Instruction { disassembly: "LD (a16) SP", op_len: 3, clock_cycles: 5 },
        0x09 => Instruction { disassembly: "ADD HL BC", op_len: 1, clock_cycles: 2 },
        0x0A => Instruction { disassembly: "LD A (BC)", op_len: 1, clock_cycles: 2 },
        0x0B => Instruction { disassembly: "DEC BC", op_len: 1, clock_cycles: 2 },
        0x0C => Instruction { disassembly: "INC C", op_len: 1, clock_cycles: 1 },
        0x0D => Instruction { disassembly: "DEC C", op_len: 1, clock_cycles: 1 },
        0x0E => Instruction { disassembly: "LD C d8", op_len: 2, clock_cycles: 2 },
        0x0F => Instruction { disassembly: "RRCA", op_len: 1, clock_cycles: 1 },
        0x10 => Instruction { disassembly: "STOP", op_len: 2, clock_cycles: 1 },
        0x11 => Instruction { disassembly: "LD DE d16", op_len: 3, clock_cycles: 3 },
        0x12 => Instruction { disassembly: "LD (DE) A", op_len: 1, clock_cycles: 2 },
        0x13 => Instruction { disassembly: "INC DE", op_len: 1, clock_cycles: 2 },
        0x14 => Instruction { disassembly: "INC D", op_len: 1, clock_cycles: 1 },
        0x15 => Instruction { disassembly: "DEC D", op_len: 1, clock_cycles: 1 },
        0x16 => Instruction { disassembly: "LD D d8", op_len: 2, clock_cycles: 2 },
        0x17 => Instruction { disassembly: "RLA", op_len: 1, clock_cycles: 1 },
        0x18 => Instruction { disassembly: "JR s8", op_len: 2, clock_cycles: 3 },
        0x19 => Instruction { disassembly: "ADD HL DE", op_len: 1, clock_cycles: 2 },
        0x1A => Instruction { disassembly: "LD A (DE)", op_len: 1, clock_cycles: 2 },
        0x1B => Instruction { disassembly: "DEC DE", op_len: 1, clock_cycles: 2 },
        0x1C => Instruction { disassembly: "INC E", op_len: 1, clock_cycles: 1 },
        0x1D => Instruction { disassembly: "DEC E", op_len: 1, clock_cycles: 1 },
        0x1E => Instruction { disassembly: "LD E d8", op_len: 2, clock_cycles: 2 },
        0x1F => Instruction { disassembly: "RRA", op_len: 1, clock_cycles: 1 },
        0x20 => Instruction { disassembly: "JR NZ s8", op_len: 2, clock_cycles: 3 },
        0x21 => Instruction { disassembly: "LD HL d16", op_len: 3, clock_cycles: 3 },
        0x22 => Instruction { disassembly: "LD (HL++) A", op_len: 1, clock_cycles: 2 },
        0x23 => Instruction { disassembly: "INC HL", op_len: 1, clock_cycles: 2 },
        0x24 => Instruction { disassembly: "INC H", op_len: 1, clock_cycles: 1 },
        0x25 => Instruction { disassembly: "DEC H", op_len: 1, clock_cycles: 1 },
        0x26 => Instruction { disassembly: "LD H d8", op_len: 2, clock_cycles: 2 },
        0x27 => Instruction { disassembly: "DAA", op_len: 1, clock_cycles: 1 },
        0x28 => Instruction { disassembly: "JR Z s8", op_len: 2, clock_cycles: 3 },
        0x29 => Instruction { disassembly: "ADD HL HL", op_len: 1, clock_cycles: 2 },
        0x2A => Instruction { disassembly: "LD A (HL++)", op_len: 1, clock_cycles: 2 },
        0x2B => Instruction { disassembly: "DEC HL", op_len: 1, clock_cycles: 2 },
        0x2C => Instruction { disassembly: "INC L", op_len: 1, clock_cycles: 1 },
        0x2D => Instruction { disassembly: "DEC L", op_len: 1, clock_cycles: 1 },
        0x2E => Instruction { disassembly: "LD L d8", op_len: 2, clock_cycles: 2 },
        0x2F => Instruction { disassembly: "CPL", op_len: 1, clock_cycles: 1 },
        0x30 => Instruction { disassembly: "JR NC s8", op_len: 2, clock_cycles: 3 },
        0x31 => Instruction { disassembly: "LD SP d16", op_len: 3, clock_cycles: 3 },
        0x32 => Instruction { disassembly: "LD (HL--) A", op_len: 1, clock_cycles: 2 },
        0x33 => Instruction { disassembly: "INC SP", op_len: 1, clock_cycles: 2 },
        0x34 => Instruction { disassembly: "INC (HL)", op_len: 1, clock_cycles: 3 },
        0x35 => Instruction { disassembly: "DEC (HL)", op_len: 1, clock_cycles: 3 },
        0x36 => Instruction { disassembly: "LD (HL) d8", op_len: 2, clock_cycles: 3 },
        0x37 => Instruction { disassembly: "SCF", op_len: 1, clock_cycles: 1 },
        0x38 => Instruction { disassembly: "JR C s8", op_len: 2, clock_cycles: 3 },
        0x39 => Instruction { disassembly: "ADD HL SP", op_len: 1, clock_cycles: 2 },
        0x3A => Instruction { disassembly: "LD A (HL--)", op_len: 1, clock_cycles: 2 },
        0x3B => Instruction { disassembly: "DEC SP", op_len: 1, clock_cycles: 2 },
        0x3C => Instruction { disassembly: "INC A", op_len: 1, clock_cycles: 1 },
        0x3D => Instruction { disassembly: "DEC A", op_len: 1, clock_cycles: 1 },
        0x3E => Instruction { disassembly: "LD A d8", op_len: 2, clock_cycles: 2 },
        0x3F => Instruction { disassembly: "CCF", op_len: 1, clock_cycles: 1 },
        0x40 => Instruction { disassembly: "LD B B", op_len: 1, clock_cycles: 1 },
        0x41 => Instruction { disassembly: "LD B C", op_len: 1, clock_cycles: 1 },
        0x42 => Instruction { disassembly: "LD B D", op_len: 1, clock_cycles: 1 },
        0x43 => Instruction { disassembly: "LD B E", op_len: 1, clock_cycles: 1 },
        0x44 => Instruction { disassembly: "LD B H", op_len: 1, clock_cycles: 1 },
        0x45 => Instruction { disassembly: "LD B L", op_len: 1, clock_cycles: 1 },
        0x46 => Instruction { disassembly: "LD B (HL)", op_len: 1, clock_cycles: 2 },
        0x47 => Instruction { disassembly: "LD B A", op_len: 1, clock_cycles: 1 },
        0x48 => Instruction { disassembly: "LD C B", op_len: 1, clock_cycles: 1 },
        0x49 => Instruction { disassembly: "LD C C", op_len: 1, clock_cycles: 1 },
        0x4A => Instruction { disassembly: "LD C D", op_len: 1, clock_cycles: 1 },
        0x4B => Instruction { disassembly: "LD C E", op_len: 1, clock_cycles: 1 },
        0x4C => Instruction { disassembly: "LD C H", op_len: 1, clock_cycles: 1 },
        0x4D => Instruction { disassembly: "LD C L", op_len: 1, clock_cycles: 1 },
        0x4E => Instruction { disassembly: "LD C (HL)", op_len: 1, clock_cycles: 2 },
        0x4F => Instruction { disassembly: "LD C A", op_len: 1, clock_cycles: 1 },
        0x50 => Instruction { disassembly: "LD D B", op_len: 1, clock_cycles: 1 },
        0x51 => Instruction { disassembly: "LD D C", op_len: 1, clock_cycles: 1 },
        0x52 => Instruction { disassembly: "LD D D", op_len: 1, clock_cycles: 1 },
        0x53 => Instruction { disassembly: "LD D E", op_len: 1, clock_cycles: 1 },
        0x54 => Instruction { disassembly: "LD D H", op_len: 1, clock_cycles: 1 },
        0x55 => Instruction { disassembly: "LD D L", op_len: 1, clock_cycles: 1 },
        0x56 => Instruction { disassembly: "LD D (HL)", op_len: 1, clock_cycles: 2 },
        0x57 => Instruction { disassembly: "LD D A", op_len: 1, clock_cycles: 1 },
        0x58 => Instruction { disassembly: "LD E B", op_len: 1, clock_cycles: 1 },
        0x59 => Instruction { disassembly: "LD E C", op_len: 1, clock_cycles: 1 },
        0x5A => Instruction { disassembly: "LD E D", op_len: 1, clock_cycles: 1 },
        0x5B => Instruction { disassembly: "LD E E", op_len: 1, clock_cycles: 1 },
        0x5C => Instruction { disassembly: "LD E H", op_len: 1, clock_cycles: 1 },
        0x5D => Instruction { disassembly: "LD E L", op_len: 1, clock_cycles: 1 },
        0x5E => Instruction { disassembly: "LD E (HL)", op_len: 1, clock_cycles: 2 },
        0x5F => Instruction { disassembly: "LD E A", op_len: 1, clock_cycles: 1 },
        0x60 => Instruction { disassembly: "LD H B", op_len: 1, clock_cycles: 1 },
        0x61 => Instruction { disassembly: "LD H C", op_len: 1, clock_cycles: 1 },
        0x62 => Instruction { disassembly: "LD H D", op_len: 1, clock_cycles: 1 },
        0x63 => Instruction { disassembly: "LD H E", op_len: 1, clock_cycles: 1 },
        0x64 => Instruction { disassembly: "LD H H", op_len: 1, clock_cycles: 1 },
        0x65 => Instruction { disassembly: "LD H L", op_len: 1, clock_cycles: 1 },
        0x66 => Instruction { disassembly: "LD H (HL)", op_len: 1, clock_cycles: 2 },
        0x67 => Instruction { disassembly: "LD H A", op_len: 1, clock_cycles: 1 },
        0x68 => Instruction { disassembly: "LD L B", op_len: 1, clock_cycles: 1 },
        0x69 => Instruction { disassembly: "LD L C", op_len: 1, clock_cycles: 1 },
        0x6A => Instruction { disassembly: "LD L D", op_len: 1, clock_cycles: 1 },
        0x6B => Instruction { disassembly: "LD L E", op_len: 1, clock_cycles: 1 },
        0x6C => Instruction { disassembly: "LD L H", op_len: 1, clock_cycles: 1 },
        0x6D => Instruction { disassembly: "LD L L", op_len: 1, clock_cycles: 1 },
        0x6E => Instruction { disassembly: "LD L (HL)", op_len: 1, clock_cycles: 2 },
        0x6F => Instruction { disassembly: "LD L A", op_len: 1, clock_cycles: 1 },
        0x70 => Instruction { disassembly: "LD (HL) B", op_len: 1, clock_cycles: 2 },
        0x71 => Instruction { disassembly: "LD (HL) C", op_len: 1, clock_cycles: 2 },
        0x72 => Instruction { disassembly: "LD (HL) D", op_len: 1, clock_cycles: 2 },
        0x73 => Instruction { disassembly: "LD (HL) E", op_len: 1, clock_cycles: 2 },
        0x74 => Instruction { disassembly: "LD (HL) H", op_len: 1, clock_cycles: 2 },
        0x75 => Instruction { disassembly: "LD (HL) L", op_len: 1, clock_cycles: 2 },
        0x76 => Instruction { disassembly: "HALT", op_len: 1, clock_cycles: 1 },
        0x77 => Instruction { disassembly: "LD (HL) A", op_len: 1, clock_cycles: 2 },
        0x78 => Instruction { disassembly: "LD A B", op_len: 1, clock_cycles: 1 },
        0x79 => Instruction { disassembly: "LD A C", op_len: 1, clock_cycles: 1 },
        0x7A => Instruction { disassembly: "LD A D", op_len: 1, clock_cycles: 1 },
        0x7B => Instruction { disassembly: "LD A E", op_len: 1, clock_cycles: 1 },
        0x7C => Instruction { disassembly: "LD A H", op_len: 1, clock_cycles: 1 },
        0x7D => Instruction { disassembly: "LD A L", op_len: 1, clock_cycles: 1 },
        0x7E => Instruction { disassembly: "LD A (HL)", op_len: 1, clock_cycles: 2 },
        0x7F => Instruction { disassembly: "LD A A", op_len: 1, clock_cycles: 1 },
        0x80 => Instruction { disassembly: "ADD A B", op_len: 1, clock_cycles: 1 },
        0x81 => Instruction { disassembly: "ADD A C", op_len: 1, clock_cycles: 1 },
        0x82 => Instruction { disassembly: "ADD A D", op_len: 1, clock_cycles: 1 },
        0x83 => Instruction { disassembly: "ADD A E", op_len: 1, clock_cycles: 1 },
        0x84 => Instruction { disassembly: "ADD A H", op_len: 1, clock_cycles: 1 },
        0x85 => Instruction { disassembly: "ADD A L", op_len: 1, clock_cycles: 1 },
        0x86 => Instruction { disassembly: "ADD A (HL)", op_len: 1, clock_cycles: 2 },
        0x87 => Instruction { disassembly: "ADD A A", op_len: 1, clock_cycles: 1 },
        0x88 => Instruction { disassembly: "ADC A B", op_len: 1, clock_cycles: 1 },
        0x89 => Instruction { disassembly: "ADC A C", op_len: 1, clock_cycles: 1 },
        0x8A => Instruction { disassembly: "ADC A D", op_len: 1, clock_cycles: 1 },
        0x8B => Instruction { disassembly: "ADC A E", op_len: 1, clock_cycles: 1 },
        0x8C => Instruction { disassembly: "ADC A H", op_len: 1, clock_cycles: 1 },
        0x8D => Instruction { disassembly: "ADC A L", op_len: 1, clock_cycles: 1 },
        0x8E => Instruction { disassembly: "ADC A (HL)", op_len: 1, clock_cycles: 2 },
        0x8F => Instruction { disassembly: "ADC A A", op_len: 1, clock_cycles: 1 },
        0x90 => Instruction { disassembly: "SUB B", op_len: 1, clock_cycles: 1 },
        0x91 => Instruction { disassembly: "SUB C", op_len: 1, clock_cycles: 1 },
        0x92 => Instruction { disassembly: "SUB D", op_len: 1, clock_cycles: 1 },
        0x93 => Instruction { disassembly: "SUB E", op_len: 1, clock_cycles: 1 },
        0x94 => Instruction { disassembly: "SUB H", op_len: 1, clock_cycles: 1 },
        0x95 => Instruction { disassembly: "SUB L", op_len: 1, clock_cycles: 1 },
        0x96 => Instruction { disassembly: "SUB (HL)", op_len: 1, clock_cycles: 2 },
        0x97 => Instruction { disassembly: "SUB A", op_len: 1, clock_cycles: 1 },
        0x98 => Instruction { disassembly: "SBC A B", op_len: 1, clock_cycles: 1 },
        0x99 => Instruction { disassembly: "SBC A C", op_len: 1, clock_cycles: 1 },
        0x9A => Instruction { disassembly: "SBC A D", op_len: 1, clock_cycles: 1 },
        0x9B => Instruction { disassembly: "SBC A E", op_len: 1, clock_cycles: 1 },
        0x9C => Instruction { disassembly: "SBC A H", op_len: 1, clock_cycles: 1 },
        0x9D => Instruction { disassembly: "SBC A L", op_len: 1, clock_cycles: 1 },
        0x9E => Instruction { disassembly: "SBC A (HL)", op_len: 1, clock_cycles: 2 },
        0x9F => Instruction { disassembly: "SBC A A", op_len: 1, clock_cycles: 1 },
        0xA0 => Instruction { disassembly: "AND B", op_len: 1, clock_cycles: 1 },
        0xA1 => Instruction { disassembly: "AND C", op_len: 1, clock_cycles: 1 },
        0xA2 => Instruction { disassembly: "AND D", op_len: 1, clock_cycles: 1 },
        0xA3 => Instruction { disassembly: "AND E", op_len: 1, clock_cycles: 1 },
        0xA4 => Instruction { disassembly: "AND H", op_len: 1, clock_cycles: 1 },
        0xA5 => Instruction { disassembly: "AND L", op_len: 1, clock_cycles: 1 },
        0xA6 => Instruction { disassembly: "AND (HL)", op_len: 1, clock_cycles: 2 },
        0xA7 => Instruction { disassembly: "AND A", op_len: 1, clock_cycles: 1 },
        0xA8 => Instruction { disassembly: "XOR B", op_len: 1, clock_cycles: 1 },
        0xA9 => Instruction { disassembly: "XOR C", op_len: 1, clock_cycles: 1 },
        0xAA => Instruction { disassembly: "XOR D", op_len: 1, clock_cycles: 1 },
        0xAB => Instruction { disassembly: "XOR E", op_len: 1, clock_cycles: 1 },
        0xAC => Instruction { disassembly: "XOR H", op_len: 1, clock_cycles: 1 },
        0xAD => Instruction { disassembly: "XOR L", op_len: 1, clock_cycles: 1 },
        0xAE => Instruction { disassembly: "XOR (HL)", op_len: 1, clock_cycles: 2 },
        0xAF => Instruction { disassembly: "XOR A", op_len: 1, clock_cycles: 1 },
        0xB0 => Instruction { disassembly: "OR B", op_len: 1, clock_cycles: 1 },
        0xB1 => Instruction { disassembly: "OR C", op_len: 1, clock_cycles: 1 },
        0xB2 => Instruction { disassembly: "OR D", op_len: 1, clock_cycles: 1 },
        0xB3 => Instruction { disassembly: "OR E", op_len: 1, clock_cycles: 1 },
        0xB4 => Instruction { disassembly: "OR H", op_len: 1, clock_cycles: 1 },
        0xB5 => Instruction { disassembly: "OR L", op_len: 1, clock_cycles: 1 },
        0xB6 => Instruction { disassembly: "OR (HL)", op_len: 1, clock_cycles: 2 },
        0xB7 => Instruction { disassembly: "OR A", op_len: 1, clock_cycles: 1 },
        0xB8 => Instruction { disassembly: "CP B", op_len: 1, clock_cycles: 1 },
        0xB9 => Instruction { disassembly: "CP C", op_len: 1, clock_cycles: 1 },
        0xBA => Instruction { disassembly: "CP D", op_len: 1, clock_cycles: 1 },
        0xBB => Instruction { disassembly: "CP E", op_len: 1, clock_cycles: 1 },
        0xBC => Instruction { disassembly: "CP H", op_len: 1, clock_cycles: 1 },
        0xBD => Instruction { disassembly: "CP L", op_len: 1, clock_cycles: 1 },
        0xBE => Instruction { disassembly: "CP (HL)", op_len: 1, clock_cycles: 2 },
        0xBF => Instruction { disassembly: "CP A", op_len: 1, clock_cycles: 1 },
        0xC0 => Instruction { disassembly: "RET NZ", op_len: 1, clock_cycles: 5 },
        0xC1 => Instruction { disassembly: "POP BC", op_len: 1, clock_cycles: 3 },
        0xC2 => Instruction { disassembly: "JP NZ a16", op_len: 3, clock_cycles: 4 },
        0xC3 => Instruction { disassembly: "JP a16", op_len: 3, clock_cycles: 4 },
        0xC4 => Instruction { disassembly: "CALL NZ a16", op_len: 3, clock_cycles: 6 },
        0xC5 => Instruction { disassembly: "PUSH BC", op_len: 1, clock_cycles: 4 },
        0xC6 => Instruction { disassembly: "ADD A d8", op_len: 2, clock_cycles: 2 },
        0xC7 => Instruction { disassembly: "RST 0", op_len: 1, clock_cycles: 4 },
        0xC8 => Instruction { disassembly: "RET Z", op_len: 1, clock_cycles: 5 },
        0xC9 => Instruction { disassembly: "RET", op_len: 1, clock_cycles: 4 },
        0xCA => Instruction { disassembly: "JP Z a16", op_len: 3, clock_cycles: 4 },
        0xCB => Instruction { disassembly: "NOT VALID", op_len: 2, clock_cycles: 1 },
        0xCC => Instruction { disassembly: "CALL Z a16", op_len: 3, clock_cycles: 6 },
        0xCD => Instruction { disassembly: "CALL a16", op_len: 3, clock_cycles: 6 },
        0xCE => Instruction { disassembly: "ADC A d8", op_len: 2, clock_cycles: 2 },
        0xCF => Instruction { disassembly: "RST 1", op_len: 1, clock_cycles: 4 },
        0xD0 => Instruction { disassembly: "RET NC", op_len: 1, clock_cycles: 5 },
        0xD1 => Instruction { disassembly: "POP DE", op_len: 1, clock_cycles: 3 },
        0xD2 => Instruction { disassembly: "JP NC a16", op_len: 3, clock_cycles: 4 },
        0xD3 => Instruction { disassembly: "NOT VALID", op_len: 0, clock_cycles: 0 },
        0xD4 => Instruction { disassembly: "CALL NC a16", op_len: 3, clock_cycles: 6 },
        0xD5 => Instruction { disassembly: "PUSH DE", op_len: 1, clock_cycles: 4 },
        0xD6 => Instruction { disassembly: "SUB d8", op_len: 2, clock_cycles: 2 },
        0xD7 => Instruction { disassembly: "RST 2", op_len: 1, clock_cycles: 4 },
        0xD8 => Instruction { disassembly: "RET C", op_len: 1, clock_cycles: 5 },
        0xD9 => Instruction { disassembly: "RETI", op_len: 1, clock_cycles: 4 },
        0xDA => Instruction { disassembly: "JP C a16", op_len: 3, clock_cycles: 4 },
        0xDB => Instruction { disassembly: "NOT VALID", op_len: 0, clock_cycles: 0 },
        0xDC => Instruction { disassembly: "CALL C a16", op_len: 3, clock_cycles: 6 },
        0xDD => Instruction { disassembly: "NOT VALID", op_len: 0, clock_cycles: 0 },
        0xDE => Instruction { disassembly: "SBC A d8", op_len: 2, clock_cycles: 2 },
        0xDF => Instruction { disassembly: "RST 3", op_len: 1, clock_cycles: 4 },
        0xE0 => Instruction { disassembly: "LD (a8) A", op_len: 2, clock_cycles: 3 },
        0xE1 => Instruction { disassembly: "POP HL", op_len: 1, clock_cycles: 3 },
        0xE2 => Instruction { disassembly: "LD (C) A", op_len: 1, clock_cycles: 2 },
        0xE3 => Instruction { disassembly: "NOT VALID", op_len: 0, clock_cycles: 0 },
        0xE4 => Instruction { disassembly: "NOT VALID", op_len: 0, clock_cycles: 0 },
        0xE5 => Instruction { disassembly: "PUSH HL", op_len: 1, clock_cycles: 4 },
        0xE6 => Instruction { disassembly: "AND d8", op_len: 2, clock_cycles: 2 },
        0xE7 => Instruction { disassembly: "RST 4", op_len: 1, clock_cycles: 4 },
        0xE8 => Instruction { disassembly: "ADD SP s8", op_len: 2, clock_cycles: 4 },
        0xE9 => Instruction { disassembly: "JP HL", op_len: 1, clock_cycles: 1 },
        0xEA => Instruction { disassembly: "LD (a16) A", op_len: 3, clock_cycles: 4 },
        0xEB => Instruction { disassembly: "NOT VALID", op_len: 0, clock_cycles: 0 },
        0xEC => Instruction { disassembly: "NOT VALID", op_len: 0, clock_cycles: 0 },
        0xED => Instruction { disassembly: "NOT VALID", op_len: 0, clock_cycles: 0 },
        0xEE => Instruction { disassembly: "XOR d8", op_len: 2, clock_cycles: 2 },
        0xEF => Instruction { disassembly: "RST 5", op_len: 1, clock_cycles: 4 },
        0xF0 => Instruction { disassembly: "LD A (a8)", op_len: 2, clock_cycles: 3 },
        0xF1 => Instruction { disassembly: "POP AF", op_len: 1, clock_cycles: 3 },
        0xF2 => Instruction { disassembly: "LD A (C)", op_len: 1, clock_cycles: 2 },
        0xF3 => Instruction { disassembly: "DI", op_len: 1, clock_cycles: 1 },
        0xF4 => Instruction { disassembly: "NOT VALID", op_len: 0, clock_cycles: 0 },
        0xF5 => Instruction { disassembly: "PUSH AF", op_len: 1, clock_cycles: 4 },
        0xF6 => Instruction { disassembly: "OR d8", op_len: 2, clock_cycles: 2 },
        0xF7 => Instruction { disassembly: "RST 6", op_len: 1, clock_cycles: 4 },
        0xF8 => Instruction { disassembly: "LD HL SP+s8", op_len: 2, clock_cycles: 3 },
        0xF9 => Instruction { disassembly: "LD SP HL", op_len: 1, clock_cycles: 2 },
        0xFA => Instruction { disassembly: "LD A (a16)", op_len: 3, clock_cycles: 4 },
        0xFB => Instruction { disassembly: "EI", op_len: 1, clock_cycles: 1 },
        0xFC => Instruction { disassembly: "NOT VALID", op_len: 0, clock_cycles: 0 },
        0xFD => Instruction { disassembly: "NOT VALID", op_len: 0, clock_cycles: 0 },
        0xFE => Instruction { disassembly: "CP d8", op_len: 2, clock_cycles: 2 },
        _ => Instruction { disassembly: "RST 7", op_len: 1, clock_cycles: 4 },
    }
}

// LD r,r': register-to-register moves.

/// LD B,B. A move onto itself: no effect.
pub fn ld_b_b(cpu: &mut CPU)
    ensures
        *final(cpu) == *old(cpu),
{
}

/// LD B,C.
pub fn ld_b_c(cpu: &mut CPU)
    ensures
        *final(cpu) == (CPU { bc: (Register { high: old(cpu).bc.low, ..old(cpu).bc }), ..*old(cpu) }),
{
    cpu.bc.high = cpu.bc.low;
}

/// LD B,D.
pub fn ld_b_d(cpu: &mut CPU)
    ensures
        *final(cpu) == (CPU { bc: (Register { high: old(cpu).de.high, ..old(cpu).bc }), ..*old(cpu) }),
{
    cpu.bc.high = cpu.de.high;
}

/// LD B,E.
pub fn ld_b_e(cpu: &mut CPU)
    ensures
        *final(cpu) == (CPU { bc: (Register { high: old(cpu).de.low, ..old(cpu).bc }), ..*old(cpu) }),
{
    cpu.bc.high = cpu.de.low;
}

/// LD B,H.
pub fn ld_b_h(cpu: &mut CPU)
    ensures
        *final(cpu) == (CPU { bc: (Register { high: old(cpu).hl.high, ..old(cpu).bc }), ..*old(cpu) }),
{
    cpu.bc.high = cpu.hl.high;
}

/// LD B,L.
pub fn ld_b_l(cpu: &mut CPU)
    ensures
        *final(cpu) == (CPU { bc: (Register { high: old(cpu).hl.low, ..old(cpu).bc }), ..*old(cpu) }),
{
    cpu.bc.high = cpu.hl.low;
}

/// LD B,A.
pub fn ld_b_a(cpu: &mut CPU)
    ensures
        *final(cpu) == (CPU { bc: (Register { high: old(cpu).af.high, ..old(cpu).bc }), ..*old(cpu) }),
{
    cpu.bc.high = cpu.af.high;
}

/// LD B,(HL).
pub fn ld_b_hl_ptr(cpu: &mut CPU, bus: &Bus)
    requires
        bus.wf(),
    ensures
        *final(cpu) == (CPU { bc: (Register { high: spec_read(bus@, old(cpu).hl.spec_combined()), ..old(cpu).bc }), ..*old(cpu) }),
{
    cpu.bc.high = bus.fetch_byte(cpu.hl.get_combined());
}

/// LD C,B.
pub fn ld_c_b(cpu: &mut CPU)
    ensures
        *final(cpu) == (CPU { bc: (Register { low: old(cpu).bc.high, ..old(cpu).bc }), ..*old(cpu) }),
{
    cpu.bc.low = cpu.bc.high;
}

/// LD C,C. A move onto itself: no effect.
pub fn ld_c_c(cpu: &mut CPU)
    ensures
        *final(cpu) == *old(cpu),
{
}

/// LD C,D.
pub fn ld_c_d(cpu: &mut CPU)
    ensures
        *final(cpu) == (CPU { bc: (Register { low: old(cpu).de.high, ..old(cpu).bc }), ..*old(cpu) }),
{
    cpu.bc.low = cpu.de.high;
}

/// LD C,E.
pub fn ld_c_e(cpu: &mut CPU)
    ensures
        *final(cpu) == (CPU { bc: (Register { low: old(cpu).de.low, ..old(cpu).bc }), ..*old(cpu) }),
{
    cpu.bc.low = cpu.de.low;
}

/// LD C,H.
pub fn ld_c_h(cpu: &mut CPU)
    ensures
        *final(cpu) == (CPU { bc: (Register { low: old(cpu).hl.high, ..old(cpu).bc }), ..*old(cpu) }),
{
    cpu.bc.low = cpu.hl.high;
}

/// LD C,L.
pub fn ld_c_l(cpu: &mut CPU)
    ensures
        *final(cpu) == (CPU { bc: (Register { low: old(cpu).hl.low, ..old(cpu).bc }), ..*old(cpu) }),
{
    cpu.bc.low = cpu.hl.low;
}

/// LD C,A.
pub fn ld_c_a(cpu: &mut CPU)
    ensures
        *final(cpu) == (CPU { bc: (Register { low: old(cpu).af.high, ..old(cpu).bc }), ..*old(cpu) }),
{
    cpu.bc.low = cpu.af.high;
}

/// LD C,(HL).
pub fn ld_c_hl_ptr(cpu: &mut CPU, bus: &Bus)
    requires
        bus.wf(),
    ensures
        *final(cpu) == (CPU { bc: (Register { low: spec_read(bus@, old(cpu).hl.spec_combined()), ..old(cpu).bc }), ..*old(cpu) }),
{
    cpu.bc.low = bus.fetch_byte(cpu.hl.get_combined());
}

/// LD D,B.
pub fn ld_d_b(cpu: &mut CPU)
    ensures
        *final(cpu) == (CPU { de: (Register { high: old(cpu).bc.high, ..old(cpu).de }), ..*old(cpu) }),
{
    cpu.de.high = cpu.bc.high;
}

/// LD D,C.
pub fn ld_d_c(cpu: &mut CPU)
    ensures
        *final(cpu) == (CPU { de: (Register { high: old(cpu).bc.low, ..old(cpu).de }), ..*old(cpu) }),
{
    cpu.de.high = cpu.bc.low;
}

/// LD D,D. A move onto itself: no effect.
pub fn ld_d_d(cpu: &mut CPU)
    ensures
        *final(cpu) == *old(cpu),
{
}

/// LD D,E.
pub fn ld_d_e(cpu: &mut CPU)
    ensures
        *final(cpu) == (CPU { de: (Register { high: old(cpu).de.low, ..old(cpu).de }), ..*old(cpu) }),
{
    cpu.de.high = cpu.de.low;
}

/// LD D,H.
pub fn ld_d_h(cpu: &mut CPU)
    ensures
        *final(cpu) == (CPU { de: (Register { high: old(cpu).hl.high, ..old(cpu).de }), ..*old(cpu) }),
{
    cpu.de.high = cpu.hl.high;
}

/// LD D,L.
pub fn ld_d_l(cpu: &mut CPU)
    ensures
        *final(cpu) == (CPU { de: (Register { high: old(cpu).hl.low, ..old(cpu).de }), ..*old(cpu) }),
{
    cpu.de.high = cpu.hl.low;
}

/// LD D,A.
pub fn ld_d_a(cpu: &mut CPU)
    ensures
        *final(cpu) == (CPU { de: (Register { high: old(cpu).af.high, ..old(cpu).de }), ..*old(cpu) }),
{
    cpu.de.high = cpu.af.high;
}

/// LD D,(HL).
pub fn ld_d_hl_ptr(cpu: &mut CPU, bus: &Bus)
    requires
        bus.wf(),
    ensures
        *final(cpu) == (CPU { de: (Register { high: spec_read(bus@, old(cpu).hl.spec_combined()), ..old(cpu).de }), ..*old(cpu) }),
{
    cpu.de.high = bus.fetch_byte(cpu.hl.get_combined());
}

/// LD E,B.
pub fn ld_e_b(cpu: &mut CPU)
    ensures
        *final(cpu) == (CPU { de: (Register { low: old(cpu).bc.high, ..old(cpu).de }), ..*old(cpu) }),
{
    cpu.de.low = cpu.bc.high;
}

/// LD E,C.
pub fn ld_e_c(cpu: &mut CPU)
    ensures
        *final(cpu) == (CPU { de: (Register { low: old(cpu).bc.low, ..old(cpu).de }), ..*old(cpu) }),
{
    cpu.de.low = cpu.bc.low;
}

/// LD E,D.
pub fn ld_e_d(cpu: &mut CPU)
    ensures
        *final(cpu) == (CPU { de: (Register { low: old(cpu).de.high, ..old(cpu).de }), ..*old(cpu) }),
{
    cpu.de.low = cpu.de.high;
}

/// LD E,E. A move onto itself: no effect.
pub fn ld_e_e(cpu: &mut CPU)
    ensures
        *final(cpu) == *old(cpu),
{
}

/// LD E,H.
pub fn ld_e_h(cpu: &mut CPU)
    ensures
        *final(cpu) == (CPU { de: (Register { low: old(cpu).hl.high, ..old(cpu).de }), ..*old(cpu) }),
{
    cpu.de.low = cpu.hl.high;
}

/// LD E,L.
pub fn ld_e_l(cpu: &mut CPU)
    ensures
        *final(cpu) == (CPU { de: (Register { low: old(cpu).hl.low, ..old(cpu).de }), ..*old(cpu) }),
{
    cpu.de.low = cpu.hl.low;
}

/// LD E,A.
pub fn ld_e_a(cpu: &mut CPU)
    ensures
        *final(cpu) == (CPU { de: (Register { low: old(cpu).af.high, ..old(cpu).de }), ..*old(cpu) }),
{
    cpu.de.low = cpu.af.high;
}

/// LD E,(HL).
pub fn ld_e_hl_ptr(cpu: &mut CPU, bus: &Bus)
    requires
        bus.wf(),
    ensures
        *final(cpu) == (CPU { de: (Register { low: spec_read(bus@, old(cpu).hl.spec_combined()), ..old(cpu).de }), ..*old(cpu) }),
{
    cpu.de.low = bus.fetch_byte(cpu.hl.get_combined());
}

/// LD H,B.
pub fn ld_h_b(cpu: &mut CPU)
    ensures
        *final(cpu) == (CPU { hl: (Register { high: old(cpu).bc.high, ..old(cpu).hl }), ..*old(cpu) }),
{
    cpu.hl.high = cpu.bc.high;
}

/// LD H,C.
pub fn ld_h_c(cpu: &mut CPU)
    ensures
        *final(cpu) == (CPU { hl: (Register { high: old(cpu).bc.low, ..old(cpu).hl }), ..*old(cpu) }),
{
    cpu.hl.high = cpu.bc.low;
}

/// LD H,D.
pub fn ld_h_d(cpu: &mut CPU)
    ensures
        *final(cpu) == (CPU { hl: (Register { high: old(cpu).de.high, ..old(cpu).hl }), ..*old(cpu) }),
{
    cpu.hl.high = cpu.de.high;
}

/// LD H,E.
pub fn ld_h_e(cpu: &mut CPU)
    ensures
        *final(cpu) == (CPU { hl: (Register { high: old(cpu).de.low, ..old(cpu).hl }), ..*old(cpu) }),
{
    cpu.hl.high = cpu.de.low;
}

/// LD H,H. A move onto itself: no effect.
pub fn ld_h_h(cpu: &mut CPU)
    ensures
        *final(cpu) == *old(cpu),
{
}

/// LD H,L.
pub fn ld_h_l(cpu: &mut CPU)
    ensures
        *final(cpu) == (CPU { hl: (Register { high: old(cpu).hl.low, ..old(cpu).hl }), ..*old(cpu) }),
{
    cpu.hl.high = cpu.hl.low;
}

/// LD H,A.
pub fn ld_h_a(cpu: &mut CPU)
    ensures
        *final(cpu) == (CPU { hl: (Register { high: old(cpu).af.high, ..old(cpu).hl }), ..*old(cpu) }),
{
    cpu.hl.high = cpu.af.high;
}

/// LD H,(HL).
pub fn ld_h_hl_ptr(cpu: &mut CPU, bus: &Bus)
    requires
        bus.wf(),
    ensures
        *final(cpu) == (CPU { hl: (Register { high: spec_read(bus@, old(cpu).hl.spec_combined()), ..old(cpu).hl }), ..*old(cpu) }),
{
    cpu.hl.high = bus.fetch_byte(cpu.hl.get_combined());
}

/// LD L,B.
pub fn ld_l_b(cpu: &mut CPU)
    ensures
        *final(cpu) == (CPU { hl: (Register { low: old(cpu).bc.high, ..old(cpu).hl }), ..*old(cpu) }),
{
    cpu.hl.low = cpu.bc.high;
}

/// LD L,C.
pub fn ld_l_c(cpu: &mut CPU)
    ensures
        *final(cpu) == (CPU { hl: (Register { low: old(cpu).bc.low, ..old(cpu).hl }), ..*old(cpu) }),
{
    cpu.hl.low = cpu.bc.low;
}

/// LD L,D.
pub fn ld_l_d(cpu: &mut CPU)
    ensures
        *final(cpu) == (CPU { hl: (Register { low: old(cpu).de.high, ..old(cpu).hl }), ..*old(cpu) }),
{
    cpu.hl.low = cpu.de.high;
}

/// LD L,E.
pub fn ld_l_e(cpu: &mut CPU)
    ensures
        *final(cpu) == (CPU { hl: (Register { low: old(cpu).de.low, ..old(cpu).hl }), ..*old(cpu) }),
{
    cpu.hl.low = cpu.de.low;
}

/// LD L,H.
pub fn ld_l_h(cpu: &mut CPU)
    ensures
        *final(cpu) == (CPU { hl: (Register { low: old(cpu).hl.high, ..old(cpu).hl }), ..*old(cpu) }),
{
    cpu.hl.low = cpu.hl.high;
}

/// LD L,L. A move onto itself: no effect.
pub fn ld_l_l(cpu: &mut CPU)
    ensures
        *final(cpu) == *old(cpu),
{
}

/// LD L,A.
pub fn ld_l_a(cpu: &mut CPU)
    ensures
        *final(cpu) == (CPU { hl: (Register { low: old(cpu).af.high, ..old(cpu).hl }), ..*old(cpu) }),
{
    cpu.hl.low = cpu.af.high;
}

/// LD L,(HL).
pub fn ld_l_hl_ptr(cpu: &mut CPU, bus: &Bus)
    requires
        bus.wf(),
    ensures
        *final(cpu) == (CPU { hl: (Register { low: spec_read(bus@, old(cpu).hl.spec_combined()), ..old(cpu).hl }), ..*old(cpu) }),
{
    cpu.hl.low = bus.fetch_byte(cpu.hl.get_combined());
}

/// LD A,B.
pub fn ld_a_b(cpu: &mut CPU)
    ensures
        *final(cpu) == (CPU { af: (Register { high: old(cpu).bc.high, ..old(cpu).af }), ..*old(cpu) }),
{
    cpu.af.high = cpu.bc.high;
}

/// LD A,C.
pub fn ld_a_c(cpu: &mut CPU)
    ensures
        *final(cpu) == (CPU { af: (Register { high: old(cpu).bc.low, ..old(cpu).af }), ..*old(cpu) }),
{
    cpu.af.high = cpu.bc.low;
}

/// LD A,D.
pub fn ld_a_d(cpu: &mut CPU)
    ensures
        *final(cpu) == (CPU { af: (Register { high: old(cpu).de.high, ..old(cpu).af }), ..*old(cpu) }),
{
    cpu.af.high = cpu.de.high;
}

/// LD A,E.
pub fn ld_a_e(cpu: &mut CPU)
    ensures
        *final(cpu) == (CPU { af: (Register { high: old(cpu).de.low, ..old(cpu).af }), ..*old(cpu) }),
{
    cpu.af.high = cpu.de.low;
}

/// LD A,H.
pub fn ld_a_h(cpu: &mut CPU)
    ensures
        *final(cpu) == (CPU { af: (Register { high: old(cpu).hl.high, ..old(cpu).af }), ..*old(cpu) }),
{
    cpu.af.high = cpu.hl.high;
}

/// LD A,L.
pub fn ld_a_l(cpu: &mut CPU)
    ensures
        *final(cpu) == (CPU { af: (Register { high: old(cpu).hl.low, ..old(cpu).af }), ..*old(cpu) }),
{
    cpu.af.high = cpu.hl.low;
}

/// LD A,A. A move onto itself: no effect.
pub fn ld_a_a(cpu: &mut CPU)
    ensures
        *final(cpu) == *old(cpu),
{
}

/// LD A,(HL).
pub fn ld_a_hl_ptr(cpu: &mut CPU, bus: &Bus)
    requires
        bus.wf(),
    ensures
        *final(cpu) == (CPU { af: (Register { high: spec_read(bus@, old(cpu).hl.spec_combined()), ..old(cpu).af }), ..*old(cpu) }),
{
    cpu.af.high = bus.fetch_byte(cpu.hl.get_combined());
}

/// LD (HL),B.
pub fn load_b_into_hl_ptr(cpu: &CPU, bus: &mut Bus)
    requires
        old(bus).wf(),
    ensures
        final(bus).wf(),
        final(bus)@ == spec_write(old(bus)@, cpu.hl.spec_combined(), cpu.bc.high),
{
    bus.set_byte(cpu.hl.get_combined(), cpu.bc.high);
}

/// LD (HL),C.
pub fn load_c_into_hl_ptr(cpu: &CPU, bus: &mut Bus)
    requires
        old(bus).wf(),
    ensures
        final(bus).wf(),
        final(bus)@ == spec_write(old(bus)@, cpu.hl.spec_combined(), cpu.bc.low),
{
    bus.set_byte(cpu.hl.get_combined(), cpu.bc.low);
}

/// LD (HL),D.
pub fn load_d_into_hl_ptr(cpu: &CPU, bus: &mut Bus)
    requires
        old(bus).wf(),
    ensures
        final(bus).wf(),
        final(bus)@ == spec_write(old(bus)@, cpu.hl.spec_combined(), cpu.de.high),
{
    bus.set_byte(cpu.hl.get_combined(), cpu.de.high);
}

/// LD (HL),E.
pub fn load_e_into_hl_ptr(cpu: &CPU, bus: &mut Bus)
    requires
        old(bus).wf(),
    ensures
        final(bus).wf(),
        final(bus)@ == spec_write(old(bus)@, cpu.hl.spec_combined(), cpu.de.low),
{
    bus.set_byte(cpu.hl.get_combined(), cpu.de.low);
}

/// LD (HL),H.
pub fn load_h_into_hl_ptr(cpu: &CPU, bus: &mut Bus)
    requires
        old(bus).wf(),
    ensures
        final(bus).wf(),
        final(bus)@ == spec_write(old(bus)@, cpu.hl.spec_combined(), cpu.hl.high),
{
    bus.set_byte(cpu.hl.get_combined(), cpu.hl.high);
}

/// LD (HL),L.
pub fn load_l_into_hl_ptr(cpu: &CPU, bus: &mut Bus)
    requires
        old(bus).wf(),
    ensures
        final(bus).wf(),
        final(bus)@ == spec_write(old(bus)@, cpu.hl.spec_combined(), cpu.hl.low),
{
    bus.set_byte(cpu.hl.get_combined(), cpu.hl.low);
}

/// LD (HL),A.
pub fn load_a_into_hl_ptr(cpu: &CPU, bus: &mut Bus)
    requires
        old(bus).wf(),
    ensures
        final(bus).wf(),
        final(bus)@ == spec_write(old(bus)@, cpu.hl.spec_combined(), cpu.af.high),
{
    bus.set_byte(cpu.hl.get_combined(), cpu.af.high);
}

// Arithmetic and logic on the accumulator.

/// ADD A,B.
pub fn add_a_b(cpu: &mut CPU)
    ensures
        *final(cpu) == (CPU { af: (Register { high: add8(old(cpu).af.high, old(cpu).bc.high), low: flags(add8(old(cpu).af.high, old(cpu).bc.high) == 0, false, add_half(old(cpu).af.high, old(cpu).bc.high), add_carry(old(cpu).af.high, old(cpu).bc.high)) }), ..*old(cpu) }),
{
    let rf = alu_add(cpu.af.high, cpu.bc.high);
    cpu.af.high = rf.0;
    cpu.af.low = rf.1;
}

/// ADD A,C.
pub fn add_a_c(cpu: &mut CPU)
    ensures
        *final(cpu) == (CPU { af: (Register { high: add8(old(cpu).af.high, old(cpu).bc.low), low: flags(add8(old(cpu).af.high, old(cpu).bc.low) == 0, false, add_half(old(cpu).af.high, old(cpu).bc.low), add_carry(old(cpu).af.high, old(cpu).bc.low)) }), ..*old(cpu) }),
{
    let rf = alu_add(cpu.af.high, cpu.bc.low);
    cpu.af.high = rf.0;
    cpu.af.low = rf.1;
}

/// ADD A,D.
pub fn add_a_d(cpu: &mut CPU)
    ensures
        *final(cpu) == (CPU { af: (Register { high: add8(old(cpu).af.high, old(cpu).de.high), low: flags(add8(old(cpu).af.high, old(cpu).de.high) == 0, false, add_half(old(cpu).af.high, old(cpu).de.high), add_carry(old(cpu).af.high, old(cpu).de.high)) }), ..*old(cpu) }),
{
    let rf = alu_add(cpu.af.high, cpu.de.high);
    cpu.af.high = rf.0;
    cpu.af.low = rf.1;
}

/// ADD A,E.
pub fn add_a_e(cpu: &mut CPU)
    ensures
        *final(cpu) == (CPU { af: (Register { high: add8(old(cpu).af.high, old(cpu).de.low), low: flags(add8(old(cpu).af.high, old(cpu).de.low) == 0, false, add_half(old(cpu).af.high, old(cpu).de.low), add_carry(old(cpu).af.high, old(cpu).de.low)) }), ..*old(cpu) }),
{
    let rf = alu_add(cpu.af.high, cpu.de.low);
    cpu.af.high = rf.0;
    cpu.af.low = rf.1;
}

/// ADD A,H.
pub fn add_a_h(cpu: &mut CPU)
    ensures
        *final(cpu) == (CPU { af: (Register { high: add8(old(cpu).af.high, old(cpu).hl.high), low: flags(add8(old(cpu).af.high, old(cpu).hl.high) == 0, false, add_half(old(cpu).af.high, old(cpu).hl.high), add_carry(old(cpu).af.high, old(cpu).hl.high)) }), ..*old(cpu) }),
{
    let rf = alu_add(cpu.af.high, cpu.hl.high);
    cpu.af.high = rf.0;
    cpu.af.low = rf.1;
}

/// ADD A,L.
pub fn add_a_l(cpu: &mut CPU)
    ensures
        *final(cpu) == (CPU { af: (Register { high: add8(old(cpu).af.high, old(cpu).hl.low), low: flags(add8(old(cpu).af.high, old(cpu).hl.low) == 0, false, add_half(old(cpu).af.high, old(cpu).hl.low), add_carry(old(cpu).af.high, old(cpu).hl.low)) }), ..*old(cpu) }),
{
    let rf = alu_add(cpu.af.high, cpu.hl.low);
    cpu.af.high = rf.0;
    cpu.af.low = rf.1;
}

/// ADD A,A.
pub fn add_a_a(cpu: &mut CPU)
    ensures
        *final(cpu) == (CPU { af: (Register { high: add8(old(cpu).af.high, old(cpu).af.high), low: flags(add8(old(cpu).af.high, old(cpu).af.high) == 0, false, add_half(old(cpu).af.high, old(cpu).af.high), add_carry(old(cpu).af.high, old(cpu).af.high)) }), ..*old(cpu) }),
{
    let rf = alu_add(cpu.af.high, cpu.af.high);
    cpu.af.high = rf.0;
    cpu.af.low = rf.1;
}

/// ADD A,(HL).
pub fn add_hl_ptr_to_a(cpu: &mut CPU, bus: &Bus)
    requires
        bus.wf(),
    ensures
        *final(cpu) == (CPU { af: (Register { high: add8(old(cpu).af.high, spec_read(bus@, old(cpu).hl.spec_combined())), low: flags(add8(old(cpu).af.high, spec_read(bus@, old(cpu).hl.spec_combined())) == 0, false, add_half(old(cpu).af.high, spec_read(bus@, old(cpu).hl.spec_combined())), add_carry(old(cpu).af.high, spec_read(bus@, old(cpu).hl.spec_combined()))) }), ..*old(cpu) }),
{
    let v = bus.fetch_byte(cpu.hl.get_combined());
    let rf = alu_add(cpu.af.high, v);
    cpu.af.high = rf.0;
    cpu.af.low = rf.1;
}

/// ADD A,d8.
pub fn add_a_d8(cpu: &mut CPU, bus: &Bus)
    requires
        bus.wf(),
    ensures
        *final(cpu) == (CPU { af: (Register { high: add8(old(cpu).af.high, spec_read(bus@, old(cpu).pc)), low: flags(add8(old(cpu).af.high, spec_read(bus@, old(cpu).pc)) == 0, false, add_half(old(cpu).af.high, spec_read(bus@, old(cpu).pc)), add_carry(old(cpu).af.high, spec_read(bus@, old(cpu).pc))) }), ..*old(cpu) }),
{
    let v = bus.fetch_byte(cpu.pc);
    let rf = alu_add(cpu.af.high, v);
    cpu.af.high = rf.0;
    cpu.af.low = rf.1;
}

/// ADC A,B.
pub fn adc_a_b(cpu: &mut CPU)
    ensures
        *final(cpu) == (CPU { af: (Register { high: adc8(old(cpu).af.high, old(cpu).bc.high, f_c(old(cpu).af.low)), low: flags(adc8(old(cpu).af.high, old(cpu).bc.high, f_c(old(cpu).af.low)) == 0, false, adc_half(old(cpu).af.high, old(cpu).bc.high, f_c(old(cpu).af.low)), adc_carry(old(cpu).af.high, old(cpu).bc.high, f_c(old(cpu).af.low))) }), ..*old(cpu) }),
{
    let rf = alu_adc(cpu.af.high, cpu.bc.high, cpu.extract_flag('c'));
    cpu.af.high = rf.0;
    cpu.af.low = rf.1;
}

/// ADC A,C.
pub fn adc_a_c(cpu: &mut CPU)
    ensures
        *final(cpu) == (CPU { af: (Register { high: adc8(old(cpu).af.high, old(cpu).bc.low, f_c(old(cpu).af.low)), low: flags(adc8(old(cpu).af.high, old(cpu).bc.low, f_c(old(cpu).af.low)) == 0, false, adc_half(old(cpu).af.high, old(cpu).bc.low, f_c(old(cpu).af.low)), adc_carry(old(cpu).af.high, old(cpu).bc.low, f_c(old(cpu).af.low))) }), ..*old(cpu) }),
{
    let rf = alu_adc(cpu.af.high, cpu.bc.low, cpu.extract_flag('c'));
    cpu.af.high = rf.0;
    cpu.af.low = rf.1;
}

/// ADC A,D.
pub fn adc_a_d(cpu: &mut CPU)
    ensures
        *final(cpu) == (CPU { af: (Register { high: adc8(old(cpu).af.high, old(cpu).de.high, f_c(old(cpu).af.low)), low: flags(adc8(old(cpu).af.high, old(cpu).de.high, f_c(old(cpu).af.low)) == 0, false, adc_half(old(cpu).af.high, old(cpu).de.high, f_c(old(cpu).af.low)), adc_carry(old(cpu).af.high, old(cpu).de.high, f_c(old(cpu).af.low))) }), ..*old(cpu) }),
{
    let rf = alu_adc(cpu.af.high, cpu.de.high, cpu.extract_flag('c'));
    cpu.af.high = rf.0;
    cpu.af.low = rf.1;
}

/// ADC A,E.
pub fn adc_a_e(cpu: &mut CPU)
    ensures
        *final(cpu) == (CPU { af: (Register { high: adc8(old(cpu).af.high, old(cpu).de.low, f_c(old(cpu).af.low)), low: flags(adc8(old(cpu).af.high, old(cpu).de.low, f_c(old(cpu).af.low)) == 0, false, adc_half(old(cpu).af.high, old(cpu).de.low, f_c(old(cpu).af.low)), adc_carry(old(cpu).af.high, old(cpu).de.low, f_c(old(cpu).af.low))) }), ..*old(cpu) }),
{
    let rf = alu_adc(cpu.af.high, cpu.de.low, cpu.extract_flag('c'));
    cpu.af.high = rf.0;
    cpu.af.low = rf.1;
}

/// ADC A,H.
pub fn adc_a_h(cpu: &mut CPU)
    ensures
        *final(cpu) == (CPU { af: (Register { high: adc8(old(cpu).af.high, old(cpu).hl.high, f_c(old(cpu).af.low)), low: flags(adc8(old(cpu).af.high, old(cpu).hl.high, f_c(old(cpu).af.low)) == 0, false, adc_half(old(cpu).af.high, old(cpu).hl.high, f_c(old(cpu).af.low)), adc_carry(old(cpu).af.high, old(cpu).hl.high, f_c(old(cpu).af.low))) }), ..*old(cpu) }),
{
    let rf = alu_adc(cpu.af.high, cpu.hl.high, cpu.extract_flag('c'));
    cpu.af.high = rf.0;
    cpu.af.low = rf.1;
}

/// ADC A,L.
pub fn adc_a_l(cpu: &mut CPU)
    ensures
        *final(cpu) == (CPU { af: (Register { high: adc8(old(cpu).af.high, old(cpu).hl.low, f_c(old(cpu).af.low)), low: flags(adc8(old(cpu).af.high, old(cpu).hl.low, f_c(old(cpu).af.low)) == 0, false, adc_half(old(cpu).af.high, old(cpu).hl.low, f_c(old(cpu).af.low)), adc_carry(old(cpu).af.high, old(cpu).hl.low, f_c(old(cpu).af.low))) }), ..*old(cpu) }),
{
    let rf = alu_adc(cpu.af.high, cpu.hl.low, cpu.extract_flag('c'));
    cpu.af.high = rf.0;
    cpu.af.low = rf.1;
}

/// ADC A,A.
pub fn adc_a_a(cpu: &mut CPU)
    ensures
        *final(cpu) == (CPU { af: (Register { high: adc8(old(cpu).af.high, old(cpu).af.high, f_c(old(cpu).af.low)), low: flags(adc8(old(cpu).af.high, old(cpu).af.high, f_c(old(cpu).af.low)) == 0, false, adc_half(old(cpu).af.high, old(cpu).af.high, f_c(old(cpu).af.low)), adc_carry(old(cpu).af.high, old(cpu).af.high, f_c(old(cpu).af.low))) }), ..*old(cpu) }),
{
    let rf = alu_adc(cpu.af.high, cpu.af.high, cpu.extract_flag('c'));
    cpu.af.high = rf.0;
    cpu.af.low = rf.1;
}

/// ADC A,(HL).
pub fn adc_hl_ptr_into_a(cpu: &mut CPU, bus: &Bus)
    requires
        bus.wf(),
    ensures
        *final(cpu) == (CPU { af: (Register { high: adc8(old(cpu).af.high, spec_read(bus@, old(cpu).hl.spec_combined()), f_c(old(cpu).af.low)), low: flags(adc8(old(cpu).af.high, spec_read(bus@, old(cpu).hl.spec_combined()), f_c(old(cpu).af.low)) == 0, false, adc_half(old(cpu).af.high, spec_read(bus@, old(cpu).hl.spec_combined()), f_c(old(cpu).af.low)), adc_carry(old(cpu).af.high, spec_read(bus@, old(cpu).hl.spec_combined()), f_c(old(cpu).af.low))) }), ..*old(cpu) }),
{
    let v = bus.fetch_byte(cpu.hl.get_combined());
    let rf = alu_adc(cpu.af.high, v, cpu.extract_flag('c'));
    cpu.af.high = rf.0;
    cpu.af.low = rf.1;
}

/// ADC A,d8.
pub fn adc_a_d8(cpu: &mut CPU, bus: &Bus)
    requires
        bus.wf(),
    ensures
        *final(cpu) == (CPU { af: (Register { high: adc8(old(cpu).af.high, spec_read(bus@, old(cpu).pc), f_c(old(cpu).af.low)), low: flags(adc8(old(cpu).af.high, spec_read(bus@, old(cpu).pc), f_c(old(cpu).af.low)) == 0, false, adc_half(old(cpu).af.high, spec_read(bus@, old(cpu).pc), f_c(old(cpu).af.low)), adc_carry(old(cpu).af.high, spec_read(bus@, old(cpu).pc), f_c(old(cpu).af.low))) }), ..*old(cpu) }),
{
    let v = bus.fetch_byte(cpu.pc);
    let rf = alu_adc(cpu.af.high, v, cpu.extract_flag('c'));
    cpu.af.high = rf.0;
    cpu.af.low = rf.1;
}

/// SUB B.
pub fn sub_b(cpu: &mut CPU)
    ensures
        *final(cpu) == (CPU { af: (Register { high: sub8(old(cpu).af.high, old(cpu).bc.high), low: flags(sub8(old(cpu).af.high, old(cpu).bc.high) == 0, true, sub_half(old(cpu).af.high, old(cpu).bc.high), sub_carry(old(cpu).af.high, old(cpu).bc.high)) }), ..*old(cpu) }),
{
    let rf = alu_sub(cpu.af.high, cpu.bc.high);
    cpu.af.high = rf.0;
    cpu.af.low = rf.1;
}

/// SUB C.
pub fn sub_c(cpu: &mut CPU)
    ensures
        *final(cpu) == (CPU { af: (Register { high: sub8(old(cpu).af.high, old(cpu).bc.low), low: flags(sub8(old(cpu).af.high, old(cpu).bc.low) == 0, true, sub_half(old(cpu).af.high, old(cpu).bc.low), sub_carry(old(cpu).af.high, old(cpu).bc.low)) }), ..*old(cpu) }),
{
    let rf = alu_sub(cpu.af.high, cpu.bc.low);
    cpu.af.high = rf.0;
    cpu.af.low = rf.1;
}

/// SUB D.
pub fn sub_d(cpu: &mut CPU)
    ensures
        *final(cpu) == (CPU { af: (Register { high: sub8(old(cpu).af.high, old(cpu).de.high), low: flags(sub8(old(cpu).af.high, old(cpu).de.high) == 0, true, sub_half(old(cpu).af.high, old(cpu).de.high), sub_carry(old(cpu).af.high, old(cpu).de.high)) }), ..*old(cpu) }),
{
    let rf = alu_sub(cpu.af.high, cpu.de.high);
    cpu.af.high = rf.0;
    cpu.af.low = rf.1;
}

/// SUB E.
pub fn sub_e(cpu: &mut CPU)
    ensures
        *final(cpu) == (CPU { af: (Register { high: sub8(old(cpu).af.high, old(cpu).de.low), low: flags(sub8(old(cpu).af.high, old(cpu).de.low) == 0, true, sub_half(old(cpu).af.high, old(cpu).de.low), sub_carry(old(cpu).af.high, old(cpu).de.low)) }), ..*old(cpu) }),
{
    let rf = alu_sub(cpu.af.high, cpu.de.low);
    cpu.af.high = rf.0;
    cpu.af.low = rf.1;
}

/// SUB H.
pub fn sub_h(cpu: &mut CPU)
    ensures
        *final(cpu) == (CPU { af: (Register { high: sub8(old(cpu).af.high, old(cpu).hl.high), low: flags(sub8(old(cpu).af.high, old(cpu).hl.high) == 0, true, sub_half(old(cpu).af.high, old(cpu).hl.high), sub_carry(old(cpu).af.high, old(cpu).hl.high)) }), ..*old(cpu) }),
{
    let rf = alu_sub(cpu.af.high, cpu.hl.high);
    cpu.af.high = rf.0;
    cpu.af.low = rf.1;
}

/// SUB L.
pub fn sub_l(cpu: &mut CPU)
    ensures
        *final(cpu) == (CPU { af: (Register { high: sub8(old(cpu).af.high, old(cpu).hl.low), low: flags(sub8(old(cpu).af.high, old(cpu).hl.low) == 0, true, sub_half(old(cpu).af.high, old(cpu).hl.low), sub_carry(old(cpu).af.high, old(cpu).hl.low)) }), ..*old(cpu) }),
{
    let rf = alu_sub(cpu.af.high, cpu.hl.low);
    cpu.af.high = rf.0;
    cpu.af.low = rf.1;
}

/// SUB A.
pub fn sub_a(cpu: &mut CPU)
    ensures
        *final(cpu) == (CPU { af: (Register { high: sub8(old(cpu).af.high, old(cpu).af.high), low: flags(sub8(old(cpu).af.high, old(cpu).af.high) == 0, true, sub_half(old(cpu).af.high, old(cpu).af.high), sub_carry(old(cpu).af.high, old(cpu).af.high)) }), ..*old(cpu) }),
{
    let rf = alu_sub(cpu.af.high, cpu.af.high);
    cpu.af.high = rf.0;
    cpu.af.low = rf.1;
}

/// SUB (HL).
pub fn sub_hl_ptr(cpu: &mut CPU, bus: &Bus)
    requires
        bus.wf(),
    ensures
        *final(cpu) == (CPU { af: (Register { high: sub8(old(cpu).af.high, spec_read(bus@, old(cpu).hl.spec_combined())), low: flags(sub8(old(cpu).af.high, spec_read(bus@, old(cpu).hl.spec_combined())) == 0, true, sub_half(old(cpu).af.high, spec_read(bus@, old(cpu).hl.spec_combined())), sub_carry(old(cpu).af.high, spec_read(bus@, old(cpu).hl.spec_combined()))) }), ..*old(cpu) }),
{
    let v = bus.fetch_byte(cpu.hl.get_combined());
    let rf = alu_sub(cpu.af.high, v);
    cpu.af.high = rf.0;
    cpu.af.low = rf.1;
}

/// SUB d8.
pub fn sub_d8(cpu: &mut CPU, bus: &Bus)
    requires
        bus.wf(),
    ensures
        *final(cpu) == (CPU { af: (Register { high: sub8(old(cpu).af.high, spec_read(bus@, old(cpu).pc)), low: flags(sub8(old(cpu).af.high, spec_read(bus@, old(cpu).pc)) == 0, true, sub_half(old(cpu).af.high, spec_read(bus@, old(cpu).pc)), sub_carry(old(cpu).af.high, spec_read(bus@, old(cpu).pc))) }), ..*old(cpu) }),
{
    let v = bus.fetch_byte(cpu.pc);
    let rf = alu_sub(cpu.af.high, v);
    cpu.af.high = rf.0;
    cpu.af.low = rf.1;
}

/// SBC A,B.
pub fn sbc_a_b(cpu: &mut CPU)
    ensures
        *final(cpu) == (CPU { af: (Register { high: sbc8(old(cpu).af.high, old(cpu).bc.high, f_c(old(cpu).af.low)), low: flags(sbc8(old(cpu).af.high, old(cpu).bc.high, f_c(old(cpu).af.low)) == 0, true, sbc_half(old(cpu).af.high, old(cpu).bc.high, f_c(old(cpu).af.low)), sbc_carry(old(cpu).af.high, old(cpu).bc.high, f_c(old(cpu).af.low))) }), ..*old(cpu) }),
{
    let rf = alu_sbc(cpu.af.high, cpu.bc.high, cpu.extract_flag('c'));
    cpu.af.high = rf.0;
    cpu.af.low = rf.1;
}

/// SBC A,C.
pub fn sbc_a_c(cpu: &mut CPU)
    ensures
        *final(cpu) == (CPU { af: (Register { high: sbc8(old(cpu).af.high, old(cpu).bc.low, f_c(old(cpu).af.low)), low: flags(sbc8(old(cpu).af.high, old(cpu).bc.low, f_c(old(cpu).af.low)) == 0, true, sbc_half(old(cpu).af.high, old(cpu).bc.low, f_c(old(cpu).af.low)), sbc_carry(old(cpu).af.high, old(cpu).bc.low, f_c(old(cpu).af.low))) }), ..*old(cpu) }),
{
    let rf = alu_sbc(cpu.af.high, cpu.bc.low, cpu.extract_flag('c'));
    cpu.af.high = rf.0;
    cpu.af.low = rf.1;
}

/// SBC A,D.
pub fn sbc_a_d(cpu: &mut CPU)
    ensures
        *final(cpu) == (CPU { af: (Register { high: sbc8(old(cpu).af.high, old(cpu).de.high, f_c(old(cpu).af.low)), low: flags(sbc8(old(cpu).af.high, old(cpu).de.high, f_c(old(cpu).af.low)) == 0, true, sbc_half(old(cpu).af.high, old(cpu).de.high, f_c(old(cpu).af.low)), sbc_carry(old(cpu).af.high, old(cpu).de.high, f_c(old(cpu).af.low))) }), ..*old(cpu) }),
{
    let rf = alu_sbc(cpu.af.high, cpu.de.high, cpu.extract_flag('c'));
    cpu.af.high = rf.0;
    cpu.af.low = rf.1;
}

/// SBC A,E.
pub fn sbc_a_e(cpu: &mut CPU)
    ensures
        *final(cpu) == (CPU { af: (Register { high: sbc8(old(cpu).af.high, old(cpu).de.low, f_c(old(cpu).af.low)), low: flags(sbc8(old(cpu).af.high, old(cpu).de.low, f_c(old(cpu).af.low)) == 0, true, sbc_half(old(cpu).af.high, old(cpu).de.low, f_c(old(cpu).af.low)), sbc_carry(old(cpu).af.high, old(cpu).de.low, f_c(old(cpu).af.low))) }), ..*old(cpu) }),
{
    let rf = alu_sbc(cpu.af.high, cpu.de.low, cpu.extract_flag('c'));
    cpu.af.high = rf.0;
    cpu.af.low = rf.1;
}

/// SBC A,H.
pub fn sbc_a_h(cpu: &mut CPU)
    ensures
        *final(cpu) == (CPU { af: (Register { high: sbc8(old(cpu).af.high, old(cpu).hl.high, f_c(old(cpu).af.low)), low: flags(sbc8(old(cpu).af.high, old(cpu).hl.high, f_c(old(cpu).af.low)) == 0, true, sbc_half(old(cpu).af.high, old(cpu).hl.high, f_c(old(cpu).af.low)), sbc_carry(old(cpu).af.high, old(cpu).hl.high, f_c(old(cpu).af.low))) }), ..*old(cpu) }),
{
    let rf = alu_sbc(cpu.af.high, cpu.hl.high, cpu.extract_flag('c'));
    cpu.af.high = rf.0;
    cpu.af.low = rf.1;
}

/// SBC A,L.
pub fn sbc_a_l(cpu: &mut CPU)
    ensures
        *final(cpu) == (CPU { af: (Register { high: sbc8(old(cpu).af.high, old(cpu).hl.low, f_c(old(cpu).af.low)), low: flags(sbc8(old(cpu).af.high, old(cpu).hl.low, f_c(old(cpu).af.low)) == 0, true, sbc_half(old(cpu).af.high, old(cpu).hl.low, f_c(old(cpu).af.low)), sbc_carry(old(cpu).af.high, old(cpu).hl.low, f_c(old(cpu).af.low))) }), ..*old(cpu) }),
{
    let rf = alu_sbc(cpu.af.high, cpu.hl.low, cpu.extract_flag('c'));
    cpu.af.high = rf.0;
    cpu.af.low = rf.1;
}

/// SBC A,A.
pub fn sbc_a_a(cpu: &mut CPU)
    ensures
        *final(cpu) == (CPU { af: (Register { high: sbc8(old(cpu).af.high, old(cpu).af.high, f_c(old(cpu).af.low)), low: flags(sbc8(old(cpu).af.high, old(cpu).af.high, f_c(old(cpu).af.low)) == 0, true, sbc_half(old(cpu).af.high, old(cpu).af.high, f_c(old(cpu).af.low)), sbc_carry(old(cpu).af.high, old(cpu).af.high, f_c(old(cpu).af.low))) }), ..*old(cpu) }),
{
    let rf = alu_sbc(cpu.af.high, cpu.af.high, cpu.extract_flag('c'));
    cpu.af.high = rf.0;
    cpu.af.low = rf.1;
}

/// SBC A,(HL).
pub fn sbc_hl_ptr(cpu: &mut CPU, bus: &Bus)
    requires
        bus.wf(),
    ensures
        *final(cpu) == (CPU { af: (Register { high: sbc8(old(cpu).af.high, spec_read(bus@, old(cpu).hl.spec_combined()), f_c(old(cpu).af.low)), low: flags(sbc8(old(cpu).af.high, spec_read(bus@, old(cpu).hl.spec_combined()), f_c(old(cpu).af.low)) == 0, true, sbc_half(old(cpu).af.high, spec_read(bus@, old(cpu).hl.spec_combined()), f_c(old(cpu).af.low)), sbc_carry(old(cpu).af.high, spec_read(bus@, old(cpu).hl.spec_combined()), f_c(old(cpu).af.low))) }), ..*old(cpu) }),
{
    let v = bus.fetch_byte(cpu.hl.get_combined());
    let rf = alu_sbc(cpu.af.high, v, cpu.extract_flag('c'));
    cpu.af.high = rf.0;
    cpu.af.low = rf.1;
}

/// SBC A,d8.
pub fn sbc_a_d8(cpu: &mut CPU, bus: &Bus)
    requires
        bus.wf(),
    ensures
        *final(cpu) == (CPU { af: (Register { high: sbc8(old(cpu).af.high, spec_read(bus@, old(cpu).pc), f_c(old(cpu).af.low)), low: flags(sbc8(old(cpu).af.high, spec_read(bus@, old(cpu).pc), f_c(old(cpu).af.low)) == 0, true, sbc_half(old(cpu).af.high, spec_read(bus@, old(cpu).pc), f_c(old(cpu).af.low)), sbc_carry(old(cpu).af.high, spec_read(bus@, old(cpu).pc), f_c(old(cpu).af.low))) }), ..*old(cpu) }),
{
    let v = bus.fetch_byte(cpu.pc);
    let rf = alu_sbc(cpu.af.high, v, cpu.extract_flag('c'));
    cpu.af.high = rf.0;
    cpu.af.low = rf.1;
}

/// AND B.
pub fn and_b(cpu: &mut CPU)
    ensures
        *final(cpu) == (CPU { af: (Register { high: (old(cpu).af.high & old(cpu).bc.high), low: flags((old(cpu).af.high & old(cpu).bc.high) == 0, false, true, false) }), ..*old(cpu) }),
{
    let rf = alu_and(cpu.af.high, cpu.bc.high);
    cpu.af.high = rf.0;
    cpu.af.low = rf.1;
}

/// AND C.
pub fn and_c(cpu: &mut CPU)
    ensures
        *final(cpu) == (CPU { af: (Register { high: (old(cpu).af.high & old(cpu).bc.low), low: flags((old(cpu).af.high & old(cpu).bc.low) == 0, false, true, false) }), ..*old(cpu) }),
{
    let rf = alu_and(cpu.af.high, cpu.bc.low);
    cpu.af.high = rf.0;
    cpu.af.low = rf.1;
}

/// AND D.
pub fn and_d(cpu: &mut CPU)
    ensures
        *final(cpu) == (CPU { af: (Register { high: (old(cpu).af.high & old(cpu).de.high), low: flags((old(cpu).af.high & old(cpu).de.high) == 0, false, true, false) }), ..*old(cpu) }),
{
    let rf = alu_and(cpu.af.high, cpu.de.high);
    cpu.af.high = rf.0;
    cpu.af.low = rf.1;
}

/// AND E.
pub fn and_e(cpu: &mut CPU)
    ensures
        *final(cpu) == (CPU { af: (Register { high: (old(cpu).af.high & old(cpu).de.low), low: flags((old(cpu).af.high & old(cpu).de.low) == 0, false, true, false) }), ..*old(cpu) }),
{
    let rf = alu_and(cpu.af.high, cpu.de.low);
    cpu.af.high = rf.0;
    cpu.af.low = rf.1;
}

/// AND H.
pub fn and_h(cpu: &mut CPU)
    ensures
        *final(cpu) == (CPU { af: (Register { high: (old(cpu).af.high & old(cpu).hl.high), low: flags((old(cpu).af.high & old(cpu).hl.high) == 0, false, true, false) }), ..*old(cpu) }),
{
    let rf = alu_and(cpu.af.high, cpu.hl.high);
    cpu.af.high = rf.0;
    cpu.af.low = rf.1;
}

/// AND L.
pub fn and_l(cpu: &mut CPU)
    ensures
        *final(cpu) == (CPU { af: (Register { high: (old(cpu).af.high & old(cpu).hl.low), low: flags((old(cpu).af.high & old(cpu).hl.low) == 0, false, true, false) }), ..*old(cpu) }),
{
    let rf = alu_and(cpu.af.high, cpu.hl.low);
    cpu.af.high = rf.0;
    cpu.af.low = rf.1;
}

/// AND A.
pub fn and_a(cpu: &mut CPU)
    ensures
        *final(cpu) == (CPU { af: (Register { high: (old(cpu).af.high & old(cpu).af.high), low: flags((old(cpu).af.high & old(cpu).af.high) == 0, false, true, false) }), ..*old(cpu) }),
{
    let rf = alu_and(cpu.af.high, cpu.af.high);
    cpu.af.high = rf.0;
    cpu.af.low = rf.1;
}

/// AND (HL).
pub fn and_hl_ptr(cpu: &mut CPU, bus: &Bus)
    requires
        bus.wf(),
    ensures
        *final(cpu) == (CPU { af: (Register { high: (old(cpu).af.high & spec_read(bus@, old(cpu).hl.spec_combined())), low: flags((old(cpu).af.high & spec_read(bus@, old(cpu).hl.spec_combined())) == 0, false, true, false) }), ..*old(cpu) }),
{
    let v = bus.fetch_byte(cpu.hl.get_combined());
    let rf = alu_and(cpu.af.high, v);
    cpu.af.high = rf.0;
    cpu.af.low = rf.1;
}

/// AND d8.
pub fn and_d8(cpu: &mut CPU, bus: &Bus)
    requires
        bus.wf(),
    ensures
        *final(cpu) == (CPU { af: (Register { high: (old(cpu).af.high & spec_read(bus@, old(cpu).pc)), low: flags((old(cpu).af.high & spec_read(bus@, old(cpu).pc)) == 0, false, true, false) }), ..*old(cpu) }),
{
    let v = bus.fetch_byte(cpu.pc);
    let rf = alu_and(cpu.af.high, v);
    cpu.af.high = rf.0;
    cpu.af.low = rf.1;
}

/// XOR B.
pub fn xor_b(cpu: &mut CPU)
    ensures
        *final(cpu) == (CPU { af: (Register { high: (old(cpu).af.high ^ old(cpu).bc.high), low: flags((old(cpu).af.high ^ old(cpu).bc.high) == 0, false, false, false) }), ..*old(cpu) }),
{
    let rf = alu_xor(cpu.af.high, cpu.bc.high);
    cpu.af.high = rf.0;
    cpu.af.low = rf.1;
}

/// XOR C.
pub fn xor_c(cpu: &mut CPU)
    ensures
        *final(cpu) == (CPU { af: (Register { high: (old(cpu).af.high ^ old(cpu).bc.low), low: flags((old(cpu).af.high ^ old(cpu).bc.low) == 0, false, false, false) }), ..*old(cpu) }),
{
    let rf = alu_xor(cpu.af.high, cpu.bc.low);
    cpu.af.high = rf.0;
    cpu.af.low = rf.1;
}

/// XOR D.
pub fn xor_d(cpu: &mut CPU)
    ensures
        *final(cpu) == (CPU { af: (Register { high: (old(cpu).af.high ^ old(cpu).de.high), low: flags((old(cpu).af.high ^ old(cpu).de.high) == 0, false, false, false) }), ..*old(cpu) }),
{
    let rf = alu_xor(cpu.af.high, cpu.de.high);
    cpu.af.high = rf.0;
    cpu.af.low = rf.1;
}

/// XOR E.
pub fn xor_e(cpu: &mut CPU)
    ensures
        *final(cpu) == (CPU { af: (Register { high: (old(cpu).af.high ^ old(cpu).de.low), low: flags((old(cpu).af.high ^ old(cpu).de.low) == 0, false, false, false) }), ..*old(cpu) }),
{
    let rf = alu_xor(cpu.af.high, cpu.de.low);
    cpu.af.high = rf.0;
    cpu.af.low = rf.1;
}

/// XOR H.
pub fn xor_h(cpu: &mut CPU)
    ensures
        *final(cpu) == (CPU { af: (Register { high: (old(cpu).af.high ^ old(cpu).hl.high), low: flags((old(cpu).af.high ^ old(cpu).hl.high) == 0, false, false, false) }), ..*old(cpu) }),
{
    let rf = alu_xor(cpu.af.high, cpu.hl.high);
    cpu.af.high = rf.0;
    cpu.af.low = rf.1;
}

/// XOR L.
pub fn xor_l(cpu: &mut CPU)
    ensures
        *final(cpu) == (CPU { af: (Register { high: (old(cpu).af.high ^ old(cpu).hl.low), low: flags((old(cpu).af.high ^ old(cpu).hl.low) == 0, false, false, false) }), ..*old(cpu) }),
{
    let rf = alu_xor(cpu.af.high, cpu.hl.low);
    cpu.af.high = rf.0;
    cpu.af.low = rf.1;
}

/// XOR A.
pub fn xor_a(cpu: &mut CPU)
    ensures
        *final(cpu) == (CPU { af: (Register { high: (old(cpu).af.high ^ old(cpu).af.high), low: flags((old(cpu).af.high ^ old(cpu).af.high) == 0, false, false, false) }), ..*old(cpu) }),
{
    let rf = alu_xor(cpu.af.high, cpu.af.high);
    cpu.af.high = rf.0;
    cpu.af.low = rf.1;
}

/// XOR (HL).
pub fn xor_hl_ptr(cpu: &mut CPU, bus: &Bus)
    requires
        bus.wf(),
    ensures
        *final(cpu) == (CPU { af: (Register { high: (old(cpu).af.high ^ spec_read(bus@, old(cpu).hl.spec_combined())), low: flags((old(cpu).af.high ^ spec_read(bus@, old(cpu).hl.spec_combined())) == 0, false, false, false) }), ..*old(cpu) }),
{
    let v = bus.fetch_byte(cpu.hl.get_combined());
    let rf = alu_xor(cpu.af.high, v);
    cpu.af.high = rf.0;
    cpu.af.low = rf.1;
}

/// XOR d8.
pub fn xor_d8(cpu: &mut CPU, bus: &Bus)
    requires
        bus.wf(),
    ensures
        *final(cpu) == (CPU { af: (Register { high: (old(cpu).af.high ^ spec_read(bus@, old(cpu).pc)), low: flags((old(cpu).af.high ^ spec_read(bus@, old(cpu).pc)) == 0, false, false, false) }), ..*old(cpu) }),
{
    let v = bus.fetch_byte(cpu.pc);
    let rf = alu_xor(cpu.af.high, v);
    cpu.af.high = rf.0;
    cpu.af.low = rf.1;
}

/// OR B.
pub fn or_b(cpu: &mut CPU)
    ensures
        *final(cpu) == (CPU { af: (Register { high: (old(cpu).af.high | old(cpu).bc.high), low: flags((old(cpu).af.high | old(cpu).bc.high) == 0, false, false, false) }), ..*old(cpu) }),
{
    let rf = alu_or(cpu.af.high, cpu.bc.high);
    cpu.af.high = rf.0;
    cpu.af.low = rf.1;
}

/// OR C.
pub fn or_c(cpu: &mut CPU)
    ensures
        *final(cpu) == (CPU { af: (Register { high: (old(cpu).af.high | old(cpu).bc.low), low: flags((old(cpu).af.high | old(cpu).bc.low) == 0, false, false, false) }), ..*old(cpu) }),
{
    let rf = alu_or(cpu.af.high, cpu.bc.low);
    cpu.af.high = rf.0;
    cpu.af.low = rf.1;
}

/// OR D.
pub fn or_d(cpu: &mut CPU)
    ensures
        *final(cpu) == (CPU { af: (Register { high: (old(cpu).af.high | old(cpu).de.high), low: flags((old(cpu).af.high | old(cpu).de.high) == 0, false, false, false) }), ..*old(cpu) }),
{
    let rf = alu_or(cpu.af.high, cpu.de.high);
    cpu.af.high = rf.0;
    cpu.af.low = rf.1;
}

/// OR E.
pub fn or_e(cpu: &mut CPU)
    ensures
        *final(cpu) == (CPU { af: (Register { high: (old(cpu).af.high | old(cpu).de.low), low: flags((old(cpu).af.high | old(cpu).de.low) == 0, false, false, false) }), ..*old(cpu) }),
{
    let rf = alu_or(cpu.af.high, cpu.de.low);
    cpu.af.high = rf.0;
    cpu.af.low = rf.1;
}

/// OR H.
pub fn or_h(cpu: &mut CPU)
    ensures
        *final(cpu) == (CPU { af: (Register { high: (old(cpu).af.high | old(cpu).hl.high), low: flags((old(cpu).af.high | old(cpu).hl.high) == 0, false, false, false) }), ..*old(cpu) }),
{
    let rf = alu_or(cpu.af.high, cpu.hl.high);
    cpu.af.high = rf.0;
    cpu.af.low = rf.1;
}

/// OR L.
pub fn or_l(cpu: &mut CPU)
    ensures
        *final(cpu) == (CPU { af: (Register { high: (old(cpu).af.high | old(cpu).hl.low), low: flags((old(cpu).af.high | old(cpu).hl.low) == 0, false, false, false) }), ..*old(cpu) }),
{
    let rf = alu_or(cpu.af.high, cpu.hl.low);
    cpu.af.high = rf.0;
    cpu.af.low = rf.1;
}

/// OR A.
pub fn or_a(cpu: &mut CPU)
    ensures
        *final(cpu) == (CPU { af: (Register { high: (old(cpu).af.high | old(cpu).af.high), low: flags((old(cpu).af.high | old(cpu).af.high) == 0, false, false, false) }), ..*old(cpu) }),
{
    let rf = alu_or(cpu.af.high, cpu.af.high);
    cpu.af.high = rf.0;
    cpu.af.low = rf.1;
}

/// OR (HL).
pub fn or_hl_ptr(cpu: &mut CPU, bus: &Bus)
    requires
        bus.wf(),
    ensures
        *final(cpu) == (CPU { af: (Register { high: (old(cpu).af.high | spec_read(bus@, old(cpu).hl.spec_combined())), low: flags((old(cpu).af.high | spec_read(bus@, old(cpu).hl.spec_combined())) == 0, false, false, false) }), ..*old(cpu) }),
{
    let v = bus.fetch_byte(cpu.hl.get_combined());
    let rf = alu_or(cpu.af.high, v);
    cpu.af.high = rf.0;
    cpu.af.low = rf.1;
}

/// OR d8.
pub fn or_d8(cpu: &mut CPU, bus: &Bus)
    requires
        bus.wf(),
    ensures
        *final(cpu) == (CPU { af: (Register { high: (old(cpu).af.high | spec_read(bus@, old(cpu).pc)), low: flags((old(cpu).af.high | spec_read(bus@, old(cpu).pc)) == 0, false, false, false) }), ..*old(cpu) }),
{
    let v = bus.fetch_byte(cpu.pc);
    let rf = alu_or(cpu.af.high, v);
    cpu.af.high = rf.0;
    cpu.af.low = rf.1;
}

/// CP B.
pub fn cp_b(cpu: &mut CPU)
    ensures
        *final(cpu) == (CPU { af: (Register { low: flags(sub8(old(cpu).af.high, old(cpu).bc.high) == 0, true, sub_half(old(cpu).af.high, old(cpu).bc.high), sub_carry(old(cpu).af.high, old(cpu).bc.high)), ..old(cpu).af }), ..*old(cpu) }),
{
    let fl = alu_sub(cpu.af.high, cpu.bc.high).1;
    cpu.af.low = fl;
}

/// CP C.
pub fn cp_c(cpu: &mut CPU)
    ensures
        *final(cpu) == (CPU { af: (Register { low: flags(sub8(old(cpu).af.high, old(cpu).bc.low) == 0, true, sub_half(old(cpu).af.high, old(cpu).bc.low), sub_carry(old(cpu).af.high, old(cpu).bc.low)), ..old(cpu).af }), ..*old(cpu) }),
{
    let fl = alu_sub(cpu.af.high, cpu.bc.low).1;
    cpu.af.low = fl;
}

/// CP D.
pub fn cp_d(cpu: &mut CPU)
    ensures
        *final(cpu) == (CPU { af: (Register { low: flags(sub8(old(cpu).af.high, old(cpu).de.high) == 0, true, sub_half(old(cpu).af.high, old(cpu).de.high), sub_carry(old(cpu).af.high, old(cpu).de.high)), ..old(cpu).af }), ..*old(cpu) }),
{
    let fl = alu_sub(cpu.af.high, cpu.de.high).1;
    cpu.af.low = fl;
}

/// CP E.
pub fn cp_e(cpu: &mut CPU)
    ensures
        *final(cpu) == (CPU { af: (Register { low: flags(sub8(old(cpu).af.high, old(cpu).de.low) == 0, true, sub_half(old(cpu).af.high, old(cpu).de.low), sub_carry(old(cpu).af.high, old(cpu).de.low)), ..old(cpu).af }), ..*old(cpu) }),
{
    let fl = alu_sub(cpu.af.high, cpu.de.low).1;
    cpu.af.low = fl;
}

/// CP H.
pub fn cp_h(cpu: &mut CPU)
    ensures
        *final(cpu) == (CPU { af: (Register { low: flags(sub8(old(cpu).af.high, old(cpu).hl.high) == 0, true, sub_half(old(cpu).af.high, old(cpu).hl.high), sub_carry(old(cpu).af.high, old(cpu).hl.high)), ..old(cpu).af }), ..*old(cpu) }),
{
    let fl = alu_sub(cpu.af.high, cpu.hl.high).1;
    cpu.af.low = fl;
}

/// CP L.
pub fn cp_l(cpu: &mut CPU)
    ensures
        *final(cpu) == (CPU { af: (Register { low: flags(sub8(old(cpu).af.high, old(cpu).hl.low) == 0, true, sub_half(old(cpu).af.high, old(cpu).hl.low), sub_carry(old(cpu).af.high, old(cpu).hl.low)), ..old(cpu).af }), ..*old(cpu) }),
{
    let fl = alu_sub(cpu.af.high, cpu.hl.low).1;
    cpu.af.low = fl;
}

/// CP A.
pub fn cp_a(cpu: &mut CPU)
    ensures
        *final(cpu) == (CPU { af: (Register { low: flags(sub8(old(cpu).af.high, old(cpu).af.high) == 0, true, sub_half(old(cpu).af.high, old(cpu).af.high), sub_carry(old(cpu).af.high, old(cpu).af.high)), ..old(cpu).af }), ..*old(cpu) }),
{
    let fl = alu_sub(cpu.af.high, cpu.af.high).1;
    cpu.af.low = fl;
}

/// CP (HL).
pub fn cp_hl_ptr(cpu: &mut CPU, bus: &Bus)
    requires
        bus.wf(),
    ensures
        *final(cpu) == (CPU { af: (Register { low: flags(sub8(old(cpu).af.high, spec_read(bus@, old(cpu).hl.spec_combined())) == 0, true, sub_half(old(cpu).af.high, spec_read(bus@, old(cpu).hl.spec_combined())), sub_carry(old(cpu).af.high, spec_read(bus@, old(cpu).hl.spec_combined()))), ..old(cpu).af }), ..*old(cpu) }),
{
    let v = bus.fetch_byte(cpu.hl.get_combined());
    let fl = alu_sub(cpu.af.high, v).1;
    cpu.af.low = fl;
}

/// CP d8.
pub fn cp_d8(cpu: &mut CPU, bus: &Bus)
    requires
        bus.wf(),
    ensures
        *final(cpu) == (CPU { af: (Register { low: flags(sub8(old(cpu).af.high, spec_read(bus@, old(cpu).pc)) == 0, true, sub_half(old(cpu).af.high, spec_read(bus@, old(cpu).pc)), sub_carry(old(cpu).af.high, spec_read(bus@, old(cpu).pc))), ..old(cpu).af }), ..*old(cpu) }),
{
    let v = bus.fetch_byte(cpu.pc);
    let fl = alu_sub(cpu.af.high, v).1;
    cpu.af.low = fl;
}

// 8-bit increments and decrements: Z, N and H change, C is kept.

/// INC B.
pub fn inc_b(cpu: &mut CPU)
    ensures
        *final(cpu) == (CPU { bc: (Register { high: inc8(old(cpu).bc.high), ..old(cpu).bc }), af: (Register { low: flags(inc8(old(cpu).bc.high) == 0, false, (old(cpu).bc.high & 0xF) == 0xF, f_c(old(cpu).af.low)), ..old(cpu).af }), ..*old(cpu) }),
{
    let rf = alu_inc(cpu.bc.high, cpu.extract_flag('c'));
    cpu.bc.high = rf.0;
    cpu.af.low = rf.1;
}

/// DEC B.
pub fn dec_b(cpu: &mut CPU)
    ensures
        *final(cpu) == (CPU { bc: (Register { high: dec8(old(cpu).bc.high), ..old(cpu).bc }), af: (Register { low: flags(dec8(old(cpu).bc.high) == 0, true, (old(cpu).bc.high & 0xF) == 0, f_c(old(cpu).af.low)), ..old(cpu).af }), ..*old(cpu) }),
{
    let rf = alu_dec(cpu.bc.high, cpu.extract_flag('c'));
    cpu.bc.high = rf.0;
    cpu.af.low = rf.1;
}

/// INC C.
pub fn inc_c(cpu: &mut CPU)
    ensures
        *final(cpu) == (CPU { bc: (Register { low: inc8(old(cpu).bc.low), ..old(cpu).bc }), af: (Register { low: flags(inc8(old(cpu).bc.low) == 0, false, (old(cpu).bc.low & 0xF) == 0xF, f_c(old(cpu).af.low)), ..old(cpu).af }), ..*old(cpu) }),
{
    let rf = alu_inc(cpu.bc.low, cpu.extract_flag('c'));
    cpu.bc.low = rf.0;
    cpu.af.low = rf.1;
}

/// DEC C.
pub fn dec_c(cpu: &mut CPU)
    ensures
        *final(cpu) == (CPU { bc: (Register { low: dec8(old(cpu).bc.low), ..old(cpu).bc }), af: (Register { low: flags(dec8(old(cpu).bc.low) == 0, true, (old(cpu).bc.low & 0xF) == 0, f_c(old(cpu).af.low)), ..old(cpu).af }), ..*old(cpu) }),
{
    let rf = alu_dec(cpu.bc.low, cpu.extract_flag('c'));
    cpu.bc.low = rf.0;
    cpu.af.low = rf.1;
}

/// INC D.
pub fn inc_d(cpu: &mut CPU)
    ensures
        *final(cpu) == (CPU { de: (Register { high: inc8(old(cpu).de.high), ..old(cpu).de }), af: (Register { low: flags(inc8(old(cpu).de.high) == 0, false, (old(cpu).de.high & 0xF) == 0xF, f_c(old(cpu).af.low)), ..old(cpu).af }), ..*old(cpu) }),
{
    let rf = alu_inc(cpu.de.high, cpu.extract_flag('c'));
    cpu.de.high = rf.0;
    cpu.af.low = rf.1;
}

/// DEC D.
pub fn dec_d(cpu: &mut CPU)
    ensures
        *final(cpu) == (CPU { de: (Register { high: dec8(old(cpu).de.high), ..old(cpu).de }), af: (Register { low: flags(dec8(old(cpu).de.high) == 0, true, (old(cpu).de.high & 0xF) == 0, f_c(old(cpu).af.low)), ..old(cpu).af }), ..*old(cpu) }),
{
    let rf = alu_dec(cpu.de.high, cpu.extract_flag('c'));
    cpu.de.high = rf.0;
    cpu.af.low = rf.1;
}

/// INC E.
pub fn inc_e(cpu: &mut CPU)
    ensures
        *final(cpu) == (CPU { de: (Register { low: inc8(old(cpu).de.low), ..old(cpu).de }), af: (Register { low: flags(inc8(old(cpu).de.low) == 0, false, (old(cpu).de.low & 0xF) == 0xF, f_c(old(cpu).af.low)), ..old(cpu).af }), ..*old(cpu) }),
{
    let rf = alu_inc(cpu.de.low, cpu.extract_flag('c'));
    cpu.de.low = rf.0;
    cpu.af.low = rf.1;
}

/// DEC E.
pub fn dec_e(cpu: &mut CPU)
    ensures
        *final(cpu) == (CPU { de: (Register { low: dec8(old(cpu).de.low), ..old(cpu).de }), af: (Register { low: flags(dec8(old(cpu).de.low) == 0, true, (old(cpu).de.low & 0xF) == 0, f_c(old(cpu).af.low)), ..old(cpu).af }), ..*old(cpu) }),
{
    let rf = alu_dec(cpu.de.low, cpu.extract_flag('c'));
    cpu.de.low = rf.0;
    cpu.af.low = rf.1;
}

/// INC H.
pub fn inc_h(cpu: &mut CPU)
    ensures
        *final(cpu) == (CPU { hl: (Register { high: inc8(old(cpu).hl.high), ..old(cpu).hl }), af: (Register { low: flags(inc8(old(cpu).hl.high) == 0, false, (old(cpu).hl.high & 0xF) == 0xF, f_c(old(cpu).af.low)), ..old(cpu).af }), ..*old(cpu) }),
{
    let rf = alu_inc(cpu.hl.high, cpu.extract_flag('c'));
    cpu.hl.high = rf.0;
    cpu.af.low = rf.1;
}

/// DEC H.
pub fn dec_h(cpu: &mut CPU)
    ensures
        *final(cpu) == (CPU { hl: (Register { high: dec8(old(cpu).hl.high), ..old(cpu).hl }), af: (Register { low: flags(dec8(old(cpu).hl.high) == 0, true, (old(cpu).hl.high & 0xF) == 0, f_c(old(cpu).af.low)), ..old(cpu).af }), ..*old(cpu) }),
{
    let rf = alu_dec(cpu.hl.high, cpu.extract_flag('c'));
    cpu.hl.high = rf.0;
    cpu.af.low = rf.1;
}

/// INC L.
pub fn inc_l(cpu: &mut CPU)
    ensures
        *final(cpu) == (CPU { hl: (Register { low: inc8(old(cpu).hl.low), ..old(cpu).hl }), af: (Register { low: flags(inc8(old(cpu).hl.low) == 0, false, (old(cpu).hl.low & 0xF) == 0xF, f_c(old(cpu).af.low)), ..old(cpu).af }), ..*old(cpu) }),
{
    let rf = alu_inc(cpu.hl.low, cpu.extract_flag('c'));
    cpu.hl.low = rf.0;
    cpu.af.low = rf.1;
}

/// DEC L.
pub fn dec_l(cpu: &mut CPU)
    ensures
        *final(cpu) == (CPU { hl: (Register { low: dec8(old(cpu).hl.low), ..old(cpu).hl }), af: (Register { low: flags(dec8(old(cpu).hl.low) == 0, true, (old(cpu).hl.low & 0xF) == 0, f_c(old(cpu).af.low)), ..old(cpu).af }), ..*old(cpu) }),
{
    let rf = alu_dec(cpu.hl.low, cpu.extract_flag('c'));
    cpu.hl.low = rf.0;
    cpu.af.low = rf.1;
}

/// INC A.
pub fn inc_a(cpu: &mut CPU)
    ensures
        *final(cpu) == (CPU { af: (Register { high: inc8(old(cpu).af.high), low: flags(inc8(old(cpu).af.high) == 0, false, (old(cpu).af.high & 0xF) == 0xF, f_c(old(cpu).af.low)) }), ..*old(cpu) }),
{
    let rf = alu_inc(cpu.af.high, cpu.extract_flag('c'));
    cpu.af.high = rf.0;
    cpu.af.low = rf.1;
}

/// DEC A.
pub fn dec_a(cpu: &mut CPU)
    ensures
        *final(cpu) == (CPU { af: (Register { high: dec8(old(cpu).af.high), low: flags(dec8(old(cpu).af.high) == 0, true, (old(cpu).af.high & 0xF) == 0, f_c(old(cpu).af.low)) }), ..*old(cpu) }),
{
    let rf = alu_dec(cpu.af.high, cpu.extract_flag('c'));
    cpu.af.high = rf.0;
    cpu.af.low = rf.1;
}

// 16-bit register-pair arithmetic.

/// INC BC: no flags.
pub fn inc_bc(cpu: &mut CPU)
    ensures
        *final(cpu) == (CPU { bc: (Register { high: word_hi(old(cpu).bc.spec_combined().wrapping_add(1)), low: word_lo(old(cpu).bc.spec_combined().wrapping_add(1)) }), ..*old(cpu) }),
        final(cpu).bc.spec_combined() == old(cpu).bc.spec_combined().wrapping_add(1),
{
    let wv = cpu.bc.get_combined().wrapping_add(1);
    cpu.bc.set_word(wv);
}

/// DEC BC: no flags.
pub fn dec_bc(cpu: &mut CPU)
    ensures
        *final(cpu) == (CPU { bc: (Register { high: word_hi(old(cpu).bc.spec_combined().wrapping_sub(1)), low: word_lo(old(cpu).bc.spec_combined().wrapping_sub(1)) }), ..*old(cpu) }),
        final(cpu).bc.spec_combined() == old(cpu).bc.spec_combined().wrapping_sub(1),
{
    let wv = cpu.bc.get_combined().wrapping_sub(1);
    cpu.bc.set_word(wv);
}

/// INC DE: no flags.
pub fn inc_de(cpu: &mut CPU)
    ensures
        *final(cpu) == (CPU { de: (Register { high: word_hi(old(cpu).de.spec_combined().wrapping_add(1)), low: word_lo(old(cpu).de.spec_combined().wrapping_add(1)) }), ..*old(cpu) }),
        final(cpu).de.spec_combined() == old(cpu).de.spec_combined().wrapping_add(1),
{
    let wv = cpu.de.get_combined().wrapping_add(1);
    cpu.de.set_word(wv);
}

/// DEC DE: no flags.
pub fn dec_de(cpu: &mut CPU)
    ensures
        *final(cpu) == (CPU { de: (Register { high: word_hi(old(cpu).de.spec_combined().wrapping_sub(1)), low: word_lo(old(cpu).de.spec_combined().wrapping_sub(1)) }), ..*old(cpu) }),
        final(cpu).de.spec_combined() == old(cpu).de.spec_combined().wrapping_sub(1),
{
    let wv = cpu.de.get_combined().wrapping_sub(1);
    cpu.de.set_word(wv);
}

/// INC HL: no flags.
pub fn inc_hl(cpu: &mut CPU)
    ensures
        *final(cpu) == (CPU { hl: (Register { high: word_hi(old(cpu).hl.spec_combined().wrapping_add(1)), low: word_lo(old(cpu).hl.spec_combined().wrapping_add(1)) }), ..*old(cpu) }),
        final(cpu).hl.spec_combined() == old(cpu).hl.spec_combined().wrapping_add(1),
{
    let wv = cpu.hl.get_combined().wrapping_add(1);
    cpu.hl.set_word(wv);
}

/// DEC HL: no flags.
pub fn dec_hl(cpu: &mut CPU)
    ensures
        *final(cpu) == (CPU { hl: (Register { high: word_hi(old(cpu).hl.spec_combined().wrapping_sub(1)), low: word_lo(old(cpu).hl.spec_combined().wrapping_sub(1)) }), ..*old(cpu) }),
        final(cpu).hl.spec_combined() == old(cpu).hl.spec_combined().wrapping_sub(1),
{
    let wv = cpu.hl.get_combined().wrapping_sub(1);
    cpu.hl.set_word(wv);
}

/// INC SP: no flags.
pub fn inc_sp(cpu: &mut CPU)
    ensures
        *final(cpu) == (CPU { sp: old(cpu).sp.wrapping_add(1), ..*old(cpu) }),
{
    cpu.sp = cpu.sp.wrapping_add(1);
}

/// DEC SP: no flags.
pub fn dec_sp(cpu: &mut CPU)
    ensures
        *final(cpu) == (CPU { sp: old(cpu).sp.wrapping_sub(1), ..*old(cpu) }),
{
    cpu.sp = cpu.sp.wrapping_sub(1);
}

/// ADD HL,BC: N = 0, H from bit 11, C from bit 15, Z kept.
pub fn add_bc_to_hl(cpu: &mut CPU)
    ensures
        *final(cpu) == (CPU { hl: (Register { high: word_hi(add16(old(cpu).hl.spec_combined(), old(cpu).bc.spec_combined())), low: word_lo(add16(old(cpu).hl.spec_combined(), old(cpu).bc.spec_combined())) }), af: (Register { low: flags(f_z(old(cpu).af.low), false, add16_half(old(cpu).hl.spec_combined(), old(cpu).bc.spec_combined()), add16_carry(old(cpu).hl.spec_combined(), old(cpu).bc.spec_combined())), ..old(cpu).af }), ..*old(cpu) }),
{
    let hl = cpu.hl.get_combined();
    let v = cpu.bc.get_combined();
    let hf = ((hl & 0xFFF) as u32) + ((v & 0xFFF) as u32) > 0xFFF;
    let cf = (hl as u32) + (v as u32) > 0xFFFF;
    let fl = make_flags(cpu.extract_flag('z'), false, hf, cf);
    let wv = hl.wrapping_add(v);
    cpu.hl.set_word(wv);
    cpu.af.low = fl;
    proof { assert(wv == add16(old(cpu).hl.spec_combined(), old(cpu).bc.spec_combined())); }
}

/// ADD HL,DE: N = 0, H from bit 11, C from bit 15, Z kept.
pub fn add_de_to_hl(cpu: &mut CPU)
    ensures
        *final(cpu) == (CPU { hl: (Register { high: word_hi(add16(old(cpu).hl.spec_combined(), old(cpu).de.spec_combined())), low: word_lo(add16(old(cpu).hl.spec_combined(), old(cpu).de.spec_combined())) }), af: (Register { low: flags(f_z(old(cpu).af.low), false, add16_half(old(cpu).hl.spec_combined(), old(cpu).de.spec_combined()), add16_carry(old(cpu).hl.spec_combined(), old(cpu).de.spec_combined())), ..old(cpu).af }), ..*old(cpu) }),
{
    let hl = cpu.hl.get_combined();
    let v = cpu.de.get_combined();
    let hf = ((hl & 0xFFF) as u32) + ((v & 0xFFF) as u32) > 0xFFF;
    let cf = (hl as u32) + (v as u32) > 0xFFFF;
    let fl = make_flags(cpu.extract_flag('z'), false, hf, cf);
    let wv = hl.wrapping_add(v);
    cpu.hl.set_word(wv);
    cpu.af.low = fl;
    proof { assert(wv == add16(old(cpu).hl.spec_combined(), old(cpu).de.spec_combined())); }
}

/// ADD HL,HL: N = 0, H from bit 11, C from bit 15, Z kept.
pub fn add_hl_to_hl(cpu: &mut CPU)
    ensures
        *final(cpu) == (CPU { hl: (Register { high: word_hi(add16(old(cpu).hl.spec_combined(), old(cpu).hl.spec_combined())), low: word_lo(add16(old(cpu).hl.spec_combined(), old(cpu).hl.spec_combined())) }), af: (Register { low: flags(f_z(old(cpu).af.low), false, add16_half(old(cpu).hl.spec_combined(), old(cpu).hl.spec_combined()), add16_carry(old(cpu).hl.spec_combined(), old(cpu).hl.spec_combined())), ..old(cpu).af }), ..*old(cpu) }),
{
    let hl = cpu.hl.get_combined();
    let v = cpu.hl.get_combined();
    let hf = ((hl & 0xFFF) as u32) + ((v & 0xFFF) as u32) > 0xFFF;
    let cf = (hl as u32) + (v as u32) > 0xFFFF;
    let fl = make_flags(cpu.extract_flag('z'), false, hf, cf);
    let wv = hl.wrapping_add(v);
    cpu.hl.set_word(wv);
    cpu.af.low = fl;
    proof { assert(wv == add16(old(cpu).hl.spec_combined(), old(cpu).hl.spec_combined())); }
}

/// ADD HL,SP: N = 0, H from bit 11, C from bit 15, Z kept.
pub fn add_sp_to_hl(cpu: &mut CPU)
    ensures
        *final(cpu) == (CPU { hl: (Register { high: word_hi(add16(old(cpu).hl.spec_combined(), old(cpu).sp)), low: word_lo(add16(old(cpu).hl.spec_combined(), old(cpu).sp)) }), af: (Register { low: flags(f_z(old(cpu).af.low), false, add16_half(old(cpu).hl.spec_combined(), old(cpu).sp), add16_carry(old(cpu).hl.spec_combined(), old(cpu).sp)), ..old(cpu).af }), ..*old(cpu) }),
{
    let hl = cpu.hl.get_combined();
    let v = cpu.sp;
    let hf = ((hl & 0xFFF) as u32) + ((v & 0xFFF) as u32) > 0xFFF;
    let cf = (hl as u32) + (v as u32) > 0xFFFF;
    let fl = make_flags(cpu.extract_flag('z'), false, hf, cf);
    let wv = hl.wrapping_add(v);
    cpu.hl.set_word(wv);
    cpu.af.low = fl;
    proof { assert(wv == add16(old(cpu).hl.spec_combined(), old(cpu).sp)); }
}

// Immediate loads.

/// LD B,d8.
pub fn load_imm_b(cpu: &mut CPU, bus: &Bus)
    requires
        bus.wf(),
    ensures
        *final(cpu) == (CPU { bc: (Register { high: spec_read(bus@, old(cpu).pc), ..old(cpu).bc }), ..*old(cpu) }),
{
    cpu.bc.high = bus.fetch_byte(cpu.pc);
}

/// LD C,d8.
pub fn load_imm_c(cpu: &mut CPU, bus: &Bus)
    requires
        bus.wf(),
    ensures
        *final(cpu) == (CPU { bc: (Register { low: spec_read(bus@, old(cpu).pc), ..old(cpu).bc }), ..*old(cpu) }),
{
    cpu.bc.low = bus.fetch_byte(cpu.pc);
}

/// LD D,d8.
pub fn load_imm_d(cpu: &mut CPU, bus: &Bus)
    requires
        bus.wf(),
    ensures
        *final(cpu) == (CPU { de: (Register { high: spec_read(bus@, old(cpu).pc), ..old(cpu).de }), ..*old(cpu) }),
{
    cpu.de.high = bus.fetch_byte(cpu.pc);
}

/// LD E,d8.
pub fn load_imm_e(cpu: &mut CPU, bus: &Bus)
    requires
        bus.wf(),
    ensures
        *final(cpu) == (CPU { de: (Register { low: spec_read(bus@, old(cpu).pc), ..old(cpu).de }), ..*old(cpu) }),
{
    cpu.de.low = bus.fetch_byte(cpu.pc);
}

/// LD H,d8.
pub fn load_imm_h(cpu: &mut CPU, bus: &Bus)
    requires
        bus.wf(),
    ensures
        *final(cpu) == (CPU { hl: (Register { high: spec_read(bus@, old(cpu).pc), ..old(cpu).hl }), ..*old(cpu) }),
{
    cpu.hl.high = bus.fetch_byte(cpu.pc);
}

/// LD L,d8.
pub fn load_imm_l(cpu: &mut CPU, bus: &Bus)
    requires
        bus.wf(),
    ensures
        *final(cpu) == (CPU { hl: (Register { low: spec_read(bus@, old(cpu).pc), ..old(cpu).hl }), ..*old(cpu) }),
{
    cpu.hl.low = bus.fetch_byte(cpu.pc);
}

/// LD A,d8.
pub fn load_imm_a(cpu: &mut CPU, bus: &Bus)
    requires
        bus.wf(),
    ensures
        *final(cpu) == (CPU { af: (Register { high: spec_read(bus@, old(cpu).pc), ..old(cpu).af }), ..*old(cpu) }),
{
    cpu.af.high = bus.fetch_byte(cpu.pc);
}

/// LD BC,d16.
pub fn load_imm_bc(cpu: &mut CPU, bus: &Bus)
    requires
        bus.wf(),
    ensures
        *final(cpu) == (CPU { bc: (Register { high: spec_read(bus@, old(cpu).pc.wrapping_add(1)), low: spec_read(bus@, old(cpu).pc) }), ..*old(cpu) }),
{
    cpu.bc.low = bus.fetch_byte(cpu.pc);
    cpu.bc.high = bus.fetch_byte(cpu.pc.wrapping_add(1));
}

/// LD DE,d16.
pub fn load_imm_de(cpu: &mut CPU, bus: &Bus)
    requires
        bus.wf(),
    ensures
        *final(cpu) == (CPU { de: (Register { high: spec_read(bus@, old(cpu).pc.wrapping_add(1)), low: spec_read(bus@, old(cpu).pc) }), ..*old(cpu) }),
{
    cpu.de.low = bus.fetch_byte(cpu.pc);
    cpu.de.high = bus.fetch_byte(cpu.pc.wrapping_add(1));
}

/// LD HL,d16.
pub fn load_imm_hl(cpu: &mut CPU, bus: &Bus)
    requires
        bus.wf(),
    ensures
        *final(cpu) == (CPU { hl: (Register { high: spec_read(bus@, old(cpu).pc.wrapping_add(1)), low: spec_read(bus@, old(cpu).pc) }), ..*old(cpu) }),
{
    cpu.hl.low = bus.fetch_byte(cpu.pc);
    cpu.hl.high = bus.fetch_byte(cpu.pc.wrapping_add(1));
}

/// LD SP,d16.
pub fn load_imm_sp(cpu: &mut CPU, bus: &Bus)
    requires
        bus.wf(),
    ensures
        *final(cpu) == (CPU { sp: spec_read_word(bus@, old(cpu).pc), ..*old(cpu) }),
{
    cpu.sp = bus.fetch_word(cpu.pc);
}

// Loads and stores through register-pair pointers.

/// LD (BC),A.
pub fn load_val_bc_ptr(cpu: &CPU, bus: &mut Bus)
    requires
        old(bus).wf(),
    ensures
        final(bus).wf(),
        final(bus)@ == spec_write(old(bus)@, cpu.bc.spec_combined(), cpu.af.high),
{
    bus.set_byte(cpu.bc.get_combined(), cpu.af.high);
}

/// LD (DE),A.
pub fn load_val_de_ptr(cpu: &CPU, bus: &mut Bus)
    requires
        old(bus).wf(),
    ensures
        final(bus).wf(),
        final(bus)@ == spec_write(old(bus)@, cpu.de.spec_combined(), cpu.af.high),
{
    bus.set_byte(cpu.de.get_combined(), cpu.af.high);
}

/// LD A,(BC).
pub fn load_bc_ptr_into_a(cpu: &mut CPU, bus: &Bus)
    requires
        bus.wf(),
    ensures
        *final(cpu) == (CPU { af: (Register { high: spec_read(bus@, old(cpu).bc.spec_combined()), ..old(cpu).af }), ..*old(cpu) }),
{
    cpu.af.high = bus.fetch_byte(cpu.bc.get_combined());
}

/// LD A,(DE).
pub fn load_de_ptr_into_a(cpu: &mut CPU, bus: &Bus)
    requires
        bus.wf(),
    ensures
        *final(cpu) == (CPU { af: (Register { high: spec_read(bus@, old(cpu).de.spec_combined()), ..old(cpu).af }), ..*old(cpu) }),
{
    cpu.af.high = bus.fetch_byte(cpu.de.get_combined());
}

/// LD (HL+),A: store A, then step HL.
pub fn load_val_hl_ptr(cpu: &mut CPU, bus: &mut Bus)
    requires
        old(bus).wf(),
    ensures
        final(bus).wf(),
        final(bus)@ == spec_write(old(bus)@, old(cpu).hl.spec_combined(), old(cpu).af.high),
        *final(cpu) == (CPU { hl: (Register { high: word_hi(old(cpu).hl.spec_combined().wrapping_add(1)), low: word_lo(old(cpu).hl.spec_combined().wrapping_add(1)) }), ..*old(cpu) }),
{
    bus.set_byte(cpu.hl.get_combined(), cpu.af.high);
    let wv = cpu.hl.get_combined().wrapping_add(1);
    cpu.hl.set_word(wv);
}

/// LD (HL-),A: store A, then step HL.
pub fn load_val_hl_ptr_dec(cpu: &mut CPU, bus: &mut Bus)
    requires
        old(bus).wf(),
    ensures
        final(bus).wf(),
        final(bus)@ == spec_write(old(bus)@, old(cpu).hl.spec_combined(), old(cpu).af.high),
        *final(cpu) == (CPU { hl: (Register { high: word_hi(old(cpu).hl.spec_combined().wrapping_sub(1)), low: word_lo(old(cpu).hl.spec_combined().wrapping_sub(1)) }), ..*old(cpu) }),
{
    bus.set_byte(cpu.hl.get_combined(), cpu.af.high);
    let wv = cpu.hl.get_combined().wrapping_sub(1);
    cpu.hl.set_word(wv);
}

/// LD A,(HL+): load A, then step HL.
pub fn load_hl_ptr_into_a(cpu: &mut CPU, bus: &Bus)
    requires
        bus.wf(),
    ensures
        *final(cpu) == (CPU { af: (Register { high: spec_read(bus@, old(cpu).hl.spec_combined()), ..old(cpu).af }), hl: (Register { high: word_hi(old(cpu).hl.spec_combined().wrapping_add(1)), low: word_lo(old(cpu).hl.spec_combined().wrapping_add(1)) }), ..*old(cpu) }),
{
    cpu.af.high = bus.fetch_byte(cpu.hl.get_combined());
    let wv = cpu.hl.get_combined().wrapping_add(1);
    cpu.hl.set_word(wv);
}

/// LD A,(HL-): load A, then step HL.
pub fn load_hl_ptr_into_a_dec(cpu: &mut CPU, bus: &Bus)
    requires
        bus.wf(),
    ensures
        *final(cpu) == (CPU { af: (Register { high: spec_read(bus@, old(cpu).hl.spec_combined()), ..old(cpu).af }), hl: (Register { high: word_hi(old(cpu).hl.spec_combined().wrapping_sub(1)), low: word_lo(old(cpu).hl.spec_combined().wrapping_sub(1)) }), ..*old(cpu) }),
{
    cpu.af.high = bus.fetch_byte(cpu.hl.get_combined());
    let wv = cpu.hl.get_combined().wrapping_sub(1);
    cpu.hl.set_word(wv);
}

/// LD (HL),d8.
pub fn load_d8_into_hl_ptr(cpu: &CPU, bus: &mut Bus)
    requires
        old(bus).wf(),
    ensures
        final(bus).wf(),
        final(bus)@ == spec_write(old(bus)@, cpu.hl.spec_combined(), spec_read(old(bus)@, cpu.pc)),
{
    let v = bus.fetch_byte(cpu.pc);
    bus.set_byte(cpu.hl.get_combined(), v);
}

/// INC (HL): Z, N and H change, C is kept.
pub fn inc_hl_ptr(cpu: &mut CPU, bus: &mut Bus)
    requires
        old(bus).wf(),
    ensures
        final(bus).wf(),
        final(bus)@ == spec_write(old(bus)@, old(cpu).hl.spec_combined(), inc8(spec_read(old(bus)@, old(cpu).hl.spec_combined()))),
        *final(cpu) == (CPU { af: (Register { low: flags(inc8(spec_read(old(bus)@, old(cpu).hl.spec_combined())) == 0, false, (spec_read(old(bus)@, old(cpu).hl.spec_combined()) & 0xF) == 0xF, f_c(old(cpu).af.low)), ..old(cpu).af }), ..*old(cpu) }),
{
    let adr = cpu.hl.get_combined();
    let v = bus.fetch_byte(adr);
    let rf = alu_inc(v, cpu.extract_flag('c'));
    bus.set_byte(adr, rf.0);
    cpu.af.low = rf.1;
}

/// DEC (HL): Z, N and H change, C is kept.
pub fn dec_hl_ptr(cpu: &mut CPU, bus: &mut Bus)
    requires
        old(bus).wf(),
    ensures
        final(bus).wf(),
        final(bus)@ == spec_write(old(bus)@, old(cpu).hl.spec_combined(), dec8(spec_read(old(bus)@, old(cpu).hl.spec_combined()))),
        *final(cpu) == (CPU { af: (Register { low: flags(dec8(spec_read(old(bus)@, old(cpu).hl.spec_combined())) == 0, true, (spec_read(old(bus)@, old(cpu).hl.spec_combined()) & 0xF) == 0, f_c(old(cpu).af.low)), ..old(cpu).af }), ..*old(cpu) }),
{
    let adr = cpu.hl.get_combined();
    let v = bus.fetch_byte(adr);
    let rf = alu_dec(v, cpu.extract_flag('c'));
    bus.set_byte(adr, rf.0);
    cpu.af.low = rf.1;
}

// Accumulator rotates and flag instructions.

/// RLCA: rotate A left; bit 7 to bit 0 and to C; Z = N = H = 0.
pub fn rlca(cpu: &mut CPU)
    ensures
        *final(cpu) == (CPU { af: (Register { high: ((old(cpu).af.high << 1) | (old(cpu).af.high >> 7)), low: flags(false, false, false, old(cpu).af.high & 0x80 != 0) }), ..*old(cpu) }),
{
    let a = cpu.af.high;
    cpu.af.high = (a << 1) | (a >> 7);
    cpu.af.low = make_flags(false, false, false, a & 0x80 != 0);
}

/// RRCA: rotate A right; bit 0 to bit 7 and to C; Z = N = H = 0.
pub fn rrca(cpu: &mut CPU)
    ensures
        *final(cpu) == (CPU { af: (Register { high: ((old(cpu).af.high >> 1) | (old(cpu).af.high << 7)), low: flags(false, false, false, old(cpu).af.high & 1 != 0) }), ..*old(cpu) }),
{
    let a = cpu.af.high;
    cpu.af.high = (a >> 1) | (a << 7);
    cpu.af.low = make_flags(false, false, false, a & 1 != 0);
}

/// RLA: rotate A left through C; Z = N = H = 0.
pub fn rla(cpu: &mut CPU)
    ensures
        *final(cpu) == (CPU { af: (Register { high: ((old(cpu).af.high << 1) | (if f_c(old(cpu).af.low) { 1u8 } else { 0u8 })), low: flags(false, false, false, old(cpu).af.high & 0x80 != 0) }), ..*old(cpu) }),
{
    let a = cpu.af.high;
    let cin: u8 = if cpu.extract_flag('c') { 1 } else { 0 };
    cpu.af.high = (a << 1) | cin;
    cpu.af.low = make_flags(false, false, false, a & 0x80 != 0);
}

/// RRA: rotate A right through C; Z = N = H = 0.
pub fn rra(cpu: &mut CPU)
    ensures
        *final(cpu) == (CPU { af: (Register { high: ((old(cpu).af.high >> 1) | (if f_c(old(cpu).af.low) { 0x80u8 } else { 0u8 })), low: flags(false, false, false, old(cpu).af.high & 1 != 0) }), ..*old(cpu) }),
{
    let a = cpu.af.high;
    let cin: u8 = if cpu.extract_flag('c') { 0x80 } else { 0 };
    cpu.af.high = (a >> 1) | cin;
    cpu.af.low = make_flags(false, false, false, a & 1 != 0);
}

/// DAA: decimal-adjust A after an addition or subtraction; Z from the result, H cleared, C set when the adjustment overflowed.
pub fn daa(cpu: &mut CPU)
    ensures
        *final(cpu) == (CPU { af: (Register { high: daa_res(old(cpu).af.high, f_n(old(cpu).af.low), f_h(old(cpu).af.low), f_c(old(cpu).af.low)), low: flags(daa_res(old(cpu).af.high, f_n(old(cpu).af.low), f_h(old(cpu).af.low), f_c(old(cpu).af.low)) == 0, f_n(old(cpu).af.low), false, daa_carry(old(cpu).af.high, f_n(old(cpu).af.low), f_h(old(cpu).af.low), f_c(old(cpu).af.low))) }), ..*old(cpu) }),
{
    let a = cpu.af.high;
    let n = cpu.extract_flag('n');
    let h = cpu.extract_flag('h');
    let c = cpu.extract_flag('c');
    let mut adj: u8 = 0;
    if !n {
        if h || (a & 0xF) > 9 {
            adj = 0x06;
        }
        if c || a > 0x99 {
            adj = adj + 0x60;
        }
        let r = a.wrapping_add(adj);
        cpu.af.high = r;
        cpu.af.low = make_flags(r == 0, n, false, c || a > 0x99);
    } else {
        if h {
            adj = 0x06;
        }
        if c {
            adj = adj + 0x60;
        }
        let r = a.wrapping_sub(adj);
        cpu.af.high = r;
        cpu.af.low = make_flags(r == 0, n, false, c);
    }
}

/// CPL: complement A; N = H = 1, Z and C kept.
pub fn cpl(cpu: &mut CPU)
    ensures
        *final(cpu) == (CPU { af: (Register { high: !old(cpu).af.high, low: flags(f_z(old(cpu).af.low), true, true, f_c(old(cpu).af.low)) }), ..*old(cpu) }),
{
    let a = cpu.af.high;
    cpu.af.high = !a;
    cpu.af.low = make_flags(cpu.extract_flag('z'), true, true, cpu.extract_flag('c'));
}

/// SCF: C = 1, N = H = 0, Z kept.
pub fn set_carry_flag(cpu: &mut CPU)
    ensures
        *final(cpu) == (CPU { af: (Register { low: flags(f_z(old(cpu).af.low), false, false, true), ..old(cpu).af }), ..*old(cpu) }),
{
    cpu.af.low = make_flags(cpu.extract_flag('z'), false, false, true);
}

/// CCF: C flipped, N = H = 0, Z kept.
pub fn ccf(cpu: &mut CPU)
    ensures
        *final(cpu) == (CPU { af: (Register { low: flags(f_z(old(cpu).af.low), false, false, !f_c(old(cpu).af.low)), ..old(cpu).af }), ..*old(cpu) }),
{
    cpu.af.low = make_flags(cpu.extract_flag('z'), false, false, !cpu.extract_flag('c'));
}

// Jumps, calls, returns and restarts.

/// JR s8: relative jump; the new PC is PC + signed operand + 1.
pub fn jr_s8(cpu: &mut CPU, bus: &Bus)
    requires
        bus.wf(),
    ensures
        *final(cpu) == (CPU { pc: jr_target(old(cpu).pc, spec_read(bus@, old(cpu).pc)), ..*old(cpu) }),
{
    let e = bus.fetch_byte(cpu.pc);
    cpu.pc = cpu.pc.wrapping_add(1).wrapping_add(e as u16).wrapping_sub(
        if e >= 128 {
            256
        } else {
            0
        },
    );
}

/// Conditional relative jump.
pub fn jr_nz_s8(cpu: &mut CPU, bus: &Bus)
    requires
        bus.wf(),
    ensures
        *final(cpu) == if !f_z(old(cpu).af.low) { (CPU { pc: jr_target(old(cpu).pc, spec_read(bus@, old(cpu).pc)), ..*old(cpu) }) } else { *old(cpu) },
{
    if !cpu.extract_flag('z') {
        jr_s8(cpu, bus);
    }
}

/// Conditional relative jump.
pub fn jr_z_s8(cpu: &mut CPU, bus: &Bus)
    requires
        bus.wf(),
    ensures
        *final(cpu) == if f_z(old(cpu).af.low) { (CPU { pc: jr_target(old(cpu).pc, spec_read(bus@, old(cpu).pc)), ..*old(cpu) }) } else { *old(cpu) },
{
    if cpu.extract_flag('z') {
        jr_s8(cpu, bus);
    }
}

/// Conditional relative jump.
pub fn jr_nc_s8(cpu: &mut CPU, bus: &Bus)
    requires
        bus.wf(),
    ensures
        *final(cpu) == if !f_c(old(cpu).af.low) { (CPU { pc: jr_target(old(cpu).pc, spec_read(bus@, old(cpu).pc)), ..*old(cpu) }) } else { *old(cpu) },
{
    if !cpu.extract_flag('c') {
        jr_s8(cpu, bus);
    }
}

/// Conditional relative jump.
pub fn jr_c_s8(cpu: &mut CPU, bus: &Bus)
    requires
        bus.wf(),
    ensures
        *final(cpu) == if f_c(old(cpu).af.low) { (CPU { pc: jr_target(old(cpu).pc, spec_read(bus@, old(cpu).pc)), ..*old(cpu) }) } else { *old(cpu) },
{
    if cpu.extract_flag('c') {
        jr_s8(cpu, bus);
    }
}

/// JP a16: absolute jump.
pub fn jp_a16(cpu: &mut CPU, bus: &Bus)
    requires
        bus.wf(),
    ensures
        *final(cpu) == (CPU { pc: spec_read_word(bus@, old(cpu).pc), ..*old(cpu) }),
{
    let t = bus.fetch_word(cpu.pc);
    cpu.pc = t;
}

/// Conditional absolute jump.
pub fn jp_nz_a16(cpu: &mut CPU, bus: &Bus)
    requires
        bus.wf(),
    ensures
        *final(cpu) == if !f_z(old(cpu).af.low) { (CPU { pc: spec_read_word(bus@, old(cpu).pc), ..*old(cpu) }) } else { *old(cpu) },
{
    if !cpu.extract_flag('z') {
        jp_a16(cpu, bus);
    }
}

/// Conditional absolute jump.
pub fn jp_z_a16(cpu: &mut CPU, bus: &Bus)
    requires
        bus.wf(),
    ensures
        *final(cpu) == if f_z(old(cpu).af.low) { (CPU { pc: spec_read_word(bus@, old(cpu).pc), ..*old(cpu) }) } else { *old(cpu) },
{
    if cpu.extract_flag('z') {
        jp_a16(cpu, bus);
    }
}

/// Conditional absolute jump.
pub fn jp_nc_a16(cpu: &mut CPU, bus: &Bus)
    requires
        bus.wf(),
    ensures
        *final(cpu) == if !f_c(old(cpu).af.low) { (CPU { pc: spec_read_word(bus@, old(cpu).pc), ..*old(cpu) }) } else { *old(cpu) },
{
    if !cpu.extract_flag('c') {
        jp_a16(cpu, bus);
    }
}

/// Conditional absolute jump.
pub fn jp_c_a16(cpu: &mut CPU, bus: &Bus)
    requires
        bus.wf(),
    ensures
        *final(cpu) == if f_c(old(cpu).af.low) { (CPU { pc: spec_read_word(bus@, old(cpu).pc), ..*old(cpu) }) } else { *old(cpu) },
{
    if cpu.extract_flag('c') {
        jp_a16(cpu, bus);
    }
}

/// JP HL: jump to the address in HL.
pub fn jp_hl(cpu: &mut CPU)
    ensures
        *final(cpu) == (CPU { pc: old(cpu).hl.spec_combined(), ..*old(cpu) }),
{
    cpu.pc = cpu.hl.get_combined();
}

/// CALL a16: push the address after the two operand bytes, then jump.
pub fn call_a16(cpu: &mut CPU, bus: &mut Bus)
    requires
        old(bus).wf(),
    ensures
        final(bus).wf(),
        final(bus)@ == spec_write_word(old(bus)@, old(cpu).sp.wrapping_sub(2), old(cpu).pc.wrapping_add(2)),
        *final(cpu) == (CPU { pc: spec_read_word(old(bus)@, old(cpu).pc), sp: old(cpu).sp.wrapping_sub(2), ..*old(cpu) }),
{
    let target = bus.fetch_word(cpu.pc);
    let ret_addr = cpu.pc.wrapping_add(2);
    cpu.push_stack(bus, ret_addr);
    cpu.pc = target;
}

/// Conditional call.
pub fn call_nz_a16(cpu: &mut CPU, bus: &mut Bus)
    requires
        old(bus).wf(),
    ensures
        final(bus).wf(),
        final(bus)@ == if !f_z(old(cpu).af.low) { spec_write_word(old(bus)@, old(cpu).sp.wrapping_sub(2), old(cpu).pc.wrapping_add(2)) } else { old(bus)@ },
        *final(cpu) == if !f_z(old(cpu).af.low) { (CPU { pc: spec_read_word(old(bus)@, old(cpu).pc), sp: old(cpu).sp.wrapping_sub(2), ..*old(cpu) }) } else { *old(cpu) },
{
    if !cpu.extract_flag('z') {
        call_a16(cpu, bus);
    }
}

/// Conditional call.
pub fn call_z_a16(cpu: &mut CPU, bus: &mut Bus)
    requires
        old(bus).wf(),
    ensures
        final(bus).wf(),
        final(bus)@ == if f_z(old(cpu).af.low) { spec_write_word(old(bus)@, old(cpu).sp.wrapping_sub(2), old(cpu).pc.wrapping_add(2)) } else { old(bus)@ },
        *final(cpu) == if f_z(old(cpu).af.low) { (CPU { pc: spec_read_word(old(bus)@, old(cpu).pc), sp: old(cpu).sp.wrapping_sub(2), ..*old(cpu) }) } else { *old(cpu) },
{
    if cpu.extract_flag('z') {
        call_a16(cpu, bus);
    }
}

/// Conditional call.
pub fn call_nc_a16(cpu: &mut CPU, bus: &mut Bus)
    requires
        old(bus).wf(),
    ensures
        final(bus).wf(),
        final(bus)@ == if !f_c(old(cpu).af.low) { spec_write_word(old(bus)@, old(cpu).sp.wrapping_sub(2), old(cpu).pc.wrapping_add(2)) } else { old(bus)@ },
        *final(cpu) == if !f_c(old(cpu).af.low) { (CPU { pc: spec_read_word(old(bus)@, old(cpu).pc), sp: old(cpu).sp.wrapping_sub(2), ..*old(cpu) }) } else { *old(cpu) },
{
    if !cpu.extract_flag('c') {
        call_a16(cpu, bus);
    }
}

/// Conditional call.
pub fn call_c_a16(cpu: &mut CPU, bus: &mut Bus)
    requires
        old(bus).wf(),
    ensures
        final(bus).wf(),
        final(bus)@ == if f_c(old(cpu).af.low) { spec_write_word(old(bus)@, old(cpu).sp.wrapping_sub(2), old(cpu).pc.wrapping_add(2)) } else { old(bus)@ },
        *final(cpu) == if f_c(old(cpu).af.low) { (CPU { pc: spec_read_word(old(bus)@, old(cpu).pc), sp: old(cpu).sp.wrapping_sub(2), ..*old(cpu) }) } else { *old(cpu) },
{
    if cpu.extract_flag('c') {
        call_a16(cpu, bus);
    }
}

/// RET: pop the return address into PC, with no further adjustment.
pub fn ret(cpu: &mut CPU, bus: &Bus)
    requires
        bus.wf(),
    ensures
        *final(cpu) == (CPU { pc: spec_read_word(bus@, old(cpu).sp), sp: old(cpu).sp.wrapping_add(2), ..*old(cpu) }),
{
    let wv = bus.fetch_word(cpu.sp);
    cpu.sp = cpu.sp.wrapping_add(2);
    cpu.pc = wv;
}

/// Conditional return.
pub fn ret_nz(cpu: &mut CPU, bus: &Bus)
    requires
        bus.wf(),
    ensures
        *final(cpu) == if !f_z(old(cpu).af.low) { (CPU { pc: spec_read_word(bus@, old(cpu).sp), sp: old(cpu).sp.wrapping_add(2), ..*old(cpu) }) } else { *old(cpu) },
{
    if !cpu.extract_flag('z') {
        ret(cpu, bus);
    }
}

/// Conditional return.
pub fn ret_z(cpu: &mut CPU, bus: &Bus)
    requires
        bus.wf(),
    ensures
        *final(cpu) == if f_z(old(cpu).af.low) { (CPU { pc: spec_read_word(bus@, old(cpu).sp), sp: old(cpu).sp.wrapping_add(2), ..*old(cpu) }) } else { *old(cpu) },
{
    if cpu.extract_flag('z') {
        ret(cpu, bus);
    }
}

/// Conditional return.
pub fn ret_nc(cpu: &mut CPU, bus: &Bus)
    requires
        bus.wf(),
    ensures
        *final(cpu) == if !f_c(old(cpu).af.low) { (CPU { pc: spec_read_word(bus@, old(cpu).sp), sp: old(cpu).sp.wrapping_add(2), ..*old(cpu) }) } else { *old(cpu) },
{
    if !cpu.extract_flag('c') {
        ret(cpu, bus);
    }
}

/// Conditional return.
pub fn ret_c(cpu: &mut CPU, bus: &Bus)
    requires
        bus.wf(),
    ensures
        *final(cpu) == if f_c(old(cpu).af.low) { (CPU { pc: spec_read_word(bus@, old(cpu).sp), sp: old(cpu).sp.wrapping_add(2), ..*old(cpu) }) } else { *old(cpu) },
{
    if cpu.extract_flag('c') {
        ret(cpu, bus);
    }
}

/// RETI: return and enable interrupts.
pub fn ret_i(cpu: &mut CPU, bus: &Bus)
    requires
        bus.wf(),
    ensures
        *final(cpu) == (CPU { pc: spec_read_word(bus@, old(cpu).sp), sp: old(cpu).sp.wrapping_add(2), ime: true, ..*old(cpu) }),
{
    cpu.ime = true;
    let wv = bus.fetch_word(cpu.sp);
    cpu.sp = cpu.sp.wrapping_add(2);
    cpu.pc = wv;
}

/// Restart: push the current PC and jump to the fixed vector.
pub fn rst_general(cpu: &mut CPU, bus: &mut Bus, address: u16)
    requires
        old(bus).wf(),
    ensures
        final(bus).wf(),
        final(bus)@ == spec_write_word(old(bus)@, old(cpu).sp.wrapping_sub(2), old(cpu).pc),
        *final(cpu) == (CPU { pc: address, sp: old(cpu).sp.wrapping_sub(2), ..*old(cpu) }),
{
    let pc = cpu.pc;
    cpu.push_stack(bus, pc);
    cpu.pc = address;
}

/// RST 0: restart at 0x00.
pub fn rst_0(cpu: &mut CPU, bus: &mut Bus)
    requires
        old(bus).wf(),
    ensures
        final(bus).wf(),
        final(bus)@ == spec_write_word(old(bus)@, old(cpu).sp.wrapping_sub(2), old(cpu).pc),
        *final(cpu) == (CPU { pc: 0x00, sp: old(cpu).sp.wrapping_sub(2), ..*old(cpu) }),
{
    rst_general(cpu, bus, 0x00);
}

/// RST 1: restart at 0x08.
pub fn rst_1(cpu: &mut CPU, bus: &mut Bus)
    requires
        old(bus).wf(),
    ensures
        final(bus).wf(),
        final(bus)@ == spec_write_word(old(bus)@, old(cpu).sp.wrapping_sub(2), old(cpu).pc),
        *final(cpu) == (CPU { pc: 0x08, sp: old(cpu).sp.wrapping_sub(2), ..*old(cpu) }),
{
    rst_general(cpu, bus, 0x08);
}

/// RST 2: restart at 0x10.
pub fn rst_2(cpu: &mut CPU, bus: &mut Bus)
    requires
        old(bus).wf(),
    ensures
        final(bus).wf(),
        final(bus)@ == spec_write_word(old(bus)@, old(cpu).sp.wrapping_sub(2), old(cpu).pc),
        *final(cpu) == (CPU { pc: 0x10, sp: old(cpu).sp.wrapping_sub(2), ..*old(cpu) }),
{
    rst_general(cpu, bus, 0x10);
}

/// RST 3: restart at 0x18.
pub fn rst_3(cpu: &mut CPU, bus: &mut Bus)
    requires
        old(bus).wf(),
    ensures
        final(bus).wf(),
        final(bus)@ == spec_write_word(old(bus)@, old(cpu).sp.wrapping_sub(2), old(cpu).pc),
        *final(cpu) == (CPU { pc: 0x18, sp: old(cpu).sp.wrapping_sub(2), ..*old(cpu) }),
{
    rst_general(cpu, bus, 0x18);
}

/// RST 4: restart at 0x20.
pub fn rst_4(cpu: &mut CPU, bus: &mut Bus)
    requires
        old(bus).wf(),
    ensures
        final(bus).wf(),
        final(bus)@ == spec_write_word(old(bus)@, old(cpu).sp.wrapping_sub(2), old(cpu).pc),
        *final(cpu) == (CPU { pc: 0x20, sp: old(cpu).sp.wrapping_sub(2), ..*old(cpu) }),
{
    rst_general(cpu, bus, 0x20);
}

/// RST 5: restart at 0x28.
pub fn rst_5(cpu: &mut CPU, bus: &mut Bus)
    requires
        old(bus).wf(),
    ensures
        final(bus).wf(),
        final(bus)@ == spec_write_word(old(bus)@, old(cpu).sp.wrapping_sub(2), old(cpu).pc),
        *final(cpu) == (CPU { pc: 0x28, sp: old(cpu).sp.wrapping_sub(2), ..*old(cpu) }),
{
    rst_general(cpu, bus, 0x28);
}

/// RST 6: restart at 0x30.
pub fn rst_6(cpu: &mut CPU, bus: &mut Bus)
    requires
        old(bus).wf(),
    ensures
        final(bus).wf(),
        final(bus)@ == spec_write_word(old(bus)@, old(cpu).sp.wrapping_sub(2), old(cpu).pc),
        *final(cpu) == (CPU { pc: 0x30, sp: old(cpu).sp.wrapping_sub(2), ..*old(cpu) }),
{
    rst_general(cpu, bus, 0x30);
}

/// RST 7: restart at 0x38.
pub fn rst_7(cpu: &mut CPU, bus: &mut Bus)
    requires
        old(bus).wf(),
    ensures
        final(bus).wf(),
        final(bus)@ == spec_write_word(old(bus)@, old(cpu).sp.wrapping_sub(2), old(cpu).pc),
        *final(cpu) == (CPU { pc: 0x38, sp: old(cpu).sp.wrapping_sub(2), ..*old(cpu) }),
{
    rst_general(cpu, bus, 0x38);
}

// Stack pushes and pops.

/// PUSH BC.
pub fn push_bc(cpu: &mut CPU, bus: &mut Bus)
    requires
        old(bus).wf(),
    ensures
        final(bus).wf(),
        final(bus)@ == spec_write_word(old(bus)@, old(cpu).sp.wrapping_sub(2), old(cpu).bc.spec_combined()),
        *final(cpu) == (CPU { sp: old(cpu).sp.wrapping_sub(2), ..*old(cpu) }),
{
    let wv = cpu.bc.get_combined();
    cpu.push_stack(bus, wv);
}

/// POP BC.
pub fn pop_bc(cpu: &mut CPU, bus: &Bus)
    requires
        bus.wf(),
    ensures
        *final(cpu) == (CPU { bc: (Register { high: spec_read(bus@, old(cpu).sp.wrapping_add(1)), low: spec_read(bus@, old(cpu).sp) }), sp: old(cpu).sp.wrapping_add(2), ..*old(cpu) }),
{
    cpu.bc.low = bus.fetch_byte(cpu.sp);
    cpu.bc.high = bus.fetch_byte(cpu.sp.wrapping_add(1));
    cpu.sp = cpu.sp.wrapping_add(2);
}

/// PUSH DE.
pub fn push_de(cpu: &mut CPU, bus: &mut Bus)
    requires
        old(bus).wf(),
    ensures
        final(bus).wf(),
        final(bus)@ == spec_write_word(old(bus)@, old(cpu).sp.wrapping_sub(2), old(cpu).de.spec_combined()),
        *final(cpu) == (CPU { sp: old(cpu).sp.wrapping_sub(2), ..*old(cpu) }),
{
    let wv = cpu.de.get_combined();
    cpu.push_stack(bus, wv);
}

/// POP DE.
pub fn pop_de(cpu: &mut CPU, bus: &Bus)
    requires
        bus.wf(),
    ensures
        *final(cpu) == (CPU { de: (Register { high: spec_read(bus@, old(cpu).sp.wrapping_add(1)), low: spec_read(bus@, old(cpu).sp) }), sp: old(cpu).sp.wrapping_add(2), ..*old(cpu) }),
{
    cpu.de.low = bus.fetch_byte(cpu.sp);
    cpu.de.high = bus.fetch_byte(cpu.sp.wrapping_add(1));
    cpu.sp = cpu.sp.wrapping_add(2);
}

/// PUSH HL.
pub fn push_hl(cpu: &mut CPU, bus: &mut Bus)
    requires
        old(bus).wf(),
    ensures
        final(bus).wf(),
        final(bus)@ == spec_write_word(old(bus)@, old(cpu).sp.wrapping_sub(2), old(cpu).hl.spec_combined()),
        *final(cpu) == (CPU { sp: old(cpu).sp.wrapping_sub(2), ..*old(cpu) }),
{
    let wv = cpu.hl.get_combined();
    cpu.push_stack(bus, wv);
}

/// POP HL.
pub fn pop_hl(cpu: &mut CPU, bus: &Bus)
    requires
        bus.wf(),
    ensures
        *final(cpu) == (CPU { hl: (Register { high: spec_read(bus@, old(cpu).sp.wrapping_add(1)), low: spec_read(bus@, old(cpu).sp) }), sp: old(cpu).sp.wrapping_add(2), ..*old(cpu) }),
{
    cpu.hl.low = bus.fetch_byte(cpu.sp);
    cpu.hl.high = bus.fetch_byte(cpu.sp.wrapping_add(1));
    cpu.sp = cpu.sp.wrapping_add(2);
}

/// PUSH AF.
pub fn push_af(cpu: &mut CPU, bus: &mut Bus)
    requires
        old(bus).wf(),
    ensures
        final(bus).wf(),
        final(bus)@ == spec_write_word(old(bus)@, old(cpu).sp.wrapping_sub(2), old(cpu).af.spec_combined()),
        *final(cpu) == (CPU { sp: old(cpu).sp.wrapping_sub(2), ..*old(cpu) }),
{
    let wv = cpu.af.get_combined();
    cpu.push_stack(bus, wv);
}

/// POP AF: bits 3..0 of the popped flag byte are forced to zero.
pub fn pop_af(cpu: &mut CPU, bus: &Bus)
    requires
        bus.wf(),
    ensures
        *final(cpu) == (CPU { af: (Register { high: spec_read(bus@, old(cpu).sp.wrapping_add(1)), low: (spec_read(bus@, old(cpu).sp) & 0xF0) }), sp: old(cpu).sp.wrapping_add(2), ..*old(cpu) }),
        final(cpu).flags_wf(),
{
    let lo = bus.fetch_byte(cpu.sp);
    cpu.af.low = lo & 0xF0;
    cpu.af.high = bus.fetch_byte(cpu.sp.wrapping_add(1));
    cpu.sp = cpu.sp.wrapping_add(2);
    proof {
        crate::cpu::lemma_pop_af_mask(lo);
    }
}

// High-page and absolute loads and stores.

/// LDH (a8),A: store A at 0xFF00 + operand.
pub fn ld_a_to_ffa8(cpu: &CPU, bus: &mut Bus)
    requires
        old(bus).wf(),
    ensures
        final(bus).wf(),
        final(bus)@ == spec_write(old(bus)@, (0xFF00 + spec_read(old(bus)@, cpu.pc)) as u16, cpu.af.high),
{
    let op = bus.fetch_byte(cpu.pc);
    bus.set_byte(0xFF00 + (op as u16), cpu.af.high);
}

/// LDH A,(a8): load A from 0xFF00 + operand.
pub fn ld_ffa8_to_a(cpu: &mut CPU, bus: &Bus)
    requires
        bus.wf(),
    ensures
        *final(cpu) == (CPU { af: (Register { high: spec_read(bus@, (0xFF00 + spec_read(bus@, old(cpu).pc)) as u16), ..old(cpu).af }), ..*old(cpu) }),
{
    let op = bus.fetch_byte(cpu.pc);
    cpu.af.high = bus.fetch_byte(0xFF00 + (op as u16));
}

/// LD (C),A: store A at 0xFF00 + C.
pub fn ld_a_to_ffc(cpu: &CPU, bus: &mut Bus)
    requires
        old(bus).wf(),
    ensures
        final(bus).wf(),
        final(bus)@ == spec_write(old(bus)@, (0xFF00 + cpu.bc.low) as u16, cpu.af.high),
{
    bus.set_byte(0xFF00 + (cpu.bc.low as u16), cpu.af.high);
}

/// LD A,(C): load A from 0xFF00 + C.
pub fn ld_ffc_to_a(cpu: &mut CPU, bus: &Bus)
    requires
        bus.wf(),
    ensures
        *final(cpu) == (CPU { af: (Register { high: spec_read(bus@, (0xFF00 + old(cpu).bc.low) as u16), ..old(cpu).af }), ..*old(cpu) }),
{
    cpu.af.high = bus.fetch_byte(0xFF00 + (cpu.bc.low as u16));
}

/// LD (a16),A.
pub fn ld_a16_a(cpu: &CPU, bus: &mut Bus)
    requires
        old(bus).wf(),
    ensures
        final(bus).wf(),
        final(bus)@ == spec_write(old(bus)@, spec_read_word(old(bus)@, cpu.pc), cpu.af.high),
{
    let addr = bus.fetch_word(cpu.pc);
    bus.set_byte(addr, cpu.af.high);
}

/// LD A,(a16).
pub fn ld_a_a16(cpu: &mut CPU, bus: &Bus)
    requires
        bus.wf(),
    ensures
        *final(cpu) == (CPU { af: (Register { high: spec_read(bus@, spec_read_word(bus@, old(cpu).pc)), ..old(cpu).af }), ..*old(cpu) }),
{
    let addr = bus.fetch_word(cpu.pc);
    cpu.af.high = bus.fetch_byte(addr);
}

/// LD (a16),SP.
pub fn load_sp_imm_address(cpu: &CPU, bus: &mut Bus)
    requires
        old(bus).wf(),
    ensures
        final(bus).wf(),
        final(bus)@ == spec_write_word(old(bus)@, spec_read_word(old(bus)@, cpu.pc), cpu.sp),
{
    let addr = bus.fetch_word(cpu.pc);
    bus.set_word(addr, cpu.sp);
}

/// LD SP,HL.
pub fn ld_sp_hl(cpu: &mut CPU)
    ensures
        *final(cpu) == (CPU { sp: old(cpu).hl.spec_combined(), ..*old(cpu) }),
{
    cpu.sp = cpu.hl.get_combined();
}

/// ADD SP,s8: Z = N = 0, H and C from the low-byte unsigned addition.
pub fn add_sp_s8(cpu: &mut CPU, bus: &Bus)
    requires
        bus.wf(),
    ensures
        *final(cpu) == (CPU { sp: sp_s8_target(old(cpu).sp, spec_read(bus@, old(cpu).pc)), af: (Register { low: flags(false, false, s8_half(old(cpu).sp, spec_read(bus@, old(cpu).pc)), s8_carry(old(cpu).sp, spec_read(bus@, old(cpu).pc))), ..old(cpu).af }), ..*old(cpu) }),
{
    let e = bus.fetch_byte(cpu.pc);
    let hf = ((cpu.sp & 0xF) as u32) + ((e & 0xF) as u32) > 0xF;
    let cf = ((cpu.sp & 0xFF) as u32) + ((e & 0xFF) as u32) > 0xFF;
    cpu.af.low = make_flags(false, false, hf, cf);
    cpu.sp = cpu.sp.wrapping_add(e as u16).wrapping_sub(
        if e >= 128 {
            256
        } else {
            0
        },
    );
}

/// LD HL,SP+s8: Z = N = 0, H and C from the low-byte unsigned addition.
pub fn ld_sp_s8_to_hl(cpu: &mut CPU, bus: &Bus)
    requires
        bus.wf(),
    ensures
        *final(cpu) == (CPU { hl: (Register { high: word_hi(sp_s8_target(old(cpu).sp, spec_read(bus@, old(cpu).pc))), low: word_lo(sp_s8_target(old(cpu).sp, spec_read(bus@, old(cpu).pc))) }), af: (Register { low: flags(false, false, s8_half(old(cpu).sp, spec_read(bus@, old(cpu).pc)), s8_carry(old(cpu).sp, spec_read(bus@, old(cpu).pc))), ..old(cpu).af }), ..*old(cpu) }),
{
    let e = bus.fetch_byte(cpu.pc);
    let hf = ((cpu.sp & 0xF) as u32) + ((e & 0xF) as u32) > 0xF;
    let cf = ((cpu.sp & 0xFF) as u32) + ((e & 0xFF) as u32) > 0xFF;
    cpu.af.low = make_flags(false, false, hf, cf);
    let t = cpu.sp.wrapping_add(e as u16).wrapping_sub(
        if e >= 128 {
            256
        } else {
            0
        },
    );
    cpu.hl.set_word(t);
}

// Pipeline and interrupt latch instructions.

/// NOP: no effect.
pub fn nop(cpu: &mut CPU)
    ensures
        *final(cpu) == *old(cpu),
{
}

/// HALT: the CPU executes nothing until an interrupt is pending.
pub fn halt(cpu: &mut CPU)
    ensures
        *final(cpu) == (CPU { halted: true, ..*old(cpu) }),
{
    cpu.halted = true;
}

/// STOP: the CPU stops until a joypad interrupt is pending.
pub fn stop(cpu: &mut CPU)
    ensures
        *final(cpu) == (CPU { stopped: true, ..*old(cpu) }),
{
    cpu.stopped = true;
}

/// DI: disable interrupts.
pub fn di(cpu: &mut CPU)
    ensures
        *final(cpu) == (CPU { ime: false, ..*old(cpu) }),
{
    cpu.ime = false;
}

/// EI: enable interrupts (the one-instruction delay of the hardware is not modelled).
pub fn ei(cpu: &mut CPU)
    ensures
        *final(cpu) == (CPU { ime: true, ..*old(cpu) }),
{
    cpu.ime = true;
}

/// The processor after the primary-table opcode `op`, as `execute_op`
/// dispatches it: `cpu` holds the state with PC already past the opcode
/// byte, `mem` the bus contents.  Illegal opcodes and the 0xCB prefix are
/// not instructions of this table and change nothing.
pub open spec fn spec_step_cpu(cpu: CPU, mem: Seq<u8>, op: u8) -> CPU {
    match op {
        0x00 => cpu,
        0x01 => (CPU { bc: (Register { high: spec_read(mem, cpu.pc.wrapping_add(1)), low: spec_read(mem, cpu.pc) }), ..cpu }),
        0x02 => cpu,
        0x03 => (CPU { bc: (Register { high: word_hi(cpu.bc.spec_combined().wrapping_add(1)), low: word_lo(cpu.bc.spec_combined().wrapping_add(1)) }), ..cpu }),
        0x04 => (CPU { bc: (Register { high: inc8(cpu.bc.high), ..cpu.bc }), af: (Register { low: flags(inc8(cpu.bc.high) == 0, false, (cpu.bc.high & 0xF) == 0xF, f_c(cpu.af.low)), ..cpu.af }), ..cpu }),
        0x05 => (CPU { bc: (Register { high: dec8(cpu.bc.high), ..cpu.bc }), af: (Register { low: flags(dec8(cpu.bc.high) == 0, true, (cpu.bc.high & 0xF) == 0, f_c(cpu.af.low)), ..cpu.af }), ..cpu }),
        0x06 => (CPU { bc: (Register { high: spec_read(mem, cpu.pc), ..cpu.bc }), ..cpu }),
        0x07 => (CPU { af: (Register { high: ((cpu.af.high << 1) | (cpu.af.high >> 7)), low: flags(false, false, false, cpu.af.high & 0x80 != 0) }), ..cpu }),
        0x08 => cpu,
        0x09 => (CPU { hl: (Register { high: word_hi(add16(cpu.hl.spec_combined(), cpu.bc.spec_combined())), low: word_lo(add16(cpu.hl.spec_combined(), cpu.bc.spec_combined())) }), af: (Register { low: flags(f_z(cpu.af.low), false, add16_half(cpu.hl.spec_combined(), cpu.bc.spec_combined()), add16_carry(cpu.hl.spec_combined(), cpu.bc.spec_combined())), ..cpu.af }), ..cpu }),
        0x0A => (CPU { af: (Register { high: spec_read(mem, cpu.bc.spec_combined()), ..cpu.af }), ..cpu }),
        0x0B => (CPU { bc: (Register { high: word_hi(cpu.bc.spec_combined().wrapping_sub(1)), low: word_lo(cpu.bc.spec_combined().wrapping_sub(1)) }), ..cpu }),
        0x0C => (CPU { bc: (Register { low: inc8(cpu.bc.low), ..cpu.bc }), af: (Register { low: flags(inc8(cpu.bc.low) == 0, false, (cpu.bc.low & 0xF) == 0xF, f_c(cpu.af.low)), ..cpu.af }), ..cpu }),
        0x0D => (CPU { bc: (Register { low: dec8(cpu.bc.low), ..cpu.bc }), af: (Register { low: flags(dec8(cpu.bc.low) == 0, true, (cpu.bc.low & 0xF) == 0, f_c(cpu.af.low)), ..cpu.af }), ..cpu }),
        0x0E => (CPU { bc: (Register { low: spec_read(mem, cpu.pc), ..cpu.bc }), ..cpu }),
        0x0F => (CPU { af: (Register { high: ((cpu.af.high >> 1) | (cpu.af.high << 7)), low: flags(false, false, false, cpu.af.high & 1 != 0) }), ..cpu }),
        0x10 => (CPU { stopped: true, ..cpu }),
        0x11 => (CPU { de: (Register { high: spec_read(mem, cpu.pc.wrapping_add(1)), low: spec_read(mem, cpu.pc) }), ..cpu }),
        0x12 => cpu,
        0x13 => (CPU { de: (Register { high: word_hi(cpu.de.spec_combined().wrapping_add(1)), low: word_lo(cpu.de.spec_combined().wrapping_add(1)) }), ..cpu }),
        0x14 => (CPU { de: (Register { high: inc8(cpu.de.high), ..cpu.de }), af: (Register { low: flags(inc8(cpu.de.high) == 0, false, (cpu.de.high & 0xF) == 0xF, f_c(cpu.af.low)), ..cpu.af }), ..cpu }),
        0x15 => (CPU { de: (Register { high: dec8(cpu.de.high), ..cpu.de }), af: (Register { low: flags(dec8(cpu.de.high) == 0, true, (cpu.de.high & 0xF) == 0, f_c(cpu.af.low)), ..cpu.af }), ..cpu }),
        0x16 => (CPU { de: (Register { high: spec_read(mem, cpu.pc), ..cpu.de }), ..cpu }),
        0x17 => (CPU { af: (Register { high: ((cpu.af.high << 1) | (if f_c(cpu.af.low) { 1u8 } else { 0u8 })), low: flags(false, false, false, cpu.af.high & 0x80 != 0) }), ..cpu }),
        0x18 => (CPU { pc: jr_target(cpu.pc, spec_read(mem, cpu.pc)), ..cpu }),
        0x19 => (CPU { hl: (Register { high: word_hi(add16(cpu.hl.spec_combined(), cpu.de.spec_combined())), low: word_lo(add16(cpu.hl.spec_combined(), cpu.de.spec_combined())) }), af: (Register { low: flags(f_z(cpu.af.low), false, add16_half(cpu.hl.spec_combined(), cpu.de.spec_combined()), add16_carry(cpu.hl.spec_combined(), cpu.de.spec_combined())), ..cpu.af }), ..cpu }),
        0x1A => (CPU { af: (Register { high: spec_read(mem, cpu.de.spec_combined()), ..cpu.af }), ..cpu }),
        0x1B => (CPU { de: (Register { high: word_hi(cpu.de.spec_combined().wrapping_sub(1)), low: word_lo(cpu.de.spec_combined().wrapping_sub(1)) }), ..cpu }),
        0x1C => (CPU { de: (Register { low: inc8(cpu.de.low), ..cpu.de }), af: (Register { low: flags(inc8(cpu.de.low) == 0, false, (cpu.de.low & 0xF) == 0xF, f_c(cpu.af.low)), ..cpu.af }), ..cpu }),
        0x1D => (CPU { de: (Register { low: dec8(cpu.de.low), ..cpu.de }), af: (Register { low: flags(dec8(cpu.de.low) == 0, true, (cpu.de.low & 0xF) == 0, f_c(cpu.af.low)), ..cpu.af }), ..cpu }),
        0x1E => (CPU { de: (Register { low: spec_read(mem, cpu.pc), ..cpu.de }), ..cpu }),
        0x1F => (CPU { af: (Register { high: ((cpu.af.high >> 1) | (if f_c(cpu.af.low) { 0x80u8 } else { 0u8 })), low: flags(false, false, false, cpu.af.high & 1 != 0) }), ..cpu }),
        0x20 => if !f_z(cpu.af.low) { (CPU { pc: jr_target(cpu.pc, spec_read(mem, cpu.pc)), ..cpu }) } else { cpu },
        0x21 => (CPU { hl: (Register { high: spec_read(mem, cpu.pc.wrapping_add(1)), low: spec_read(mem, cpu.pc) }), ..cpu }),
        0x22 => (CPU { hl: (Register { high: word_hi(cpu.hl.spec_combined().wrapping_add(1)), low: word_lo(cpu.hl.spec_combined().wrapping_add(1)) }), ..cpu }),
        0x23 => (CPU { hl: (Register { high: word_hi(cpu.hl.spec_combined().wrapping_add(1)), low: word_lo(cpu.hl.spec_combined().wrapping_add(1)) }), ..cpu }),
        0x24 => (CPU { hl: (Register { high: inc8(cpu.hl.high), ..cpu.hl }), af: (Register { low: flags(inc8(cpu.hl.high) == 0, false, (cpu.hl.high & 0xF) == 0xF, f_c(cpu.af.low)), ..cpu.af }), ..cpu }),
        0x25 => (CPU { hl: (Register { high: dec8(cpu.hl.high), ..cpu.hl }), af: (Register { low: flags(dec8(cpu.hl.high) == 0, true, (cpu.hl.high & 0xF) == 0, f_c(cpu.af.low)), ..cpu.af }), ..cpu }),
        0x26 => (CPU { hl: (Register { high: spec_read(mem, cpu.pc), ..cpu.hl }), ..cpu }),
        0x27 => (CPU { af: (Register { high: daa_res(cpu.af.high, f_n(cpu.af.low), f_h(cpu.af.low), f_c(cpu.af.low)), low: flags(daa_res(cpu.af.high, f_n(cpu.af.low), f_h(cpu.af.low), f_c(cpu.af.low)) == 0, f_n(cpu.af.low), false, daa_carry(cpu.af.high, f_n(cpu.af.low), f_h(cpu.af.low), f_c(cpu.af.low))) }), ..cpu }),
        0x28 => if f_z(cpu.af.low) { (CPU { pc: jr_target(cpu.pc, spec_read(mem, cpu.pc)), ..cpu }) } else { cpu },
        0x29 => (CPU { hl: (Register { high: word_hi(add16(cpu.hl.spec_combined(), cpu.hl.spec_combined())), low: word_lo(add16(cpu.hl.spec_combined(), cpu.hl.spec_combined())) }), af: (Register { low: flags(f_z(cpu.af.low), false, add16_half(cpu.hl.spec_combined(), cpu.hl.spec_combined()), add16_carry(cpu.hl.spec_combined(), cpu.hl.spec_combined())), ..cpu.af }), ..cpu }),
        0x2A => (CPU { af: (Register { high: spec_read(mem, cpu.hl.spec_combined()), ..cpu.af }), hl: (Register { high: word_hi(cpu.hl.spec_combined().wrapping_add(1)), low: word_lo(cpu.hl.spec_combined().wrapping_add(1)) }), ..cpu }),
        0x2B => (CPU { hl: (Register { high: word_hi(cpu.hl.spec_combined().wrapping_sub(1)), low: word_lo(cpu.hl.spec_combined().wrapping_sub(1)) }), ..cpu }),
        0x2C => (CPU { hl: (Register { low: inc8(cpu.hl.low), ..cpu.hl }), af: (Register { low: flags(inc8(cpu.hl.low) == 0, false, (cpu.hl.low & 0xF) == 0xF, f_c(cpu.af.low)), ..cpu.af }), ..cpu }),
        0x2D => (CPU { hl: (Register { low: dec8(cpu.hl.low), ..cpu.hl }), af: (Register { low: flags(dec8(cpu.hl.low) == 0, true, (cpu.hl.low & 0xF) == 0, f_c(cpu.af.low)), ..cpu.af }), ..cpu }),
        0x2E => (CPU { hl: (Register { low: spec_read(mem, cpu.pc), ..cpu.hl }), ..cpu }),
        0x2F => (CPU { af: (Register { high: !cpu.af.high, low: flags(f_z(cpu.af.low), true, true, f_c(cpu.af.low)) }), ..cpu }),
        0x30 => if !f_c(cpu.af.low) { (CPU { pc: jr_target(cpu.pc, spec_read(mem, cpu.pc)), ..cpu }) } else { cpu },
        0x31 => (CPU { sp: spec_read_word(mem, cpu.pc), ..cpu }),
        0x32 => (CPU { hl: (Register { high: word_hi(cpu.hl.spec_combined().wrapping_sub(1)), low: word_lo(cpu.hl.spec_combined().wrapping_sub(1)) }), ..cpu }),
        0x33 => (CPU { sp: cpu.sp.wrapping_add(1), ..cpu }),
        0x34 => (CPU { af: (Register { low: flags(inc8(spec_read(mem, cpu.hl.spec_combined())) == 0, false, (spec_read(mem, cpu.hl.spec_combined()) & 0xF) == 0xF, f_c(cpu.af.low)), ..cpu.af }), ..cpu }),
        0x35 => (CPU { af: (Register { low: flags(dec8(spec_read(mem, cpu.hl.spec_combined())) == 0, true, (spec_read(mem, cpu.hl.spec_combined()) & 0xF) == 0, f_c(cpu.af.low)), ..cpu.af }), ..cpu }),
        0x36 => cpu,
        0x37 => (CPU { af: (Register { low: flags(f_z(cpu.af.low), false, false, true), ..cpu.af }), ..cpu }),
        0x38 => if f_c(cpu.af.low) { (CPU { pc: jr_target(cpu.pc, spec_read(mem, cpu.pc)), ..cpu }) } else { cpu },
        0x39 => (CPU { hl: (Register { high: word_hi(add16(cpu.hl.spec_combined(), cpu.sp)), low: word_lo(add16(cpu.hl.spec_combined(), cpu.sp)) }), af: (Register { low: flags(f_z(cpu.af.low), false, add16_half(cpu.hl.spec_combined(), cpu.sp), add16_carry(cpu.hl.spec_combined(), cpu.sp)), ..cpu.af }), ..cpu }),
        0x3A => (CPU { af: (Register { high: spec_read(mem, cpu.hl.spec_combined()), ..cpu.af }), hl: (Register { high: word_hi(cpu.hl.spec_combined().wrapping_sub(1)), low: word_lo(cpu.hl.spec_combined().wrapping_sub(1)) }), ..cpu }),
        0x3B => (CPU { sp: cpu.sp.wrapping_sub(1), ..cpu }),
        0x3C => (CPU { af: (Register { high: inc8(cpu.af.high), low: flags(inc8(cpu.af.high) == 0, false, (cpu.af.high & 0xF) == 0xF, f_c(cpu.af.low)) }), ..cpu }),
        0x3D => (CPU { af: (Register { high: dec8(cpu.af.high), low: flags(dec8(cpu.af.high) == 0, true, (cpu.af.high & 0xF) == 0, f_c(cpu.af.low)) }), ..cpu }),
        0x3E => (CPU { af: (Register { high: spec_read(mem, cpu.pc), ..cpu.af }), ..cpu }),
        0x3F => (CPU { af: (Register { low: flags(f_z(cpu.af.low), false, false, !f_c(cpu.af.low)), ..cpu.af }), ..cpu }),
        0x40 => cpu,
        0x41 => (CPU { bc: (Register { high: cpu.bc.low, ..cpu.bc }), ..cpu }),
        0x42 => (CPU { bc: (Register { high: cpu.de.high, ..cpu.bc }), ..cpu }),
        0x43 => (CPU { bc: (Register { high: cpu.de.low, ..cpu.bc }), ..cpu }),
        0x44 => (CPU { bc: (Register { high: cpu.hl.high, ..cpu.bc }), ..cpu }),
        0x45 => (CPU { bc: (Register { high: cpu.hl.low, ..cpu.bc }), ..cpu }),
        0x46 => (CPU { bc: (Register { high: spec_read(mem, cpu.hl.spec_combined()), ..cpu.bc }), ..cpu }),
        0x47 => (CPU { bc: (Register { high: cpu.af.high, ..cpu.bc }), ..cpu }),
        0x48 => (CPU { bc: (Register { low: cpu.bc.high, ..cpu.bc }), ..cpu }),
        0x49 => cpu,
        0x4A => (CPU { bc: (Register { low: cpu.de.high, ..cpu.bc }), ..cpu }),
        0x4B => (CPU { bc: (Register { low: cpu.de.low, ..cpu.bc }), ..cpu }),
        0x4C => (CPU { bc: (Register { low: cpu.hl.high, ..cpu.bc }), ..cpu }),
        0x4D => (CPU { bc: (Register { low: cpu.hl.low, ..cpu.bc }), ..cpu }),
        0x4E => (CPU { bc: (Register { low: spec_read(mem, cpu.hl.spec_combined()), ..cpu.bc }), ..cpu }),
        0x4F => (CPU { bc: (Register { low: cpu.af.high, ..cpu.bc }), ..cpu }),
        0x50 => (CPU { de: (Register { high: cpu.bc.high, ..cpu.de }), ..cpu }),
        0x51 => (CPU { de: (Register { high: cpu.bc.low, ..cpu.de }), ..cpu }),
        0x52 => cpu,
        0x53 => (CPU { de: (Register { high: cpu.de.low, ..cpu.de }), ..cpu }),
        0x54 => (CPU { de: (Register { high: cpu.hl.high, ..cpu.de }), ..cpu }),
        0x55 => (CPU { de: (Register { high: cpu.hl.low, ..cpu.de }), ..cpu }),
        0x56 => (CPU { de: (Register { high: spec_read(mem, cpu.hl.spec_combined()), ..cpu.de }), ..cpu }),
        0x57 => (CPU { de: (Register { high: cpu.af.high, ..cpu.de }), ..cpu }),
        0x58 => (CPU { de: (Register { low: cpu.bc.high, ..cpu.de }), ..cpu }),
        0x59 => (CPU { de: (Register { low: cpu.bc.low, ..cpu.de }), ..cpu }),
        0x5A => (CPU { de: (Register { low: cpu.de.high, ..cpu.de }), ..cpu }),
        0x5B => cpu,
        0x5C => (CPU { de: (Register { low: cpu.hl.high, ..cpu.de }), ..cpu }),
        0x5D => (CPU { de: (Register { low: cpu.hl.low, ..cpu.de }), ..cpu }),
        0x5E => (CPU { de: (Register { low: spec_read(mem, cpu.hl.spec_combined()), ..cpu.de }), ..cpu }),
        0x5F => (CPU { de: (Register { low: cpu.af.high, ..cpu.de }), ..cpu }),
        0x60 => (CPU { hl: (Register { high: cpu.bc.high, ..cpu.hl }), ..cpu }),
        0x61 => (CPU { hl: (Register { high: cpu.bc.low, ..cpu.hl }), ..cpu }),
        0x62 => (CPU { hl: (Register { high: cpu.de.high, ..cpu.hl }), ..cpu }),
        0x63 => (CPU { hl: (Register { high: cpu.de.low, ..cpu.hl }), ..cpu }),
        0x64 => cpu,
        0x65 => (CPU { hl: (Register { high: cpu.hl.low, ..cpu.hl }), ..cpu }),
        0x66 => (CPU { hl: (Register { high: spec_read(mem, cpu.hl.spec_combined()), ..cpu.hl }), ..cpu }),
        0x67 => (CPU { hl: (Register { high: cpu.af.high, ..cpu.hl }), ..cpu }),
        0x68 => (CPU { hl: (Register { low: cpu.bc.high, ..cpu.hl }), ..cpu }),
        0x69 => (CPU { hl: (Register { low: cpu.bc.low, ..cpu.hl }), ..cpu }),
        0x6A => (CPU { hl: (Register { low: cpu.de.high, ..cpu.hl }), ..cpu }),
        0x6B => (CPU { hl: (Register { low: cpu.de.low, ..cpu.hl }), ..cpu }),
        0x6C => (CPU { hl: (Register { low: cpu.hl.high, ..cpu.hl }), ..cpu }),
        0x6D => cpu,
        0x6E => (CPU { hl: (Register { low: spec_read(mem, cpu.hl.spec_combined()), ..cpu.hl }), ..cpu }),
        0x6F => (CPU { hl: (Register { low: cpu.af.high, ..cpu.hl }), ..cpu }),
        0x70 => cpu,
        0x71 => cpu,
        0x72 => cpu,
        0x73 => cpu,
        0x74 => cpu,
        0x75 => cpu,
        0x76 => (CPU { halted: true, ..cpu }),
        0x77 => cpu,
        0x78 => (CPU { af: (Register { high: cpu.bc.high, ..cpu.af }), ..cpu }),
        0x79 => (CPU { af: (Register { high: cpu.bc.low, ..cpu.af }), ..cpu }),
        0x7A => (CPU { af: (Register { high: cpu.de.high, ..cpu.af }), ..cpu }),
        0x7B => (CPU { af: (Register { high: cpu.de.low, ..cpu.af }), ..cpu }),
        0x7C => (CPU { af: (Register { high: cpu.hl.high, ..cpu.af }), ..cpu }),
        0x7D => (CPU { af: (Register { high: cpu.hl.low, ..cpu.af }), ..cpu }),
        0x7E => (CPU { af: (Register { high: spec_read(mem, cpu.hl.spec_combined()), ..cpu.af }), ..cpu }),
        0x7F => cpu,
        0x80 => (CPU { af: (Register { high: add8(cpu.af.high, cpu.bc.high), low: flags(add8(cpu.af.high, cpu.bc.high) == 0, false, add_half(cpu.af.high, cpu.bc.high), add_carry(cpu.af.high, cpu.bc.high)) }), ..cpu }),
        0x81 => (CPU { af: (Register { high: add8(cpu.af.high, cpu.bc.low), low: flags(add8(cpu.af.high, cpu.bc.low) == 0, false, add_half(cpu.af.high, cpu.bc.low), add_carry(cpu.af.high, cpu.bc.low)) }), ..cpu }),
        0x82 => (CPU { af: (Register { high: add8(cpu.af.high, cpu.de.high), low: flags(add8(cpu.af.high, cpu.de.high) == 0, false, add_half(cpu.af.high, cpu.de.high), add_carry(cpu.af.high, cpu.de.high)) }), ..cpu }),
        0x83 => (CPU { af: (Register { high: add8(cpu.af.high, cpu.de.low), low: flags(add8(cpu.af.high, cpu.de.low) == 0, false, add_half(cpu.af.high, cpu.de.low), add_carry(cpu.af.high, cpu.de.low)) }), ..cpu }),
        0x84 => (CPU { af: (Register { high: add8(cpu.af.high, cpu.hl.high), low: flags(add8(cpu.af.high, cpu.hl.high) == 0, false, add_half(cpu.af.high, cpu.hl.high), add_carry(cpu.af.high, cpu.hl.high)) }), ..cpu }),
        0x85 => (CPU { af: (Register { high: add8(cpu.af.high, cpu.hl.low), low: flags(add8(cpu.af.high, cpu.hl.low) == 0, false, add_half(cpu.af.high, cpu.hl.low), add_carry(cpu.af.high, cpu.hl.low)) }), ..cpu }),
        0x86 => (CPU { af: (Register { high: add8(cpu.af.high, spec_read(mem, cpu.hl.spec_combined())), low: flags(add8(cpu.af.high, spec_read(mem, cpu.hl.spec_combined())) == 0, false, add_half(cpu.af.high, spec_read(mem, cpu.hl.spec_combined())), add_carry(cpu.af.high, spec_read(mem, cpu.hl.spec_combined()))) }), ..cpu }),
        0x87 => (CPU { af: (Register { high: add8(cpu.af.high, cpu.af.high), low: flags(add8(cpu.af.high, cpu.af.high) == 0, false, add_half(cpu.af.high, cpu.af.high), add_carry(cpu.af.high, cpu.af.high)) }), ..cpu }),
        0x88 => (CPU { af: (Register { high: adc8(cpu.af.high, cpu.bc.high, f_c(cpu.af.low)), low: flags(adc8(cpu.af.high, cpu.bc.high, f_c(cpu.af.low)) == 0, false, adc_half(cpu.af.high, cpu.bc.high, f_c(cpu.af.low)), adc_carry(cpu.af.high, cpu.bc.high, f_c(cpu.af.low))) }), ..cpu }),
        0x89 => (CPU { af: (Register { high: adc8(cpu.af.high, cpu.bc.low, f_c(cpu.af.low)), low: flags(adc8(cpu.af.high, cpu.bc.low, f_c(cpu.af.low)) == 0, false, adc_half(cpu.af.high, cpu.bc.low, f_c(cpu.af.low)), adc_carry(cpu.af.high, cpu.bc.low, f_c(cpu.af.low))) }), ..cpu }),
        0x8A => (CPU { af: (Register { high: adc8(cpu.af.high, cpu.de.high, f_c(cpu.af.low)), low: flags(adc8(cpu.af.high, cpu.de.high, f_c(cpu.af.low)) == 0, false, adc_half(cpu.af.high, cpu.de.high, f_c(cpu.af.low)), adc_carry(cpu.af.high, cpu.de.high, f_c(cpu.af.low))) }), ..cpu }),
        0x8B => (CPU { af: (Register { high: adc8(cpu.af.high, cpu.de.low, f_c(cpu.af.low)), low: flags(adc8(cpu.af.high, cpu.de.low, f_c(cpu.af.low)) == 0, false, adc_half(cpu.af.high, cpu.de.low, f_c(cpu.af.low)), adc_carry(cpu.af.high, cpu.de.low, f_c(cpu.af.low))) }), ..cpu }),
        0x8C => (CPU { af: (Register { high: adc8(cpu.af.high, cpu.hl.high, f_c(cpu.af.low)), low: flags(adc8(cpu.af.high, cpu.hl.high, f_c(cpu.af.low)) == 0, false, adc_half(cpu.af.high, cpu.hl.high, f_c(cpu.af.low)), adc_carry(cpu.af.high, cpu.hl.high, f_c(cpu.af.low))) }), ..cpu }),
        0x8D => (CPU { af: (Register { high: adc8(cpu.af.high, cpu.hl.low, f_c(cpu.af.low)), low: flags(adc8(cpu.af.high, cpu.hl.low, f_c(cpu.af.low)) == 0, false, adc_half(cpu.af.high, cpu.hl.low, f_c(cpu.af.low)), adc_carry(cpu.af.high, cpu.hl.low, f_c(cpu.af.low))) }), ..cpu }),
        0x8E => (CPU { af: (Register { high: adc8(cpu.af.high, spec_read(mem, cpu.hl.spec_combined()), f_c(cpu.af.low)), low: flags(adc8(cpu.af.high, spec_read(mem, cpu.hl.spec_combined()), f_c(cpu.af.low)) == 0, false, adc_half(cpu.af.high, spec_read(mem, cpu.hl.spec_combined()), f_c(cpu.af.low)), adc_carry(cpu.af.high, spec_read(mem, cpu.hl.spec_combined()), f_c(cpu.af.low))) }), ..cpu }),
        0x8F => (CPU { af: (Register { high: adc8(cpu.af.high, cpu.af.high, f_c(cpu.af.low)), low: flags(adc8(cpu.af.high, cpu.af.high, f_c(cpu.af.low)) == 0, false, adc_half(cpu.af.high, cpu.af.high, f_c(cpu.af.low)), adc_carry(cpu.af.high, cpu.af.high, f_c(cpu.af.low))) }), ..cpu }),
        0x90 => (CPU { af: (Register { high: sub8(cpu.af.high, cpu.bc.high), low: flags(sub8(cpu.af.high, cpu.bc.high) == 0, true, sub_half(cpu.af.high, cpu.bc.high), sub_carry(cpu.af.high, cpu.bc.high)) }), ..cpu }),
        0x91 => (CPU { af: (Register { high: sub8(cpu.af.high, cpu.bc.low), low: flags(sub8(cpu.af.high, cpu.bc.low) == 0, true, sub_half(cpu.af.high, cpu.bc.low), sub_carry(cpu.af.high, cpu.bc.low)) }), ..cpu }),
        0x92 => (CPU { af: (Register { high: sub8(cpu.af.high, cpu.de.high), low: flags(sub8(cpu.af.high, cpu.de.high) == 0, true, sub_half(cpu.af.high, cpu.de.high), sub_carry(cpu.af.high, cpu.de.high)) }), ..cpu }),
        0x93 => (CPU { af: (Register { high: sub8(cpu.af.high, cpu.de.low), low: flags(sub8(cpu.af.high, cpu.de.low) == 0, true, sub_half(cpu.af.high, cpu.de.low), sub_carry(cpu.af.high, cpu.de.low)) }), ..cpu }),
        0x94 => (CPU { af: (Register { high: sub8(cpu.af.high, cpu.hl.high), low: flags(sub8(cpu.af.high, cpu.hl.high) == 0, true, sub_half(cpu.af.high, cpu.hl.high), sub_carry(cpu.af.high, cpu.hl.high)) }), ..cpu }),
        0x95 => (CPU { af: (Register { high: sub8(cpu.af.high, cpu.hl.low), low: flags(sub8(cpu.af.high, cpu.hl.low) == 0, true, sub_half(cpu.af.high, cpu.hl.low), sub_carry(cpu.af.high, cpu.hl.low)) }), ..cpu }),
        0x96 => (CPU { af: (Register { high: sub8(cpu.af.high, spec_read(mem, cpu.hl.spec_combined())), low: flags(sub8(cpu.af.high, spec_read(mem, cpu.hl.spec_combined())) == 0, true, sub_half(cpu.af.high, spec_read(mem, cpu.hl.spec_combined())), sub_carry(cpu.af.high, spec_read(mem, cpu.hl.spec_combined()))) }), ..cpu }),
        0x97 => (CPU { af: (Register { high: sub8(cpu.af.high, cpu.af.high), low: flags(sub8(cpu.af.high, cpu.af.high) == 0, true, sub_half(cpu.af.high, cpu.af.high), sub_carry(cpu.af.high, cpu.af.high)) }), ..cpu }),
        0x98 => (CPU { af: (Register { high: sbc8(cpu.af.high, cpu.bc.high, f_c(cpu.af.low)), low: flags(sbc8(cpu.af.high, cpu.bc.high, f_c(cpu.af.low)) == 0, true, sbc_half(cpu.af.high, cpu.bc.high, f_c(cpu.af.low)), sbc_carry(cpu.af.high, cpu.bc.high, f_c(cpu.af.low))) }), ..cpu }),
        0x99 => (CPU { af: (Register { high: sbc8(cpu.af.high, cpu.bc.low, f_c(cpu.af.low)), low: flags(sbc8(cpu.af.high, cpu.bc.low, f_c(cpu.af.low)) == 0, true, sbc_half(cpu.af.high, cpu.bc.low, f_c(cpu.af.low)), sbc_carry(cpu.af.high, cpu.bc.low, f_c(cpu.af.low))) }), ..cpu }),
        0x9A => (CPU { af: (Register { high: sbc8(cpu.af.high, cpu.de.high, f_c(cpu.af.low)), low: flags(sbc8(cpu.af.high, cpu.de.high, f_c(cpu.af.low)) == 0, true, sbc_half(cpu.af.high, cpu.de.high, f_c(cpu.af.low)), sbc_carry(cpu.af.high, cpu.de.high, f_c(cpu.af.low))) }), ..cpu }),
        0x9B => (CPU { af: (Register { high: sbc8(cpu.af.high, cpu.de.low, f_c(cpu.af.low)), low: flags(sbc8(cpu.af.high, cpu.de.low, f_c(cpu.af.low)) == 0, true, sbc_half(cpu.af.high, cpu.de.low, f_c(cpu.af.low)), sbc_carry(cpu.af.high, cpu.de.low, f_c(cpu.af.low))) }), ..cpu }),
        0x9C => (CPU { af: (Register { high: sbc8(cpu.af.high, cpu.hl.high, f_c(cpu.af.low)), low: flags(sbc8(cpu.af.high, cpu.hl.high, f_c(cpu.af.low)) == 0, true, sbc_half(cpu.af.high, cpu.hl.high, f_c(cpu.af.low)), sbc_carry(cpu.af.high, cpu.hl.high, f_c(cpu.af.low))) }), ..cpu }),
        0x9D => (CPU { af: (Register { high: sbc8(cpu.af.high, cpu.hl.low, f_c(cpu.af.low)), low: flags(sbc8(cpu.af.high, cpu.hl.low, f_c(cpu.af.low)) == 0, true, sbc_half(cpu.af.high, cpu.hl.low, f_c(cpu.af.low)), sbc_carry(cpu.af.high, cpu.hl.low, f_c(cpu.af.low))) }), ..cpu }),
        0x9E => (CPU { af: (Register { high: sbc8(cpu.af.high, spec_read(mem, cpu.hl.spec_combined()), f_c(cpu.af.low)), low: flags(sbc8(cpu.af.high, spec_read(mem, cpu.hl.spec_combined()), f_c(cpu.af.low)) == 0, true, sbc_half(cpu.af.high, spec_read(mem, cpu.hl.spec_combined()), f_c(cpu.af.low)), sbc_carry(cpu.af.high, spec_read(mem, cpu.hl.spec_combined()), f_c(cpu.af.low))) }), ..cpu }),
        0x9F => (CPU { af: (Register { high: sbc8(cpu.af.high, cpu.af.high, f_c(cpu.af.low)), low: flags(sbc8(cpu.af.high, cpu.af.high, f_c(cpu.af.low)) == 0, true, sbc_half(cpu.af.high, cpu.af.high, f_c(cpu.af.low)), sbc_carry(cpu.af.high, cpu.af.high, f_c(cpu.af.low))) }), ..cpu }),
        0xA0 => (CPU { af: (Register { high: (cpu.af.high & cpu.bc.high), low: flags((cpu.af.high & cpu.bc.high) == 0, false, true, false) }), ..cpu }),
        0xA1 => (CPU { af: (Register { high: (cpu.af.high & cpu.bc.low), low: flags((cpu.af.high & cpu.bc.low) == 0, false, true, false) }), ..cpu }),
        0xA2 => (CPU { af: (Register { high: (cpu.af.high & cpu.de.high), low: flags((cpu.af.high & cpu.de.high) == 0, false, true, false) }), ..cpu }),
        0xA3 => (CPU { af: (Register { high: (cpu.af.high & cpu.de.low), low: flags((cpu.af.high & cpu.de.low) == 0, false, true, false) }), ..cpu }),
        0xA4 => (CPU { af: (Register { high: (cpu.af.high & cpu.hl.high), low: flags((cpu.af.high & cpu.hl.high) == 0, false, true, false) }), ..cpu }),
        0xA5 => (CPU { af: (Register { high: (cpu.af.high & cpu.hl.low), low: flags((cpu.af.high & cpu.hl.low) == 0, false, true, false) }), ..cpu }),
        0xA6 => (CPU { af: (Register { high: (cpu.af.high & spec_read(mem, cpu.hl.spec_combined())), low: flags((cpu.af.high & spec_read(mem, cpu.hl.spec_combined())) == 0, false, true, false) }), ..cpu }),
        0xA7 => (CPU { af: (Register { high: (cpu.af.high & cpu.af.high), low: flags((cpu.af.high & cpu.af.high) == 0, false, true, false) }), ..cpu }),
        0xA8 => (CPU { af: (Register { high: (cpu.af.high ^ cpu.bc.high), low: flags((cpu.af.high ^ cpu.bc.high) == 0, false, false, false) }), ..cpu }),
        0xA9 => (CPU { af: (Register { high: (cpu.af.high ^ cpu.bc.low), low: flags((cpu.af.high ^ cpu.bc.low) == 0, false, false, false) }), ..cpu }),
        0xAA => (CPU { af: (Register { high: (cpu.af.high ^ cpu.de.high), low: flags((cpu.af.high ^ cpu.de.high) == 0, false, false, false) }), ..cpu }),
        0xAB => (CPU { af: (Register { high: (cpu.af.high ^ cpu.de.low), low: flags((cpu.af.high ^ cpu.de.low) == 0, false, false, false) }), ..cpu }),
        0xAC => (CPU { af: (Register { high: (cpu.af.high ^ cpu.hl.high), low: flags((cpu.af.high ^ cpu.hl.high) == 0, false, false, false) }), ..cpu }),
        0xAD => (CPU { af: (Register { high: (cpu.af.high ^ cpu.hl.low), low: flags((cpu.af.high ^ cpu.hl.low) == 0, false, false, false) }), ..cpu }),
        0xAE => (CPU { af: (Register { high: (cpu.af.high ^ spec_read(mem, cpu.hl.spec_combined())), low: flags((cpu.af.high ^ spec_read(mem, cpu.hl.spec_combined())) == 0, false, false, false) }), ..cpu }),
        0xAF => (CPU { af: (Register { high: (cpu.af.high ^ cpu.af.high), low: flags((cpu.af.high ^ cpu.af.high) == 0, false, false, false) }), ..cpu }),
        0xB0 => (CPU { af: (Register { high: (cpu.af.high | cpu.bc.high), low: flags((cpu.af.high | cpu.bc.high) == 0, false, false, false) }), ..cpu }),
        0xB1 => (CPU { af: (Register { high: (cpu.af.high | cpu.bc.low), low: flags((cpu.af.high | cpu.bc.low) == 0, false, false, false) }), ..cpu }),
        0xB2 => (CPU { af: (Register { high: (cpu.af.high | cpu.de.high), low: flags((cpu.af.high | cpu.de.high) == 0, false, false, false) }), ..cpu }),
        0xB3 => (CPU { af: (Register { high: (cpu.af.high | cpu.de.low), low: flags((cpu.af.high | cpu.de.low) == 0, false, false, false) }), ..cpu }),
        0xB4 => (CPU { af: (Register { high: (cpu.af.high | cpu.hl.high), low: flags((cpu.af.high | cpu.hl.high) == 0, false, false, false) }), ..cpu }),
        0xB5 => (CPU { af: (Register { high: (cpu.af.high | cpu.hl.low), low: flags((cpu.af.high | cpu.hl.low) == 0, false, false, false) }), ..cpu }),
        0xB6 => (CPU { af: (Register { high: (cpu.af.high | spec_read(mem, cpu.hl.spec_combined())), low: flags((cpu.af.high | spec_read(mem, cpu.hl.spec_combined())) == 0, false, false, false) }), ..cpu }),
        0xB7 => (CPU { af: (Register { high: (cpu.af.high | cpu.af.high), low: flags((cpu.af.high | cpu.af.high) == 0, false, false, false) }), ..cpu }),
        0xB8 => (CPU { af: (Register { low: flags(sub8(cpu.af.high, cpu.bc.high) == 0, true, sub_half(cpu.af.high, cpu.bc.high), sub_carry(cpu.af.high, cpu.bc.high)), ..cpu.af }), ..cpu }),
        0xB9 => (CPU { af: (Register { low: flags(sub8(cpu.af.high, cpu.bc.low) == 0, true, sub_half(cpu.af.high, cpu.bc.low), sub_carry(cpu.af.high, cpu.bc.low)), ..cpu.af }), ..cpu }),
        0xBA => (CPU { af: (Register { low: flags(sub8(cpu.af.high, cpu.de.high) == 0, true, sub_half(cpu.af.high, cpu.de.high), sub_carry(cpu.af.high, cpu.de.high)), ..cpu.af }), ..cpu }),
        0xBB => (CPU { af: (Register { low: flags(sub8(cpu.af.high, cpu.de.low) == 0, true, sub_half(cpu.af.high, cpu.de.low), sub_carry(cpu.af.high, cpu.de.low)), ..cpu.af }), ..cpu }),
        0xBC => (CPU { af: (Register { low: flags(sub8(cpu.af.high, cpu.hl.high) == 0, true, sub_half(cpu.af.high, cpu.hl.high), sub_carry(cpu.af.high, cpu.hl.high)), ..cpu.af }), ..cpu }),
        0xBD => (CPU { af: (Register { low: flags(sub8(cpu.af.high, cpu.hl.low) == 0, true, sub_half(cpu.af.high, cpu.hl.low), sub_carry(cpu.af.high, cpu.hl.low)), ..cpu.af }), ..cpu }),
        0xBE => (CPU { af: (Register { low: flags(sub8(cpu.af.high, spec_read(mem, cpu.hl.spec_combined())) == 0, true, sub_half(cpu.af.high, spec_read(mem, cpu.hl.spec_combined())), sub_carry(cpu.af.high, spec_read(mem, cpu.hl.spec_combined()))), ..cpu.af }), ..cpu }),
        0xBF => (CPU { af: (Register { low: flags(sub8(cpu.af.high, cpu.af.high) == 0, true, sub_half(cpu.af.high, cpu.af.high), sub_carry(cpu.af.high, cpu.af.high)), ..cpu.af }), ..cpu }),
        0xC0 => if !f_z(cpu.af.low) { (CPU { pc: spec_read_word(mem, cpu.sp), sp: cpu.sp.wrapping_add(2), ..cpu }) } else { cpu },
        0xC1 => (CPU { bc: (Register { high: spec_read(mem, cpu.sp.wrapping_add(1)), low: spec_read(mem, cpu.sp) }), sp: cpu.sp.wrapping_add(2), ..cpu }),
        0xC2 => if !f_z(cpu.af.low) { (CPU { pc: spec_read_word(mem, cpu.pc), ..cpu }) } else { cpu },
        0xC3 => (CPU { pc: spec_read_word(mem, cpu.pc), ..cpu }),
        0xC4 => if !f_z(cpu.af.low) { (CPU { pc: spec_read_word(mem, cpu.pc), sp: cpu.sp.wrapping_sub(2), ..cpu }) } else { cpu },
        0xC5 => (CPU { sp: cpu.sp.wrapping_sub(2), ..cpu }),
        0xC6 => (CPU { af: (Register { high: add8(cpu.af.high, spec_read(mem, cpu.pc)), low: flags(add8(cpu.af.high, spec_read(mem, cpu.pc)) == 0, false, add_half(cpu.af.high, spec_read(mem, cpu.pc)), add_carry(cpu.af.high, spec_read(mem, cpu.pc))) }), ..cpu }),
        0xC7 => (CPU { pc: 0x00, sp: cpu.sp.wrapping_sub(2), ..cpu }),
        0xC8 => if f_z(cpu.af.low) { (CPU { pc: spec_read_word(mem, cpu.sp), sp: cpu.sp.wrapping_add(2), ..cpu }) } else { cpu },
        0xC9 => (CPU { pc: spec_read_word(mem, cpu.sp), sp: cpu.sp.wrapping_add(2), ..cpu }),
        0xCA => if f_z(cpu.af.low) { (CPU { pc: spec_read_word(mem, cpu.pc), ..cpu }) } else { cpu },
        0xCC => if f_z(cpu.af.low) { (CPU { pc: spec_read_word(mem, cpu.pc), sp: cpu.sp.wrapping_sub(2), ..cpu }) } else { cpu },
        0xCD => (CPU { pc: spec_read_word(mem, cpu.pc), sp: cpu.sp.wrapping_sub(2), ..cpu }),
        0xCE => (CPU { af: (Register { high: adc8(cpu.af.high, spec_read(mem, cpu.pc), f_c(cpu.af.low)), low: flags(adc8(cpu.af.high, spec_read(mem, cpu.pc), f_c(cpu.af.low)) == 0, false, adc_half(cpu.af.high, spec_read(mem, cpu.pc), f_c(cpu.af.low)), adc_carry(cpu.af.high, spec_read(mem, cpu.pc), f_c(cpu.af.low))) }), ..cpu }),
        0xCF => (CPU { pc: 0x08, sp: cpu.sp.wrapping_sub(2), ..cpu }),
        0xD0 => if !f_c(cpu.af.low) { (CPU { pc: spec_read_word(mem, cpu.sp), sp: cpu.sp.wrapping_add(2), ..cpu }) } else { cpu },
        0xD1 => (CPU { de: (Register { high: spec_read(mem, cpu.sp.wrapping_add(1)), low: spec_read(mem, cpu.sp) }), sp: cpu.sp.wrapping_add(2), ..cpu }),
        0xD2 => if !f_c(cpu.af.low) { (CPU { pc: spec_read_word(mem, cpu.pc), ..cpu }) } else { cpu },
        0xD4 => if !f_c(cpu.af.low) { (CPU { pc: spec_read_word(mem, cpu.pc), sp: cpu.sp.wrapping_sub(2), ..cpu }) } else { cpu },
        0xD5 => (CPU { sp: cpu.sp.wrapping_sub(2), ..cpu }),
        0xD6 => (CPU { af: (Register { high: sub8(cpu.af.high, spec_read(mem, cpu.pc)), low: flags(sub8(cpu.af.high, spec_read(mem, cpu.pc)) == 0, true, sub_half(cpu.af.high, spec_read(mem, cpu.pc)), sub_carry(cpu.af.high, spec_read(mem, cpu.pc))) }), ..cpu }),
        0xD7 => (CPU { pc: 0x10, sp: cpu.sp.wrapping_sub(2), ..cpu }),
        0xD8 => if f_c(cpu.af.low) { (CPU { pc: spec_read_word(mem, cpu.sp), sp: cpu.sp.wrapping_add(2), ..cpu }) } else { cpu },
        0xD9 => (CPU { pc: spec_read_word(mem, cpu.sp), sp: cpu.sp.wrapping_add(2), ime: true, ..cpu }),
        0xDA => if f_c(cpu.af.low) { (CPU { pc: spec_read_word(mem, cpu.pc), ..cpu }) } else { cpu },
        0xDC => if f_c(cpu.af.low) { (CPU { pc: spec_read_word(mem, cpu.pc), sp: cpu.sp.wrapping_sub(2), ..cpu }) } else { cpu },
        0xDE => (CPU { af: (Register { high: sbc8(cpu.af.high, spec_read(mem, cpu.pc), f_c(cpu.af.low)), low: flags(sbc8(cpu.af.high, spec_read(mem, cpu.pc), f_c(cpu.af.low)) == 0, true, sbc_half(cpu.af.high, spec_read(mem, cpu.pc), f_c(cpu.af.low)), sbc_carry(cpu.af.high, spec_read(mem, cpu.pc), f_c(cpu.af.low))) }), ..cpu }),
        0xDF => (CPU { pc: 0x18, sp: cpu.sp.wrapping_sub(2), ..cpu }),
        0xE0 => cpu,
        0xE1 => (CPU { hl: (Register { high: spec_read(mem, cpu.sp.wrapping_add(1)), low: spec_read(mem, cpu.sp) }), sp: cpu.sp.wrapping_add(2), ..cpu }),
        0xE2 => cpu,
        0xE5 => (CPU { sp: cpu.sp.wrapping_sub(2), ..cpu }),
        0xE6 => (CPU { af: (Register { high: (cpu.af.high & spec_read(mem, cpu.pc)), low: flags((cpu.af.high & spec_read(mem, cpu.pc)) == 0, false, true, false) }), ..cpu }),
        0xE7 => (CPU { pc: 0x20, sp: cpu.sp.wrapping_sub(2), ..cpu }),
        0xE8 => (CPU { sp: sp_s8_target(cpu.sp, spec_read(mem, cpu.pc)), af: (Register { low: flags(false, false, s8_half(cpu.sp, spec_read(mem, cpu.pc)), s8_carry(cpu.sp, spec_read(mem, cpu.pc))), ..cpu.af }), ..cpu }),
        0xE9 => (CPU { pc: cpu.hl.spec_combined(), ..cpu }),
        0xEA => cpu,
        0xEE => (CPU { af: (Register { high: (cpu.af.high ^ spec_read(mem, cpu.pc)), low: flags((cpu.af.high ^ spec_read(mem, cpu.pc)) == 0, false, false, false) }), ..cpu }),
        0xEF => (CPU { pc: 0x28, sp: cpu.sp.wrapping_sub(2), ..cpu }),
        0xF0 => (CPU { af: (Register { high: spec_read(mem, (0xFF00 + spec_read(mem, cpu.pc)) as u16), ..cpu.af }), ..cpu }),
        0xF1 => (CPU { af: (Register { high: spec_read(mem, cpu.sp.wrapping_add(1)), low: (spec_read(mem, cpu.sp) & 0xF0) }), sp: cpu.sp.wrapping_add(2), ..cpu }),
        0xF2 => (CPU { af: (Register { high: spec_read(mem, (0xFF00 + cpu.bc.low) as u16), ..cpu.af }), ..cpu }),
        0xF3 => (CPU { ime: false, ..cpu }),
        0xF5 => (CPU { sp: cpu.sp.wrapping_sub(2), ..cpu }),
        0xF6 => (CPU { af: (Register { high: (cpu.af.high | spec_read(mem, cpu.pc)), low: flags((cpu.af.high | spec_read(mem, cpu.pc)) == 0, false, false, false) }), ..cpu }),
        0xF7 => (CPU { pc: 0x30, sp: cpu.sp.wrapping_sub(2), ..cpu }),
        0xF8 => (CPU { hl: (Register { high: word_hi(sp_s8_target(cpu.sp, spec_read(mem, cpu.pc))), low: word_lo(sp_s8_target(cpu.sp, spec_read(mem, cpu.pc))) }), af: (Register { low: flags(false, false, s8_half(cpu.sp, spec_read(mem, cpu.pc)), s8_carry(cpu.sp, spec_read(mem, cpu.pc))), ..cpu.af }), ..cpu }),
        0xF9 => (CPU { sp: cpu.hl.spec_combined(), ..cpu }),
        0xFA => (CPU { af: (Register { high: spec_read(mem, spec_read_word(mem, cpu.pc)), ..cpu.af }), ..cpu }),
        0xFB => (CPU { ime: true, ..cpu }),
        0xFE => (CPU { af: (Register { low: flags(sub8(cpu.af.high, spec_read(mem, cpu.pc)) == 0, true, sub_half(cpu.af.high, spec_read(mem, cpu.pc)), sub_carry(cpu.af.high, spec_read(mem, cpu.pc))), ..cpu.af }), ..cpu }),
        0xFF => (CPU { pc: 0x38, sp: cpu.sp.wrapping_sub(2), ..cpu }),
        _ => cpu,
    }
}

/// The bus contents after the primary-table opcode `op`, under the same
/// reading as `spec_step_cpu`.
pub open spec fn spec_step_mem(cpu: CPU, mem: Seq<u8>, op: u8) -> Seq<u8> {
    match op {
        0x02 => spec_write(mem, cpu.bc.spec_combined(), cpu.af.high),
        0x08 => spec_write_word(mem, spec_read_word(mem, cpu.pc), cpu.sp),
        0x12 => spec_write(mem, cpu.de.spec_combined(), cpu.af.high),
        0x22 => spec_write(mem, cpu.hl.spec_combined(), cpu.af.high),
        0x32 => spec_write(mem, cpu.hl.spec_combined(), cpu.af.high),
        0x34 => spec_write(mem, cpu.hl.spec_combined(), inc8(spec_read(mem, cpu.hl.spec_combined()))),
        0x35 => spec_write(mem, cpu.hl.spec_combined(), dec8(spec_read(mem, cpu.hl.spec_combined()))),
        0x36 => spec_write(mem, cpu.hl.spec_combined(), spec_read(mem, cpu.pc)),
        0x70 => spec_write(mem, cpu.hl.spec_combined(), cpu.bc.high),
        0x71 => spec_write(mem, cpu.hl.spec_combined(), cpu.bc.low),
        0x72 => spec_write(mem, cpu.hl.spec_combined(), cpu.de.high),
        0x73 => spec_write(mem, cpu.hl.spec_combined(), cpu.de.low),
        0x74 => spec_write(mem, cpu.hl.spec_combined(), cpu.hl.high),
        0x75 => spec_write(mem, cpu.hl.spec_combined(), cpu.hl.low),
        0x77 => spec_write(mem, cpu.hl.spec_combined(), cpu.af.high),
        0xC4 => if !f_z(cpu.af.low) { spec_write_word(mem, cpu.sp.wrapping_sub(2), cpu.pc.wrapping_add(2)) } else { mem },
        0xC5 => spec_write_word(mem, cpu.sp.wrapping_sub(2), cpu.bc.spec_combined()),
        0xC7 => spec_write_word(mem, cpu.sp.wrapping_sub(2), cpu.pc),
        0xCC => if f_z(cpu.af.low) { spec_write_word(mem, cpu.sp.wrapping_sub(2), cpu.pc.wrapping_add(2)) } else { mem },
        0xCD => spec_write_word(mem, cpu.sp.wrapping_sub(2), cpu.pc.wrapping_add(2)),
        0xCF => spec_write_word(mem, cpu.sp.wrapping_sub(2), cpu.pc),
        0xD4 => if !f_c(cpu.af.low) { spec_write_word(mem, cpu.sp.wrapping_sub(2), cpu.pc.wrapping_add(2)) } else { mem },
        0xD5 => spec_write_word(mem, cpu.sp.wrapping_sub(2), cpu.de.spec_combined()),
        0xD7 => spec_write_word(mem, cpu.sp.wrapping_sub(2), cpu.pc),
        0xDC => if f_c(cpu.af.low) { spec_write_word(mem, cpu.sp.wrapping_sub(2), cpu.pc.wrapping_add(2)) } else { mem },
        0xDF => spec_write_word(mem, cpu.sp.wrapping_sub(2), cpu.pc),
        0xE0 => spec_write(mem, (0xFF00 + spec_read(mem, cpu.pc)) as u16, cpu.af.high),
        0xE2 => spec_write(mem, (0xFF00 + cpu.bc.low) as u16, cpu.af.high),
        0xE5 => spec_write_word(mem, cpu.sp.wrapping_sub(2), cpu.hl.spec_combined()),
        0xE7 => spec_write_word(mem, cpu.sp.wrapping_sub(2), cpu.pc),
        0xEA => spec_write(mem, spec_read_word(mem, cpu.pc), cpu.af.high),
        0xEF => spec_write_word(mem, cpu.sp.wrapping_sub(2), cpu.pc),
        0xF5 => spec_write_word(mem, cpu.sp.wrapping_sub(2), cpu.af.spec_combined()),
        0xF7 => spec_write_word(mem, cpu.sp.wrapping_sub(2), cpu.pc),
        0xFF => spec_write_word(mem, cpu.sp.wrapping_sub(2), cpu.pc),
        _ => mem,
    }
}

/// Executes one primary-table opcode against the CPU and the bus.
/// Illegal opcodes and the 0xCB prefix are not instructions of this
/// table and leave the state untouched; the CPU never dispatches them
/// here.
pub fn execute_op(cpu: &mut CPU, bus: &mut Bus, op: u8)
    requires
        old(bus).wf(),
    ensures
        final(bus).wf(),
        final(cpu).clock_cycles_to_go == old(cpu).clock_cycles_to_go,
        old(cpu).flags_wf() ==> final(cpu).flags_wf(),
        *final(cpu) == spec_step_cpu(*old(cpu), old(bus)@, op),
        final(bus)@ == spec_step_mem(*old(cpu), old(bus)@, op),
{
    match op {
        0x00 => nop(cpu),
        0x01 => load_imm_bc(cpu, bus),
        0x02 => load_val_bc_ptr(cpu, bus),
        0x03 => inc_bc(cpu),
        0x04 => inc_b(cpu),
        0x05 => dec_b(cpu),
        0x06 => load_imm_b(cpu, bus),
        0x07 => rlca(cpu),
        0x08 => load_sp_imm_address(cpu, bus),
        0x09 => add_bc_to_hl(cpu),
        0x0A => load_bc_ptr_into_a(cpu, bus),
        0x0B => dec_bc(cpu),
        0x0C => inc_c(cpu),
        0x0D => dec_c(cpu),
        0x0E => load_imm_c(cpu, bus),
        0x0F => rrca(cpu),
        0x10 => stop(cpu),
        0x11 => load_imm_de(cpu, bus),
        0x12 => load_val_de_ptr(cpu, bus),
        0x13 => inc_de(cpu),
        0x14 => inc_d(cpu),
        0x15 => dec_d(cpu),
        0x16 => load_imm_d(cpu, bus),
        0x17 => rla(cpu),
        0x18 => jr_s8(cpu, bus),
        0x19 => add_de_to_hl(cpu),
        0x1A => load_de_ptr_into_a(cpu, bus),
        0x1B => dec_de(cpu),
        0x1C => inc_e(cpu),
        0x1D => dec_e(cpu),
        0x1E => load_imm_e(cpu, bus),
        0x1F => rra(cpu),
        0x20 => jr_nz_s8(cpu, bus),
        0x21 => load_imm_hl(cpu, bus),
        0x22 => load_val_hl_ptr(cpu, bus),
        0x23 => inc_hl(cpu),
        0x24 => inc_h(cpu),
        0x25 => dec_h(cpu),
        0x26 => load_imm_h(cpu, bus),
        0x27 => daa(cpu),
        0x28 => jr_z_s8(cpu, bus),
        0x29 => add_hl_to_hl(cpu),
        0x2A => load_hl_ptr_into_a(cpu, bus),
        0x2B => dec_hl(cpu),
        0x2C => inc_l(cpu),
        0x2D => dec_l(cpu),
        0x2E => load_imm_l(cpu, bus),
        0x2F => cpl(cpu),
        0x30 => jr_nc_s8(cpu, bus),
        0x31 => load_imm_sp(cpu, bus),
        0x32 => load_val_hl_ptr_dec(cpu, bus),
        0x33 => inc_sp(cpu),
        0x34 => inc_hl_ptr(cpu, bus),
        0x35 => dec_hl_ptr(cpu, bus),
        0x36 => load_d8_into_hl_ptr(cpu, bus),
        0x37 => set_carry_flag(cpu),
        0x38 => jr_c_s8(cpu, bus),
        0x39 => add_sp_to_hl(cpu),
        0x3A => load_hl_ptr_into_a_dec(cpu, bus),
        0x3B => dec_sp(cpu),
        0x3C => inc_a(cpu),
        0x3D => dec_a(cpu),
        0x3E => load_imm_a(cpu, bus),
        0x3F => ccf(cpu),
        0x40 => ld_b_b(cpu),
        0x41 => ld_b_c(cpu),
        0x42 => ld_b_d(cpu),
        0x43 => ld_b_e(cpu),
        0x44 => ld_b_h(cpu),
        0x45 => ld_b_l(cpu),
        0x46 => ld_b_hl_ptr(cpu, bus),
        0x47 => ld_b_a(cpu),
        0x48 => ld_c_b(cpu),
        0x49 => ld_c_c(cpu),
        0x4A => ld_c_d(cpu),
        0x4B => ld_c_e(cpu),
        0x4C => ld_c_h(cpu),
        0x4D => ld_c_l(cpu),
        0x4E => ld_c_hl_ptr(cpu, bus),
        0x4F => ld_c_a(cpu),
        0x50 => ld_d_b(cpu),
        0x51 => ld_d_c(cpu),
        0x52 => ld_d_d(cpu),
        0x53 => ld_d_e(cpu),
        0x54 => ld_d_h(cpu),
        0x55 => ld_d_l(cpu),
        0x56 => ld_d_hl_ptr(cpu, bus),
        0x57 => ld_d_a(cpu),
        0x58 => ld_e_b(cpu),
        0x59 => ld_e_c(cpu),
        0x5A => ld_e_d(cpu),
        0x5B => ld_e_e(cpu),
        0x5C => ld_e_h(cpu),
        0x5D => ld_e_l(cpu),
        0x5E => ld_e_hl_ptr(cpu, bus),
        0x5F => ld_e_a(cpu),
        0x60 => ld_h_b(cpu),
        0x61 => ld_h_c(cpu),
        0x62 => ld_h_d(cpu),
        0x63 => ld_h_e(cpu),
        0x64 => ld_h_h(cpu),
        0x65 => ld_h_l(cpu),
        0x66 => ld_h_hl_ptr(cpu, bus),
        0x67 => ld_h_a(cpu),
        0x68 => ld_l_b(cpu),
        0x69 => ld_l_c(cpu),
        0x6A => ld_l_d(cpu),
        0x6B => ld_l_e(cpu),
        0x6C => ld_l_h(cpu),
        0x6D => ld_l_l(cpu),
        0x6E => ld_l_hl_ptr(cpu, bus),
        0x6F => ld_l_a(cpu),
        0x70 => load_b_into_hl_ptr(cpu, bus),
        0x71 => load_c_into_hl_ptr(cpu, bus),
        0x72 => load_d_into_hl_ptr(cpu, bus),
        0x73 => load_e_into_hl_ptr(cpu, bus),
        0x74 => load_h_into_hl_ptr(cpu, bus),
        0x75 => load_l_into_hl_ptr(cpu, bus),
        0x76 => halt(cpu),
        0x77 => load_a_into_hl_ptr(cpu, bus),
        0x78 => ld_a_b(cpu),
        0x79 => ld_a_c(cpu),
        0x7A => ld_a_d(cpu),
        0x7B => ld_a_e(cpu),
        0x7C => ld_a_h(cpu),
        0x7D => ld_a_l(cpu),
        0x7E => ld_a_hl_ptr(cpu, bus),
        0x7F => ld_a_a(cpu),
        0x80 => add_a_b(cpu),
        0x81 => add_a_c(cpu),
        0x82 => add_a_d(cpu),
        0x83 => add_a_e(cpu),
        0x84 => add_a_h(cpu),
        0x85 => add_a_l(cpu),
        0x86 => add_hl_ptr_to_a(cpu, bus),
        0x87 => add_a_a(cpu),
        0x88 => adc_a_b(cpu),
        0x89 => adc_a_c(cpu),
        0x8A => adc_a_d(cpu),
        0x8B => adc_a_e(cpu),
        0x8C => adc_a_h(cpu),
        0x8D => adc_a_l(cpu),
        0x8E => adc_hl_ptr_into_a(cpu, bus),
        0x8F => adc_a_a(cpu),
        0x90 => sub_b(cpu),
        0x91 => sub_c(cpu),
        0x92 => sub_d(cpu),
        0x93 => sub_e(cpu),
        0x94 => sub_h(cpu),
        0x95 => sub_l(cpu),
        0x96 => sub_hl_ptr(cpu, bus),
        0x97 => sub_a(cpu),
        0x98 => sbc_a_b(cpu),
        0x99 => sbc_a_c(cpu),
        0x9A => sbc_a_d(cpu),
        0x9B => sbc_a_e(cpu),
        0x9C => sbc_a_h(cpu),
        0x9D => sbc_a_l(cpu),
        0x9E => sbc_hl_ptr(cpu, bus),
        0x9F => sbc_a_a(cpu),
        0xA0 => and_b(cpu),
        0xA1 => and_c(cpu),
        0xA2 => and_d(cpu),
        0xA3 => and_e(cpu),
        0xA4 => and_h(cpu),
        0xA5 => and_l(cpu),
        0xA6 => and_hl_ptr(cpu, bus),
        0xA7 => and_a(cpu),
        0xA8 => xor_b(cpu),
        0xA9 => xor_c(cpu),
        0xAA => xor_d(cpu),
        0xAB => xor_e(cpu),
        0xAC => xor_h(cpu),
        0xAD => xor_l(cpu),
        0xAE => xor_hl_ptr(cpu, bus),
        0xAF => xor_a(cpu),
        0xB0 => or_b(cpu),
        0xB1 => or_c(cpu),
        0xB2 => or_d(cpu),
        0xB3 => or_e(cpu),
        0xB4 => or_h(cpu),
        0xB5 => or_l(cpu),
        0xB6 => or_hl_ptr(cpu, bus),
        0xB7 => or_a(cpu),
        0xB8 => cp_b(cpu),
        0xB9 => cp_c(cpu),
        0xBA => cp_d(cpu),
        0xBB => cp_e(cpu),
        0xBC => cp_h(cpu),
        0xBD => cp_l(cpu),
        0xBE => cp_hl_ptr(cpu, bus),
        0xBF => cp_a(cpu),
        0xC0 => ret_nz(cpu, bus),
        0xC1 => pop_bc(cpu, bus),
        0xC2 => jp_nz_a16(cpu, bus),
        0xC3 => jp_a16(cpu, bus),
        0xC4 => call_nz_a16(cpu, bus),
        0xC5 => push_bc(cpu, bus),
        0xC6 => add_a_d8(cpu, bus),
        0xC7 => rst_0(cpu, bus),
        0xC8 => ret_z(cpu, bus),
        0xC9 => ret(cpu, bus),
        0xCA => jp_z_a16(cpu, bus),
        0xCC => call_z_a16(cpu, bus),
        0xCD => call_a16(cpu, bus),
        0xCE => adc_a_d8(cpu, bus),
        0xCF => rst_1(cpu, bus),
        0xD0 => ret_nc(cpu, bus),
        0xD1 => pop_de(cpu, bus),
        0xD2 => jp_nc_a16(cpu, bus),
        0xD4 => call_nc_a16(cpu, bus),
        0xD5 => push_de(cpu, bus),
        0xD6 => sub_d8(cpu, bus),
        0xD7 => rst_2(cpu, bus),
        0xD8 => ret_c(cpu, bus),
        0xD9 => ret_i(cpu, bus),
        0xDA => jp_c_a16(cpu, bus),
        0xDC => call_c_a16(cpu, bus),
        0xDE => sbc_a_d8(cpu, bus),
        0xDF => rst_3(cpu, bus),
        0xE0 => ld_a_to_ffa8(cpu, bus),
        0xE1 => pop_hl(cpu, bus),
        0xE2 => ld_a_to_ffc(cpu, bus),
        0xE5 => push_hl(cpu, bus),
        0xE6 => and_d8(cpu, bus),
        0xE7 => rst_4(cpu, bus),
        0xE8 => add_sp_s8(cpu, bus),
        0xE9 => jp_hl(cpu),
        0xEA => ld_a16_a(cpu, bus),
        0xEE => xor_d8(cpu, bus),
        0xEF => rst_5(cpu, bus),
        0xF0 => ld_ffa8_to_a(cpu, bus),
        0xF1 => pop_af(cpu, bus),
        0xF2 => ld_ffc_to_a(cpu, bus),
        0xF3 => di(cpu),
        0xF5 => push_af(cpu, bus),
        0xF6 => or_d8(cpu, bus),
        0xF7 => rst_6(cpu, bus),
        0xF8 => ld_sp_s8_to_hl(cpu, bus),
        0xF9 => ld_sp_hl(cpu),
        0xFA => ld_a_a16(cpu, bus),
        0xFB => ei(cpu),
        0xFE => cp_d8(cpu, bus),
        0xFF => rst_7(cpu, bus),
        _ => (),
    }
}


/// A byte whose two nibbles are decimal digits.
pub open spec fn is_bcd(x: u8) -> bool {
    (x & 0xF) <= 9 && (x >> 4) <= 9
}

/// The decimal value a binary-coded-decimal byte encodes.
pub open spec fn bcd_val(x: u8) -> u8 {
    ((x >> 4) * 10 + (x & 0xF)) as u8
}

/// After ADD of two binary-coded-decimal operands, DAA yields the encoding
/// of the decimal sum modulo 100, and its carry flag says whether the sum
/// reached 100.
pub proof fn lemma_daa_after_add(a: u8, b: u8)
    by (bit_vector)
    requires
        is_bcd(a),
        is_bcd(b),
    ensures
        is_bcd(daa_res(add8(a, b), false, add_half(a, b), add_carry(a, b))),
        bcd_val(daa_res(add8(a, b), false, add_half(a, b), add_carry(a, b))) == (bcd_val(a)
            + bcd_val(b)) % 100,
        daa_carry(add8(a, b), false, add_half(a, b), add_carry(a, b)) == (bcd_val(a) + bcd_val(b)
            >= 100),
{
}

} // verus!
