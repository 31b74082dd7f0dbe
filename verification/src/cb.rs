//! The 0xCB-prefixed opcode table.
//!
//! Every prefixed opcode acts on one of eight operand slots (B, C, D, E, H,
//! L, the byte at (HL), A, selected by the low three bits) and falls into
//! one of four groups selected by the high bits: rotates/shifts/swap,
//! BIT n, RES n and SET n.  The dispatcher decodes the opcode and states the
//! exact new state over that decoding.

use vstd::prelude::*;

use crate::alu::{f_c, flags, make_flags};
use crate::bus::{spec_read, spec_write, Bus};
use crate::cpu::{Register, CPU};

verus! {

broadcast use crate::alu::lemma_flags_low_nibble;

/// The byte with only bit `n` set, for `n` in 0..8.
pub open spec fn bit_mask(n: u8) -> u8 {
    if n == 0 {
        0x01
    } else if n == 1 {
        0x02
    } else if n == 2 {
        0x04
    } else if n == 3 {
        0x08
    } else if n == 4 {
        0x10
    } else if n == 5 {
        0x20
    } else if n == 6 {
        0x40
    } else {
        0x80
    }
}

/// Executable twin of `bit_mask`.
pub fn bit_mask_x(n: u8) -> (r: u8)
    ensures
        r == bit_mask(n),
{
    if n == 0 {
        0x01
    } else if n == 1 {
        0x02
    } else if n == 2 {
        0x04
    } else if n == 3 {
        0x08
    } else if n == 4 {
        0x10
    } else if n == 5 {
        0x20
    } else if n == 6 {
        0x40
    } else {
        0x80
    }
}

/// The value an operand slot holds: B, C, D, E, H, L, (HL), A by index.
pub open spec fn spec_target(cpu: CPU, mem: Seq<u8>, idx: u8) -> u8 {
    if idx == 0 {
        cpu.bc.high
    } else if idx == 1 {
        cpu.bc.low
    } else if idx == 2 {
        cpu.de.high
    } else if idx == 3 {
        cpu.de.low
    } else if idx == 4 {
        cpu.hl.high
    } else if idx == 5 {
        cpu.hl.low
    } else if idx == 6 {
        spec_read(mem, cpu.hl.spec_combined())
    } else {
        cpu.af.high
    }
}

/// The processor with register slot `idx` holding `v` and flag byte `f`;
/// slot 6 is the memory operand and leaves the registers alone.
pub open spec fn cpu_with_target(cpu: CPU, idx: u8, v: u8, f: u8) -> CPU {
    let c1 = if idx == 0 {
        CPU { bc: Register { high: v, ..cpu.bc }, ..cpu }
    } else if idx == 1 {
        CPU { bc: Register { low: v, ..cpu.bc }, ..cpu }
    } else if idx == 2 {
        CPU { de: Register { high: v, ..cpu.de }, ..cpu }
    } else if idx == 3 {
        CPU { de: Register { low: v, ..cpu.de }, ..cpu }
    } else if idx == 4 {
        CPU { hl: Register { high: v, ..cpu.hl }, ..cpu }
    } else if idx == 5 {
        CPU { hl: Register { low: v, ..cpu.hl }, ..cpu }
    } else if idx == 6 {
        cpu
    } else {
        CPU { af: Register { high: v, ..cpu.af }, ..cpu }
    };
    CPU { af: Register { low: f, ..c1.af }, ..c1 }
}

/// Result of the rotate/shift/swap group `g` in 0..8 (RLC, RRC, RL, RR,
/// SLA, SRA, SWAP, SRL) applied to `v` with carry-in `cin`.
pub open spec fn cb_rot_val(g: u8, v: u8, cin: bool) -> u8 {
    if g == 0 {
        (v << 1) | (v >> 7)
    } else if g == 1 {
        (v >> 1) | (v << 7)
    } else if g == 2 {
        (v << 1) | (if cin {
            1u8
        } else {
            0u8
        })
    } else if g == 3 {
        (v >> 1) | (if cin {
            0x80u8
        } else {
            0u8
        })
    } else if g == 4 {
        v << 1
    } else if g == 5 {
        (v >> 1) | (v & 0x80)
    } else if g == 6 {
        (v >> 4) | (v << 4)
    } else {
        v >> 1
    }
}

/// Carry out of the rotate/shift/swap group `g`: the bit rotated or shifted
/// out, and false for SWAP.
pub open spec fn cb_rot_carry(g: u8, v: u8) -> bool {
    if g == 6 {
        false
    } else if g == 1 || g == 3 || g == 5 || g == 7 {
        v & 1 != 0
    } else {
        v & 0x80 != 0
    }
}

/// Rotate/shift/swap with its flag byte: Z from the result, N = H = 0,
/// C the bit moved out.
pub fn cb_rot(g: u8, v: u8, cin: bool) -> (r: (u8, u8))
    ensures
        r.0 == cb_rot_val(g, v, cin),
        r.1 == flags(cb_rot_val(g, v, cin) == 0, false, false, cb_rot_carry(g, v)),
{
    let nv: u8 = if g == 0 {
        (v << 1) | (v >> 7)
    } else if g == 1 {
        (v >> 1) | (v << 7)
    } else if g == 2 {
        (v << 1) | (if cin {
            1u8
        } else {
            0u8
        })
    } else if g == 3 {
        (v >> 1) | (if cin {
            0x80u8
        } else {
            0u8
        })
    } else if g == 4 {
        v << 1
    } else if g == 5 {
        (v >> 1) | (v & 0x80)
    } else if g == 6 {
        (v >> 4) | (v << 4)
    } else {
        v >> 1
    };
    let c = if g == 6 {
        false
    } else if g == 1 || g == 3 || g == 5 || g == 7 {
        v & 1 != 0
    } else {
        v & 0x80 != 0
    };
    (nv, make_flags(nv == 0, false, false, c))
}

/// The new operand value of a prefixed opcode: rotated/shifted for the
/// first group, untouched by BIT, with bit n cleared by RES and set by SET.
pub open spec fn cb_new_val(op: u8, v: u8, f: u8) -> u8 {
    let g = op >> 3;
    if op < 0x40 {
        cb_rot_val(g, v, f_c(f))
    } else if op < 0x80 {
        v
    } else if op < 0xC0 {
        v & !bit_mask(g & 7)
    } else {
        v | bit_mask(g & 7)
    }
}

/// The new flag byte of a prefixed opcode: rotates set Z/C, BIT sets
/// Z = not bit and H = 1 keeping C, RES and SET keep F whole.
pub open spec fn cb_new_flags(op: u8, v: u8, f: u8) -> u8 {
    let g = op >> 3;
    if op < 0x40 {
        flags(cb_rot_val(g, v, f_c(f)) == 0, false, false, cb_rot_carry(g, v))
    } else if op < 0x80 {
        flags(v & bit_mask(g & 7) == 0, false, true, f_c(f))
    } else {
        f
    }
}

/// Whether the prefixed opcode writes its operand back (BIT only reads).
pub open spec fn cb_writes(op: u8) -> bool {
    op < 0x40 || op >= 0x80
}

/// Machine cycles of a prefixed opcode: 2 on a register, 4 on (HL)
/// (3 for BIT (HL)).
pub open spec fn spec_cb_cycles(op: u8) -> u8 {
    if op & 7 == 6 {
        if 0x40 <= op && op < 0x80 {
            3
        } else {
            4
        }
    } else {
        2
    }
}

/// Executable twin of `spec_cb_cycles`.
pub fn cb_cycles(op: u8) -> (r: u8)
    ensures
        r == spec_cb_cycles(op),
{
    if op & 7 == 6 {
        if 0x40 <= op && op < 0x80 {
            3
        } else {
            4
        }
    } else {
        2
    }
}

/// Executes one 0xCB-prefixed opcode against the CPU and the bus.
pub fn execute_cb(cpu: &mut CPU, bus: &mut Bus, op: u8)
    requires
        old(bus).wf(),
    ensures
        final(bus).wf(),
        final(cpu).clock_cycles_to_go == old(cpu).clock_cycles_to_go,
        old(cpu).flags_wf() ==> final(cpu).flags_wf(),
        *final(cpu) == cpu_with_target(
            *old(cpu),
            op & 7,
            cb_new_val(op, spec_target(*old(cpu), old(bus)@, op & 7), old(cpu).af.low),
            cb_new_flags(op, spec_target(*old(cpu), old(bus)@, op & 7), old(cpu).af.low),
        ),
        final(bus)@ == if op & 7 == 6 && cb_writes(op) {
            spec_write(
                old(bus)@,
                old(cpu).hl.spec_combined(),
                cb_new_val(op, spec_target(*old(cpu), old(bus)@, op & 7), old(cpu).af.low),
            )
        } else {
            old(bus)@
        },
{
    let idx = op & 7;
    let g = op >> 3;
    let v: u8 = if idx == 0 {
        cpu.bc.high
    } else if idx == 1 {
        cpu.bc.low
    } else if idx == 2 {
        cpu.de.high
    } else if idx == 3 {
        cpu.de.low
    } else if idx == 4 {
        cpu.hl.high
    } else if idx == 5 {
        cpu.hl.low
    } else if idx == 6 {
        bus.fetch_byte(cpu.hl.get_combined())
    } else {
        cpu.af.high
    };
    let nv: u8;
    let nf: u8;
    if op < 0x40 {
        let rf = cb_rot(g, v, cpu.extract_flag('c'));
        nv = rf.0;
        nf = rf.1;
    } else if op < 0x80 {
        nv = v;
        nf = make_flags(v & bit_mask_x(g & 7) == 0, false, true, cpu.extract_flag('c'));
    } else if op < 0xC0 {
        nv = v & !bit_mask_x(g & 7);
        nf = cpu.af.low;
    } else {
        nv = v | bit_mask_x(g & 7);
        nf = cpu.af.low;
    }
    if idx == 0 {
        cpu.bc.high = nv;
    } else if idx == 1 {
        cpu.bc.low = nv;
    } else if idx == 2 {
        cpu.de.high = nv;
    } else if idx == 3 {
        cpu.de.low = nv;
    } else if idx == 4 {
        cpu.hl.high = nv;
    } else if idx == 5 {
        cpu.hl.low = nv;
    } else if idx == 6 {
        if op < 0x40 || op >= 0x80 {
            bus.set_byte(cpu.hl.get_combined(), nv);
        }
    } else {
        cpu.af.high = nv;
    }
    cpu.af.low = nf;
}

} // verus!
