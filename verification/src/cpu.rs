//! The CPU: register file, flag helpers, stack, instruction pacing and
//! interrupt dispatch.
//!
//! `tick` advances one machine cycle: while the per-instruction cycle counter
//! is non-zero it only drains it; otherwise it executes exactly one
//! instruction and then services interrupts.

use vstd::prelude::*;

use crate::alu::{f_c, f_h, f_n, f_z};
use crate::bus::{spec_read, spec_read_word, spec_write, spec_write_word, Bus, MEM_SIZE};
use crate::cb::{
    cb_cycles, cb_new_flags, cb_new_val, cb_writes, cpu_with_target, execute_cb, spec_cb_cycles,
    spec_target,
};
use crate::instructions::{
    execute_op, op_cycles, op_len, spec_op_cycles, spec_op_len, spec_step_cpu, spec_step_mem,
};

verus! {

broadcast use crate::alu::lemma_flags_low_nibble;

/// One 16-bit register pair, addressable as two 8-bit halves.
pub struct Register {
    pub low: u8,
    pub high: u8,
}

impl Register {
    /// The combined 16-bit view: high byte times 256 plus low byte.
    pub open spec fn spec_combined(&self) -> u16 {
        (self.high * 256 + self.low) as u16
    }

    /// A register pair starting at zero.
    pub fn new_register() -> (r: Register)
        ensures
            r.low == 0,
            r.high == 0,
    {
        Register { low: 0, high: 0 }
    }

    /// Reads the combined 16-bit value.
    pub fn get_combined(&self) -> (r: u16)
        ensures
            r == self.spec_combined(),
    {
        (self.high as u16) * 256 + (self.low as u16)
    }

    /// Stores the low byte of a 16-bit value into the low half.
    pub fn set_low_word(&mut self, data: u16)
        ensures
            *final(self) == (Register { low: (data % 256) as u8, ..*old(self) }),
    {
        self.low = (data % 256) as u8;
    }

    /// Stores the high byte of a 16-bit value into the high half.
    pub fn set_high_word(&mut self, data: u16)
        ensures
            *final(self) == (Register { high: (data / 256) as u8, ..*old(self) }),
    {
        self.high = (data / 256) as u8;
    }

    /// Stores a full 16-bit value across both halves.
    pub fn set_word(&mut self, data: u16)
        ensures
            final(self).low == (data % 256) as u8,
            final(self).high == (data / 256) as u8,
            final(self).spec_combined() == data,
    {
        self.set_low_word(data);
        self.set_high_word(data);
    }

    /// Renders the pair as `high:low     combined` in hexadecimal.
    pub fn print(&self) -> (r: String)
        ensures
            r@.len() == 20,
    {
        let combined = self.get_combined();
        format_register(self.high, self.low, combined)
    }
}

/// Relies on `core::fmt`'s `{:#04x}` / `{:#06x}`: `0x`-prefixed,
/// zero-padded hexadecimal of fixed total widths 4 and 6, so the result
/// always holds exactly 20 characters.
#[verifier::external_body]
fn format_register(high: u8, low: u8, combined: u16) -> (r: String)
    ensures
        r@.len() == 20,
{
    format!("{:#04x}:{:#04x}     {:#06x}", high, low, combined)
}

/// The processor state: four register pairs, stack pointer, program counter,
/// the per-instruction cycle counter, and the halt/stop/interrupt latches.
pub struct CPU {
    pub af: Register,
    pub bc: Register,
    pub de: Register,
    pub hl: Register,
    pub sp: u16,
    pub pc: u16,
    pub clock_cycles_to_go: u8,
    pub stopped: bool,
    pub halted: bool,
    pub ime: bool,
}

impl CPU {
    /// Bits 3..0 of the flag byte are zero; every instruction preserves this.
    pub open spec fn flags_wf(&self) -> bool {
        self.af.low & 0x0F == 0
    }

    /// Reset state: the program counter starts at 0x0100, everything else at
    /// zero or false.
    pub fn new_cpu() -> (cpu: CPU)
        ensures
            cpu.af.low == 0 && cpu.af.high == 0,
            cpu.bc.low == 0 && cpu.bc.high == 0,
            cpu.de.low == 0 && cpu.de.high == 0,
            cpu.hl.low == 0 && cpu.hl.high == 0,
            cpu.sp == 0,
            cpu.pc == 0x100,
            cpu.clock_cycles_to_go == 0,
            !cpu.stopped,
            !cpu.halted,
            !cpu.ime,
            cpu.flags_wf(),
    {
        let cpu = CPU {
            af: Register::new_register(),
            bc: Register::new_register(),
            de: Register::new_register(),
            hl: Register::new_register(),
            sp: 0,
            pc: 0x100,
            clock_cycles_to_go: 0,
            stopped: false,
            halted: false,
            ime: false,
        };
        assert(0u8 & 0x0F == 0) by (bit_vector);
        cpu
    }

    /// Machine cycles still owed for the instruction executed last.
    pub fn get_clock_cycles(&self) -> (r: u8)
        ensures
            r == self.clock_cycles_to_go,
    {
        self.clock_cycles_to_go
    }

    /// The flag named by `c` ('z', 'n', 'h' or 'c'); any other character
    /// reads as false.
    pub fn extract_flag(&self, c: char) -> (r: bool)
        ensures
            r == match c {
                'z' => f_z(self.af.low),
                'n' => f_n(self.af.low),
                'h' => f_h(self.af.low),
                'c' => f_c(self.af.low),
                _ => false,
            },
    {
        match c {
            'z' => self.af.low & 0x80 != 0,
            'n' => self.af.low & 0x40 != 0,
            'h' => self.af.low & 0x20 != 0,
            'c' => self.af.low & 0x10 != 0,
            _ => false,
        }
    }

    /// Sets the flag named by `c`; any other character leaves F alone.
    pub fn set_flag(&mut self, c: char)
        ensures
            final(self).af.low == match c {
                'z' => old(self).af.low | 0x80,
                'n' => old(self).af.low | 0x40,
                'h' => old(self).af.low | 0x20,
                'c' => old(self).af.low | 0x10,
                _ => old(self).af.low,
            },
            *final(self) == (CPU {
                af: Register { low: final(self).af.low, ..old(self).af },
                ..*old(self)
            }),
    {
        match c {
            'z' => self.af.low = self.af.low | 0x80,
            'n' => self.af.low = self.af.low | 0x40,
            'h' => self.af.low = self.af.low | 0x20,
            'c' => self.af.low = self.af.low | 0x10,
            _ => (),
        }
    }

    /// Clears the flag named by `c`; any other character leaves F alone.
    pub fn clear_flag(&mut self, c: char)
        ensures
            final(self).af.low == match c {
                'z' => old(self).af.low & 0x7F,
                'n' => old(self).af.low & 0xBF,
                'h' => old(self).af.low & 0xDF,
                'c' => old(self).af.low & 0xEF,
                _ => old(self).af.low,
            },
            *final(self) == (CPU {
                af: Register { low: final(self).af.low, ..old(self).af },
                ..*old(self)
            }),
    {
        match c {
            'z' => self.af.low = self.af.low & 0x7F,
            'n' => self.af.low = self.af.low & 0xBF,
            'h' => self.af.low = self.af.low & 0xDF,
            'c' => self.af.low = self.af.low & 0xEF,
            _ => (),
        }
    }

    /// Sets or clears the flag named by `c` according to `val`.
    pub fn update_flag(&mut self, c: char, val: bool)
        ensures
            final(self).af.low == match c {
                'z' => if val {
                    old(self).af.low | 0x80
                } else {
                    old(self).af.low & 0x7F
                },
                'n' => if val {
                    old(self).af.low | 0x40
                } else {
                    old(self).af.low & 0xBF
                },
                'h' => if val {
                    old(self).af.low | 0x20
                } else {
                    old(self).af.low & 0xDF
                },
                'c' => if val {
                    old(self).af.low | 0x10
                } else {
                    old(self).af.low & 0xEF
                },
                _ => old(self).af.low,
            },
            *final(self) == (CPU {
                af: Register { low: final(self).af.low, ..old(self).af },
                ..*old(self)
            }),
    {
        if val {
            self.set_flag(c);
        } else {
            self.clear_flag(c);
        }
    }

    /// Push: SP moves down by two (wrapping), then the word is stored
    /// little-endian at the new SP.
    pub fn push_stack(&mut self, bus: &mut Bus, data: u16)
        requires
            old(bus).wf(),
        ensures
            final(bus).wf(),
            final(self).sp == old(self).sp.wrapping_sub(2),
            *final(self) == (CPU { sp: final(self).sp, ..*old(self) }),
            final(bus)@ == spec_write_word(old(bus)@, old(self).sp.wrapping_sub(2), data),
    {
        self.sp = self.sp.wrapping_sub(2);
        bus.set_word(self.sp, data);
    }

    /// Advances one machine cycle.  While the per-instruction counter is
    /// non-zero it only drains it; otherwise exactly one instruction is
    /// executed (none while halted or stopped) and its base cycle count is
    /// loaded into the counter.
    pub fn tick(&mut self, bus: &mut Bus)
        requires
            old(bus).wf(),
            old(self).clock_cycles_to_go == 0 && !old(self).stopped && !old(self).halted
                ==> spec_op_len(spec_read(old(bus)@, old(self).pc)) != 0,
        ensures
            final(bus).wf(),
            old(self).flags_wf() ==> final(self).flags_wf(),
            old(self).clock_cycles_to_go > 0 ==> *final(self) == (CPU {
                clock_cycles_to_go: (old(self).clock_cycles_to_go - 1) as u8,
                ..*old(self)
            }) && final(bus)@ == old(bus)@,
            old(self).clock_cycles_to_go == 0 ==> *final(self) == spec_instruction_cpu(
                *old(self),
                old(bus)@,
            ) && final(bus)@ == spec_instruction_mem(*old(self), old(bus)@),
    {
        if self.clock_cycles_to_go > 0 {
            self.clock_cycles_to_go = self.clock_cycles_to_go - 1;
        } else {
            self.execute_instruction(bus);
        }
    }

    /// True when the next `tick` would have to execute an illegal opcode.
    /// The caller must treat this as fatal, as the hardware does; the
    /// verified core never executes one.
    pub fn next_op_illegal(&self, bus: &Bus) -> (r: bool)
        requires
            bus.wf(),
        ensures
            r == (self.clock_cycles_to_go == 0 && !self.stopped && !self.halted
                && spec_op_len(spec_read(bus@, self.pc)) == 0),
    {
        self.clock_cycles_to_go == 0 && !self.stopped && !self.halted && op_len(
            bus.fetch_byte(self.pc),
        ) == 0
    }

    /// Fetches, decodes and executes the instruction at PC, then services
    /// interrupts.  A halted CPU only wakes when an interrupt is pending;
    /// a stopped one only on a pending joypad interrupt.
    fn execute_instruction(&mut self, bus: &mut Bus)
        requires
            old(bus).wf(),
            old(self).clock_cycles_to_go == 0,
            !old(self).stopped && !old(self).halted ==> spec_op_len(
                spec_read(old(bus)@, old(self).pc),
            ) != 0,
        ensures
            final(bus).wf(),
            old(self).flags_wf() ==> final(self).flags_wf(),
            *final(self) == spec_instruction_cpu(*old(self), old(bus)@),
            final(bus)@ == spec_instruction_mem(*old(self), old(bus)@),
    {
        if self.stopped {
            let enabled = bus.fetch_byte(0xFFFF);
            let requested = bus.fetch_byte(0xFF0F);
            if enabled & 0x10 != 0 && requested & 0x10 != 0 {
                self.stopped = false;
            }
            return;
        }
        if self.halted {
            let enabled = bus.fetch_byte(0xFFFF);
            let requested = bus.fetch_byte(0xFF0F);
            if enabled & requested != 0 {
                self.halted = false;
                self.service_interrupts(bus);
            }
            return;
        }
        let op = bus.fetch_byte(self.pc);
        self.pc = self.pc.wrapping_add(1);
        if op == 0xCB {
            let op2 = bus.fetch_byte(self.pc);
            self.pc = self.pc.wrapping_add(1);
            execute_cb(self, bus, op2);
            self.clock_cycles_to_go = cb_cycles(op2);
            self.service_interrupts(bus);
            return;
        }
        let previous_pc = self.pc;
        let len = op_len(op);
        let cycles = op_cycles(op);
        execute_op(self, bus, op);
        if previous_pc == self.pc {
            // No jump happened: consume the immediate operand bytes.
            self.pc = self.pc.wrapping_add(len).wrapping_sub(1);
        }
        self.clock_cycles_to_go = cycles;
        self.service_interrupts(bus);
    }

    /// Interrupt dispatch: with IME set and some interrupt both enabled and
    /// requested, the lowest such bit is acknowledged (IME cleared, the IF
    /// bit cleared, PC pushed) and control jumps to its vector.
    fn service_interrupts(&mut self, bus: &mut Bus)
        requires
            old(bus).wf(),
        ensures
            final(bus).wf(),
            final(self).clock_cycles_to_go == old(self).clock_cycles_to_go,
            *final(self) == spec_dispatch_cpu(*old(self), old(bus)@),
            final(bus)@ == spec_dispatch_mem(*old(self), old(bus)@),
    {
        if !self.ime {
            return;
        }
        let enabled = bus.fetch_byte(0xFFFF);
        let requested = bus.fetch_byte(0xFF0F);
        let p = (enabled & requested) & 0x1F;
        if p == 0 {
            return;
        }
        let mask: u8;
        let vector: u16;
        if p & 1 != 0 {
            mask = 0xFE;
            vector = 0x40;
        } else if p & 2 != 0 {
            mask = 0xFD;
            vector = 0x48;
        } else if p & 4 != 0 {
            mask = 0xFB;
            vector = 0x50;
        } else if p & 8 != 0 {
            mask = 0xF7;
            vector = 0x58;
        } else {
            mask = 0xEF;
            vector = 0x60;
        }
        self.ime = false;
        bus.set_byte(0xFF0F, requested & mask);
        let pc = self.pc;
        self.push_stack(bus, pc);
        self.pc = vector;
    }

    /// Pop: the word at SP is loaded little-endian, then SP moves up by two
    /// (wrapping).
    pub fn pop_stack_d16(&mut self, bus: &mut Bus) -> (data: u16)
        requires
            old(bus).wf(),
        ensures
            final(bus).wf(),
            final(bus)@ == old(bus)@,
            data == spec_read_word(old(bus)@, old(self).sp),
            *final(self) == (CPU { sp: old(self).sp.wrapping_add(2), ..*old(self) }),
    {
        let data = bus.fetch_word(self.sp);
        self.sp = self.sp.wrapping_add(2);
        data
    }
}

/// The interrupt bits both enabled (IE, 0xFFFF) and requested (IF, 0xFF0F).
pub open spec fn spec_int_pending(mem: Seq<u8>) -> u8 {
    (spec_read(mem, 0xFFFF) & spec_read(mem, 0xFF0F)) & 0x1F
}

/// Index of the highest-priority pending interrupt, for non-zero `p`:
/// VBlank, LCD STAT, Timer, Serial, Joypad in that order.
pub open spec fn spec_int_index(p: u8) -> u8 {
    if p & 1 != 0 {
        0
    } else if p & 2 != 0 {
        1
    } else if p & 4 != 0 {
        2
    } else if p & 8 != 0 {
        3
    } else {
        4
    }
}

/// Mask clearing the IF bit of interrupt `i`.
pub open spec fn spec_clear_mask(i: u8) -> u8 {
    if i == 0 {
        0xFE
    } else if i == 1 {
        0xFD
    } else if i == 2 {
        0xFB
    } else if i == 3 {
        0xF7
    } else {
        0xEF
    }
}

/// Handler vector of interrupt `i`: 0x40 + 8 * i.
pub open spec fn spec_int_vector(i: u8) -> u16 {
    if i == 0 {
        0x40
    } else if i == 1 {
        0x48
    } else if i == 2 {
        0x50
    } else if i == 3 {
        0x58
    } else {
        0x60
    }
}

/// The processor after the interrupt-dispatch step: with IME set and some
/// interrupt both enabled and requested, IME is cleared, PC is pushed and
/// control moves to the vector of the lowest pending bit; otherwise
/// nothing changes.
pub open spec fn spec_dispatch_cpu(cpu: CPU, mem: Seq<u8>) -> CPU {
    let p = spec_int_pending(mem);
    if cpu.ime && p != 0 {
        CPU {
            ime: false,
            sp: cpu.sp.wrapping_sub(2),
            pc: spec_int_vector(spec_int_index(p)),
            ..cpu
        }
    } else {
        cpu
    }
}

/// The bus contents after the interrupt-dispatch step: the served IF bit
/// is cleared (the other request bits stay) and the pre-dispatch PC is
/// pushed; otherwise nothing changes.
pub open spec fn spec_dispatch_mem(cpu: CPU, mem: Seq<u8>) -> Seq<u8> {
    let p = spec_int_pending(mem);
    if cpu.ime && p != 0 {
        spec_write_word(
            spec_write(mem, 0xFF0F, spec_read(mem, 0xFF0F) & spec_clear_mask(spec_int_index(p))),
            cpu.sp.wrapping_sub(2),
            cpu.pc,
        )
    } else {
        mem
    }
}

/// The processor after fetching and executing the instruction at PC, with
/// interrupt dispatch not yet applied: the opcode byte (and, for the 0xCB
/// prefix, the second byte) is consumed, the opcode's action runs, PC
/// advances over the immediate operands whenever the action left it alone,
/// and the cycle counter is loaded with the base machine-cycle count.
pub open spec fn spec_exec_cpu(cpu: CPU, mem: Seq<u8>) -> CPU {
    let op = spec_read(mem, cpu.pc);
    if op == 0xCB {
        let op2 = spec_read(mem, cpu.pc.wrapping_add(1));
        let c1 = CPU { pc: cpu.pc.wrapping_add(2), ..cpu };
        let v = spec_target(c1, mem, op2 & 7);
        let c2 = cpu_with_target(
            c1,
            op2 & 7,
            cb_new_val(op2, v, c1.af.low),
            cb_new_flags(op2, v, c1.af.low),
        );
        CPU { clock_cycles_to_go: spec_cb_cycles(op2), ..c2 }
    } else {
        let c1 = CPU { pc: cpu.pc.wrapping_add(1), ..cpu };
        let c2 = spec_step_cpu(c1, mem, op);
        let c3 = if c2.pc == c1.pc {
            CPU { pc: c1.pc.wrapping_add(spec_op_len(op)).wrapping_sub(1), ..c2 }
        } else {
            c2
        };
        CPU { clock_cycles_to_go: spec_op_cycles(op), ..c3 }
    }
}

/// The bus contents after the instruction at PC executed, under the same
/// reading as `spec_exec_cpu`.
pub open spec fn spec_exec_mem(cpu: CPU, mem: Seq<u8>) -> Seq<u8> {
    let op = spec_read(mem, cpu.pc);
    if op == 0xCB {
        let op2 = spec_read(mem, cpu.pc.wrapping_add(1));
        let c1 = CPU { pc: cpu.pc.wrapping_add(2), ..cpu };
        let v = spec_target(c1, mem, op2 & 7);
        if op2 & 7 == 6 && cb_writes(op2) {
            spec_write(mem, c1.hl.spec_combined(), cb_new_val(op2, v, c1.af.low))
        } else {
            mem
        }
    } else {
        spec_step_mem(CPU { pc: cpu.pc.wrapping_add(1), ..cpu }, mem, op)
    }
}

/// One full instruction step, as one `tick` with a zero cycle counter
/// performs it: a stopped CPU only watches for a pending joypad interrupt,
/// a halted one wakes on any pending interrupt and dispatches when IME is
/// set, and otherwise one instruction executes followed by the interrupt
/// dispatch.
pub open spec fn spec_instruction_cpu(cpu: CPU, mem: Seq<u8>) -> CPU {
    if cpu.stopped {
        if spec_read(mem, 0xFFFF) & 0x10 != 0 && spec_read(mem, 0xFF0F) & 0x10 != 0 {
            CPU { stopped: false, ..cpu }
        } else {
            cpu
        }
    } else if cpu.halted {
        if spec_read(mem, 0xFFFF) & spec_read(mem, 0xFF0F) != 0 {
            spec_dispatch_cpu(CPU { halted: false, ..cpu }, mem)
        } else {
            cpu
        }
    } else {
        spec_dispatch_cpu(spec_exec_cpu(cpu, mem), spec_exec_mem(cpu, mem))
    }
}

/// The bus contents after one full instruction step, under the same
/// reading as `spec_instruction_cpu`.
pub open spec fn spec_instruction_mem(cpu: CPU, mem: Seq<u8>) -> Seq<u8> {
    if cpu.stopped {
        mem
    } else if cpu.halted {
        if spec_read(mem, 0xFFFF) & spec_read(mem, 0xFF0F) != 0 {
            spec_dispatch_mem(CPU { halted: false, ..cpu }, mem)
        } else {
            mem
        }
    } else {
        spec_dispatch_mem(spec_exec_cpu(cpu, mem), spec_exec_mem(cpu, mem))
    }
}

/// Pushing a word and popping it back returns the word unchanged whenever
/// the two stack bytes live in the writable regions (neither ROM nor LY).
pub proof fn lemma_push_pop_round_trip(mem: Seq<u8>, sp: u16, v: u16)
    requires
        mem.len() == MEM_SIZE,
        0x8002 <= sp,
        sp <= 0xFF43 || sp >= 0xFF47,
    ensures
        spec_read_word(spec_write_word(mem, sp.wrapping_sub(2), v), sp.wrapping_sub(2)) == v,
{
    crate::bus::lemma_word_round_trip(mem, (sp - 2) as u16, v);
}

/// Popping into AF forces bits 3..0 of F to zero; when the pushed flag byte
/// already had a zero low nibble, the mask returns it unchanged.
pub proof fn lemma_pop_af_mask(f: u8)
    by (bit_vector)
    ensures
        (f & 0xF0) & 0x0F == 0,
        f & 0x0F == 0 ==> f & 0xF0 == f,
{
}

} // verus!
