//! The memory bus: a flat 64 KiB address space with memory-mapped I/O.
//!
//! The cartridge ROM occupies 0x0000..0x8000 and is read-only; writes there
//! are silently ignored.  The echo region 0xE000..0xFE00 is an alias of work
//! RAM at 0xC000..0xDE00: reads and writes through it land at the aliased
//! address.  A program write to 0xFF44 (the LY register) resets it to zero;
//! the pixel unit publishes the true scanline through `poke`, which bypasses
//! the register-specific write effects.

use vstd::prelude::*;

verus! {

/// Number of addressable bytes: the full 16-bit address space.
pub const MEM_SIZE: usize = 0x10000;

/// Address of the LY register (current scanline, read-only to the program).
pub const LY_ADDR: u16 = 0xFF44;

/// For echo-RAM addresses, the aliased work-RAM address; otherwise the
/// address itself.
pub open spec fn mirror(addr: u16) -> u16 {
    if 0xE000 <= addr && addr <= 0xFDFF {
        (addr - 0x2000) as u16
    } else {
        addr
    }
}

/// The byte a read of `addr` returns, given the backing memory.
pub open spec fn spec_read(mem: Seq<u8>, addr: u16) -> u8 {
    mem[mirror(addr) as int]
}

/// The backing memory after a program write of `v` to `addr`.
pub open spec fn spec_write(mem: Seq<u8>, addr: u16, v: u8) -> Seq<u8> {
    if addr < 0x8000 {
        mem
    } else if addr == LY_ADDR {
        mem.update(LY_ADDR as int, 0)
    } else {
        mem.update(mirror(addr) as int, v)
    }
}

/// The little-endian 16-bit value read at `addr` (the high byte comes from
/// `addr + 1`, wrapping at the top of the address space).
pub open spec fn spec_read_word(mem: Seq<u8>, addr: u16) -> u16 {
    (spec_read(mem, addr) + 256 * spec_read(mem, addr.wrapping_add(1))) as u16
}

/// The backing memory after a little-endian 16-bit program write.
pub open spec fn spec_write_word(mem: Seq<u8>, addr: u16, v: u16) -> Seq<u8> {
    spec_write(spec_write(mem, addr, (v % 256) as u8), addr.wrapping_add(1), (v / 256) as u8)
}

/// The flat 64 KiB address space with memory-mapped I/O.
pub struct Bus {
    pub mem: Vec<u8>,
}

impl View for Bus {
    type V = Seq<u8>;

    open spec fn view(&self) -> Seq<u8> {
        self.mem@
    }
}

impl Bus {
    /// The backing vector always covers the whole address space.
    pub open spec fn wf(&self) -> bool {
        self.mem@.len() == MEM_SIZE
    }

    /// Builds a bus whose ROM region starts with the given cartridge image;
    /// every other byte starts at zero.
    pub fn new_bus(rom: &Vec<u8>) -> (bus: Bus)
        requires
            rom@.len() <= 0x8000,
        ensures
            bus.wf(),
            forall|i: int| 0 <= i < rom@.len() ==> bus@[i] == rom@[i],
            forall|i: int| rom@.len() <= i < MEM_SIZE ==> bus@[i] == 0,
    {
        let mut mem: Vec<u8> = Vec::new();
        let mut i: usize = 0;
        while i < MEM_SIZE
            invariant
                i == mem@.len(),
                i <= MEM_SIZE,
                forall|j: int| 0 <= j < i ==> mem@[j] == 0,
            decreases MEM_SIZE - i,
        {
            mem.push(0);
            i = i + 1;
        }
        let mut k: usize = 0;
        while k < rom.len()
            invariant
                k <= rom@.len(),
                rom@.len() <= 0x8000,
                mem@.len() == MEM_SIZE,
                forall|j: int| 0 <= j < k ==> mem@[j] == rom@[j],
                forall|j: int| k <= j < MEM_SIZE ==> mem@[j] == 0,
            decreases rom@.len() - k,
        {
            let b = rom[k];
            mem.set(k, b);
            k = k + 1;
        }
        Bus { mem }
    }

    /// Returns the byte at `addr`; reads have no side effects.
    pub fn fetch_byte(&self, addr: u16) -> (r: u8)
        requires
            self.wf(),
        ensures
            r == spec_read(self@, addr),
    {
        let a: usize = if 0xE000 <= addr && addr <= 0xFDFF {
            (addr - 0x2000) as usize
        } else {
            addr as usize
        };
        self.mem[a]
    }

    /// Program write of `v` to `addr`: ROM writes are ignored, echo RAM
    /// lands at the aliased address, and a write to LY resets it to zero.
    pub fn set_byte(&mut self, addr: u16, v: u8)
        requires
            old(self).wf(),
        ensures
            final(self).wf(),
            final(self)@ == spec_write(old(self)@, addr, v),
    {
        if addr < 0x8000 {
            return;
        }
        if addr == LY_ADDR {
            self.mem.set(LY_ADDR as usize, 0);
            return;
        }
        let a: usize = if 0xE000 <= addr && addr <= 0xFDFF {
            (addr - 0x2000) as usize
        } else {
            addr as usize
        };
        self.mem.set(a, v);
    }

    /// Direct store that bypasses the register-specific write effects; the
    /// pixel unit uses it to publish LY and STAT.  Echo RAM still aliases.
    pub fn poke(&mut self, addr: u16, v: u8)
        requires
            old(self).wf(),
        ensures
            final(self).wf(),
            final(self)@ == old(self)@.update(mirror(addr) as int, v),
    {
        let a: usize = if 0xE000 <= addr && addr <= 0xFDFF {
            (addr - 0x2000) as usize
        } else {
            addr as usize
        };
        self.mem.set(a, v);
    }

    /// Little-endian 16-bit read.
    pub fn fetch_word(&self, addr: u16) -> (r: u16)
        requires
            self.wf(),
        ensures
            r == spec_read_word(self@, addr),
    {
        let lo = self.fetch_byte(addr);
        let hi = self.fetch_byte(addr.wrapping_add(1));
        (lo as u16) + 256 * (hi as u16)
    }

    /// Little-endian 16-bit write: low byte to `addr`, high byte to
    /// `addr + 1`.
    pub fn set_word(&mut self, addr: u16, v: u16)
        requires
            old(self).wf(),
        ensures
            final(self).wf(),
            final(self)@ == spec_write_word(old(self)@, addr, v),
    {
        self.set_byte(addr, (v % 256) as u8);
        self.set_byte(addr.wrapping_add(1), (v / 256) as u8);
    }
}

/// In the writable regions (neither ROM nor the LY register), writing a
/// 16-bit word and reading it back returns the word unchanged.
pub proof fn lemma_word_round_trip(mem: Seq<u8>, addr: u16, v: u16)
    requires
        mem.len() == MEM_SIZE,
        0x8000 <= addr,
        addr <= 0xFFFE,
        addr != LY_ADDR,
        addr + 1 != LY_ADDR,
    ensures
        spec_read_word(spec_write_word(mem, addr, v), addr) == v,
{
    let lo = (v % 256) as u8;
    let hi = (v / 256) as u8;
    let m1 = spec_write(mem, addr, lo);
    let m2 = spec_write(m1, addr.wrapping_add(1), hi);
    assert(mirror(addr) != mirror(addr.wrapping_add(1)));
    assert(spec_read(m2, addr) == lo);
    assert(spec_read(m2, addr.wrapping_add(1)) == hi);
}

} // verus!
