//! The joypad latch: two active-low 4-bit rows (directions and buttons)
//! projected into the joypad register at 0xFF00 according to the row-select
//! bits the program wrote there.  A key that goes from released to pressed
//! in the projected nibble requests the joypad interrupt.

use vstd::prelude::*;

use crate::bus::{spec_read, spec_write, Bus};

verus! {

/// The eight keys of the machine.
pub enum GbKey {
    Up,
    Down,
    Left,
    Right,
    A,
    B,
    Start,
    Select,
}

/// The latch state: bit clear means pressed.  `row_1` holds the directions
/// (bit 3 Down, 2 Up, 1 Left, 0 Right), `row_2` the buttons (bit 3 Start,
/// 2 Select, 1 B, 0 A).
pub struct Keys {
    pub row_1: u8,
    pub row_2: u8,
}

impl Keys {
    /// All keys released.
    pub fn new_keys() -> (k: Keys)
        ensures
            k.row_1 == 0xF,
            k.row_2 == 0xF,
    {
        Keys { row_1: 0xF, row_2: 0xF }
    }

    /// Clears the key's bit in its row.
    pub fn key_down(&mut self, key: GbKey)
        ensures
            final(self).row_1 == match key {
                GbKey::Down => old(self).row_1 & 0xF7,
                GbKey::Up => old(self).row_1 & 0xFB,
                GbKey::Left => old(self).row_1 & 0xFD,
                GbKey::Right => old(self).row_1 & 0xFE,
                _ => old(self).row_1,
            },
            final(self).row_2 == match key {
                GbKey::Start => old(self).row_2 & 0xF7,
                GbKey::Select => old(self).row_2 & 0xFB,
                GbKey::B => old(self).row_2 & 0xFD,
                GbKey::A => old(self).row_2 & 0xFE,
                _ => old(self).row_2,
            },
    {
        match key {
            GbKey::Down => self.row_1 = self.row_1 & 0xF7,
            GbKey::Up => self.row_1 = self.row_1 & 0xFB,
            GbKey::Left => self.row_1 = self.row_1 & 0xFD,
            GbKey::Right => self.row_1 = self.row_1 & 0xFE,
            GbKey::Start => self.row_2 = self.row_2 & 0xF7,
            GbKey::Select => self.row_2 = self.row_2 & 0xFB,
            GbKey::B => self.row_2 = self.row_2 & 0xFD,
            GbKey::A => self.row_2 = self.row_2 & 0xFE,
        }
    }

    /// Sets the key's bit in its row.
    pub fn key_up(&mut self, key: GbKey)
        ensures
            final(self).row_1 == match key {
                GbKey::Down => old(self).row_1 | 0x8,
                GbKey::Up => old(self).row_1 | 0x4,
                GbKey::Left => old(self).row_1 | 0x2,
                GbKey::Right => old(self).row_1 | 0x1,
                _ => old(self).row_1,
            },
            final(self).row_2 == match key {
                GbKey::Start => old(self).row_2 | 0x8,
                GbKey::Select => old(self).row_2 | 0x4,
                GbKey::B => old(self).row_2 | 0x2,
                GbKey::A => old(self).row_2 | 0x1,
                _ => old(self).row_2,
            },
    {
        match key {
            GbKey::Down => self.row_1 = self.row_1 | 0x8,
            GbKey::Up => self.row_1 = self.row_1 | 0x4,
            GbKey::Left => self.row_1 = self.row_1 | 0x2,
            GbKey::Right => self.row_1 = self.row_1 | 0x1,
            GbKey::Start => self.row_2 = self.row_2 | 0x8,
            GbKey::Select => self.row_2 = self.row_2 | 0x4,
            GbKey::B => self.row_2 = self.row_2 | 0x2,
            GbKey::A => self.row_2 = self.row_2 | 0x1,
        }
    }

    /// Projects the selected row into the joypad register: with bit 4 of
    /// 0xFF00 clear the directions, else with bit 5 clear the buttons (the
    /// upper nibble reads as ones).  A bit falling from released to pressed
    /// requests the joypad interrupt.
    pub fn update_register(&self, bus: &mut Bus)
        requires
            old(bus).wf(),
        ensures
            final(bus).wf(),
            ({
                let joy = spec_read(old(bus)@, 0xFF00);
                if joy & 0x10 == 0 {
                    let v = 0xF0 | (self.row_1 & 0xF);
                    let m1 = spec_write(old(bus)@, 0xFF00, v);
                    final(bus)@ == if (joy & !v) & 0xF != 0 {
                        spec_write(m1, 0xFF0F, spec_read(m1, 0xFF0F) | 0x10)
                    } else {
                        m1
                    }
                } else if joy & 0x20 == 0 {
                    let v = 0xF0 | (self.row_2 & 0xF);
                    let m1 = spec_write(old(bus)@, 0xFF00, v);
                    final(bus)@ == if (joy & !v) & 0xF != 0 {
                        spec_write(m1, 0xFF0F, spec_read(m1, 0xFF0F) | 0x10)
                    } else {
                        m1
                    }
                } else {
                    final(bus)@ == old(bus)@
                }
            }),
    {
        let joy = bus.fetch_byte(0xFF00);
        let v: u8;
        if joy & 0x10 == 0 {
            v = 0xF0 | (self.row_1 & 0xF);
        } else if joy & 0x20 == 0 {
            v = 0xF0 | (self.row_2 & 0xF);
        } else {
            return;
        }
        bus.set_byte(0xFF00, v);
        if (joy & !v) & 0xF != 0 {
            let requested = bus.fetch_byte(0xFF0F);
            bus.set_byte(0xFF0F, requested | 0x10);
        }
    }
}

} // verus!
