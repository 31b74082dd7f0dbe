//! Tests of the memory bus: word round trips, the echo-RAM alias, the
//! read-only ROM region and the LY write-to-reset rule.

use gb_core::bus::Bus;

fn empty_bus() -> Bus {
    let rom: Vec<u8> = vec![0u8; 0x8000];
    Bus::new_bus(&rom)
}

#[test]
fn word_round_trips_in_writable_regions() {
    let mut bus = empty_bus();
    for &addr in &[0x8000u16, 0x9FFF, 0xA000, 0xC000, 0xDFFF, 0xE000, 0xFDFF, 0xFE00, 0xFF80, 0xFFFD] {
        bus.set_word(addr, 0xBEEF);
        assert_eq!(bus.fetch_word(addr), 0xBEEF);
        bus.set_word(addr, 0x0001);
        assert_eq!(bus.fetch_word(addr), 0x0001);
    }
}

#[test]
fn rom_writes_are_ignored() {
    let mut rom: Vec<u8> = vec![0u8; 0x8000];
    rom[0x1234] = 0x77;
    let mut bus = Bus::new_bus(&rom);
    bus.set_byte(0x1234, 0x99);
    assert_eq!(bus.fetch_byte(0x1234), 0x77);
    bus.set_byte(0x0000, 0x99);
    assert_eq!(bus.fetch_byte(0x0000), 0x00);
}

#[test]
fn echo_ram_aliases_work_ram_both_ways() {
    let mut bus = empty_bus();
    bus.set_byte(0xC123, 0x42);
    assert_eq!(bus.fetch_byte(0xE123), 0x42);
    bus.set_byte(0xFDFF, 0x9A);
    assert_eq!(bus.fetch_byte(0xDDFF), 0x9A);
    assert_eq!(bus.fetch_byte(0xFDFF), 0x9A);
}

#[test]
fn writing_ly_resets_it_to_zero() {
    let mut bus = empty_bus();
    bus.poke(0xFF44, 0x90);
    assert_eq!(bus.fetch_byte(0xFF44), 0x90);
    bus.set_byte(0xFF44, 0x55);
    assert_eq!(bus.fetch_byte(0xFF44), 0x00);
}

#[test]
fn the_rom_image_is_loaded_verbatim() {
    let mut rom: Vec<u8> = vec![0u8; 0x150];
    for i in 0..rom.len() {
        rom[i] = (i % 251) as u8;
    }
    let bus = Bus::new_bus(&rom);
    for i in 0..rom.len() {
        assert_eq!(bus.fetch_byte(i as u16), rom[i]);
    }
    assert_eq!(bus.fetch_byte(0x150), 0);
}
