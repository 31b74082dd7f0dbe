//! Tests of the pixel unit: mode timing, LY publication, DMA, the frame
//! scenario of a single black tile, and the VBlank interrupt dispatch.

use gb_core::bus::Bus;
use gb_core::cpu::CPU;
use gb_core::gpu::{dma_transfer, GPU};

fn empty_bus() -> Bus {
    let rom: Vec<u8> = vec![0u8; 0x8000];
    Bus::new_bus(&rom)
}

fn bus_with_display_on() -> Bus {
    let mut bus = empty_bus();
    bus.set_byte(0xFF40, 0x80);
    bus
}

#[test]
fn ly_tracks_the_scanline_after_every_dot() {
    let mut bus = bus_with_display_on();
    let mut gpu = GPU::new_gpu();
    for _ in 0..1000 {
        gpu.tick(&mut bus);
        assert_eq!(bus.fetch_byte(0xFF44), gpu.current_line);
        assert_eq!(bus.fetch_byte(0xFF41) & 0x03, gpu.mode);
    }
}

#[test]
fn the_mode_machine_walks_one_scanline() {
    let mut bus = bus_with_display_on();
    let mut gpu = GPU::new_gpu();
    assert_eq!(gpu.mode, 2);
    for _ in 0..80 {
        gpu.tick(&mut bus);
    }
    assert_eq!(gpu.mode, 3);
    for _ in 0..172 {
        gpu.tick(&mut bus);
    }
    assert_eq!(gpu.mode, 0);
    assert_eq!(gpu.current_line, 0);
    for _ in 0..204 {
        gpu.tick(&mut bus);
    }
    assert_eq!(gpu.mode, 2);
    assert_eq!(gpu.current_line, 1);
}

#[test]
fn vblank_spans_lines_144_through_153() {
    let mut bus = bus_with_display_on();
    let mut gpu = GPU::new_gpu();
    let mut presented = 0u32;
    for _ in 0..(456 * 144) {
        gpu.tick(&mut bus);
        if gpu.frame_ready {
            presented += 1;
        }
    }
    assert_eq!(presented, 1);
    assert_eq!(gpu.mode, 1);
    assert_eq!(gpu.current_line, 144);
    for _ in 0..(456 * 10) {
        gpu.tick(&mut bus);
    }
    assert_eq!(gpu.mode, 2);
    assert_eq!(gpu.current_line, 0);
}

#[test]
fn one_black_tile_paints_scanline_zero_black() {
    let mut bus = empty_bus();
    bus.set_byte(0xFF47, 0xE4); // BGP
    for i in 0..16 {
        bus.set_byte(0x8000 + i, 0xFF); // one tile, all color number 3
    }
    bus.set_byte(0x9800, 0x00); // tilemap entry 0 selects it
    bus.set_byte(0xFF40, 0x91); // display on, BG on, tile data at 0x8000
    let mut gpu = GPU::new_gpu();
    let mut guard = 0u32;
    loop {
        gpu.tick(&mut bus);
        if gpu.frame_ready {
            break;
        }
        guard += 1;
        assert!(guard < 100_000, "no frame was presented");
    }
    for x in 0..160 {
        assert_eq!(gpu.frame[x], 3, "pixel {} of scanline 0", x);
    }
    // Tiles past the first eight columns of the map are tile 0 as well, so
    // the whole line is black; line 8 uses tilemap row 1, which still
    // selects tile 0: also black.
    for x in 0..160 {
        assert_eq!(gpu.frame[8 * 160 + x], 3);
    }
}

#[test]
fn dma_copies_exactly_160_bytes_and_clears_the_trigger() {
    let mut bus = empty_bus();
    for i in 0..0xA0u16 {
        bus.set_byte(0xC000 + i, (i as u8).wrapping_mul(3).wrapping_add(1));
    }
    bus.set_byte(0xFEA0, 0xAA); // just past OAM: must stay untouched
    bus.set_byte(0xFF46, 0xC0);
    dma_transfer(&mut bus);
    for i in 0..0xA0u16 {
        assert_eq!(bus.fetch_byte(0xFE00 + i), bus.fetch_byte(0xC000 + i));
    }
    assert_eq!(bus.fetch_byte(0xFEA0), 0xAA);
    assert_eq!(bus.fetch_byte(0xFF46), 0);
}

#[test]
fn a_gpu_tick_runs_a_pending_dma() {
    let mut bus = bus_with_display_on();
    for i in 0..0xA0u16 {
        bus.set_byte(0xC000 + i, i as u8);
    }
    bus.set_byte(0xFF46, 0xC0);
    let mut gpu = GPU::new_gpu();
    gpu.tick(&mut bus);
    for i in 0..0xA0u16 {
        assert_eq!(bus.fetch_byte(0xFE00 + i), i as u8);
    }
    assert_eq!(bus.fetch_byte(0xFF46), 0);
}

#[test]
fn disabling_the_display_resets_and_presents_white() {
    let mut bus = bus_with_display_on();
    let mut gpu = GPU::new_gpu();
    for _ in 0..300 {
        gpu.tick(&mut bus);
    }
    bus.set_byte(0xFF40, 0x00);
    gpu.tick(&mut bus);
    assert!(gpu.stopped);
    assert!(gpu.frame_ready);
    assert_eq!(gpu.mode, 0);
    assert_eq!(gpu.current_line, 0);
    assert_eq!(bus.fetch_byte(0xFF44), 0);
    for i in 0..gb_core::gpu::FRAME_PIXELS {
        assert_eq!(gpu.frame[i], 0);
    }
    gpu.tick(&mut bus);
    assert!(!gpu.frame_ready, "the white frame is presented only once");
}

#[test]
fn stat_interrupt_enable_bits_survive_the_mode_publish() {
    let mut bus = bus_with_display_on();
    bus.set_byte(0xFF41, 0x78); // software sets the four enable bits
    let mut gpu = GPU::new_gpu();
    gpu.tick(&mut bus);
    assert_eq!(bus.fetch_byte(0xFF41) & 0xF8, 0x78);
    assert_eq!(bus.fetch_byte(0xFF41) & 0x03, gpu.mode);
}

#[test]
fn entering_vblank_dispatches_the_enabled_interrupt() {
    let mut bus = bus_with_display_on();
    let mut gpu = GPU::new_gpu();
    let mut cpu = CPU::new_cpu();
    cpu.sp = 0xD000;
    cpu.ime = true;
    bus.set_byte(0xFFFF, 0x01);
    // Walk the pixel unit to the edge of VBlank.
    while !(gpu.mode == 0 && gpu.current_line == 143) {
        gpu.tick(&mut bus);
    }
    while gpu.mode == 0 {
        gpu.tick(&mut bus);
    }
    assert_eq!(gpu.mode, 1);
    assert_ne!(bus.fetch_byte(0xFF0F) & 1, 0, "VBlank requested");
    // The next executed instruction (NOP at the reset address) is followed
    // by the dispatch: PC pushed, vector taken, IF bit and IME cleared.
    cpu.tick(&mut bus);
    assert_eq!(cpu.pc, 0x0040);
    assert_eq!(cpu.sp, 0xCFFE);
    assert_eq!(bus.fetch_word(0xCFFE), 0x0101);
    assert_eq!(bus.fetch_byte(0xFF0F) & 1, 0);
    assert!(!cpu.ime);
}
