//! Tests of sprite rendering: placement, transparency, the two flip
//! attributes, the painter order of the forty OAM entries, and scrolled
//! backgrounds.

use gb_core::bus::Bus;
use gb_core::gpu::GPU;

fn empty_bus() -> Bus {
    let rom: Vec<u8> = vec![0u8; 0x8000];
    Bus::new_bus(&rom)
}

/// Runs the pixel unit until it presents a frame and returns that frame.
fn render_one_frame(bus: &mut Bus) -> Vec<u8> {
    let mut gpu = GPU::new_gpu();
    let mut guard = 0u32;
    loop {
        gpu.tick(bus);
        if gpu.frame_ready {
            return gpu.frame.clone();
        }
        guard += 1;
        assert!(guard < 100_000, "no frame was presented");
    }
}

/// Writes a tile whose left half is color 1 and right half color 2.
fn write_half_half_tile(bus: &mut Bus, index: u16) {
    for row in 0..8u16 {
        bus.set_byte(0x8000 + 16 * index + 2 * row, 0xF0); // low color bit
        bus.set_byte(0x8000 + 16 * index + 2 * row + 1, 0x0F); // high color bit
    }
}

#[test]
fn a_sprite_paints_its_row_with_transparency() {
    let mut bus = empty_bus();
    bus.set_byte(0xFF47, 0xE4); // palette: shade n for color n
    write_half_half_tile(&mut bus, 1);
    // Sprite 0 at screen (8, 0), tile 1, no flips.
    bus.set_byte(0xFE00, 16);
    bus.set_byte(0xFE01, 16);
    bus.set_byte(0xFE02, 1);
    bus.set_byte(0xFE03, 0);
    bus.set_byte(0xFF40, 0x82); // display on, sprites on, background off
    let frame = render_one_frame(&mut bus);
    for x in 0..8 {
        assert_eq!(frame[x], 0, "left of the sprite stays white");
    }
    for x in 8..12 {
        assert_eq!(frame[x], 1, "left sprite half is color 1");
    }
    for x in 12..16 {
        assert_eq!(frame[x], 2, "right sprite half is color 2");
    }
    for x in 16..160 {
        assert_eq!(frame[x], 0);
    }
    assert_eq!(frame[7 * 160 + 8], 1, "all eight sprite rows are drawn");
    assert_eq!(frame[8 * 160 + 8], 0, "row 8 is past the sprite");
}

#[test]
fn x_flip_mirrors_the_columns() {
    let mut bus = empty_bus();
    bus.set_byte(0xFF47, 0xE4);
    write_half_half_tile(&mut bus, 1);
    bus.set_byte(0xFE00, 16);
    bus.set_byte(0xFE01, 16);
    bus.set_byte(0xFE02, 1);
    bus.set_byte(0xFE03, 0x20); // X-flip
    bus.set_byte(0xFF40, 0x82);
    let frame = render_one_frame(&mut bus);
    for x in 8..12 {
        assert_eq!(frame[x], 2, "mirrored: color 2 first");
    }
    for x in 12..16 {
        assert_eq!(frame[x], 1);
    }
}

#[test]
fn y_flip_mirrors_the_rows() {
    let mut bus = empty_bus();
    bus.set_byte(0xFF47, 0xE4);
    // Tile 1: row 0 is color 3, the rest color 0.
    bus.set_byte(0x8010, 0xFF);
    bus.set_byte(0x8011, 0xFF);
    bus.set_byte(0xFE00, 16);
    bus.set_byte(0xFE01, 16);
    bus.set_byte(0xFE02, 1);
    bus.set_byte(0xFE03, 0x40); // Y-flip
    bus.set_byte(0xFF40, 0x82);
    let frame = render_one_frame(&mut bus);
    assert_eq!(frame[8], 0, "top row is transparent after the flip");
    assert_eq!(frame[7 * 160 + 8], 3, "the painted row moved to the bottom");
}

#[test]
fn later_oam_entries_paint_over_earlier_ones() {
    let mut bus = empty_bus();
    bus.set_byte(0xFF47, 0xE4);
    // Tile 1 all color 1; tile 2 all color 3.
    for row in 0..8u16 {
        bus.set_byte(0x8010 + 2 * row, 0xFF);
        bus.set_byte(0x8020 + 2 * row, 0xFF);
        bus.set_byte(0x8020 + 2 * row + 1, 0xFF);
    }
    // Sprites 0 and 1 overlap at screen (8, 0).
    bus.set_byte(0xFE00, 16);
    bus.set_byte(0xFE01, 16);
    bus.set_byte(0xFE02, 1);
    bus.set_byte(0xFE04, 16);
    bus.set_byte(0xFE05, 16);
    bus.set_byte(0xFE06, 2);
    bus.set_byte(0xFF40, 0x82);
    let frame = render_one_frame(&mut bus);
    assert_eq!(frame[8], 3, "the higher OAM index painted last");
}

#[test]
fn sprites_clip_at_the_screen_edges() {
    let mut bus = empty_bus();
    bus.set_byte(0xFF47, 0xE4);
    for row in 0..8u16 {
        bus.set_byte(0x8010 + 2 * row, 0xFF);
        bus.set_byte(0x8010 + 2 * row + 1, 0xFF);
    }
    // Sprite half off the left edge: screen x = -4.
    bus.set_byte(0xFE00, 16);
    bus.set_byte(0xFE01, 4);
    bus.set_byte(0xFE02, 1);
    bus.set_byte(0xFF40, 0x82);
    let frame = render_one_frame(&mut bus);
    for x in 0..4 {
        assert_eq!(frame[x], 3, "the visible half is drawn");
    }
    for x in 4..160 {
        assert_eq!(frame[x], 0);
    }
}

#[test]
fn the_background_scrolls_with_scx_and_scy() {
    let mut bus = empty_bus();
    bus.set_byte(0xFF47, 0xE4);
    // Tile 1 all color 3; map cell (1, 1) selects it.
    for row in 0..8u16 {
        bus.set_byte(0x8010 + 2 * row, 0xFF);
        bus.set_byte(0x8010 + 2 * row + 1, 0xFF);
    }
    bus.set_byte(0x9800 + 32 + 1, 1);
    bus.set_byte(0xFF42, 8); // SCY: map row 1 shows on scanline 0
    bus.set_byte(0xFF43, 8); // SCX: map column 1 starts at screen x 0
    bus.set_byte(0xFF40, 0x91); // display on, background on
    let frame = render_one_frame(&mut bus);
    for x in 0..8 {
        assert_eq!(frame[x], 3, "the scrolled tile lands at the origin");
    }
    for x in 8..160 {
        assert_eq!(frame[x], 0);
    }
}

#[test]
fn the_signed_tile_data_base_is_used_when_lcdc_bit_4_is_clear() {
    let mut bus = empty_bus();
    bus.set_byte(0xFF47, 0xE4);
    // Tile index 0x80 reads as -128: 16 bytes at 0x8800.
    for row in 0..8u16 {
        bus.set_byte(0x8800 + 2 * row, 0xFF);
        bus.set_byte(0x8800 + 2 * row + 1, 0xFF);
    }
    bus.set_byte(0x9800, 0x80);
    bus.set_byte(0xFF40, 0x81); // display on, background on, signed tiles
    let frame = render_one_frame(&mut bus);
    for x in 0..8 {
        assert_eq!(frame[x], 3);
    }
    assert_eq!(frame[8], 0);
}
