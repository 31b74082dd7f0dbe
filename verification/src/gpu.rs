//! The pixel-processing unit: a four-mode scanline state machine driven one
//! dot per tick, OAM DMA, and the background and sprite renderers that fill
//! a 160 x 144 canvas of palette shades (0 white .. 3 black).
//!
//! On every dot the unit publishes its scanline counter to LY (0xFF44) and
//! its mode to the low bits of STAT (0xFF41), preserving the interrupt
//! enable bits that software set.  On entering VBlank it requests the
//! VBlank interrupt, hands the finished canvas over as `frame` and clears
//! the canvas to white.

use vstd::prelude::*;

use crate::bus::{spec_read, spec_write, Bus};
use crate::cb::{bit_mask, bit_mask_x};

verus! {

/// Width of the visible screen in pixels.
pub const SCREEN_WIDTH: usize = 160;

/// Height of the visible screen in pixels.
pub const SCREEN_HEIGHT: usize = 144;

/// Number of pixels of one frame.
pub const FRAME_PIXELS: usize = 23040;

/// Dots of one OAM-scan period (mode 2).
pub const OAM_ACCESS_SCANLINE_CLOCKS: u16 = 80;

/// Dots of one drawing period (mode 3).
pub const VRAM_ACCESS_SCANLINE_CLOCKS: u16 = 172;

/// Dots of one horizontal-blank period (mode 0).
pub const HORIZONTAL_BLANK_CLOCKS: u16 = 204;

/// Dots of one vertical-blank line (mode 1); there are ten such lines.
pub const VERTICAL_BLANK_LINE_CLOCKS: u16 = 456;

/// The gray level 0..=3 the background palette maps a 2-bit color number
/// to: two palette bits per color number.
pub open spec fn palette_shade(palette: u8, color_nb: u8) -> u8 {
    if color_nb == 0 {
        palette & 3
    } else if color_nb == 1 {
        (palette >> 2) & 3
    } else if color_nb == 2 {
        (palette >> 4) & 3
    } else {
        (palette >> 6) & 3
    }
}

/// The background pixel of screen column `x` on scanline `line`: the
/// scrolled position picks a tile out of the tilemap at 0x9800, LCDC bit 4
/// picks the tile-data base (0x8000 unsigned or 0x9000 signed), and the two
/// tile bytes of the pixel row give the 2-bit color number, mapped through
/// the BGP palette.
pub open spec fn spec_bg_pixel(mem: Seq<u8>, line: u8, x: int) -> u8 {
    let scx = spec_read(mem, 0xFF43);
    let scy = spec_read(mem, 0xFF42);
    let lcdc = spec_read(mem, 0xFF40);
    let sx = (x + scx) % 256;
    let sy = (line + scy) % 256;
    let tix = spec_read(mem, (0x9800 + (sy / 8) * 32 + sx / 8) as u16);
    let base: int = if lcdc & 0x10 != 0 {
        0x8000 + 16 * tix
    } else if tix < 128 {
        0x9000 + 16 * tix
    } else {
        0x9000 + 16 * tix - 4096
    };
    let r0 = spec_read(mem, (base + 2 * (sy % 8)) as u16);
    let r1 = spec_read(mem, (base + 2 * (sy % 8) + 1) as u16);
    let pos = (7 - sx % 8) as u8;
    let cn = (if r0 & bit_mask(pos) != 0 {
        1int
    } else {
        0int
    }) + (if r1 & bit_mask(pos) != 0 {
        2int
    } else {
        0int
    });
    palette_shade(spec_read(mem, 0xFF47), cn as u8)
}

/// Screen Y of sprite `s`: its raw OAM byte minus 16.
pub open spec fn spec_obj_y(mem: Seq<u8>, s: int) -> int {
    spec_read(mem, (0xFE00 + 4 * s) as u16) - 16
}

/// Screen X of sprite `s`: its raw OAM byte minus 8.
pub open spec fn spec_obj_x(mem: Seq<u8>, s: int) -> int {
    spec_read(mem, (0xFE01 + 4 * s) as u16) - 8
}

/// Tile index of sprite `s`, into the tile data at 0x8000.
pub open spec fn spec_obj_tile(mem: Seq<u8>, s: int) -> u8 {
    spec_read(mem, (0xFE02 + 4 * s) as u16)
}

/// Attribute flags of sprite `s`: bit 6 Y-flip, bit 5 X-flip.
pub open spec fn spec_obj_flags(mem: Seq<u8>, s: int) -> u8 {
    spec_read(mem, (0xFE03 + 4 * s) as u16)
}

/// Whether sprite `s` is rendered on `line`: the line falls in its eight
/// rows and its X position lies in the open interval (-8, 160).
pub open spec fn spec_obj_visible(mem: Seq<u8>, line: u8, s: int) -> bool {
    &&& spec_obj_y(mem, s) <= line <= spec_obj_y(mem, s) + 7
    &&& -8 < spec_obj_x(mem, s) < 160
}

/// The 2-bit color number of sprite `s` at screen column `x` on `line`,
/// honouring the X-flip and Y-flip attribute bits.
pub open spec fn spec_obj_color(mem: Seq<u8>, line: u8, s: int, x: int) -> u8 {
    let cx = x - spec_obj_x(mem, s);
    let fl = spec_obj_flags(mem, s);
    let r = line - spec_obj_y(mem, s);
    let rr = if fl & 0x40 != 0 {
        7 - r
    } else {
        r
    };
    let pos = if fl & 0x20 != 0 {
        cx
    } else {
        7 - cx
    };
    let r0 = spec_read(mem, (0x8000 + 16 * spec_obj_tile(mem, s) + 2 * rr) as u16);
    let r1 = spec_read(mem, (0x8000 + 16 * spec_obj_tile(mem, s) + 2 * rr + 1) as u16);
    ((if r0 & bit_mask(pos as u8) != 0 {
        1int
    } else {
        0int
    }) + (if r1 & bit_mask(pos as u8) != 0 {
        2int
    } else {
        0int
    })) as u8
}

/// Whether sprite `s` paints screen column `x` on `line`: it is visible,
/// the column falls in its eight pixels, and the color number is not zero
/// (zero is transparent).
pub open spec fn spec_obj_covers(mem: Seq<u8>, line: u8, s: int, x: int) -> bool {
    &&& spec_obj_visible(mem, line, s)
    &&& spec_obj_x(mem, s) <= x < spec_obj_x(mem, s) + 8
    &&& spec_obj_color(mem, line, s, x) != 0
}

/// One scanline row (160 shades) after sprite `s` painted its opaque
/// pixels over it.
pub open spec fn spec_apply_sprite(mem: Seq<u8>, line: u8, row: Seq<u8>, s: int) -> Seq<u8> {
    Seq::new(
        160,
        |x: int|
            if spec_obj_covers(mem, line, s, x) {
                palette_shade(spec_read(mem, 0xFF47), spec_obj_color(mem, line, s, x))
            } else {
                row[x]
            },
    )
}

/// One scanline row after the first `n` OAM entries painted it in order.
pub open spec fn spec_sprites(mem: Seq<u8>, line: u8, row: Seq<u8>, n: int) -> Seq<u8>
    decreases n,
{
    if n <= 0 {
        row
    } else {
        spec_apply_sprite(mem, line, spec_sprites(mem, line, row, n - 1), n - 1)
    }
}

/// The 160 shades of scanline `line` in a canvas.
pub open spec fn row_of(canvas: Seq<u8>, line: u8) -> Seq<u8> {
    canvas.subrange(line * 160, line * 160 + 160)
}

/// One rendered scanline: the background row where LCDC bit 0 enables it,
/// then all forty sprites over it where LCDC bit 1 enables them.
pub open spec fn spec_scanline_row(mem: Seq<u8>, line: u8, row: Seq<u8>) -> Seq<u8> {
    let lcdc = spec_read(mem, 0xFF40);
    let r1 = if lcdc & 1 != 0 {
        Seq::new(160, |x: int| spec_bg_pixel(mem, line, x))
    } else {
        row
    };
    if lcdc & 2 != 0 {
        spec_sprites(mem, line, r1, 40)
    } else {
        r1
    }
}

/// The dot counter, scanline and mode after one dot, given the mode
/// durations: 2 (OAM scan, 80) -> 3 (drawing, 172) -> 0 (HBlank, 204) ->
/// next line or 1 (VBlank, 456 per line through line 153).
pub open spec fn spec_dot(mode: u8, cc: u16, line: u8) -> (u16, u8, u8) {
    let c = cc + 1;
    if mode == 0 {
        if c == 204 {
            if line + 1 == 144 {
                (0u16, (line + 1) as u8, 1u8)
            } else {
                (0u16, (line + 1) as u8, 2u8)
            }
        } else {
            (c as u16, line, mode)
        }
    } else if mode == 1 {
        if c == 456 {
            if line + 1 > 153 {
                (0u16, 0u8, 2u8)
            } else {
                (0u16, (line + 1) as u8, 1u8)
            }
        } else {
            (c as u16, line, mode)
        }
    } else if mode == 2 {
        if c == 80 {
            (0u16, line, 3u8)
        } else {
            (c as u16, line, mode)
        }
    } else {
        if c == 172 {
            (0u16, line, 0u8)
        } else {
            (c as u16, line, mode)
        }
    }
}

/// Whether this dot enters VBlank: the finished canvas is handed over and
/// the VBlank interrupt requested.
pub open spec fn spec_presents(mode: u8, cc: u16, line: u8) -> bool {
    mode == 0 && cc + 1 == 204 && line + 1 == 144
}

/// Whether this dot finishes the drawing period and renders its scanline.
pub open spec fn spec_renders(mode: u8, cc: u16) -> bool {
    mode == 3 && cc + 1 == 172
}

/// The memory after the first `n` byte moves of an OAM DMA from `base`:
/// the moves happen in order, so a source inside OAM reads bytes already
/// moved.
pub open spec fn spec_dma_step(mem: Seq<u8>, base: u16, n: int) -> Seq<u8>
    decreases n,
{
    if n <= 0 {
        mem
    } else {
        let m = spec_dma_step(mem, base, n - 1);
        spec_write(m, (0xFE00 + n - 1) as u16, spec_read(m, (base + n - 1) as u16))
    }
}

/// The memory after the DMA check of one dot: when 0xFF46 holds a non-zero
/// page D, it is cleared and the 160 bytes at D*256.. move onto
/// 0xFE00..0xFEA0; otherwise nothing changes.
pub open spec fn spec_dma(mem: Seq<u8>) -> Seq<u8> {
    let d = spec_read(mem, 0xFF46);
    if d == 0 {
        mem
    } else {
        spec_dma_step(spec_write(mem, 0xFF46, 0), (d * 256) as u16, 160)
    }
}

/// Performs the OAM DMA transfer when 0xFF46 holds a non-zero page D:
/// clears 0xFF46, then copies the 160 bytes at D*256.. onto 0xFE00..0xFEA0.
/// The full result is `spec_dma`; for pages up to 0xFD (source below OAM)
/// the copy is also given directly over the old memory.
pub fn dma_transfer(bus: &mut Bus)
    requires
        old(bus).wf(),
    ensures
        final(bus).wf(),
        final(bus)@ == spec_dma(old(bus)@),
        spec_read(final(bus)@, 0xFF46) == 0,
        spec_read(old(bus)@, 0xFF46) == 0 ==> final(bus)@ == old(bus)@,
        forall|a: int|
            0 <= a < 0x10000 && !(0xFE00 <= a < 0xFEA0) && a != 0xFF46 ==> final(bus)@[a]
                == old(bus)@[a],
        ({
            let d = spec_read(old(bus)@, 0xFF46);
            d != 0 && d <= 0xFD ==> forall|i: int|
                0 <= i < 160 ==> #[trigger] final(bus)@[0xFE00 + i] == spec_read(
                    old(bus)@,
                    (d * 256 + i) as u16,
                )
        }),
{
    let d = bus.fetch_byte(0xFF46);
    if d == 0 {
        return;
    }
    bus.set_byte(0xFF46, 0);
    let base: u16 = (d as u16) * 256;
    let mut i: u16 = 0;
    while i < 160
        invariant
            bus.wf(),
            0 <= i <= 160,
            base == d * 256,
            d == spec_read(old(bus)@, 0xFF46),
            d != 0,
            bus@[0xFF46 as int] == 0,
            bus@ == spec_dma_step(spec_write(old(bus)@, 0xFF46, 0), base, i as int),
            forall|a: int|
                0 <= a < 0x10000 && !(0xFE00 <= a < 0xFEA0) && a != 0xFF46 ==> bus@[a] == old(
                    bus,
                )@[a],
            d <= 0xFD ==> forall|j: int|
                0 <= j < i ==> #[trigger] bus@[0xFE00 + j] == spec_read(
                    old(bus)@,
                    (d * 256 + j) as u16,
                ),
        decreases 160 - i,
    {
        let v = bus.fetch_byte(base + i);
        bus.set_byte(0xFE00 + i, v);
        i = i + 1;
    }
}

/// The scanline renderer.
pub struct GPU {
    pub clock_cycles: u16,
    pub current_line: u8,
    pub mode: u8,
    pub stopped: bool,
    /// The canvas being drawn, one palette shade per pixel, row-major.
    pub canvas: Vec<u8>,
    /// The last finished frame, handed over on entering VBlank.
    pub frame: Vec<u8>,
    /// True exactly after a dot that finished a frame (or cleared the
    /// display): `frame` then holds what should reach the screen.
    pub frame_ready: bool,
}

impl GPU {
    /// Both pixel buffers cover the screen; the mode is one of the four,
    /// the line in range (visible while not in VBlank), and the dot counter
    /// below its mode's period.
    pub open spec fn wf(&self) -> bool {
        &&& self.canvas@.len() == FRAME_PIXELS
        &&& self.frame@.len() == FRAME_PIXELS
        &&& self.mode <= 3
        &&& self.current_line <= 153
        &&& (self.mode != 1 ==> self.current_line <= 143)
        &&& (self.mode == 0 ==> self.clock_cycles < 204)
        &&& (self.mode == 1 ==> self.clock_cycles < 456)
        &&& (self.mode == 2 ==> self.clock_cycles < 80)
        &&& (self.mode == 3 ==> self.clock_cycles < 172)
        &&& (self.mode == 1 ==> self.current_line >= 144)
        &&& (self.stopped ==> self.mode == 0 && self.current_line == 0 && self.clock_cycles
            == 0)
    }

    /// A renderer at the top-left of the screen, in OAM scan, with both
    /// buffers white.
    pub fn new_gpu() -> (gpu: GPU)
        ensures
            gpu.wf(),
            gpu.clock_cycles == 0,
            gpu.current_line == 0,
            gpu.mode == 2,
            !gpu.stopped,
            !gpu.frame_ready,
            forall|i: int| 0 <= i < FRAME_PIXELS ==> gpu.canvas@[i] == 0,
            forall|i: int| 0 <= i < FRAME_PIXELS ==> gpu.frame@[i] == 0,
    {
        let canvas = white_buffer();
        let frame = white_buffer();
        GPU { clock_cycles: 0, current_line: 0, mode: 2, stopped: false, canvas, frame, frame_ready: false }
    }

    /// The gray level the BGP palette (0xFF47) assigns to a 2-bit color
    /// number.
    pub fn choose_color_from_palette(&self, bus: &Bus, color_nb: u8) -> (shade: u8)
        requires
            bus.wf(),
        ensures
            shade == palette_shade(spec_read(bus@, 0xFF47), color_nb),
    {
        let palette = bus.fetch_byte(0xFF47);
        if color_nb == 0 {
            palette & 3
        } else if color_nb == 1 {
            (palette >> 2) & 3
        } else if color_nb == 2 {
            (palette >> 4) & 3
        } else {
            (palette >> 6) & 3
        }
    }

    /// The background pixel of screen column `x` on scanline `line`.
    fn bg_pixel(&self, bus: &Bus, line: u8, x: u8) -> (px: u8)
        requires
            bus.wf(),
        ensures
            px == spec_bg_pixel(bus@, line, x as int),
    {
        let scx = bus.fetch_byte(0xFF43);
        let scy = bus.fetch_byte(0xFF42);
        let lcdc = bus.fetch_byte(0xFF40);
        let sx: u16 = ((x as u16) + (scx as u16)) % 256;
        let sy: u16 = ((line as u16) + (scy as u16)) % 256;
        let tix = bus.fetch_byte(0x9800 + (sy / 8) * 32 + sx / 8);
        let base: u16 = if lcdc & 0x10 != 0 {
            0x8000 + 16 * (tix as u16)
        } else if tix < 128 {
            0x9000 + 16 * (tix as u16)
        } else {
            0x9000 + 16 * (tix as u16) - 4096
        };
        let r0 = bus.fetch_byte(base + 2 * (sy % 8));
        let r1 = bus.fetch_byte(base + 2 * (sy % 8) + 1);
        let pos = (7 - (sx % 8)) as u8;
        let cn: u8 = (if r0 & bit_mask_x(pos) != 0 {
            1
        } else {
            0
        }) + (if r1 & bit_mask_x(pos) != 0 {
            2
        } else {
            0
        });
        self.choose_color_from_palette(bus, cn)
    }

    /// Fills scanline `current_line` of the canvas with the background.
    fn render_background_line(&mut self, bus: &Bus)
        requires
            old(self).wf(),
            bus.wf(),
            old(self).current_line <= 143,
        ensures
            final(self).wf(),
            *final(self) == (GPU { canvas: final(self).canvas, ..*old(self) }),
            final(self).canvas@.len() == FRAME_PIXELS,
            forall|i: int|
                0 <= i < FRAME_PIXELS && !(old(self).current_line * 160 <= i < old(
                    self,
                ).current_line * 160 + 160) ==> final(self).canvas@[i] == old(self).canvas@[i],
            forall|x: int|
                0 <= x < 160 ==> final(self).canvas@[old(self).current_line * 160 + x]
                    == spec_bg_pixel(bus@, old(self).current_line, x),
    {
        let line = self.current_line;
        let mut x: usize = 0;
        while x < 160
            invariant
                self.wf(),
                bus.wf(),
                *self == (GPU { canvas: self.canvas, ..*old(self) }),
                line == old(self).current_line,
                line <= 143,
                0 <= x <= 160,
                self.canvas@.len() == FRAME_PIXELS,
                forall|i: int|
                    0 <= i < FRAME_PIXELS && !(line * 160 <= i < line * 160 + 160) ==> self.canvas@[i]
                        == old(self).canvas@[i],
                forall|k: int|
                    0 <= k < x ==> #[trigger] self.canvas@[line * 160 + k] == spec_bg_pixel(
                        bus@,
                        line,
                        k,
                    ),
                forall|k: int|
                    x <= k < 160 ==> #[trigger] self.canvas@[line * 160 + k] == old(
                        self,
                    ).canvas@[line * 160 + k],
            decreases 160 - x,
        {
            let px = self.bg_pixel(bus, line, x as u8);
            let idx: usize = (line as usize) * 160 + x;
            self.canvas.set(idx, px);
            x = x + 1;
        }
    }

    /// Whether a sprite at screen position (`x`, `y`) shows on the current
    /// scanline: the line falls in its eight rows and `x` lies in (-8, 160).
    pub fn check_8x8_sprite_rendering(&self, x: i32, y: i32) -> (r: bool)
        ensures
            r == (y <= self.current_line && self.current_line <= y + 7 && -8 < x && x < 160),
    {
        let line = self.current_line as i32;
        y >= line - 7 && y <= line && x > -8 && x < 160
    }

    /// Paints the opaque pixels of all forty sprites over scanline
    /// `current_line`, in OAM order: later entries paint over earlier ones.
    fn render_sprite_line(&mut self, bus: &Bus)
        requires
            old(self).wf(),
            bus.wf(),
            old(self).current_line <= 143,
        ensures
            final(self).wf(),
            *final(self) == (GPU { canvas: final(self).canvas, ..*old(self) }),
            final(self).canvas@.len() == FRAME_PIXELS,
            forall|i: int|
                0 <= i < FRAME_PIXELS && !(old(self).current_line * 160 <= i < old(
                    self,
                ).current_line * 160 + 160) ==> final(self).canvas@[i] == old(self).canvas@[i],
            row_of(final(self).canvas@, old(self).current_line) == spec_sprites(
                bus@,
                old(self).current_line,
                row_of(old(self).canvas@, old(self).current_line),
                40,
            ),
    {
        let line = self.current_line;
        let mut s: usize = 0;
        while s < 40
            invariant
                self.wf(),
                bus.wf(),
                *self == (GPU { canvas: self.canvas, ..*old(self) }),
                line == old(self).current_line,
                line <= 143,
                0 <= s <= 40,
                self.canvas@.len() == FRAME_PIXELS,
                forall|i: int|
                    0 <= i < FRAME_PIXELS && !(line * 160 <= i < line * 160 + 160)
                        ==> self.canvas@[i] == old(self).canvas@[i],
                row_of(self.canvas@, line) == spec_sprites(
                    bus@,
                    line,
                    row_of(old(self).canvas@, line),
                    s as int,
                ),
            decreases 40 - s,
        {
            let ghost prev_row = row_of(self.canvas@, line);
            let base: u16 = 0xFE00 + 4 * (s as u16);
            let raw_y = bus.fetch_byte(base);
            let raw_x = bus.fetch_byte(base + 1);
            let tile = bus.fetch_byte(base + 2);
            let fl = bus.fetch_byte(base + 3);
            let y: i32 = (raw_y as i32) - 16;
            let x0: i32 = (raw_x as i32) - 8;
            proof {
                assert(y == spec_obj_y(bus@, s as int));
                assert(x0 == spec_obj_x(bus@, s as int));
                assert(tile == spec_obj_tile(bus@, s as int));
                assert(fl == spec_obj_flags(bus@, s as int));
            }
            if self.check_8x8_sprite_rendering(x0, y) {
                let r: u8 = ((self.current_line as i32) - y) as u8;
                let rr: u8 = if fl & 0x40 != 0 {
                    7 - r
                } else {
                    r
                };
                let a0: u16 = 0x8000 + 16 * (tile as u16) + 2 * (rr as u16);
                let r0 = bus.fetch_byte(a0);
                let r1 = bus.fetch_byte(a0 + 1);
                let mut cx: u8 = 0;
                while cx < 8
                    invariant
                        self.wf(),
                        bus.wf(),
                        *self == (GPU { canvas: self.canvas, ..*old(self) }),
                        line == old(self).current_line,
                        line <= 143,
                        0 <= s < 40,
                        0 <= cx <= 8,
                        self.canvas@.len() == FRAME_PIXELS,
                        spec_obj_visible(bus@, line, s as int),
                        y == spec_obj_y(bus@, s as int),
                        x0 == spec_obj_x(bus@, s as int),
                        r0 == spec_read(
                            bus@,
                            (0x8000 + 16 * spec_obj_tile(bus@, s as int) + 2 * (if spec_obj_flags(
                                bus@,
                                s as int,
                            ) & 0x40 != 0 {
                                7 - (line - spec_obj_y(bus@, s as int))
                            } else {
                                line - spec_obj_y(bus@, s as int)
                            })) as u16,
                        ),
                        r1 == spec_read(
                            bus@,
                            (0x8000 + 16 * spec_obj_tile(bus@, s as int) + 2 * (if spec_obj_flags(
                                bus@,
                                s as int,
                            ) & 0x40 != 0 {
                                7 - (line - spec_obj_y(bus@, s as int))
                            } else {
                                line - spec_obj_y(bus@, s as int)
                            }) + 1) as u16,
                        ),
                        fl == spec_obj_flags(bus@, s as int),
                        forall|i: int|
                            0 <= i < FRAME_PIXELS && !(line * 160 <= i < line * 160 + 160)
                                ==> self.canvas@[i] == old(self).canvas@[i],
                        prev_row.len() == 160,
                        forall|k: int|
                            0 <= k < 160 ==> #[trigger] self.canvas@[line * 160 + k] == (
                            if spec_obj_covers(bus@, line, s as int, k) && x0 <= k < x0 + cx {
                                palette_shade(
                                    spec_read(bus@, 0xFF47),
                                    spec_obj_color(bus@, line, s as int, k),
                                )
                            } else {
                                prev_row[k]
                            }),
                    decreases 8 - cx,
                {
                    let pos: u8 = if fl & 0x20 != 0 {
                        cx
                    } else {
                        7 - cx
                    };
                    let cn: u8 = (if r0 & bit_mask_x(pos) != 0 {
                        1
                    } else {
                        0
                    }) + (if r1 & bit_mask_x(pos) != 0 {
                        2
                    } else {
                        0
                    });
                    let sx: i32 = x0 + (cx as i32);
                    proof {
                        assert(cn == spec_obj_color(bus@, line, s as int, x0 + cx));
                    }
                    if cn != 0 && sx >= 0 && sx < 160 {
                        let shade = self.choose_color_from_palette(bus, cn);
                        let idx: usize = (line as usize) * 160 + (sx as usize);
                        self.canvas.set(idx, shade);
                    }
                    cx = cx + 1;
                }
                proof {
                    let srow = spec_apply_sprite(bus@, line, prev_row, s as int);
                    assert forall|k: int| 0 <= k < 160 implies row_of(self.canvas@, line)[k]
                        == srow[k] by {
                        assert(row_of(self.canvas@, line)[k] == self.canvas@[line * 160 + k]);
                    }
                    assert(row_of(self.canvas@, line) =~= srow);
                }
            } else {
                proof {
                    assert(!spec_obj_visible(bus@, line, s as int));
                    let srow = spec_apply_sprite(bus@, line, prev_row, s as int);
                    assert forall|k: int| 0 <= k < 160 implies row_of(self.canvas@, line)[k]
                        == srow[k] by {
                        assert(!spec_obj_covers(bus@, line, s as int, k));
                        assert(row_of(self.canvas@, line)[k] == self.canvas@[line * 160 + k]);
                        assert(prev_row[k] == self.canvas@[line * 160 + k]);
                    }
                    assert(row_of(self.canvas@, line) =~= srow);
                }
            }
            s = s + 1;
        }
    }

    /// Renders scanline `current_line` into the canvas: the background
    /// where LCDC bit 0 enables it, then sprites where bit 1 does.
    fn write_scanline(&mut self, bus: &Bus)
        requires
            old(self).wf(),
            bus.wf(),
            old(self).current_line <= 143,
        ensures
            final(self).wf(),
            *final(self) == (GPU { canvas: final(self).canvas, ..*old(self) }),
            final(self).canvas@.len() == FRAME_PIXELS,
            forall|i: int|
                0 <= i < FRAME_PIXELS && !(old(self).current_line * 160 <= i < old(
                    self,
                ).current_line * 160 + 160) ==> final(self).canvas@[i] == old(self).canvas@[i],
            row_of(final(self).canvas@, old(self).current_line) == spec_scanline_row(
                bus@,
                old(self).current_line,
                row_of(old(self).canvas@, old(self).current_line),
            ),
    {
        let ghost line = self.current_line;
        let control = bus.fetch_byte(0xFF40);
        if control & 1 != 0 {
            self.render_background_line(bus);
            proof {
                assert(row_of(self.canvas@, line) =~= Seq::new(
                    160,
                    |x: int| spec_bg_pixel(bus@, line, x),
                ));
            }
        }
        if control & 2 != 0 {
            self.render_sprite_line(bus);
        }
    }

    /// Advances the pixel unit one dot: checks the display switch, runs a
    /// pending OAM DMA, steps the mode machine (rendering a scanline when
    /// drawing ends, presenting the frame and requesting the VBlank
    /// interrupt when VBlank begins), and publishes LY and the STAT mode
    /// bits.
    pub fn tick(&mut self, bus: &mut Bus)
        requires
            old(self).wf(),
            old(bus).wf(),
        ensures
            final(self).wf(),
            final(bus).wf(),
            spec_read(final(bus)@, 0xFF44) == final(self).current_line,
            spec_read(final(bus)@, 0xFF41) == (spec_read(old(bus)@, 0xFF41) & 0xFC)
                | final(self).mode,
            spec_read(old(bus)@, 0xFF40) & 0x80 == 0 ==> {
                &&& final(self).mode == 0
                &&& final(self).current_line == 0
                &&& final(self).clock_cycles == 0
                &&& final(self).stopped
                &&& final(self).frame_ready == !old(self).stopped
                &&& (!old(self).stopped ==> forall|i: int|
                    0 <= i < FRAME_PIXELS ==> final(self).frame@[i] == 0
                        && final(self).canvas@[i] == 0)
                &&& (old(self).stopped ==> final(self).frame@ == old(self).frame@
                    && final(self).canvas@ == old(self).canvas@)
                &&& final(bus)@ == ({
                    let m3 = old(bus)@.update(0xFF44, final(self).current_line);
                    m3.update(0xFF41, (spec_read(m3, 0xFF41) & 0xFC) | final(self).mode)
                })
            },
            spec_read(old(bus)@, 0xFF40) & 0x80 != 0 ==> {
                let d = spec_dot(old(self).mode, old(self).clock_cycles, old(self).current_line);
                let presents = spec_presents(
                    old(self).mode,
                    old(self).clock_cycles,
                    old(self).current_line,
                );
                let renders = spec_renders(old(self).mode, old(self).clock_cycles);
                &&& final(self).clock_cycles == d.0
                &&& final(self).current_line == d.1
                &&& final(self).mode == d.2
                &&& !final(self).stopped
                &&& final(self).frame_ready == presents
                &&& spec_read(final(bus)@, 0xFF46) == 0
                &&& (presents ==> spec_read(final(bus)@, 0xFF0F) & 1 != 0)
                &&& (presents ==> final(self).frame@ == old(self).canvas@ && forall|i: int|
                    0 <= i < FRAME_PIXELS ==> final(self).canvas@[i] == 0)
                &&& (!presents ==> final(self).frame@ == old(self).frame@)
                &&& (!presents && !renders ==> final(self).canvas@ == old(self).canvas@)
                &&& (renders ==> forall|i: int|
                    0 <= i < FRAME_PIXELS && !(old(self).current_line * 160 <= i < old(
                        self,
                    ).current_line * 160 + 160) ==> final(self).canvas@[i] == old(
                        self,
                    ).canvas@[i])
                &&& (renders ==> row_of(final(self).canvas@, old(self).current_line)
                    == spec_scanline_row(
                    spec_dma(old(bus)@),
                    old(self).current_line,
                    row_of(old(self).canvas@, old(self).current_line),
                ))
                &&& final(bus)@ == ({
                    let m1 = spec_dma(old(bus)@);
                    let m2 = if presents {
                        spec_write(m1, 0xFF0F, spec_read(m1, 0xFF0F) | 1)
                    } else {
                        m1
                    };
                    let m3 = m2.update(0xFF44, d.1);
                    m3.update(0xFF41, (spec_read(m3, 0xFF41) & 0xFC) | d.2)
                })
                &&& ({
                    let dpage = spec_read(old(bus)@, 0xFF46);
                    dpage != 0 && dpage <= 0xFD ==> forall|i: int|
                        0 <= i < 160 ==> #[trigger] final(bus)@[0xFE00 + i] == spec_read(
                            old(bus)@,
                            (dpage * 256 + i) as u16,
                        )
                })
            },
    {
        let control = bus.fetch_byte(0xFF40);
        if control & 0x80 == 0 {
            if !self.stopped {
                self.frame = white_buffer();
                self.canvas = white_buffer();
                self.frame_ready = true;
                self.current_line = 0;
                self.clock_cycles = 0;
                self.mode = 0;
                self.stopped = true;
            } else {
                self.frame_ready = false;
            }
            bus.poke(0xFF44, self.current_line);
            let stat = bus.fetch_byte(0xFF41);
            bus.poke(0xFF41, (stat & 0xFC) | self.mode);
            return;
        }
        self.stopped = false;
        self.frame_ready = false;
        dma_transfer(bus);
        self.clock_cycles = self.clock_cycles + 1;
        if self.mode == 0 {
            if self.clock_cycles == HORIZONTAL_BLANK_CLOCKS {
                self.clock_cycles = 0;
                self.current_line = self.current_line + 1;
                if self.current_line == 144 {
                    self.mode = 1;
                    let requested = bus.fetch_byte(0xFF0F);
                    bus.set_byte(0xFF0F, requested | 1);
                    proof {
                        assert((requested | 1) & 1 != 0) by (bit_vector);
                    }
                    self.present_frame();
                } else {
                    self.mode = 2;
                }
            }
        } else if self.mode == 1 {
            if self.clock_cycles == VERTICAL_BLANK_LINE_CLOCKS {
                self.clock_cycles = 0;
                self.current_line = self.current_line + 1;
                if self.current_line > 153 {
                    self.mode = 2;
                    self.current_line = 0;
                }
            }
        } else if self.mode == 2 {
            if self.clock_cycles == OAM_ACCESS_SCANLINE_CLOCKS {
                self.clock_cycles = 0;
                self.mode = 3;
            }
        } else {
            if self.clock_cycles == VRAM_ACCESS_SCANLINE_CLOCKS {
                self.clock_cycles = 0;
                self.mode = 0;
                self.write_scanline(bus);
            }
        }
        bus.poke(0xFF44, self.current_line);
        let stat = bus.fetch_byte(0xFF41);
        bus.poke(0xFF41, (stat & 0xFC) | self.mode);
    }

    /// Hands the finished canvas over as `frame` and clears the canvas to
    /// white.
    fn present_frame(&mut self)
        requires
            old(self).wf(),
        ensures
            final(self).wf(),
            *final(self) == (GPU {
                canvas: final(self).canvas,
                frame: final(self).frame,
                frame_ready: true,
                ..*old(self)
            }),
            final(self).frame@ == old(self).canvas@,
            final(self).canvas@.len() == FRAME_PIXELS,
            forall|i: int| 0 <= i < FRAME_PIXELS ==> final(self).canvas@[i] == 0,
    {
        let mut fresh = white_buffer();
        core::mem::swap(&mut self.canvas, &mut fresh);
        self.frame = fresh;
        self.frame_ready = true;
    }
}

/// A screen-sized buffer of white pixels.
fn white_buffer() -> (v: Vec<u8>)
    ensures
        v@.len() == FRAME_PIXELS,
        forall|i: int| 0 <= i < FRAME_PIXELS ==> v@[i] == 0,
{
    let mut v: Vec<u8> = Vec::new();
    let mut i: usize = 0;
    while i < FRAME_PIXELS
        invariant
            i == v@.len(),
            i <= FRAME_PIXELS,
            forall|j: int| 0 <= j < i ==> v@[j] == 0,
        decreases FRAME_PIXELS - i,
    {
        v.push(0);
        i = i + 1;
    }
    v
}

} // verus!
