//! Rendering of the regular (text) tiled backgrounds.

use crate::emulator::ppu::palette::{bg_to_absolute_spec, convert_bg_to_absolute_palette};
use crate::emulator::ppu::{PpuView, PPU, VRAM_SIZE, DISPLAY_WIDTH, io_u16, ppu_view_wf, vcount_of};
use vstd::prelude::*;

verus! {

/// 32x32 entries for 256x256 pixels, multiple of these blocks can be strung together.
pub const BG_MAP_TEXT_SIZE: usize = 0x800;

pub const CHAR_BLOCK_SIZE: usize = 1024 * 16;

/// Background control register of background `bg`.
pub open spec fn bg_control_of(io: Seq<u8>, bg: int) -> u16 {
    io_u16(io, 8 + 2 * bg)
}

/// Horizontal scroll offset of background `bg` (nine bits).
pub open spec fn scroll_x_of(io: Seq<u8>, bg: int) -> u16 {
    io_u16(io, 0x10 + 2 * bg) & 0x1FF
}

/// Vertical scroll offset of background `bg` (nine bits).
pub open spec fn scroll_y_of(io: Seq<u8>, bg: int) -> u16 {
    io_u16(io, 0x18 + 2 * bg) & 0x1FF
}

/// Width of a text background in tiles, from the screen size field of its control register.
pub open spec fn tiles_wide(cnt: u16) -> u16 {
    let size = cnt >> 14u16;
    if size == 1 || size == 3 {
        64
    } else {
        32
    }
}

/// Height of a text background in tiles.
pub open spec fn tiles_high(cnt: u16) -> u16 {
    let size = cnt >> 14u16;
    if size >= 2 {
        64
    } else {
        32
    }
}

/// The line of background `bg` that the current scanline shows, after vertical scrolling.
pub open spec fn bg_line_spec(io: Seq<u8>, bg: int) -> int {
    let cnt = bg_control_of(io, bg);
    ((vcount_of(io) as u16).wrapping_add(scroll_y_of(io, bg)) % ((tiles_high(cnt) * 8) as u16)) as int
}

/// The palette index (0 for transparent) of pixel `i` of the current scanline of the
/// regular background `bg`, as read from the tile map and the tile data in VRAM.
pub open spec fn bg_pixel_spec(p: PpuView, bg: int, i: int) -> u8 {
    let cnt = bg_control_of(p.io, bg);
    let x_scroll = scroll_x_of(p.io, bg) as int;
    let x_max = tiles_wide(cnt) as int * 8;
    let tile_base = ((cnt >> 2u16) & 3) as int * CHAR_BLOCK_SIZE;
    let map_base = ((cnt >> 8u16) & 0x1F) as int * BG_MAP_TEXT_SIZE;
    let is_8bpp = cnt & 0x80 != 0;
    let scanline_to_draw = bg_line_spec(p.io, bg);
    let tile_line_y = scanline_to_draw % 8;
    let map_line = map_base + (scanline_to_draw / 8) * 64;
    let abs_x = (i + x_scroll) % x_max;
    let map_coord = map_line + (abs_x / 8) * 2 + (if tiles_wide(cnt) == 64 && abs_x > 255 {
        BG_MAP_TEXT_SIZE - 64
    } else {
        0
    });
    let item = io_u16(p.vram, map_coord);
    let tile_num = (item & 0x3FF) as int;
    let tile_y = if item & 0x800 != 0 {
        7 - tile_line_y
    } else {
        tile_line_y
    };
    let tile_x = if item & 0x400 != 0 {
        7 - abs_x % 8
    } else {
        abs_x % 8
    };
    if is_8bpp {
        let addr = tile_base + tile_num * 64 + tile_y * 8 + tile_x;
        if addr < VRAM_SIZE {
            p.vram[addr]
        } else {
            0
        }
    } else {
        let addr = tile_base + tile_num * 32 + tile_y * 4 + tile_x / 2;
        let two = p.vram[addr];
        let idx = if tile_x % 2 == 0 {
            two & 0xF
        } else {
            two >> 4u8
        };
        if idx != 0 {
            (idx + (item >> 12u16) as u8 * 16) as u8
        } else {
            0
        }
    }
}

/// The scanline after rendering background `bg` over it: pixels that an earlier layer
/// already set are kept, the others take the background's pixel.
pub open spec fn scanline_with_bg(p: PpuView, bg: int) -> Seq<u16> {
    Seq::new(
        p.scanline.len(),
        |i: int|
            if p.scanline[i] != 0 {
                p.scanline[i]
            } else {
                bg_pixel_spec(p, bg, i) as u16
            },
    )
}

proof fn lemma_nibbles(two: u8, shift: u8)
    ensures
        shift == 0 ==> (two >> shift) & 0xF == two & 0xF,
        shift == 4 ==> (two >> shift) & 0xF == two >> 4u8,
        (two & 0xF) <= 15,
        (two >> 4u8) <= 15,
{
    assert((shift == 0 ==> (two >> shift) & 0xF == two & 0xF) && (shift == 4 ==> (two >> shift) & 0xF == two
        >> 4u8) && (two & 0xF) <= 15 && (two >> 4u8) <= 15) by (bit_vector);
}

proof fn lemma_u16_masks(cnt: u16)
    ensures
        (cnt >> 14u16) <= 3,
        ((cnt >> 2u16) & 3) <= 3,
        ((cnt >> 8u16) & 0x1F) <= 31,
        cnt & 0x3FF <= 0x3FF,
        cnt & 0x1FF <= 0x1FF,
        (cnt >> 12u16) <= 15,
        cnt & 3 <= 3,
{
    assert((cnt >> 14u16) <= 3 && ((cnt >> 2u16) & 3) <= 3 && ((cnt >> 8u16) & 0x1F) <= 31 && cnt
        & 0x3FF <= 0x3FF && cnt & 0x1FF <= 0x1FF && (cnt >> 12u16) <= 15 && cnt & 3 <= 3) by (bit_vector);
}

/// Render one regular background into the current scanline, skipping pixels that a
/// higher priority layer already set.
pub fn render_scanline_regular_bg_pixel(ppu: &mut PPU, bg: usize)
    requires
        ppu_view_wf(old(ppu)@),
        bg < 4,
    ensures
        ppu_view_wf(final(ppu)@),
        final(ppu)@ == (PpuView { scanline: scanline_with_bg(old(ppu)@, bg as int), ..old(ppu)@ }),
{
    let ghost p = ppu@;
    let cnt = ppu.read_io_u16(8 + 2 * bg);
    let x_scroll = ppu.read_io_u16(0x10 + 2 * bg) & 0x1FF;
    let y_scroll = ppu.read_io_u16(0x18 + 2 * bg) & 0x1FF;
    proof {
        lemma_u16_masks(cnt);
        lemma_u16_masks(ppu.io@[0x10 + 2 * bg] as u16 | ((ppu.io@[0x11 + 2 * bg] as u16) << 8u16));
    }
    let size = cnt >> 14u16;
    let wide: u16 = if size == 1 || size == 3 {
        64
    } else {
        32
    };
    let high: u16 = if size >= 2 {
        64
    } else {
        32
    };
    let x_max: usize = wide as usize * 8;
    let y_max: u16 = high * 8;
    let tile_base: usize = ((cnt >> 2u16) & 3) as usize * CHAR_BLOCK_SIZE;
    let map_base: usize = ((cnt >> 8u16) & 0x1F) as usize * BG_MAP_TEXT_SIZE;
    let is_8bpp = cnt & 0x80 != 0;
    let vcount = ppu.vertical_counter() as u16;
    let scanline_to_draw = vcount.wrapping_add(y_scroll) % y_max;
    let tile_line_y = scanline_to_draw % 8;
    let map_line = map_base + (scanline_to_draw / 8) as usize * 64;
    let mut i: usize = 0;
    assert(ppu@.scanline =~= Seq::new(
        240,
        |j: int|
            if j < 0 {
                scanline_with_bg(p, bg as int)[j]
            } else {
                p.scanline[j]
            },
    ));
    while i < DISPLAY_WIDTH as usize
        invariant
            i <= DISPLAY_WIDTH,
            ppu_view_wf(old(ppu)@),
            ppu_view_wf(ppu@),
            p == old(ppu)@,
            bg < 4,
            ppu@ == (PpuView {
                scanline: Seq::new(
                    240,
                    |j: int|
                        if j < i {
                            scanline_with_bg(p, bg as int)[j]
                        } else {
                            p.scanline[j]
                        },
                ),
                ..p
            }),
            cnt == bg_control_of(p.io, bg as int),
            x_scroll == scroll_x_of(p.io, bg as int),
            y_scroll == scroll_y_of(p.io, bg as int),
            x_max == tiles_wide(cnt) * 8,
            x_max == 256 || x_max == 512,
            wide == tiles_wide(cnt),
            tile_base == ((cnt >> 2u16) & 3) as int * CHAR_BLOCK_SIZE,
            tile_base <= 3 * CHAR_BLOCK_SIZE,
            map_line == ((cnt >> 8u16) & 0x1F) as int * BG_MAP_TEXT_SIZE + (bg_line_spec(p.io, bg as int) / 8) * 64,
            map_line <= 31 * BG_MAP_TEXT_SIZE + 63 * 64,
            tile_line_y as int == bg_line_spec(p.io, bg as int) % 8,
            is_8bpp == (cnt & 0x80 != 0),
        decreases DISPLAY_WIDTH - i,
    {
        if ppu.current_scanline[i] == 0 {
            let abs_x: usize = (i + x_scroll as usize) % x_max;
            let extra: usize = if wide == 64 && abs_x > 255 {
                BG_MAP_TEXT_SIZE - 64
            } else {
                0
            };
            let map_coord = map_line + (abs_x / 8) * 2 + extra;
            let item = ppu.read_vram_u16(map_coord);
            proof {
                lemma_u16_masks(item);
            }
            let tile_num = (item & 0x3FF) as usize;
            let tile_y: usize = if item & 0x800 != 0 {
                7 - tile_line_y as usize
            } else {
                tile_line_y as usize
            };
            let tile_x: usize = if item & 0x400 != 0 {
                7 - abs_x % 8
            } else {
                abs_x % 8
            };
            let palette_index: u8 = if is_8bpp {
                let addr = tile_base + tile_num * 64 + tile_y * 8 + tile_x;
                if addr < VRAM_SIZE {
                    ppu.vram[addr]
                } else {
                    0
                }
            } else {
                let addr = tile_base + tile_num * 32 + tile_y * 4 + tile_x / 2;
                let two = ppu.vram[addr];
                proof {
                    lemma_nibbles(two, 0);
                }
                let idx: u8 = if tile_x % 2 == 0 {
                    two & 0xF
                } else {
                    two >> 4u8
                };
                if idx != 0 {
                    idx + ((item >> 12u16) as u8) * 16
                } else {
                    0
                }
            };
            ppu.set_scanline_pixel(i, convert_bg_to_absolute_palette(palette_index));
        }
        proof {
            assert(ppu@.scanline =~= Seq::new(
                240,
                |j: int|
                    if j < i + 1 {
                        scanline_with_bg(p, bg as int)[j]
                    } else {
                        p.scanline[j]
                    },
            ));
        }
        i = i + 1;
    }
    assert(ppu@.scanline =~= scanline_with_bg(p, bg as int));
}

/// A tile map entry of a text background.
#[derive(Debug, Copy, Clone)]
pub struct BgMapTextData {
    pub bits: u16,
}

impl BgMapTextData {
    /// The tile index to use for the current entry.
    pub fn tile_number(&self) -> (r: u16)
        ensures
            r == self.bits & 0x3FF,
    {
        self.bits & 0x3FF
    }

    /// Whether the tile is mirrored horizontally.
    pub fn horizontal_flip(&self) -> (r: bool)
        ensures
            r == (self.bits & 0x400 != 0),
    {
        self.bits & 0x400 != 0
    }

    /// Whether the tile is mirrored vertically.
    pub fn vertical_flip(&self) -> (r: bool)
        ensures
            r == (self.bits & 0x800 != 0),
    {
        self.bits & 0x800 != 0
    }

    /// The high nibble for palette indexing in `16/16` mode.
    pub fn palette_number(&self) -> (r: u8)
        ensures
            r == (self.bits >> 12u16) as u8,
            r <= 15,
    {
        let bits = self.bits;
        proof {
            crate::utils::lemma_bit_facts();
        }
        (bits >> 12u16) as u8
    }
}

/// The state of drawing a line of tiles: the scanline, how many pixels are drawn, how many
/// are still to be skipped for the horizontal scroll, and whether the tile stopped early.
pub struct LineDraw {
    pub scanline: Seq<u16>,
    pub drawn: int,
    pub skip: int,
    pub stopped: bool,
}

/// The byte of VRAM at `addr`; reads past the end give 0.
pub open spec fn vram_byte(vram: Seq<u8>, addr: int) -> u8 {
    if 0 <= addr < VRAM_SIZE {
        vram[addr]
    } else {
        0
    }
}

/// One byte (pixel) of an 8 bits per pixel tile line.
pub open spec fn step_8bpp(st: LineDraw, byte: u8) -> LineDraw {
    if st.skip > 0 {
        LineDraw { skip: st.skip - 1, ..st }
    } else if st.drawn >= DISPLAY_WIDTH {
        LineDraw { stopped: true, ..st }
    } else {
        LineDraw {
            scanline: st.scanline.update(st.drawn, bg_to_absolute_spec(byte)),
            drawn: st.drawn + 1,
            ..st
        }
    }
}

/// One byte (two pixels) of a 4 bits per pixel tile line with palette base `base`. A single
/// skipped pixel draws the high nibble (transparent as 0 when the tile is flipped); two
/// pixels draw the low then the high nibble; at the last pixel only the low nibble is drawn.
pub open spec fn step_4bpp(st: LineDraw, byte: u8, base: u8, flipped: bool) -> LineDraw {
    let lo = (base + (byte & 0xF)) as u8;
    let hi = (base + (byte >> 4u8)) as u8;
    if st.skip > 0 {
        if st.skip == 1 {
            let idx = if flipped && byte >> 4u8 == 0 {
                0u8
            } else {
                hi
            };
            LineDraw {
                scanline: st.scanline.update(st.drawn, bg_to_absolute_spec(idx)),
                drawn: st.drawn + 1,
                skip: 0,
                ..st
            }
        } else {
            LineDraw { skip: st.skip - 2, ..st }
        }
    } else if st.drawn >= DISPLAY_WIDTH - 1 {
        if st.drawn == DISPLAY_WIDTH {
            LineDraw { stopped: true, ..st }
        } else {
            LineDraw {
                scanline: st.scanline.update(st.drawn, bg_to_absolute_spec(lo)),
                drawn: st.drawn + 1,
                stopped: true,
                ..st
            }
        }
    } else {
        LineDraw {
            scanline: st.scanline.update(st.drawn, bg_to_absolute_spec(lo)).update(st.drawn + 1, bg_to_absolute_spec(hi)),
            drawn: st.drawn + 2,
            ..st
        }
    }
}

/// The bytes of one line of a tile, in drawing order (reversed when flipped horizontally).
pub open spec fn tile_line_byte(vram: Seq<u8>, addr: int, width: int, flipped: bool, k: int) -> u8 {
    vram_byte(vram, addr + if flipped {
        width - 1 - k
    } else {
        k
    })
}

/// Drawing the bytes `k..width` of a tile line, until the tile stops.
pub open spec fn draw_bytes(
    st: LineDraw,
    vram: Seq<u8>,
    addr: int,
    width: int,
    is_8bpp: bool,
    base: u8,
    flipped: bool,
    k: int,
) -> LineDraw
    decreases width - k,
{
    if k >= width || st.stopped {
        st
    } else {
        let byte = tile_line_byte(vram, addr, width, flipped, k);
        let st1 = if is_8bpp {
            step_8bpp(st, byte)
        } else {
            step_4bpp(st, byte, base, flipped)
        };
        draw_bytes(st1, vram, addr, width, is_8bpp, base, flipped, k + 1)
    }
}

/// The address of the tile line that a map entry selects.
pub open spec fn tile_line_addr(tile_base: int, item: u16, tile_line_y: u16, is_8bpp: bool) -> int {
    let y = if item & 0x800 != 0 {
        7 - tile_line_y
    } else {
        tile_line_y as int
    };
    if is_8bpp {
        tile_base + (item & 0x3FF) * 64 + y * 8
    } else {
        tile_base + (item & 0x3FF) * 32 + y * 4
    }
}

/// Drawing one tile line of a map entry into the scanline.
pub open spec fn draw_tile_spec(
    st: LineDraw,
    vram: Seq<u8>,
    tile_base: int,
    tile_line_y: u16,
    item: u16,
    is_8bpp: bool,
) -> LineDraw {
    draw_bytes(
        LineDraw { stopped: false, ..st },
        vram,
        tile_line_addr(tile_base, item, tile_line_y, is_8bpp),
        if is_8bpp {
            8
        } else {
            4
        },
        is_8bpp,
        ((item >> 12u16) as u8 * 16) as u8,
        item & 0x400 != 0,
        0,
    )
}

/// The invariant of drawing a line: the scanline has the display's width and holds palette
/// indexes, the pixel count is within the line, and pixels are only skipped before any is drawn.
pub open spec fn line_draw_wf(st: LineDraw) -> bool {
    &&& st.scanline.len() == DISPLAY_WIDTH
    &&& forall|i: int| 0 <= i < DISPLAY_WIDTH ==> #[trigger] st.scanline[i] < 256
    &&& 0 <= st.drawn <= DISPLAY_WIDTH
    &&& 0 <= st.skip < 8
    &&& st.skip > 0 ==> st.drawn == 0
}

/// One byte of a tile line drawn into the scanline.
fn draw_byte(ppu: &mut PPU, pixels_drawn: &mut i16, pixels_to_skip: &mut u16, byte: u8, is_8bpp: bool, base: u8, flipped: bool) -> (stop: bool)
    requires
        ppu_view_wf(old(ppu)@),
        line_draw_wf(LineDraw { scanline: old(ppu)@.scanline, drawn: *old(pixels_drawn) as int, skip: *old(pixels_to_skip) as int, stopped: false }),
        base <= 240,
    ensures
        ({
            let st = LineDraw { scanline: old(ppu)@.scanline, drawn: *old(pixels_drawn) as int, skip: *old(pixels_to_skip) as int, stopped: false };
            let st1 = if is_8bpp {
                step_8bpp(st, byte)
            } else {
                step_4bpp(st, byte, base, flipped)
            };
            &&& final(ppu)@ == (PpuView { scanline: st1.scanline, ..old(ppu)@ })
            &&& *final(pixels_drawn) as int == st1.drawn
            &&& *final(pixels_to_skip) as int == st1.skip
            &&& stop == st1.stopped
            &&& line_draw_wf(LineDraw { stopped: false, ..st1 })
        }),
        ppu_view_wf(final(ppu)@),
{
    proof {
        crate::utils::lemma_bit_facts();
    }
    if is_8bpp {
        if *pixels_to_skip > 0 {
            *pixels_to_skip = *pixels_to_skip - 1;
            false
        } else if *pixels_drawn >= DISPLAY_WIDTH as i16 {
            true
        } else {
            ppu.set_scanline_pixel(*pixels_drawn as usize, convert_bg_to_absolute_palette(byte));
            *pixels_drawn = *pixels_drawn + 1;
            false
        }
    } else {
        let lo = base + (byte & 0xF);
        let hi = base + (byte >> 4u8);
        if *pixels_to_skip > 0 {
            if *pixels_to_skip == 1 {
                // The first pixel of the pair is skipped.
                *pixels_to_skip = 0;
                let idx = if flipped && byte >> 4u8 == 0 {
                    0
                } else {
                    hi
                };
                ppu.set_scanline_pixel(*pixels_drawn as usize, convert_bg_to_absolute_palette(idx));
                *pixels_drawn = *pixels_drawn + 1;
            } else {
                *pixels_to_skip = *pixels_to_skip - 2;
            }
            false
        } else if *pixels_drawn >= (DISPLAY_WIDTH - 1) as i16 {
            // Two pixels at a time: near the end of the line only one is left.
            if *pixels_drawn == DISPLAY_WIDTH as i16 {
                true
            } else {
                ppu.set_scanline_pixel(*pixels_drawn as usize, convert_bg_to_absolute_palette(lo));
                *pixels_drawn = *pixels_drawn + 1;
                true
            }
        } else {
            ppu.set_scanline_pixel(*pixels_drawn as usize, convert_bg_to_absolute_palette(lo));
            ppu.set_scanline_pixel((*pixels_drawn + 1) as usize, convert_bg_to_absolute_palette(hi));
            *pixels_drawn = *pixels_drawn + 2;
            false
        }
    }
}

/// The pixels a drawing step may touch: the count only grows, by at most two pixels per
/// byte (one in 8 bits per pixel mode), the pixels to skip only shrink, and only the pixels
/// between the old and the new count change.
pub open spec fn draw_bounded(st: LineDraw, r: LineDraw, per_byte: int, bytes: int) -> bool {
    &&& r.scanline.len() == st.scanline.len()
    &&& st.drawn <= r.drawn <= st.drawn + per_byte * bytes
    &&& 0 <= r.skip <= st.skip
    &&& forall|i: int|
        0 <= i < r.scanline.len() && (i < st.drawn || r.drawn <= i) ==> #[trigger] r.scanline[i] == st.scanline[i]
}

/// The shape of a drawing state that each step keeps.
pub open spec fn draw_shape(st: LineDraw) -> bool {
    &&& st.scanline.len() == DISPLAY_WIDTH
    &&& 0 <= st.drawn <= DISPLAY_WIDTH
    &&& 0 <= st.skip
    &&& st.skip > 0 ==> st.drawn == 0
}

/// Drawing the bytes `k..width` of a tile line stays within its bounds.
proof fn lemma_draw_bytes_bounded(
    st: LineDraw,
    vram: Seq<u8>,
    addr: int,
    width: int,
    is_8bpp: bool,
    base: u8,
    flipped: bool,
    k: int,
)
    requires
        draw_shape(st),
        0 <= k <= width,
    ensures
        draw_bounded(
            st,
            draw_bytes(st, vram, addr, width, is_8bpp, base, flipped, k),
            if is_8bpp { 1 } else { 2 },
            width - k,
        ),
        draw_shape(draw_bytes(st, vram, addr, width, is_8bpp, base, flipped, k)),
    decreases width - k,
{
    if k >= width || st.stopped {
    } else {
        let byte = tile_line_byte(vram, addr, width, flipped, k);
        let st1 = if is_8bpp {
            step_8bpp(st, byte)
        } else {
            step_4bpp(st, byte, base, flipped)
        };
        let per: int = if is_8bpp { 1 } else { 2 };
        assert(draw_bounded(st, st1, per, 1));
        lemma_draw_bytes_bounded(st1, vram, addr, width, is_8bpp, base, flipped, k + 1);
        let r = draw_bytes(st1, vram, addr, width, is_8bpp, base, flipped, k + 1);
        assert(r.drawn <= st1.drawn + per * (width - k - 1));
        assert(per * (width - k - 1) + per == per * (width - k)) by (nonlinear_arith);
    }
}

/// Draw one tile line of a map entry into the current scanline, continuing after the
/// pixels already drawn and skipping what the horizontal scroll leaves out.
pub fn draw_bg_line(
    ppu: &mut PPU,
    pixels_drawn: &mut i16,
    pixels_to_skip: &mut u16,
    tile_base_addr: usize,
    tile_line_y: u16,
    item: BgMapTextData,
    is_8bpp: bool,
)
    requires
        ppu_view_wf(old(ppu)@),
        line_draw_wf(LineDraw { scanline: old(ppu)@.scanline, drawn: *old(pixels_drawn) as int, skip: *old(pixels_to_skip) as int, stopped: false }),
        tile_line_y < 8,
        tile_base_addr <= 3 * CHAR_BLOCK_SIZE,
    ensures
        ppu_view_wf(final(ppu)@),
        ({
            let r = draw_tile_spec(
                LineDraw { scanline: old(ppu)@.scanline, drawn: *old(pixels_drawn) as int, skip: *old(pixels_to_skip) as int, stopped: false },
                old(ppu)@.vram,
                tile_base_addr as int,
                tile_line_y,
                item.bits,
                is_8bpp,
            );
            &&& final(ppu)@ == (PpuView { scanline: r.scanline, ..old(ppu)@ })
            &&& *final(pixels_drawn) as int == r.drawn
            &&& *final(pixels_to_skip) as int == r.skip
        }),
        line_draw_wf(LineDraw { scanline: final(ppu)@.scanline, drawn: *final(pixels_drawn) as int, skip: *final(pixels_to_skip) as int, stopped: false }),
        *old(pixels_drawn) <= *final(pixels_drawn) <= *old(pixels_drawn) + 8,
        *final(pixels_to_skip) <= *old(pixels_to_skip),
        forall|i: int|
            0 <= i < DISPLAY_WIDTH && (i < *old(pixels_drawn) || *final(pixels_drawn) <= i)
                ==> #[trigger] final(ppu)@.scanline[i] == old(ppu)@.scanline[i],
{
    let ghost p = ppu@;
    let ghost st0 = LineDraw { scanline: p.scanline, drawn: *pixels_drawn as int, skip: *pixels_to_skip as int, stopped: false };
    let tile_num = item.tile_number() as usize;
    proof {
        lemma_u16_masks(item.bits);
    }
    // Vertical flipping of the tile
    let y: usize = if item.vertical_flip() {
        (7 - tile_line_y) as usize
    } else {
        tile_line_y as usize
    };
    let width: usize = if is_8bpp {
        8
    } else {
        4
    };
    let addr: usize = if is_8bpp {
        tile_base_addr + tile_num * 64 + y * 8
    } else {
        tile_base_addr + tile_num * 32 + y * 4
    };
    // In 4 bits per pixel mode the 16 palettes of 16 colours are selected by the entry.
    let base = item.palette_number() * 16;
    let flipped = item.horizontal_flip();
    let ghost base_spec = ((item.bits >> 12u16) as u8 * 16) as u8;
    assert(addr as int == tile_line_addr(tile_base_addr as int, item.bits, tile_line_y, is_8bpp));
    let mut k: usize = 0;
    let mut stopped = false;
    while k < width && !stopped
        invariant
            k <= width,
            width == 8 || width == 4,
            is_8bpp == (width == 8),
            addr <= 120000,
            base <= 240,
            base == base_spec,
            flipped == (item.bits & 0x400 != 0),
            ppu_view_wf(ppu@),
            ppu@ == (PpuView { scanline: ppu@.scanline, ..p }),
            line_draw_wf(LineDraw { scanline: ppu@.scanline, drawn: *pixels_drawn as int, skip: *pixels_to_skip as int, stopped: false }),
            draw_bytes(
                LineDraw { scanline: ppu@.scanline, drawn: *pixels_drawn as int, skip: *pixels_to_skip as int, stopped },
                p.vram,
                addr as int,
                width as int,
                is_8bpp,
                base,
                flipped,
                k as int,
            ) == draw_bytes(LineDraw { stopped: false, ..st0 }, p.vram, addr as int, width as int, is_8bpp, base, flipped, 0),
        decreases width - k,
    {
        let a = addr + if flipped {
            width - 1 - k
        } else {
            k
        };
        let byte = if a < VRAM_SIZE {
            ppu.vram[a]
        } else {
            0
        };
        assert(byte == tile_line_byte(p.vram, addr as int, width as int, flipped, k as int));
        stopped = draw_byte(ppu, pixels_drawn, pixels_to_skip, byte, is_8bpp, base, flipped);
        k = k + 1;
    }
    proof {
        lemma_draw_bytes_bounded(LineDraw { stopped: false, ..st0 }, p.vram, addr as int, width as int, is_8bpp, base, flipped, 0);
    }
}

/// The tile map entries `i, i + 2, ..` up to `higher` drawn one after the other.
pub open spec fn render_tiles(
    st: LineDraw,
    vram: Seq<u8>,
    map_base: int,
    total: int,
    i: int,
    higher: int,
    tile_base: int,
    tile_line_y: u16,
    is_8bpp: bool,
) -> LineDraw
    decreases higher - i + 2,
{
    if i > higher {
        st
    } else {
        let item = io_u16(vram, map_base + i % total);
        render_tiles(
            LineDraw { stopped: false, ..draw_tile_spec(st, vram, tile_base, tile_line_y, item, is_8bpp) },
            vram,
            map_base,
            total,
            i + 2,
            higher,
            tile_base,
            tile_line_y,
            is_8bpp,
        )
    }
}

/// The scanline after drawing the regular background `bg` a tile line at a time: the map
/// entries of the line from the one at the horizontal scroll on (one more when the scroll is
/// not tile aligned), wrapping around the whole map.
pub open spec fn regular_bg_scanline(p: PpuView, bg: int) -> Seq<u16> {
    let cnt = bg_control_of(p.io, bg);
    let x_scroll = scroll_x_of(p.io, bg) as int;
    let line = (vcount_of(p.io) as u16).wrapping_add(scroll_y_of(p.io, bg)) as int;
    let lower = (line / 8) * (tiles_wide(cnt) * 2) + x_scroll / 8;
    let higher = lower + 60 + if x_scroll % 8 > 0 {
        2int
    } else {
        0int
    };
    render_tiles(
        LineDraw { scanline: p.scanline, drawn: 0, skip: x_scroll % 8, stopped: false },
        p.vram,
        ((cnt >> 8u16) & 0x1F) as int * BG_MAP_TEXT_SIZE,
        tiles_wide(cnt) * tiles_high(cnt) * 2,
        lower,
        higher,
        ((cnt >> 2u16) & 3) as int * CHAR_BLOCK_SIZE,
        (line % 8) as u16,
        cnt & 0x80 != 0,
    ).scanline
}

/// Render a regular background into the current scanline a tile line at a time.
pub fn render_scanline_regular_bg(ppu: &mut PPU, bg: usize)
    requires
        ppu_view_wf(old(ppu)@),
        bg < 4,
    ensures
        ppu_view_wf(final(ppu)@),
        final(ppu)@ == (PpuView { scanline: regular_bg_scanline(old(ppu)@, bg as int), ..old(ppu)@ }),
{
    let ghost p = ppu@;
    let cnt = ppu.read_io_u16(8 + 2 * bg);
    let x_scroll = ppu.read_io_u16(0x10 + 2 * bg) & 0x1FF;
    let y_scroll = ppu.read_io_u16(0x18 + 2 * bg) & 0x1FF;
    proof {
        lemma_u16_masks(cnt);
        lemma_u16_masks(ppu.io@[0x10 + 2 * bg] as u16 | ((ppu.io@[0x11 + 2 * bg] as u16) << 8u16));
        lemma_u16_masks(ppu.io@[0x18 + 2 * bg] as u16 | ((ppu.io@[0x19 + 2 * bg] as u16) << 8u16));
    }
    let size = cnt >> 14u16;
    let wide: u16 = if size == 1 || size == 3 {
        64
    } else {
        32
    };
    let high: u16 = if size >= 2 {
        64
    } else {
        32
    };
    let tile_data_base: usize = ((cnt >> 2u16) & 3) as usize * CHAR_BLOCK_SIZE;
    let map_base: usize = ((cnt >> 8u16) & 0x1F) as usize * BG_MAP_TEXT_SIZE;
    let is_8bpp = cnt & 0x80 != 0;
    let line = (ppu.vertical_counter() as u16).wrapping_add(y_scroll);
    // Each tile map entry is 2 bytes.
    let tile_map_entries = wide * 2;
    assert(line / 8 <= 92);
    assert((line / 8) * tile_map_entries <= 92 * 128) by (nonlinear_arith)
        requires
            line / 8 <= 92,
            tile_map_entries <= 128,
    ;
    let tile_lower_bound: u16 = (line / 8) * tile_map_entries + x_scroll / 8;
    let mut tile_higher_bound = tile_lower_bound + 60;
    // Which particular y coordinate to use from the tiles this scanline.
    let tile_line_y = line % 8;
    let mut pixels_drawn: i16 = 0;
    let mut pixels_to_skip: u16 = x_scroll % 8;
    // A scroll that is not tile aligned needs one more tile for the end of the line.
    if pixels_to_skip > 0 {
        tile_higher_bound = tile_higher_bound + 2;
    }
    let total_tile_map_size = wide * high * 2;
    let mut i: u16 = tile_lower_bound;
    let ghost st0 = LineDraw { scanline: p.scanline, drawn: 0, skip: (x_scroll % 8) as int, stopped: false };
    while i <= tile_higher_bound
        invariant
            ppu_view_wf(ppu@),
            ppu@ == (PpuView { scanline: ppu@.scanline, ..p }),
            line_draw_wf(LineDraw { scanline: ppu@.scanline, drawn: pixels_drawn as int, skip: pixels_to_skip as int, stopped: false }),
            tile_lower_bound <= i <= tile_higher_bound + 2,
            tile_higher_bound <= 12000,
            total_tile_map_size > 0,
            total_tile_map_size <= 8192,
            map_base <= 31 * BG_MAP_TEXT_SIZE,
            tile_data_base <= 3 * CHAR_BLOCK_SIZE,
            tile_line_y < 8,
            render_tiles(
                LineDraw { scanline: ppu@.scanline, drawn: pixels_drawn as int, skip: pixels_to_skip as int, stopped: false },
                p.vram,
                map_base as int,
                total_tile_map_size as int,
                i as int,
                tile_higher_bound as int,
                tile_data_base as int,
                tile_line_y,
                is_8bpp,
            ) == render_tiles(
                st0,
                p.vram,
                map_base as int,
                total_tile_map_size as int,
                tile_lower_bound as int,
                tile_higher_bound as int,
                tile_data_base as int,
                tile_line_y,
                is_8bpp,
            ),
        decreases tile_higher_bound + 2 - i,
    {
        let addr = map_base + (i % total_tile_map_size) as usize;
        let tile_map_item = BgMapTextData { bits: ppu.read_vram_u16(addr) };
        let ghost cur = LineDraw { scanline: ppu@.scanline, drawn: pixels_drawn as int, skip: pixels_to_skip as int, stopped: false };
        assert(render_tiles(
            cur,
            p.vram,
            map_base as int,
            total_tile_map_size as int,
            i as int,
            tile_higher_bound as int,
            tile_data_base as int,
            tile_line_y,
            is_8bpp,
        ) == render_tiles(
            LineDraw { stopped: false, ..draw_tile_spec(cur, p.vram, tile_data_base as int, tile_line_y, tile_map_item.bits, is_8bpp) },
            p.vram,
            map_base as int,
            total_tile_map_size as int,
            i + 2,
            tile_higher_bound as int,
            tile_data_base as int,
            tile_line_y,
            is_8bpp,
        ));
        draw_bg_line(ppu, &mut pixels_drawn, &mut pixels_to_skip, tile_data_base, tile_line_y, tile_map_item, is_8bpp);
        i = i + 2;
    }
    assert(tiles_wide(cnt) == wide && tiles_high(cnt) == high);
}

} // verus!
