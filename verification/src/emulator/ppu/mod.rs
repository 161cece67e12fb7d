//! The picture processing unit.

pub mod oam;
pub mod palette;
pub mod registers;
pub mod tile_rendering;

use crate::emulator::bus::interrupts::{with_poll_scheduled, InterruptManager, Interrupts};
use crate::emulator::frame::{RgbaFrame, FRAME_PIXELS};
use crate::emulator::ppu::oam::OamRam;
use crate::emulator::ppu::palette::{Palette, color_5_to_8_spec, convert_5_to_8_bit_color, convert_bg_to_absolute_palette, PaletteRam, PaletteRamView, RGBA, PALETTE_CACHE_SIZE, PALETTE_RAM_SIZE};
use crate::emulator::ppu::registers::{bg_displayed, bg_mode_of, BgMode, LcdControl};
use crate::emulator::ppu::tile_rendering::{bg_control_of, render_scanline_regular_bg_pixel, scanline_with_bg};
use crate::scheduler::{EmuTime, EventTag, Scheduler, SchedulerView};
use crate::utils::{u16_from_le, u16_from_le_spec, write_le_u16};
use vstd::prelude::*;

verus! {

pub const DISPLAY_WIDTH: u32 = 240;

pub const DISPLAY_HEIGHT: u32 = 160;

pub const FRAMEBUFFER_SIZE: u32 = 38400;

pub const VRAM_SIZE: usize = 96 * 1024;

pub const CYCLES_PER_PIXEL: u32 = 4;

/// 960 Cycles per drawing scanline
pub const HDRAW_CYCLES: u32 = 960;

pub const HBLANK_CYCLES: u32 = 272;

pub const SCANLINE_CYCLES: u32 = 1232;

pub const VBLANK_CYCLES: u32 = 83776;

pub const FRAME_CYCLES: u32 = 280896;

/// First address of the I/O registers.
pub const IO_START: u32 = 0x0400_0000;

/// First address of the LCD registers.
pub const LCD_IO_START: u32 = 0x0400_0000;

/// Last address of the LCD registers.
pub const LCD_IO_END: u32 = 0x0400_0056;

/// Number of bytes of LCD registers kept.
pub const LCD_IO_SIZE: usize = 0x58;

pub const PALETTE_START: u32 = 0x0500_0000;

pub const PALETTE_END: u32 = 0x0500_03FF;

pub const LCD_VRAM_START: u32 = 0x0600_0000;

pub const LCD_VRAM_END: u32 = 0x0601_7FFF;

pub const OAM_START: u32 = 0x0700_0000;

pub const OAM_END: u32 = 0x0700_03FF;

/// Index into the palette, background palettes first.
pub type PaletteIndex = u16;

/// The 16-bit little endian value at index `off` of a byte sequence.
pub open spec fn io_u16(s: Seq<u8>, off: int) -> u16 {
    u16_from_le_spec(s.subrange(off, off + 2))
}

/// The current scanline (VCOUNT).
pub open spec fn vcount_of(io: Seq<u8>) -> u8 {
    io[6]
}

/// The display control register (DISPCNT).
pub open spec fn disp_cnt_of(io: Seq<u8>) -> u16 {
    io_u16(io, 0)
}

/// The abstract state of the picture processing unit.
pub struct PpuView {
    pub frame: Seq<RGBA>,
    pub scanline: Seq<u16>,
    pub palette: PaletteRamView,
    pub oam: Seq<u8>,
    pub vram: Seq<u8>,
    /// The LCD registers `0x0400_0000..0x0400_0058` as bytes.
    pub io: Seq<u8>,
}

/// All memories have the size of the hardware, the current scanline is a valid line and
/// the pending scanline only holds background palette indexes.
pub open spec fn ppu_view_wf(p: PpuView) -> bool {
    &&& p.frame.len() == FRAME_PIXELS
    &&& p.scanline.len() == DISPLAY_WIDTH
    &&& p.palette.ram.len() == PALETTE_RAM_SIZE
    &&& p.palette.cache.len() == PALETTE_CACHE_SIZE
    &&& p.oam.len() == 1024
    &&& p.vram.len() == VRAM_SIZE
    &&& p.io.len() == LCD_IO_SIZE
    &&& vcount_of(p.io) < 228
    &&& forall|i: int| 0 <= i < DISPLAY_WIDTH ==> #[trigger] p.scanline[i] < 256
}

pub struct PPU {
    frame_buffer: RgbaFrame,
    current_scanline: Vec<PaletteIndex>,
    palette: PaletteRam,
    oam_ram: OamRam,
    vram: Vec<u8>,
    /// The LCD registers, byte by byte:
    /// DISPCNT at 0x00, green swap at 0x02, DISPSTAT at 0x04, VCOUNT at 0x06, BG0-3CNT at
    /// 0x08, the horizontal offsets of BG0-3 at 0x10, their vertical offsets at 0x18,
    /// rotation/scaling parameters at 0x20..0x40, window registers at 0x40..0x4C, mosaic at
    /// 0x4C, BLDCNT at 0x50, BLDALPHA at 0x52 and BLDY at 0x54.
    io: Vec<u8>,
}

impl View for PPU {
    type V = PpuView;

    closed spec fn view(&self) -> PpuView {
        PpuView {
            frame: self.frame_buffer.0@,
            scanline: self.current_scanline@,
            palette: self.palette@,
            oam: self.oam_ram@,
            vram: self.vram@,
            io: self.io@,
        }
    }
}

/// The pending scanline holds no pixel.
pub open spec fn scanline_clear(p: PpuView) -> bool {
    forall|i: int| 0 <= i < DISPLAY_WIDTH ==> #[trigger] p.scanline[i] == 0
}

/// The opaque colour of palette entry `index`.
pub open spec fn palette_rgba(p: PpuView, index: u16) -> RGBA {
    let c = p.palette.cache[index as int];
    RGBA { red: c.red, green: c.green, blue: c.blue, alpha: 255 }
}

/// The pixel of a 15-bit direct colour, as mode 3 shows it.
pub open spec fn direct_color_rgba(pixel: u16) -> RGBA {
    RGBA {
        red: color_5_to_8_spec((pixel & 0x1F) as u8),
        green: color_5_to_8_spec(((pixel >> 5u16) & 0x1F) as u8),
        blue: color_5_to_8_spec(((pixel >> 10u16) & 0x1F) as u8),
        alpha: 255,
    }
}

/// Whether background `bg` is drawn at priority `prio` in mode 0.
pub open spec fn bg_drawn_at(io: Seq<u8>, bg: int, prio: int) -> bool {
    bg_displayed(disp_cnt_of(io), bg) && (bg_control_of(io, bg) & 3) as int == prio
}

/// The pending scanline after the first `k` (priority, background) steps of mode 0:
/// priorities from highest to lowest, backgrounds 0..=3 within each priority.
pub open spec fn mode0_after(p: PpuView, k: nat) -> Seq<u16>
    decreases k,
{
    if k == 0 {
        p.scanline
    } else {
        let prev = mode0_after(p, (k - 1) as nat);
        let prio = (k - 1) / 4;
        let bg = (k - 1) % 4;
        if bg_drawn_at(p.io, bg, prio) {
            scanline_with_bg(PpuView { scanline: prev, ..p }, bg)
        } else {
            prev
        }
    }
}

/// The frame with row `row` replaced by `pixels`.
pub open spec fn frame_with_row(frame: Seq<RGBA>, row: int, pixels: Seq<RGBA>) -> Seq<RGBA> {
    Seq::new(
        frame.len(),
        |k: int|
            if row * 240 <= k < row * 240 + 240 {
                pixels[k - row * 240]
            } else {
                frame[k]
            },
    )
}

/// The pixels of the current line in mode 3: direct colours from VRAM.
pub open spec fn mode3_row(p: PpuView) -> Seq<RGBA> {
    Seq::new(240, |j: int| direct_color_rgba(io_u16(p.vram, (vcount_of(p.io) * 240 + j) * 2)))
}

/// The palette index of pixel `j` of the current line in mode 4: one byte per pixel,
/// from frame 0 at `0x0` or frame 1 at `0xA000`.
pub open spec fn mode4_index(p: PpuView, j: int) -> u16 {
    let base = if disp_cnt_of(p.io) & 0x10 != 0 {
        0xA000int
    } else {
        0
    };
    p.vram[base + vcount_of(p.io) * 240 + j] as u16
}

/// The pending scanline after the background layers of the current mode were drawn.
pub open spec fn layered_scanline(p: PpuView) -> Seq<u16> {
    match bg_mode_of(disp_cnt_of(p.io)) {
        Some(BgMode::Mode0) => mode0_after(p, 16),
        Some(BgMode::Mode4) => Seq::new(240, |j: int| mode4_index(p, j)),
        _ => p.scanline,
    }
}

/// The state after the current line was rendered: mode 3 writes its direct colours to the
/// frame, the other modes write the colours of the layered scanline and clear it.
pub open spec fn rendered(p: PpuView) -> PpuView {
    if bg_mode_of(disp_cnt_of(p.io)) == Some(BgMode::Mode3) {
        PpuView { frame: frame_with_row(p.frame, vcount_of(p.io) as int, mode3_row(p)), ..p }
    } else {
        let s = layered_scanline(p);
        PpuView {
            frame: frame_with_row(
                p.frame,
                vcount_of(p.io) as int,
                Seq::new(240, |j: int| palette_rgba(p, s[j])),
            ),
            scanline: Seq::new(240, |j: int| 0u16),
            ..p
        }
    }
}

/// The state with byte `off` of the LCD registers set to `b`.
pub open spec fn with_io_byte(p: PpuView, off: int, b: u8) -> PpuView {
    PpuView { io: p.io.update(off, b), ..p }
}

/// Whether the LCD register byte at offset `off` reads back its value; write-only and
/// unused registers read as `0xFF`.
pub open spec fn io_readable(off: int) -> bool {
    (0 <= off <= 0xF) || (0x48 <= off <= 0x4B) || (0x50 <= off <= 0x55)
}

/// Whether a write to the LCD register byte at offset `off` takes effect; VCOUNT is read only.
pub open spec fn io_writable(off: int) -> bool {
    0 <= off <= 0x55 && off != 6 && off != 7
}

impl PPU {
    /// The state invariant, with no pending scanline.
    pub open spec fn wf(&self) -> bool {
        ppu_view_wf(self@) && scanline_clear(self@)
    }

    /// A PPU with cleared memories and registers, on scanline 0.
    pub fn new() -> (r: PPU)
        ensures
            r.wf(),
            forall|i: int| 0 <= i < LCD_IO_SIZE ==> r@.io[i] == 0,
            forall|i: int| 0 <= i < VRAM_SIZE ==> r@.vram[i] == 0,
            forall|i: int| 0 <= i < 1024 ==> r@.oam[i] == 0,
            forall|i: int| 0 <= i < PALETTE_RAM_SIZE ==> r@.palette.ram[i] == 0,
            forall|i: int|
                0 <= i < PALETTE_CACHE_SIZE ==> r@.palette.cache[i] == (Palette { red: 0, green: 0, blue: 0 }),
            forall|i: int|
                0 <= i < FRAME_PIXELS ==> r@.frame[i] == (RGBA { red: 0, green: 0, blue: 0, alpha: 0 }),
    {
        let r = PPU {
            frame_buffer: RgbaFrame::new(),
            current_scanline: vec![0u16; 240],
            palette: PaletteRam::new(),
            oam_ram: OamRam::new(),
            vram: vec![0u8; VRAM_SIZE],
            io: vec![0u8; LCD_IO_SIZE],
        };
        r
    }

    /// Read a 16-bit LCD register.
    pub fn read_io_u16(&self, off: usize) -> (r: u16)
        requires
            ppu_view_wf(self@),
            off + 2 <= LCD_IO_SIZE,
        ensures
            r == io_u16(self@.io, off as int),
            r == (self@.io[off as int] as u16 | ((self@.io[off + 1] as u16) << 8u16)) as u16,
    {
        let r = u16_from_le(self.io[off], self.io[off + 1]);
        assert(self.io@.subrange(off as int, off + 2) =~= seq![self.io@[off as int], self.io@[off + 1]]);
        r
    }

    /// Read a 16-bit little endian value from VRAM.
    pub fn read_vram_u16(&self, index: usize) -> (r: u16)
        requires
            ppu_view_wf(self@),
            index + 2 <= VRAM_SIZE,
        ensures
            r == io_u16(self@.vram, index as int),
    {
        let r = u16_from_le(self.vram[index], self.vram[index + 1]);
        assert(self.vram@.subrange(index as int, index + 2) =~= seq![
            self.vram@[index as int],
            self.vram@[index + 1],
        ]);
        r
    }

    /// The current scanline.
    pub fn vertical_counter(&self) -> (r: u8)
        requires
            ppu_view_wf(self@),
        ensures
            r == vcount_of(self@.io),
            r < 228,
    {
        self.io[6]
    }

    /// The display control register.
    pub fn disp_cnt(&self) -> (r: LcdControl)
        requires
            ppu_view_wf(self@),
        ensures
            r.bits == disp_cnt_of(self@.io),
    {
        LcdControl { bits: self.read_io_u16(0) }
    }

    /// Set a pixel of the pending scanline.
    pub fn set_scanline_pixel(&mut self, i: usize, value: u16)
        requires
            ppu_view_wf(old(self)@),
            i < DISPLAY_WIDTH,
            value < 256,
        ensures
            ppu_view_wf(final(self)@),
            final(self)@ == (PpuView { scanline: old(self)@.scanline.update(i as int, value), ..old(self)@ }),
    {
        self.current_scanline.set(i, value);
    }

    /// Read a byte of the LCD registers.
    pub fn read_io(&mut self, address: u32) -> (r: u8)
        requires
            ppu_view_wf(old(self)@),
            IO_START <= address,
        ensures
            final(self)@ == old(self)@,
            io_readable(address - IO_START) ==> r == old(self)@.io[address - IO_START],
            !io_readable(address - IO_START) ==> r == 0xFF,
    {
        let off = address - IO_START;
        if off <= 0xF || (0x48 <= off && off <= 0x4B) || (0x50 <= off && off <= 0x55) {
            self.io[off as usize]
        } else {
            // Write-only and unused registers.
            0xFF
        }
    }

    /// Write a byte of the LCD registers; writes to VCOUNT and to unused registers are ignored.
    pub fn write_io(&mut self, address: u32, value: u8)
        requires
            ppu_view_wf(old(self)@),
            IO_START <= address <= LCD_IO_END,
        ensures
            ppu_view_wf(final(self)@),
            io_writable(address - IO_START) ==> final(self)@ == with_io_byte(old(self)@, address - IO_START, value),
            !io_writable(address - IO_START) ==> final(self)@ == old(self)@,
    {
        let off = address - IO_START;
        if off != 6 && off != 7 && off <= 0x55 {
            self.io.set(off as usize, value);
        }
    }

    pub fn read_palette(&self, address: u32) -> (r: u8)
        requires
            ppu_view_wf(self@),
        ensures
            r == self@.palette.ram[(address % 1024) as int],
    {
        self.palette.read_palette(address)
    }

    pub fn write_palette(&mut self, address: u32, value: u8)
        requires
            ppu_view_wf(old(self)@),
            address % 1024 != 1023,
        ensures
            ppu_view_wf(final(self)@),
            final(self)@ == (PpuView {
                palette: PaletteRamView {
                    ram: write_le_u16(
                        old(self)@.palette.ram,
                        (address % 1024) as int,
                        (value as u16) << 8u16 | value as u16,
                    ),
                    cache: old(self)@.palette.cache.update(
                        (address % 1024) as int / 2,
                        palette::palette_of_color((value as u16) << 8u16 | value as u16),
                    ),
                },
                ..old(self)@
            }),
    {
        self.palette.write_palette(address, value);
    }

    pub fn write_palette_16(&mut self, address: u32, value: u16)
        requires
            ppu_view_wf(old(self)@),
            address % 1024 != 1023,
        ensures
            ppu_view_wf(final(self)@),
            final(self)@ == (PpuView {
                palette: PaletteRamView {
                    ram: write_le_u16(old(self)@.palette.ram, (address % 1024) as int, value),
                    cache: old(self)@.palette.cache.update(
                        (address % 1024) as int / 2,
                        palette::palette_of_color(value),
                    ),
                },
                ..old(self)@
            }),
    {
        self.palette.write_palette_16(address, value);
    }

    pub fn read_vram(&mut self, address: u32) -> (r: u8)
        requires
            ppu_view_wf(old(self)@),
        ensures
            final(self)@ == old(self)@,
            r == old(self)@.vram[vram_index(address)],
    {
        let addr = get_vram_address(address);
        self.vram[addr]
    }

    /// When writing to vram with only a u8 the value is written to both the upper and lower bytes.
    pub fn write_vram(&mut self, address: u32, value: u8)
        requires
            ppu_view_wf(old(self)@),
            vram_index(address) + 1 < VRAM_SIZE,
        ensures
            ppu_view_wf(final(self)@),
            final(self)@ == (PpuView {
                vram: write_le_u16(
                    old(self)@.vram,
                    vram_index(address),
                    (value as u16) << 8u16 | value as u16,
                ),
                ..old(self)@
            }),
    {
        let final_value: u16 = ((value as u16) << 8u16) | value as u16;
        self.write_vram_16(address, final_value);
    }

    pub fn write_vram_16(&mut self, address: u32, value: u16)
        requires
            ppu_view_wf(old(self)@),
            vram_index(address) + 1 < VRAM_SIZE,
        ensures
            ppu_view_wf(final(self)@),
            final(self)@ == (PpuView {
                vram: write_le_u16(old(self)@.vram, vram_index(address), value),
                ..old(self)@
            }),
    {
        let addr = get_vram_address(address);
        let b0 = value as u8;
        let b1 = (value >> 8u16) as u8;
        self.vram.set(addr, b0);
        self.vram.set(addr + 1, b1);
    }

    pub fn read_oam(&mut self, address: u32) -> (r: u8)
        requires
            ppu_view_wf(old(self)@),
        ensures
            final(self)@ == old(self)@,
            r == old(self)@.oam[(address % 1024) as int],
    {
        self.oam_ram.read_oam(address)
    }

    pub fn write_oam_16(&mut self, address: u32, value: u16)
        requires
            ppu_view_wf(old(self)@),
            address % 1024 != 1023,
        ensures
            ppu_view_wf(final(self)@),
            final(self)@ == (PpuView {
                oam: write_le_u16(old(self)@.oam, (address % 1024) as int, value),
                ..old(self)@
            }),
    {
        self.oam_ram.write_oam_16(address, value);
    }

    /// The frame being drawn.
    pub fn frame_buffer(&self) -> (r: &RgbaFrame)
        ensures
            r.0@ == self@.frame,
    {
        &self.frame_buffer
    }

    /// The scanline being composed, as palette indexes.
    pub fn current_scanline(&self) -> (r: &Vec<u16>)
        ensures
            r@ == self@.scanline,
    {
        &self.current_scanline
    }

    /// The palette RAM and its cache.
    pub fn palette_cache(&self) -> (r: &PaletteRam)
        ensures
            r@ == self@.palette,
    {
        &self.palette
    }
}

/// The VRAM index of an address: VRAM is 64KB + 32KB, mirrored every 128KB, and the
/// 32KB part is mirrored once within that window.
pub open spec fn vram_index(address: u32) -> int {
    let addr = (address & 0x1FFFF) as int;
    if addr >= VRAM_SIZE {
        addr - 0x8000
    } else {
        addr
    }
}

fn get_vram_address(address: u32) -> (r: usize)
    ensures
        r == vram_index(address),
        r < VRAM_SIZE,
{
    proof {
        crate::utils::lemma_bit_facts();
    }
    let mut addr = (address & 0x1FFFF) as usize;
    if addr >= VRAM_SIZE {
        addr -= 0x8000;
    }
    addr
}

} // verus!

verus! {

/// Render the four regular backgrounds of mode 0, from highest to lowest priority.
pub fn render_scanline_mode0(ppu: &mut PPU)
    requires
        ppu_view_wf(old(ppu)@),
    ensures
        ppu_view_wf(final(ppu)@),
        final(ppu)@ == (PpuView { scanline: mode0_after(old(ppu)@, 16), ..old(ppu)@ }),
{
    let ghost p = ppu@;
    let disp = ppu.disp_cnt();
    let mut priority: u16 = 0;
    while priority < 4
        invariant
            priority <= 4,
            ppu_view_wf(ppu@),
            disp.bits == disp_cnt_of(p.io),
            ppu@ == (PpuView { scanline: mode0_after(p, (priority * 4) as nat), ..p }),
            ppu_view_wf(p),
        decreases 4 - priority,
    {
        let mut bg: usize = 0;
        while bg < 4
            invariant
                priority < 4,
                bg <= 4,
                ppu_view_wf(ppu@),
                ppu_view_wf(p),
                disp.bits == disp_cnt_of(p.io),
                ppu@ == (PpuView { scanline: mode0_after(p, (priority * 4 + bg) as nat), ..p }),
            decreases 4 - bg,
        {
            let cnt = ppu.read_io_u16(8 + 2 * bg);
            let ghost k = (priority * 4 + bg) as nat;
            assert(cnt == bg_control_of(p.io, bg as int));
            assert((k + 1 - 1) / 4 == priority as int && (k + 1 - 1) % 4 == bg as int);
            if disp.screen_display_bg(bg) && (cnt & 3) == priority {
                render_scanline_regular_bg_pixel(ppu, bg);
            }
            assert(ppu@.scanline == mode0_after(p, k + 1));
            bg = bg + 1;
        }
        priority = priority + 1;
    }
}

/// Render the current line of mode 3 straight into the frame: one 15-bit colour per pixel.
pub fn render_scanline_mode3(ppu: &mut PPU)
    requires
        ppu_view_wf(old(ppu)@),
        vcount_of(old(ppu)@.io) < DISPLAY_HEIGHT,
    ensures
        ppu_view_wf(final(ppu)@),
        final(ppu)@ == (PpuView {
            frame: frame_with_row(old(ppu)@.frame, vcount_of(old(ppu)@.io) as int, mode3_row(old(ppu)@)),
            ..old(ppu)@
        }),
{
    let ghost p = ppu@;
    let row = ppu.vertical_counter() as usize;
    let vram_index = row * 240;
    let mut i: usize = 0;
    assert(p.frame =~= Seq::new(
        FRAME_PIXELS as nat,
        |k: int|
            if row * 240 <= k < row * 240 + 0 {
                mode3_row(p)[k - row * 240]
            } else {
                p.frame[k]
            },
    ));
    while i < 240
        invariant
            i <= 240,
            row < 160,
            row == vcount_of(p.io),
            vram_index == row * 240,
            ppu_view_wf(p),
            ppu@ == (PpuView {
                frame: Seq::new(
                    FRAME_PIXELS as nat,
                    |k: int|
                        if row * 240 <= k < row * 240 + i {
                            mode3_row(p)[k - row * 240]
                        } else {
                            p.frame[k]
                        },
                ),
                ..p
            }),
        decreases 240 - i,
    {
        let index = (vram_index + i) * 2;
        let pixel = ppu.read_vram_u16(index);
        let color = RGBA {
            red: convert_5_to_8_bit_color((pixel & 0x1F) as u8),
            green: convert_5_to_8_bit_color(((pixel >> 5u16) & 0x1F) as u8),
            blue: convert_5_to_8_bit_color(((pixel >> 10u16) & 0x1F) as u8),
            alpha: 255,
        };
        ppu.frame_buffer.0.set(vram_index + i, color);
        proof {
            assert(ppu@.frame =~= Seq::new(
                FRAME_PIXELS as nat,
                |k: int|
                    if row * 240 <= k < row * 240 + i + 1 {
                        mode3_row(p)[k - row * 240]
                    } else {
                        p.frame[k]
                    },
            ));
        }
        i = i + 1;
    }
    assert(ppu@.frame =~= frame_with_row(p.frame, row as int, mode3_row(p)));
}

/// Render the current line of mode 4: one palette index per pixel, from the selected frame.
pub fn render_scanline_mode4(ppu: &mut PPU)
    requires
        ppu_view_wf(old(ppu)@),
        vcount_of(old(ppu)@.io) < DISPLAY_HEIGHT,
    ensures
        ppu_view_wf(final(ppu)@),
        final(ppu)@ == (PpuView {
            scanline: Seq::new(240, |j: int| mode4_index(old(ppu)@, j)),
            ..old(ppu)@
        }),
{
    let ghost p = ppu@;
    let disp = ppu.disp_cnt();
    // Frame 1 is at 0xA000, frame 0 at 0x0.
    let vram_index_base: usize = if disp.display_frame_select() {
        0xA000
    } else {
        0
    };
    let vram_index = vram_index_base + ppu.vertical_counter() as usize * 240;
    let mut i: usize = 0;
    assert(p.scanline =~= Seq::new(
        240,
        |j: int|
            if j < 0 {
                mode4_index(p, j)
            } else {
                p.scanline[j]
            },
    ));
    while i < 240
        invariant
            i <= 240,
            ppu_view_wf(p),
            vcount_of(p.io) < 160,
            vram_index == (if disp_cnt_of(p.io) & 0x10 != 0 {
                0xA000int
            } else {
                0
            }) + vcount_of(p.io) * 240,
            ppu@ == (PpuView {
                scanline: Seq::new(
                    240,
                    |j: int|
                        if j < i {
                            mode4_index(p, j)
                        } else {
                            p.scanline[j]
                        },
                ),
                ..p
            }),
            ppu_view_wf(ppu@),
        decreases 240 - i,
    {
        let palette_index = ppu.vram[vram_index + i];
        // Background palettes are always located in the first 256 entries of the palette.
        ppu.set_scanline_pixel(i, convert_bg_to_absolute_palette(palette_index));
        proof {
            assert(ppu@.scanline =~= Seq::new(
                240,
                |j: int|
                    if j < i + 1 {
                        mode4_index(p, j)
                    } else {
                        p.scanline[j]
                    },
            ));
        }
        i = i + 1;
    }
    assert(ppu@.scanline =~= Seq::new(240, |j: int| mode4_index(p, j)));
}

impl PPU {
    /// Executed when the PPU is created to kick-start the PPU event chain.
    pub fn initial_startup(&self, scheduler: &mut Scheduler)
        requires
            old(scheduler).wf(),
        ensures
            final(scheduler).wf(),
            final(scheduler)@ == (SchedulerView {
                events: old(scheduler)@.events.insert((HDRAW_CYCLES as u64, EventTag::HBlank.spec_code())),
                ..old(scheduler)@
            }),
    {
        scheduler.schedule_event(EventTag::HBlank, EmuTime(HDRAW_CYCLES as u64));
    }

    /// Copy the pending scanline to the frame through the palette, and clear it.
    fn push_current_scanline_to_framebuffer(&mut self)
        requires
            ppu_view_wf(old(self)@),
            vcount_of(old(self)@.io) < DISPLAY_HEIGHT,
        ensures
            ppu_view_wf(final(self)@),
            scanline_clear(final(self)@),
            final(self)@ == (PpuView {
                frame: frame_with_row(
                    old(self)@.frame,
                    vcount_of(old(self)@.io) as int,
                    Seq::new(240, |j: int| palette_rgba(old(self)@, old(self)@.scanline[j])),
                ),
                scanline: Seq::new(240, |j: int| 0u16),
                ..old(self)@
            }),
    {
        let ghost p = self@;
        let row = self.vertical_counter() as usize;
        let current_address: usize = row * 240;
        let ghost pixels = Seq::new(240, |j: int| palette_rgba(p, p.scanline[j]));
        let mut i: usize = 0;
        assert(p.frame =~= Seq::new(
            FRAME_PIXELS as nat,
            |k: int|
                if row * 240 <= k < row * 240 + 0 {
                    pixels[k - row * 240]
                } else {
                    p.frame[k]
                },
        ));
        while i < 240
            invariant
                i <= 240,
                ppu_view_wf(p),
                row < 160,
                row == vcount_of(p.io),
                current_address == row * 240,
                pixels == Seq::new(240, |j: int| palette_rgba(p, p.scanline[j])),
                self@ == (PpuView {
                    frame: Seq::new(
                        FRAME_PIXELS as nat,
                        |k: int|
                            if row * 240 <= k < row * 240 + i {
                                pixels[k - row * 240]
                            } else {
                                p.frame[k]
                            },
                    ),
                    ..p
                }),
            decreases 240 - i,
        {
            let index = self.current_scanline[i] as usize;
            assert(p.scanline[i as int] < 256);
            let color = self.palette.get_palette(index).to_rgba(255);
            self.frame_buffer.0.set(current_address + i, color);
            proof {
                assert(self@.frame =~= Seq::new(
                    FRAME_PIXELS as nat,
                    |k: int|
                        if row * 240 <= k < row * 240 + i + 1 {
                            pixels[k - row * 240]
                        } else {
                            p.frame[k]
                        },
                ));
            }
            i = i + 1;
        }
        assert(self@.frame =~= frame_with_row(p.frame, row as int, pixels));
        let ghost q = self@;
        let mut j: usize = 0;
        while j < 240
            invariant
                j <= 240,
                self@ == (PpuView { scanline: self@.scanline, ..q }),
                self.current_scanline@.len() == 240,
                forall|k: int| 0 <= k < j ==> self.current_scanline@[k] == 0u16,
            decreases 240 - j,
        {
            self.current_scanline.set(j, 0);
            j = j + 1;
        }
        assert(self.current_scanline@ =~= Seq::new(240, |j: int| 0u16));
    }

    /// Render the current line into the frame according to the background mode.
    fn render_scanline(&mut self)
        requires
            ppu_view_wf(old(self)@),
            scanline_clear(old(self)@),
            vcount_of(old(self)@.io) < DISPLAY_HEIGHT,
        ensures
            ppu_view_wf(final(self)@),
            scanline_clear(final(self)@),
            final(self)@ == rendered(old(self)@),
    {
        let ghost p = self@;
        let mode = self.disp_cnt().bg_mode();
        match mode {
            Some(BgMode::Mode0) => render_scanline_mode0(self),
            Some(BgMode::Mode3) => {
                // Mode 3 renders straight to the frame, without palette indexes.
                render_scanline_mode3(self);
                return;
            },
            Some(BgMode::Mode4) => render_scanline_mode4(self),
            _ => {},
        }
        assert(self@.scanline =~= layered_scanline(p));
        self.push_current_scanline_to_framebuffer();
        assert(self@.frame =~= rendered(p).frame);
        assert(self@.scanline =~= rendered(p).scanline);
    }
}

} // verus!

verus! {

/// The state with the given DISPSTAT flag bits set.
pub open spec fn stat_set(p: PpuView, mask: u8) -> PpuView {
    with_io_byte(p, 4, p.io[4] | mask)
}

/// The state with the given DISPSTAT flag bits cleared.
pub open spec fn stat_clear(p: PpuView, mask: u8) -> PpuView {
    with_io_byte(p, 4, p.io[4] & !mask)
}

/// The scheduler with an event inserted.
pub open spec fn sched_insert(s: SchedulerView, when: u64, tag: EventTag) -> SchedulerView {
    SchedulerView { events: s.events.insert((when, tag.spec_code())), ..s }
}

/// The scheduler with an interrupt poll inserted when `requested`.
pub open spec fn sched_poll_if(s: SchedulerView, requested: bool) -> SchedulerView {
    if requested {
        with_poll_scheduled(s)
    } else {
        s
    }
}

/// The request flags with `bit` set when `requested`.
pub open spec fn flags_if(flags: u16, requested: bool, bit: u16) -> u16 {
    if requested {
        flags | bit
    } else {
        flags
    }
}

/// The line that follows the current one: lines 0..=227 repeat.
pub open spec fn next_line(vcount: u8) -> u8 {
    if vcount + 1 == 228 {
        0
    } else {
        (vcount + 1) as u8
    }
}

/// The line reached after `n` line ends from line `v`.
pub open spec fn lines_after(v: u8, n: nat) -> u8
    decreases n,
{
    if n == 0 {
        v
    } else {
        lines_after(next_line(v), (n - 1) as nat)
    }
}

/// `n` line ends from line `v` reach line `(v + n) % 228`.
proof fn lemma_lines_mod(v: u8, n: nat)
    requires
        v < 228,
    ensures
        lines_after(v, n) == (v + n) % 228,
    decreases n,
{
    if n == 0 {
        vstd::arithmetic::div_mod::lemma_small_mod(v as nat, 228);
    } else {
        let w = next_line(v);
        assert(w == (v + 1) % 228);
        lemma_lines_mod(w, (n - 1) as nat);
        vstd::arithmetic::div_mod::lemma_small_mod(w as nat, 228);
        vstd::arithmetic::div_mod::lemma_add_mod_noop(v + 1, n - 1, 228);
        vstd::arithmetic::div_mod::lemma_add_mod_noop(w as int, n - 1, 228);
    }
}

/// The V-counter counts the line ends modulo 228: `n` line ends from line `v` reach line
/// `(v + n) % 228`, so every 228 line ends bring it back to the same line.
pub proof fn lemma_lines_after(v: u8, n: nat)
    requires
        v < 228,
    ensures
        lines_after(v, n) == (v + n) % 228,
        lines_after(v, 228) == v,
{
    lemma_lines_mod(v, n);
    lemma_lines_mod(v, 228);
    vstd::arithmetic::div_mod::lemma_mod_add_multiples_vanish(v as int, 228);
    vstd::arithmetic::div_mod::lemma_small_mod(v as nat, 228);
}

/// The timing of a frame: a line is its drawing period and its HBlank; the end of an
/// HBlank that starts at `t` schedules the next HBlank one line after `t`; a frame is 228
/// lines, the 160 visible ones followed by VBlank.
pub proof fn lemma_frame_timing(t: u64)
    ensures
        HDRAW_CYCLES == DISPLAY_WIDTH * CYCLES_PER_PIXEL,
        SCANLINE_CYCLES == HDRAW_CYCLES + HBLANK_CYCLES,
        t.wrapping_add(HBLANK_CYCLES as u64).wrapping_add(HDRAW_CYCLES as u64) == t.wrapping_add(
            SCANLINE_CYCLES as u64,
        ),
        FRAME_CYCLES == 228 * SCANLINE_CYCLES,
        FRAME_CYCLES == DISPLAY_HEIGHT * SCANLINE_CYCLES + VBLANK_CYCLES,
{
}

/// The state after HBlank ends, before the V-counter comparison: the HBlank flag is clear,
/// the VBlank flag is cleared on line 227, and the line counter has advanced.
pub open spec fn hblank_end_line(p: PpuView) -> PpuView {
    let p1 = stat_clear(p, 0x02);
    let n = vcount_of(p.io) + 1;
    let p2 = if n == 227 {
        stat_clear(p1, 0x01)
    } else {
        p1
    };
    with_io_byte(p2, 6, next_line(vcount_of(p.io)))
}

/// The state after the V-counter comparison: the match flag follows whether the line
/// equals the V-count setting (LYC).
pub open spec fn vcounter_checked(p: PpuView) -> PpuView {
    if vcount_of(p.io) == p.io[5] {
        stat_set(p, 0x04)
    } else {
        stat_clear(p, 0x04)
    }
}

/// Whether the V-counter comparison requests an interrupt.
pub open spec fn vcounter_irq(p: PpuView) -> bool {
    vcount_of(p.io) == p.io[5] && p.io[4] & 0x20 != 0
}

proof fn lemma_flag_bits(b: u8)
    ensures
        (b | 0x02) & 0x10 == b & 0x10,
        (b | 0x01) & 0x08 == b & 0x08,
        (b | 0x04) & 0x20 == b & 0x20,
        (b & !0x04u8) & 0x20 == b & 0x20,
{
    assert((b | 0x02) & 0x10 == b & 0x10 && (b | 0x01) & 0x08 == b & 0x08 && (b | 0x04) & 0x20 == b
        & 0x20 && (b & !0x04u8) & 0x20 == b & 0x20) by (bit_vector);
}

impl PPU {
    /// Start of HBlank: set the HBlank flag, request the HBlank interrupt when enabled,
    /// render the line when it is visible and schedule the end of HBlank.
    pub fn hblank_start(&mut self, scheduler: &mut Scheduler, interrupts: &mut InterruptManager)
        requires
            old(self).wf(),
            old(scheduler).wf(),
        ensures
            final(self).wf(),
            final(scheduler).wf(),
            ({
                let p1 = stat_set(old(self)@, 0x02);
                let irq = old(self)@.io[4] & 0x10 != 0;
                &&& final(self)@ == (if vcount_of(old(self)@.io) < DISPLAY_HEIGHT {
                    rendered(p1)
                } else {
                    p1
                })
                &&& final(interrupts).flags.bits == flags_if(
                    old(interrupts).flags.bits,
                    irq,
                    Interrupts::Hblank.spec_bit(),
                )
                &&& final(scheduler)@ == sched_insert(
                    sched_poll_if(old(scheduler)@, irq),
                    old(scheduler)@.current_time.wrapping_add(HBLANK_CYCLES as u64),
                    EventTag::HBlankEnd,
                )
            }),
            final(interrupts).enable == old(interrupts).enable,
            final(interrupts).master_enable == old(interrupts).master_enable,
    {
        let ghost p = self@;
        let stat = self.io[4];
        self.io.set(4, stat | 0x02);
        proof {
            lemma_flag_bits(stat);
        }
        if stat & 0x10 != 0 {
            interrupts.request_interrupt(Interrupts::Hblank, scheduler);
        }
        // Render a scanline if we're not yet at the final line
        if self.vertical_counter() < DISPLAY_HEIGHT as u8 {
            self.render_scanline();
        }
        scheduler.schedule_relative(EventTag::HBlankEnd, EmuTime(HBLANK_CYCLES as u64));
    }

    /// End of HBlank: clear the HBlank flag, advance to the next line, update the VBlank
    /// and V-counter flags, and schedule VBlank (when line 160 starts) and the next HBlank.
    pub fn hblank_end(&mut self, scheduler: &mut Scheduler, interrupts: &mut InterruptManager)
        requires
            old(self).wf(),
            old(scheduler).wf(),
        ensures
            final(self).wf(),
            final(scheduler).wf(),
            ({
                let p3 = hblank_end_line(old(self)@);
                let irq = vcounter_irq(p3);
                let now = old(scheduler)@.current_time;
                let s1 = sched_poll_if(old(scheduler)@, irq);
                let s2 = if vcount_of(p3.io) == DISPLAY_HEIGHT {
                    sched_insert(s1, now, EventTag::VBlank)
                } else {
                    s1
                };
                &&& final(self)@ == vcounter_checked(p3)
                &&& final(interrupts).flags.bits == flags_if(
                    old(interrupts).flags.bits,
                    irq,
                    Interrupts::VCounter.spec_bit(),
                )
                &&& final(scheduler)@ == sched_insert(
                    s2,
                    now.wrapping_add(HDRAW_CYCLES as u64),
                    EventTag::HBlank,
                )
            }),
            final(interrupts).enable == old(interrupts).enable,
            final(interrupts).master_enable == old(interrupts).master_enable,
    {
        let stat = self.io[4];
        self.io.set(4, stat & !0x02u8);
        let line = self.io[6] + 1;
        if line == 227 {
            // Vblank is no longer set one hblank before the wrap-around
            let s = self.io[4];
            self.io.set(4, s & !0x01u8);
        }
        let new_line: u8 = if line == 228 {
            0
        } else {
            line
        };
        self.io.set(6, new_line);
        self.check_vertical_counter_interrupt(scheduler, interrupts);
        if self.io[6] == DISPLAY_HEIGHT as u8 {
            // Next up is vblank
            scheduler.schedule_relative(EventTag::VBlank, EmuTime(0));
        }
        // HBlank continues on even during VBlank
        scheduler.schedule_relative(EventTag::HBlank, EmuTime(HDRAW_CYCLES as u64));
    }

    /// Start of VBlank: set the VBlank flag and request the VBlank interrupt when enabled.
    pub fn vblank(&mut self, scheduler: &mut Scheduler, interrupts: &mut InterruptManager)
        requires
            old(self).wf(),
            old(scheduler).wf(),
        ensures
            final(self).wf(),
            final(scheduler).wf(),
            final(self)@ == stat_set(old(self)@, 0x01),
            final(interrupts).flags.bits == flags_if(
                old(interrupts).flags.bits,
                old(self)@.io[4] & 0x08 != 0,
                Interrupts::Vblank.spec_bit(),
            ),
            final(scheduler)@ == sched_poll_if(old(scheduler)@, old(self)@.io[4] & 0x08 != 0),
            final(interrupts).enable == old(interrupts).enable,
            final(interrupts).master_enable == old(interrupts).master_enable,
    {
        let stat = self.io[4];
        self.io.set(4, stat | 0x01);
        proof {
            lemma_flag_bits(stat);
        }
        if stat & 0x08 != 0 {
            interrupts.request_interrupt(Interrupts::Vblank, scheduler);
        }
    }

    /// Compare the line with the V-count setting, set the match flag accordingly and
    /// request the V-counter interrupt on a match when enabled.
    fn check_vertical_counter_interrupt(&mut self, scheduler: &mut Scheduler, interrupts: &mut InterruptManager)
        requires
            ppu_view_wf(old(self)@),
            scanline_clear(old(self)@),
            old(scheduler).wf(),
        ensures
            ppu_view_wf(final(self)@),
            scanline_clear(final(self)@),
            final(scheduler).wf(),
            final(self)@ == vcounter_checked(old(self)@),
            final(interrupts).flags.bits == flags_if(
                old(interrupts).flags.bits,
                vcounter_irq(old(self)@),
                Interrupts::VCounter.spec_bit(),
            ),
            final(scheduler)@ == sched_poll_if(old(scheduler)@, vcounter_irq(old(self)@)),
            final(interrupts).enable == old(interrupts).enable,
            final(interrupts).master_enable == old(interrupts).master_enable,
    {
        let stat = self.io[4];
        proof {
            lemma_flag_bits(stat);
        }
        if self.io[6] == self.io[5] {
            self.io.set(4, stat | 0x04);
            if stat & 0x20 != 0 {
                interrupts.request_interrupt(Interrupts::VCounter, scheduler);
            }
        } else {
            self.io.set(4, stat & !0x04u8);
        }
    }
}

} // verus!

verus! {

/// The byte that a debug read of the LCD register at `offset` returns: every register reads
/// as stored, write-only ones included; the unused byte at 0x56 reads as 0xFF.
pub open spec fn io_dbg_peek(p: PpuView, offset: int) -> u8 {
    if offset == 0x56 {
        0xFF
    } else {
        p.io[offset]
    }
}

impl PPU {
    /// Debug read from the LCD registers, necessary since most of them are write only.
    pub fn read_io_dbg(&self, address: u32) -> (r: u8)
        requires
            ppu_view_wf(self@),
            LCD_IO_START <= address <= LCD_IO_END,
        ensures
            r == io_dbg_peek(self@, address - LCD_IO_START),
    {
        // The registers are not mirrored, therefore a subtraction instead of a modulo.
        let offset = address - LCD_IO_START;
        if offset == 0x56 {
            0xFF
        } else {
            self.io[offset as usize]
        }
    }

    /// Debug write of a single VRAM byte.
    pub fn write_vram_dbg(&mut self, address: u32, value: u8)
        requires
            ppu_view_wf(old(self)@),
            (address & 0x1FFFF) < VRAM_SIZE,
        ensures
            ppu_view_wf(final(self)@),
            final(self)@ == (PpuView { vram: old(self)@.vram.update((address & 0x1FFFF) as int, value), ..old(self)@ }),
    {
        let addr = (address & 0x1FFFF) as usize;
        self.vram.set(addr, value);
    }
}

} // verus!
