//! Palette RAM, with a cache of the palettes converted to 24 bit colour.

use crate::utils::{u16_to_le, write_le_u16};
use vstd::prelude::*;

verus! {

pub const PALETTE_RAM_SIZE: usize = 1024;

/// Number of palette entries: one per two bytes of palette RAM.
pub const PALETTE_CACHE_SIZE: usize = 512;

/// A pixel colour with an alpha channel.
#[derive(Debug, Clone, Copy)]
pub struct RGBA {
    pub red: u8,
    pub green: u8,
    pub blue: u8,
    pub alpha: u8,
}

impl Default for RGBA {
    fn default() -> (r: RGBA)
        ensures
            r == (RGBA { red: 0, green: 0, blue: 0, alpha: 0 }),
    {
        RGBA { red: 0, green: 0, blue: 0, alpha: 0 }
    }
}

/// 15 Bit RGB color pre-converted to 24 bit RGB
#[derive(Debug, Copy, Clone)]
pub struct Palette {
    pub red: u8,
    pub green: u8,
    pub blue: u8,
}

impl Default for Palette {
    fn default() -> (r: Palette)
        ensures
            r == (Palette { red: 0, green: 0, blue: 0 }),
    {
        Palette { red: 0, green: 0, blue: 0 }
    }
}

impl Palette {
    /// The colour with the given alpha value.
    pub fn to_rgba(self, alpha: u8) -> (r: RGBA)
        ensures
            r == (RGBA { red: self.red, green: self.green, blue: self.blue, alpha }),
    {
        RGBA { red: self.red, green: self.green, blue: self.blue, alpha }
    }
}

/// The 8-bit channel value of a 5-bit channel: the five bits are shifted up and the
/// top two bits repeated below them, so 0 maps to 0 and 31 maps to 255.
pub open spec fn color_5_to_8_spec(color_5: u8) -> u8 {
    (color_5 << 3u8) | (color_5 >> 2u8)
}

/// Widening a five bit colour channel to eight bits scales it: the result is the channel times
/// eight plus its top three bits, so black stays black, full intensity (31) becomes 255, and
/// a brighter channel never gives a darker result.
pub proof fn lemma_color_scaling(a: u8, b: u8)
    requires
        a <= b < 32,
    ensures
        color_5_to_8_spec(a) as int == 8 * a + a / 4,
        color_5_to_8_spec(a) <= color_5_to_8_spec(b),
        color_5_to_8_spec(0) == 0,
        color_5_to_8_spec(31) == 255,
{
    crate::utils::lemma_bit_facts();
    assert(color_5_to_8_spec(b) as int == 8 * b + b / 4);
    assert(color_5_to_8_spec(0) as int == 0);
    assert(color_5_to_8_spec(31u8) as int == 8 * 31int + 31int / 4);
}

/// Convert the 5-bit colour values to 8 bit values which we work with.
pub fn convert_5_to_8_bit_color(color_5: u8) -> (r: u8)
    ensures
        r == color_5_to_8_spec(color_5),
{
    (color_5 << 3u8) | (color_5 >> 2u8)
}

/// The 24 bit palette entry of a 15 bit BGR colour.
pub open spec fn palette_of_color(value: u16) -> Palette {
    Palette {
        red: color_5_to_8_spec((value & 0x1F) as u8),
        green: color_5_to_8_spec(((value >> 5u16) & 0x1F) as u8),
        blue: color_5_to_8_spec(((value >> 10u16) & 0x1F) as u8),
    }
}

/// Convert a 15 bit BGR colour to a 24 bit palette entry.
pub fn color_to_palette(value: u16) -> (r: Palette)
    ensures
        r == palette_of_color(value),
{
    Palette {
        red: convert_5_to_8_bit_color((value & 0x1F) as u8),
        green: convert_5_to_8_bit_color(((value >> 5u16) & 0x1F) as u8),
        blue: convert_5_to_8_bit_color(((value >> 10u16) & 0x1F) as u8),
    }
}

/// The index of a background palette entry in the whole palette RAM: background
/// palettes are the first 256 entries, so the index is kept as it is.
pub open spec fn bg_to_absolute_spec(palette_index: u8) -> u16 {
    palette_index as u16
}

/// Convert a background palette index to an index into the whole palette.
pub fn convert_bg_to_absolute_palette(palette_index: u8) -> (r: u16)
    ensures
        r == bg_to_absolute_spec(palette_index),
        r < 256,
{
    palette_index as u16
}

/// The contents of palette RAM and of its cache.
pub struct PaletteRamView {
    pub ram: Seq<u8>,
    pub cache: Seq<Palette>,
}

#[derive(Debug, Clone)]
pub struct PaletteRam {
    /// The raw bytes used by the emulator for storage
    palette_ram: Vec<u8>,
    /// The persisted palette cache where RGB values are stored for quick lookup
    cache: Vec<Palette>,
}

impl View for PaletteRam {
    type V = PaletteRamView;

    closed spec fn view(&self) -> PaletteRamView {
        PaletteRamView { ram: self.palette_ram@, cache: self.cache@ }
    }
}

impl PaletteRam {
    /// The RAM and the cache have the size of the hardware.
    pub open spec fn wf(&self) -> bool {
        &&& self@.ram.len() == PALETTE_RAM_SIZE
        &&& self@.cache.len() == PALETTE_CACHE_SIZE
    }

    /// Zeroed palette RAM with a black cache.
    pub fn new() -> (r: PaletteRam)
        ensures
            r.wf(),
            forall|i: int| 0 <= i < PALETTE_RAM_SIZE ==> r@.ram[i] == 0,
            forall|i: int|
                0 <= i < PALETTE_CACHE_SIZE ==> r@.cache[i] == (Palette { red: 0, green: 0, blue: 0 }),
    {
        PaletteRam {
            palette_ram: vec![0u8; PALETTE_RAM_SIZE],
            cache: vec![Palette { red: 0, green: 0, blue: 0 }; PALETTE_CACHE_SIZE],
        }
    }

    /// Get a complete palette from the palette cache.
    pub fn get_palette(&self, index: usize) -> (r: Palette)
        requires
            self.wf(),
            index < PALETTE_CACHE_SIZE,
        ensures
            r == self@.cache[index as int],
    {
        self.cache[index]
    }

    /// The raw bytes of palette RAM.
    pub fn ram(&self) -> (r: &Vec<u8>)
        ensures
            r@ == self@.ram,
    {
        &self.palette_ram
    }

    /// The cached palettes.
    pub fn cache(&self) -> (r: &Vec<Palette>)
        ensures
            r@ == self@.cache,
    {
        &self.cache
    }

    /// Read one byte; palette RAM is mirrored every 1KB.
    pub fn read_palette(&self, address: u32) -> (r: u8)
        requires
            self.wf(),
        ensures
            r == self@.ram[(address % 1024) as int],
    {
        self.palette_ram[(address % 1024) as usize]
    }

    /// When writing to palette ram with only a u8 the value is written to both the upper and lower bytes.
    pub fn write_palette(&mut self, address: u32, value: u8)
        requires
            old(self).wf(),
            address % 1024 != 1023,
        ensures
            final(self).wf(),
            final(self)@.ram == write_le_u16(
                old(self)@.ram,
                (address % 1024) as int,
                (value as u16) << 8u16 | value as u16,
            ),
            final(self)@.cache == old(self)@.cache.update(
                (address % 1024) as int / 2,
                palette_of_color((value as u16) << 8u16 | value as u16),
            ),
    {
        let final_value: u16 = ((value as u16) << 8u16) | value as u16;
        self.write_palette_16(address, final_value);
    }

    /// Write two bytes and update the cached palette entry of the written index.
    pub fn write_palette_16(&mut self, address: u32, value: u16)
        requires
            old(self).wf(),
            address % 1024 != 1023,
        ensures
            final(self).wf(),
            final(self)@.ram == write_le_u16(old(self)@.ram, (address % 1024) as int, value),
            final(self)@.cache == old(self)@.cache.update(
                (address % 1024) as int / 2,
                palette_of_color(value),
            ),
    {
        let addr = (address % 1024) as usize;
        let (b0, b1) = u16_to_le(value);
        self.palette_ram.set(addr, b0);
        self.palette_ram.set(addr + 1, b1);
        self.cache.set(addr / 2, color_to_palette(value));
    }
}

impl Default for PaletteRam {
    fn default() -> (r: PaletteRam)
        ensures
            r.wf(),
    {
        PaletteRam::new()
    }
}

} // verus!
