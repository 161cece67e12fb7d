//! The LCD registers, each decoded from its raw bits.

use vstd::prelude::*;

verus! {

pub const LCD_CONTROL_START: u32 = 0x0400_0000;

pub const LCD_CONTROL_END: u32 = 0x0400_0001;

/// Note, this register is not emulated as nothing uses it.
pub const GREEN_SWAP_START: u32 = 0x0400_0002;

pub const GREEN_SWAP_END: u32 = 0x0400_0003;

pub const LCD_STATUS_START: u32 = 0x0400_0004;

pub const LCD_STATUS_END: u32 = 0x0400_0005;

pub const LCD_VERTICAL_COUNTER_START: u32 = 0x0400_0006;

pub const LCD_VERTICAL_COUNTER_END: u32 = 0x0400_0007;

/// | Mode | Rot/Scal | Layers | Size               | Tiles | Colours      |
/// |------|----------|--------|--------------------|-------|--------------|
/// | 0    | No       | 0123   | 256x256..512x512   | 1024  | 16/16..256/1 |
/// | 1    | Mixed    | 012-   | (BG0,BG1 as Mode 0, BG2 as Mode 2)                 |
/// | 2    | Yes      | --23   | 128x128..1024x1024 | 256   | 256/1        |
/// | 3    | Yes      | --2-   | 240x160            | 1     | 32768        |
/// | 4    | Yes      | --2-   | 240x160            | 2     | 256/1        |
/// | 5    | Yes      | --2-   | 160x128            | 2     | 32768        |
#[derive(Debug, PartialEq, Eq, Structural, Clone, Copy)]
pub enum BgMode {
    Mode0,
    Mode1,
    Mode2,
    Mode3,
    Mode4,
    Mode5,
}

/// The background mode named by the three mode bits, `None` for the two unused patterns.
pub open spec fn bg_mode_of(bits: u16) -> Option<BgMode> {
    let m = bits & 7;
    if m == 0 {
        Some(BgMode::Mode0)
    } else if m == 1 {
        Some(BgMode::Mode1)
    } else if m == 2 {
        Some(BgMode::Mode2)
    } else if m == 3 {
        Some(BgMode::Mode3)
    } else if m == 4 {
        Some(BgMode::Mode4)
    } else if m == 5 {
        Some(BgMode::Mode5)
    } else {
        None
    }
}

/// LCD control (DISPCNT).
///
/// Bits 0..=2 background mode, bit 4 display frame select, bits 8..=11 display of
/// backgrounds 0..=3, bit 12 display of objects.
#[derive(Debug, Copy, Clone)]
pub struct LcdControl {
    pub bits: u16,
}

impl LcdControl {
    pub fn new() -> (r: LcdControl)
        ensures
            r.bits == 0,
    {
        LcdControl { bits: 0 }
    }

    /// The background mode; `None` for the two unused bit patterns.
    pub fn bg_mode(&self) -> (r: Option<BgMode>)
        ensures
            r == bg_mode_of(self.bits),
    {
        let m = self.bits & 7;
        if m == 0 {
            Some(BgMode::Mode0)
        } else if m == 1 {
            Some(BgMode::Mode1)
        } else if m == 2 {
            Some(BgMode::Mode2)
        } else if m == 3 {
            Some(BgMode::Mode3)
        } else if m == 4 {
            Some(BgMode::Mode4)
        } else if m == 5 {
            Some(BgMode::Mode5)
        } else {
            None
        }
    }

    /// Display frame select (bit 4), for the bitmap modes 4 and 5.
    pub fn display_frame_select(&self) -> (r: bool)
        ensures
            r == (self.bits & 0x10 != 0),
    {
        self.bits & 0x10 != 0
    }

    /// Whether background `bg` is displayed (bits 8..=11).
    pub fn screen_display_bg(&self, bg: usize) -> (r: bool)
        requires
            bg < 4,
        ensures
            r == bg_displayed(self.bits, bg as int),
    {
        let mask: u16 = if bg == 0 {
            0x100
        } else if bg == 1 {
            0x200
        } else if bg == 2 {
            0x400
        } else {
            0x800
        };
        self.bits & mask != 0
    }
}

/// Whether the control register displays background `bg`.
pub open spec fn bg_displayed(disp_cnt: u16, bg: int) -> bool {
    disp_cnt & (if bg == 0 {
        0x100u16
    } else if bg == 1 {
        0x200u16
    } else if bg == 2 {
        0x400u16
    } else {
        0x800u16
    }) != 0
}

/// LCD status (DISPSTAT).
///
/// Bit 0 VBlank flag, bit 1 HBlank flag, bit 2 V-counter match flag, bits 3..=5 the
/// interrupt enables of these three, bits 8..=15 the V-count setting (LYC).
#[derive(Debug, Copy, Clone)]
pub struct LcdStatus {
    pub bits: u16,
}

pub const STAT_VBLANK_FLAG: u16 = 0x01;

pub const STAT_HBLANK_FLAG: u16 = 0x02;

pub const STAT_VCOUNTER_FLAG: u16 = 0x04;

pub const STAT_VBLANK_IRQ: u16 = 0x08;

pub const STAT_HBLANK_IRQ: u16 = 0x10;

pub const STAT_VCOUNTER_IRQ: u16 = 0x20;

/// Indicates the currently drawn scanline (VCOUNT), in its low byte.
///
/// Values in range from 160..227 indicate 'hidden' scanlines within VBlank area.
#[derive(Debug, Copy, Clone)]
pub struct VerticalCounter {
    pub bits: u16,
}

impl VerticalCounter {
    pub fn new() -> (r: VerticalCounter)
        ensures
            r.bits == 0,
    {
        VerticalCounter { bits: 0 }
    }

    /// The current scanline.
    pub fn current_scanline(&self) -> (r: u8)
        ensures
            r == self.bits as u8,
    {
        self.bits as u8
    }
}

/// Background control (BGxCNT).
///
/// Bits 0..=1 priority (0 highest), 2..=3 character base block (16KB units), 6 mosaic,
/// 7 colours (0 = 16 palettes of 16, 1 = one of 256), 8..=12 screen base block (2KB units),
/// 13 display area overflow, 14..=15 screen size.
#[derive(Debug, Copy, Clone)]
pub struct BgControl {
    pub bits: u16,
}

/// Background offset (BGxHOFS / BGxVOFS): the offset in bits 0..=8.
#[derive(Debug, Copy, Clone)]
pub struct BgScrolling {
    pub bits: u16,
}

/// Window dimensions: right-most (or bottom-most) coordinate plus one in the low byte,
/// left-most (or top-most) coordinate in the high byte.
#[derive(Debug, Copy, Clone)]
pub struct WindowDimensions {
    pub bits: u16,
}

impl WindowDimensions {
    pub fn new() -> (r: WindowDimensions)
        ensures
            r.bits == 0,
    {
        WindowDimensions { bits: 0 }
    }

    /// Rightmost coordinate of window plus 1, or bottom-most coordinate plus 1.
    pub fn right_bottom_most(&self) -> (r: u8)
        ensures
            r == self.bits as u8,
    {
        self.bits as u8
    }

    /// Leftmost or top-most coordinate of window.
    pub fn left_top_most(&self) -> (r: u8)
        ensures
            r == (self.bits >> 8u16) as u8,
    {
        (self.bits >> 8u16) as u8
    }
}

/// The colour special effects of BLDCNT bits 6..=7.
#[derive(Debug, PartialEq, Eq, Structural, Clone, Copy)]
pub enum ColorSpecialEffect {
    Disabled,
    AlphaBlending,
    BrightnessIncrease,
    BrightnessDecrease,
}

impl ColorSpecialEffect {
    /// The effect selected by bits 6..=7 of a colour special selection register.
    pub fn from_selection(bits: u16) -> (r: ColorSpecialEffect)
        ensures
            (bits >> 6u16) & 3 == 0 ==> r == ColorSpecialEffect::Disabled,
            (bits >> 6u16) & 3 == 1 ==> r == ColorSpecialEffect::AlphaBlending,
            (bits >> 6u16) & 3 == 2 ==> r == ColorSpecialEffect::BrightnessIncrease,
            (bits >> 6u16) & 3 == 3 ==> r == ColorSpecialEffect::BrightnessDecrease,
    {
        let e = (bits >> 6u16) & 3;
        if e == 0 {
            ColorSpecialEffect::Disabled
        } else if e == 1 {
            ColorSpecialEffect::AlphaBlending
        } else if e == 2 {
            ColorSpecialEffect::BrightnessIncrease
        } else {
            ColorSpecialEffect::BrightnessDecrease
        }
    }
}

} // verus!
