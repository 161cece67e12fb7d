//! Core of a Game Boy Advance emulator: the ARM7TDMI processor, the memory bus,
//! the picture processing unit and the event scheduler.

pub mod emulator;
pub mod joypad;
pub mod logging;
pub mod scheduler;
pub mod utils;

pub use emulator::ppu::{DISPLAY_HEIGHT, DISPLAY_WIDTH};
pub use joypad::InputKeys;

use vstd::prelude::*;

verus! {

/// The total framebuffer size that would be returned each frame.
/// Format is [crate::emulator::ppu::palette::RGBA].
pub const FRAMEBUFFER_SIZE: usize = 38400;

/// The clock speed of the ARM7TDMI CPU in Hz.
pub const CLOCK_SPEED: u32 = 16_777_216;

/// The clock cycles of one frame: the clock speed divided by the refresh rate of 59.7275 Hz.
pub const CLOCKS_PER_FRAME: u32 = 280896;

/// The framebuffer holds one pixel for every point of the display.
pub proof fn lemma_framebuffer_size()
    ensures
        FRAMEBUFFER_SIZE == DISPLAY_WIDTH * DISPLAY_HEIGHT,
{
}

} // verus!
