//! System control registers: wait states, the post boot flag and halt control.

use crate::scheduler::{EmuTime, EventTag, Scheduler, SchedulerView};
use crate::utils::{byte_of_u32, set_byte_u32, u32_le_bytes, u32_with_byte};
use vstd::prelude::*;

verus! {

pub const WAIT_CNT_START: u32 = 0x0400_0204;

pub const WAIT_CNT_END: u32 = 0x0400_0207;

pub const POST_BOOT_FLAG_ADDR: u32 = 0x0400_0300;

pub const HALT_CNT_ADDR: u32 = 0x0400_0301;

/// Bit of the halt control register that selects stop (set) rather than halt (clear).
pub const POWER_DOWN_MODE: u8 = 0x80;

/// Game pak wait state control.
#[derive(Debug, Copy, Clone)]
pub struct WaitstateControl {
    pub bits: u32,
}

/// After initial reset, the GBA BIOS initializes the register to `0x1`.
#[derive(Debug, Copy, Clone)]
pub struct PostBootFlag {
    pub bits: u8,
}

/// Bit 7: 0 = Halt, 1 = Stop.
#[derive(Debug, Copy, Clone)]
pub struct HaltControl {
    pub bits: u8,
}

/// Whether a write to halt control halts or stops the CPU.
#[derive(Debug, Copy, Clone, PartialEq, Eq, Structural)]
pub enum HaltType {
    Halt,
    Stop,
}

pub struct GbaSystemControl {
    wait_control: WaitstateControl,
    post_boot: PostBootFlag,
    halt_control: HaltControl,
    pub is_halted: bool,
}

/// The registers of the system control.
pub struct SystemControlView {
    pub wait_control: u32,
    pub post_boot: u8,
    pub halt_control: u8,
    pub is_halted: bool,
}

impl View for GbaSystemControl {
    type V = SystemControlView;

    closed spec fn view(&self) -> SystemControlView {
        SystemControlView {
            wait_control: self.wait_control.bits,
            post_boot: self.post_boot.bits,
            halt_control: self.halt_control.bits,
            is_halted: self.is_halted,
        }
    }
}

impl GbaSystemControl {
    /// Take the processor out of HALT mode.
    pub fn resume(&mut self)
        ensures
            final(self)@ == (SystemControlView { is_halted: false, ..old(self)@ }),
    {
        self.is_halted = false;
    }
}

impl GbaSystemControl {
    /// All registers zero and the CPU running.
    pub fn new() -> (r: GbaSystemControl)
        ensures
            r@ == (SystemControlView { wait_control: 0, post_boot: 0, halt_control: 0, is_halted: false }),
    {
        GbaSystemControl {
            wait_control: WaitstateControl { bits: 0 },
            post_boot: PostBootFlag { bits: 0 },
            halt_control: HaltControl { bits: 0 },
            is_halted: false,
        }
    }

    /// Read a byte of the wait state control register.
    pub fn read_wait_cnt(&self, address: u32) -> (r: u8)
        requires
            WAIT_CNT_START <= address <= WAIT_CNT_END,
        ensures
            r == u32_le_bytes(self@.wait_control)[address - WAIT_CNT_START],
    {
        byte_of_u32(self.wait_control.bits, (address - WAIT_CNT_START) as usize)
    }

    /// Read the post boot flag.
    pub fn read_post_boot(&self) -> (r: u8)
        ensures
            r == self@.post_boot,
    {
        self.post_boot.bits
    }

    /// Write a byte of the wait state control register.
    pub fn write_wait_cnt(&mut self, address: u32, value: u8)
        requires
            WAIT_CNT_START <= address <= WAIT_CNT_END,
        ensures
            final(self)@ == (SystemControlView {
                wait_control: u32_with_byte(old(self)@.wait_control, address - WAIT_CNT_START, value),
                ..old(self)@
            }),
    {
        let addr = (address - WAIT_CNT_START) as usize;
        self.wait_control.bits = set_byte_u32(self.wait_control.bits, addr, value);
    }

    /// Write the post boot flag.
    pub fn write_post_flag(&mut self, value: u8)
        ensures
            final(self)@ == (SystemControlView { post_boot: value, ..old(self)@ }),
    {
        self.post_boot = PostBootFlag { bits: value };
    }

    /// Upon writes to `Halt Control` the CPU is either stopped or halted.
    ///
    /// A halt schedules a `Halt` event onto the scheduler, which skips until the CPU is no longer halted.
    pub fn write_halt_control(&mut self, value: u8, scheduler: &mut Scheduler) -> (r: HaltType)
        requires
            old(scheduler).wf(),
        ensures
            final(scheduler).wf(),
            value & POWER_DOWN_MODE != 0 ==> {
                &&& r == HaltType::Stop
                &&& final(self)@ == (SystemControlView { halt_control: value, ..old(self)@ })
                &&& final(scheduler)@ == old(scheduler)@
            },
            value & POWER_DOWN_MODE == 0 ==> {
                &&& r == HaltType::Halt
                &&& final(self)@ == (SystemControlView {
                    halt_control: value,
                    is_halted: true,
                    ..old(self)@
                })
                &&& final(scheduler)@ == (SchedulerView {
                    events: old(scheduler)@.events.insert((0, EventTag::Halt.spec_code())),
                    ..old(scheduler)@
                })
            },
    {
        self.halt_control = HaltControl { bits: value };
        if value & POWER_DOWN_MODE != 0 {
            HaltType::Stop
        } else {
            scheduler.schedule_event(EventTag::Halt, EmuTime(0));
            self.is_halted = true;
            HaltType::Halt
        }
    }
}

} // verus!
