//! The interrupt controller: enable, request and master enable registers.

use crate::scheduler::{EmuTime, EventTag, Scheduler, SchedulerView};
use crate::utils::{byte_of_u16, byte_of_u32, set_byte_u16, set_byte_u32, u16_le_bytes, u16_with_byte, u32_le_bytes, u32_with_byte};
use vstd::prelude::*;

verus! {

pub const IE_START: u32 = 0x04000200;

pub const IE_END: u32 = 0x04000201;

pub const IF_START: u32 = 0x04000202;

pub const IF_END: u32 = 0x04000203;

pub const IME_START: u32 = 0x04000208;

pub const IME_END: u32 = 0x0400020B;

/// If a bit is clear then the matching interrupt is disabled.
///
/// Bits 0..=13: VBlank, HBlank, VCounter match, Timer 0..=3, Serial, DMA 0..=3, Keypad, GamePak.
#[derive(Debug, Copy, Clone)]
pub struct InterruptEnable {
    pub bits: u16,
}

/// If a bit is set then the matching interrupt is requested; same layout as [InterruptEnable].
#[derive(Debug, Copy, Clone)]
pub struct InterruptRequestFlags {
    pub bits: u16,
}

/// Bit 0: if clear, all interrupts are disabled.
#[derive(Debug, Copy, Clone)]
pub struct InterruptMasterEnable {
    pub bits: u32,
}

impl InterruptMasterEnable {
    /// Whether interrupts are enabled at all.
    pub fn interrupt_enable(&self) -> (r: bool)
        ensures
            r == (self.bits & 1 == 1),
    {
        self.bits & 1 == 1
    }
}

/// Interrupts that can be triggered.
///
/// Their bit is the one they set in the [InterruptRequestFlags].
#[derive(Debug, Copy, Clone, PartialEq, Eq, Structural)]
pub enum Interrupts {
    GamePak,
    Keypad,
    DMA3,
    DMA2,
    DMA1,
    DMA0,
    Serial,
    Timer3,
    Timer2,
    Timer1,
    Timer0,
    VCounter,
    Hblank,
    Vblank,
}

impl Interrupts {
    /// The request flag bit of the interrupt.
    pub open spec fn spec_bit(self) -> u16 {
        match self {
            Interrupts::GamePak => 0x2000,
            Interrupts::Keypad => 0x1000,
            Interrupts::DMA3 => 0x0800,
            Interrupts::DMA2 => 0x0400,
            Interrupts::DMA1 => 0x0200,
            Interrupts::DMA0 => 0x0100,
            Interrupts::Serial => 0x0080,
            Interrupts::Timer3 => 0x0040,
            Interrupts::Timer2 => 0x0020,
            Interrupts::Timer1 => 0x0010,
            Interrupts::Timer0 => 0x0008,
            Interrupts::VCounter => 0x0004,
            Interrupts::Hblank => 0x0002,
            Interrupts::Vblank => 0x0001,
        }
    }

    /// The request flag bit of the interrupt.
    pub fn bit(self) -> (r: u16)
        ensures
            r == self.spec_bit(),
    {
        match self {
            Interrupts::GamePak => 0x2000,
            Interrupts::Keypad => 0x1000,
            Interrupts::DMA3 => 0x0800,
            Interrupts::DMA2 => 0x0400,
            Interrupts::DMA1 => 0x0200,
            Interrupts::DMA0 => 0x0100,
            Interrupts::Serial => 0x0080,
            Interrupts::Timer3 => 0x0040,
            Interrupts::Timer2 => 0x0020,
            Interrupts::Timer1 => 0x0010,
            Interrupts::Timer0 => 0x0008,
            Interrupts::VCounter => 0x0004,
            Interrupts::Hblank => 0x0002,
            Interrupts::Vblank => 0x0001,
        }
    }
}

/// The scheduler with an interrupt poll queued to run first.
pub open spec fn with_poll_scheduled(s: SchedulerView) -> SchedulerView {
    SchedulerView { events: s.events.insert((0, EventTag::PollInterrupt.spec_code())), ..s }
}

#[derive(Debug)]
pub struct InterruptManager {
    pub master_enable: InterruptMasterEnable,
    pub enable: InterruptEnable,
    pub flags: InterruptRequestFlags,
}

impl InterruptManager {
    /// All interrupts disabled and none requested.
    pub fn new() -> (r: InterruptManager)
        ensures
            r.master_enable.bits == 0,
            r.enable.bits == 0,
            r.flags.bits == 0,
    {
        InterruptManager {
            master_enable: InterruptMasterEnable { bits: 0 },
            enable: InterruptEnable { bits: 0 },
            flags: InterruptRequestFlags { bits: 0 },
        }
    }

    /// Read a byte of the interrupt enable register.
    pub fn read_ie(&self, address: u32) -> (r: u8)
        requires
            IE_START <= address <= IE_END,
        ensures
            r == u16_le_bytes(self.enable.bits)[address - IE_START],
    {
        byte_of_u16(self.enable.bits, (address - IE_START) as usize)
    }

    /// Read a byte of the interrupt request register.
    pub fn read_if(&self, address: u32) -> (r: u8)
        requires
            IF_START <= address <= IF_END,
        ensures
            r == u16_le_bytes(self.flags.bits)[address - IF_START],
    {
        byte_of_u16(self.flags.bits, (address - IF_START) as usize)
    }

    /// Read a byte of the master enable register.
    pub fn read_ime(&self, address: u32) -> (r: u8)
        requires
            IME_START <= address <= IME_END,
        ensures
            r == u32_le_bytes(self.master_enable.bits)[address - IME_START],
    {
        byte_of_u32(self.master_enable.bits, (address - IME_START) as usize)
    }

    /// Write a byte of the interrupt enable register.
    pub fn write_ie(&mut self, address: u32, value: u8)
        ensures
            final(self).enable.bits == u16_with_byte(old(self).enable.bits, (address % 2) as int, value),
            final(self).flags == old(self).flags,
            final(self).master_enable == old(self).master_enable,
    {
        self.enable.bits = set_byte_u16(self.enable.bits, (address % 2) as usize, value);
    }

    /// Write a byte of the interrupt request register: writing a `1` to a bit that was set
    /// acknowledges that interrupt and clears the bit. An interrupt poll is scheduled, since
    /// another interrupt may still be pending.
    pub fn write_if(&mut self, address: u32, value: u8, scheduler: &mut Scheduler)
        requires
            IF_START <= address <= IF_END,
            old(scheduler).wf(),
        ensures
            final(self).flags.bits == u16_with_byte(
                old(self).flags.bits,
                (address % 2) as int,
                u16_le_bytes(old(self).flags.bits)[address - IF_START] & !value,
            ),
            final(self).enable == old(self).enable,
            final(self).master_enable == old(self).master_enable,
            final(scheduler).wf(),
            final(scheduler)@ == with_poll_scheduled(old(scheduler)@),
    {
        let current_value = self.read_if(address);
        let new_value = current_value & !value;
        self.flags.bits = set_byte_u16(self.flags.bits, (address % 2) as usize, new_value);
        scheduler.schedule_event(EventTag::PollInterrupt, EmuTime(0));
    }

    /// Write a byte of the master enable register.
    pub fn write_ime(&mut self, address: u32, value: u8)
        ensures
            final(self).master_enable.bits == u32_with_byte(
                old(self).master_enable.bits,
                (address % 4) as int,
                value,
            ),
            final(self).enable == old(self).enable,
            final(self).flags == old(self).flags,
    {
        self.master_enable.bits = set_byte_u32(self.master_enable.bits, (address % 4) as usize, value);
    }

    /// Request an interrupt and schedule a poll so the CPU checks it first.
    ///
    /// Note that if the corresponding bit in `IE` is not set, the interrupt will not be handled by the CPU.
    pub fn request_interrupt(&mut self, interrupt: Interrupts, scheduler: &mut Scheduler)
        requires
            old(scheduler).wf(),
        ensures
            final(self).flags.bits == old(self).flags.bits | interrupt.spec_bit(),
            final(self).enable == old(self).enable,
            final(self).master_enable == old(self).master_enable,
            final(scheduler).wf(),
            final(scheduler)@ == with_poll_scheduled(old(scheduler)@),
    {
        self.flags.bits = self.flags.bits | interrupt.bit();
        scheduler.schedule_event(EventTag::PollInterrupt, EmuTime(0));
    }
}

} // verus!
