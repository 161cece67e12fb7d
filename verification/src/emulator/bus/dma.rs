//! The four DMA channels: their registers, and the transfer of a block between memories.

use crate::emulator::bus::interrupts::{with_poll_scheduled, Interrupts};
use crate::emulator::bus::{
    bus_after_read16, bus_after_read32, bus_peek16, bus_peek32, bus_write16_spec, bus_write32_spec, Bus, BusView,
};
use crate::emulator::cpu::{CpuView, CPU};
use crate::scheduler::{Scheduler, SchedulerView};
use crate::utils::{
    byte_of_u16, byte_of_u32, set_byte_u16, set_byte_u32, u16_le_bytes, u16_with_byte, u32_le_bytes, u32_with_byte,
};
use vstd::prelude::*;

verus! {

pub const DMA_CHANNEL_SIZE: usize = 12;

pub const DMA_DEST_ADDR_OFFSET: usize = 4;

pub const DMA_WORD_CNT_OFFSET: usize = 8;

pub const DMA_CONTROL_OFFSET: usize = 10;

pub const DMA_0_ADDR_START: u32 = 0x0400_00B0;

pub const DMA_0_ADDR_END: u32 = 0x0400_00BB;

pub const DMA_1_ADDR_START: u32 = 0x0400_00BC;

pub const DMA_1_ADDR_END: u32 = 0x0400_00C7;

pub const DMA_2_ADDR_START: u32 = 0x0400_00C8;

pub const DMA_2_ADDR_END: u32 = 0x0400_00D3;

pub const DMA_3_ADDR_START: u32 = 0x0400_00D4;

pub const DMA_3_ADDR_END: u32 = 0x0400_00DF;

/// How a DMA address moves after each unit.
#[derive(Debug, PartialEq, Eq, Structural, Clone, Copy)]
pub enum DmaAddrControl {
    Increment,
    Decrement,
    Fixed,
    IncrReload,
}

impl DmaAddrControl {
    /// The control of the two bits `bits & 3`.
    pub open spec fn spec_from_bits(bits: u16) -> DmaAddrControl {
        if bits & 3 == 0 {
            DmaAddrControl::Increment
        } else if bits & 3 == 1 {
            DmaAddrControl::Decrement
        } else if bits & 3 == 2 {
            DmaAddrControl::Fixed
        } else {
            DmaAddrControl::IncrReload
        }
    }

    /// The step of an address per unit of `size` bytes.
    pub open spec fn spec_offset(self, size: i32) -> i32 {
        match self {
            DmaAddrControl::Increment | DmaAddrControl::IncrReload => size,
            DmaAddrControl::Decrement => (-size) as i32,
            DmaAddrControl::Fixed => 0,
        }
    }

    /// The step of an address per 32-bit unit.
    pub fn to_address_offset_u32(self) -> (r: i32)
        ensures
            r == self.spec_offset(4),
    {
        match self {
            DmaAddrControl::Increment | DmaAddrControl::IncrReload => 4,
            DmaAddrControl::Decrement => -4,
            DmaAddrControl::Fixed => 0,
        }
    }

    /// The step of an address per 16-bit unit.
    pub fn to_address_offset_u16(self) -> (r: i32)
        ensures
            r == self.spec_offset(2),
    {
        match self {
            DmaAddrControl::Increment | DmaAddrControl::IncrReload => 2,
            DmaAddrControl::Decrement => -2,
            DmaAddrControl::Fixed => 0,
        }
    }
}

/// The unit of a transfer.
#[derive(Debug, PartialEq, Eq, Structural, Clone, Copy)]
pub enum DmaTransferType {
    U16,
    U32,
}

/// When a channel starts.
#[derive(Debug, PartialEq, Eq, Structural, Clone, Copy)]
pub enum DmaStartTiming {
    Immediately,
    VBlank,
    HBlank,
    Special,
}

impl DmaStartTiming {
    /// The timing of the two bits `bits & 3`.
    pub open spec fn spec_from_bits(bits: u16) -> DmaStartTiming {
        if bits & 3 == 0 {
            DmaStartTiming::Immediately
        } else if bits & 3 == 1 {
            DmaStartTiming::VBlank
        } else if bits & 3 == 2 {
            DmaStartTiming::HBlank
        } else {
            DmaStartTiming::Special
        }
    }
}

/// The control register of a channel.
#[derive(Debug, Copy, Clone)]
pub struct DmaControl {
    pub bits: u16,
}

impl DmaControl {
    /// The destination address control, bits `5..=6`.
    pub fn dest_addr_control(&self) -> (r: DmaAddrControl)
        ensures
            r == DmaAddrControl::spec_from_bits(self.bits >> 5u16),
    {
        let b = (self.bits >> 5u16) & 3;
        if b == 0 {
            DmaAddrControl::Increment
        } else if b == 1 {
            DmaAddrControl::Decrement
        } else if b == 2 {
            DmaAddrControl::Fixed
        } else {
            DmaAddrControl::IncrReload
        }
    }

    /// The source address control, bits `7..=8`.
    pub fn src_addr_control(&self) -> (r: DmaAddrControl)
        ensures
            r == DmaAddrControl::spec_from_bits(self.bits >> 7u16),
    {
        let b = (self.bits >> 7u16) & 3;
        if b == 0 {
            DmaAddrControl::Increment
        } else if b == 1 {
            DmaAddrControl::Decrement
        } else if b == 2 {
            DmaAddrControl::Fixed
        } else {
            DmaAddrControl::IncrReload
        }
    }

    /// The transfer unit, bit 10.
    pub fn dma_transfer_type(&self) -> (r: DmaTransferType)
        ensures
            r == (if self.bits & 0x400 != 0 {
                DmaTransferType::U32
            } else {
                DmaTransferType::U16
            }),
    {
        if self.bits & 0x400 != 0 {
            DmaTransferType::U32
        } else {
            DmaTransferType::U16
        }
    }

    /// The start timing, bits `12..=13`.
    pub fn dma_start_timing(&self) -> (r: DmaStartTiming)
        ensures
            r == DmaStartTiming::spec_from_bits(self.bits >> 12u16),
    {
        let b = (self.bits >> 12u16) & 3;
        if b == 0 {
            DmaStartTiming::Immediately
        } else if b == 1 {
            DmaStartTiming::VBlank
        } else if b == 2 {
            DmaStartTiming::HBlank
        } else {
            DmaStartTiming::Special
        }
    }

    /// Whether the end of the transfer requests an interrupt, bit 14.
    pub fn irq_on_end_of_word_count(&self) -> (r: bool)
        ensures
            r == (self.bits & 0x4000 != 0),
    {
        self.bits & 0x4000 != 0
    }

    /// Whether the channel is enabled, bit 15.
    pub fn dma_enable(&self) -> (r: bool)
        ensures
            r == (self.bits & 0x8000 != 0),
    {
        self.bits & 0x8000 != 0
    }
}

/// The abstract state of a channel: its registers and the transfer under way.
pub struct DmaChannelView {
    pub source: u32,
    pub dest: u32,
    pub word_count: u16,
    pub control: u16,
    pub transfer_source: u32,
    pub transfer_dest: u32,
    pub transfer_length: u32,
}

/// The transfer under way of a channel.
#[derive(Debug, Clone, Copy)]
pub struct DmaTransferState {
    pub source_address: u32,
    pub dest_address: u32,
    pub length: u32,
}

/// One DMA channel.
#[derive(Debug, Clone, Copy)]
pub struct DmaChannel {
    pub source_address: u32,
    pub dest_address: u32,
    pub word_count: u16,
    pub control: DmaControl,
    pub current_transfer: DmaTransferState,
}

impl View for DmaChannel {
    type V = DmaChannelView;

    open spec fn view(&self) -> DmaChannelView {
        DmaChannelView {
            source: self.source_address,
            dest: self.dest_address,
            word_count: self.word_count,
            control: self.control.bits,
            transfer_source: self.current_transfer.source_address,
            transfer_dest: self.current_transfer.dest_address,
            transfer_length: self.current_transfer.length,
        }
    }
}

/// The source address mask of channel `idx`: 27 bits for channel 0, 28 for the others.
pub open spec fn source_mask(idx: int) -> u32 {
    if idx == 0 {
        0x07FF_FFFF
    } else {
        0x0FFF_FFFF
    }
}

/// The destination address mask of channel `idx`: 28 bits for channel 3, 27 for the others.
pub open spec fn dest_mask(idx: int) -> u32 {
    if idx == 3 {
        0x0FFF_FFFF
    } else {
        0x07FF_FFFF
    }
}

/// The word count mask of channel `idx`: 16 bits for channel 3, 14 for the others.
pub open spec fn count_mask(idx: int) -> u32 {
    if idx == 3 {
        0xFFFF
    } else {
        0x3FFF
    }
}

/// The number of units a channel transfers: a zero count means the largest count.
pub open spec fn transfer_count(word_count: u16, idx: int) -> u32 {
    let c = word_count as u32 & count_mask(idx);
    if c == 0 {
        (count_mask(idx) + 1) as u32
    } else {
        c
    }
}

/// A channel with all registers zero.
pub open spec fn idle_channel() -> DmaChannelView {
    DmaChannelView {
        source: 0,
        dest: 0,
        word_count: 0,
        control: 0,
        transfer_source: 0,
        transfer_dest: 0,
        transfer_length: 0,
    }
}

/// A byte write to the registers of channel `idx` at `offset`. Setting the enable bit
/// latches the masked addresses and count into the transfer.
pub open spec fn channel_write_spec(ch: DmaChannelView, offset: int, value: u8, idx: int) -> DmaChannelView {
    if offset < 4 {
        DmaChannelView { source: u32_with_byte(ch.source, offset, value), ..ch }
    } else if offset < 8 {
        DmaChannelView { dest: u32_with_byte(ch.dest, offset - 4, value), ..ch }
    } else if offset < 10 {
        DmaChannelView { word_count: u16_with_byte(ch.word_count, offset - 8, value), ..ch }
    } else {
        let c = u16_with_byte(ch.control, offset - 10, value);
        if c & 0x8000 != 0 && ch.control & 0x8000 == 0 {
            DmaChannelView {
                control: c,
                transfer_source: ch.source & source_mask(idx),
                transfer_dest: ch.dest & dest_mask(idx),
                transfer_length: transfer_count(ch.word_count, idx),
                ..ch
            }
        } else {
            DmaChannelView { control: c, ..ch }
        }
    }
}

/// The byte of the registers of a channel at `offset`, write-only ones included.
pub open spec fn channel_read_spec(ch: DmaChannelView, offset: int) -> u8 {
    if offset < 4 {
        u32_le_bytes(ch.source)[offset]
    } else if offset < 8 {
        u32_le_bytes(ch.dest)[offset - 4]
    } else if offset < 10 {
        u16_le_bytes(ch.word_count)[offset - 8]
    } else {
        u16_le_bytes(ch.control)[offset - 10]
    }
}

impl DmaChannel {
    /// A channel with all registers zero.
    pub fn new() -> (r: DmaChannel)
        ensures
            r@ == idle_channel(),
    {
        DmaChannel {
            source_address: 0,
            dest_address: 0,
            word_count: 0,
            control: DmaControl { bits: 0 },
            current_transfer: DmaTransferState { source_address: 0, dest_address: 0, length: 0 },
        }
    }

    /// Write a byte of the channel's registers.
    pub fn write(&mut self, offset: usize, value: u8, _scheduler: &mut Scheduler, channel_idx: usize)
        requires
            offset < DMA_CHANNEL_SIZE,
            channel_idx < 4,
        ensures
            final(self)@ == channel_write_spec(old(self)@, offset as int, value, channel_idx as int),
            final(_scheduler)@ == old(_scheduler)@,
    {
        if offset < 4 {
            self.source_address = set_byte_u32(self.source_address, offset, value);
        } else if offset < 8 {
            self.dest_address = set_byte_u32(self.dest_address, offset - 4, value);
        } else if offset < 10 {
            self.word_count = set_byte_u16(self.word_count, offset - 8, value);
        } else {
            let old = self.control;
            self.control.bits = set_byte_u16(self.control.bits, offset - 10, value);
            if self.control.dma_enable() && !old.dma_enable() {
                self.current_transfer = DmaTransferState {
                    source_address: self.masked_source(channel_idx),
                    dest_address: self.masked_dest(channel_idx),
                    length: self.masked_word_count(channel_idx),
                };
            }
        }
    }

    /// The control register.
    pub fn control(&self) -> (r: DmaControl)
        ensures
            r.bits == self@.control,
    {
        self.control
    }

    /// Read a byte of the channel's registers, write-only ones included.
    pub fn read_debug(&self, offset: usize) -> (r: u8)
        requires
            offset < DMA_CHANNEL_SIZE,
        ensures
            r == channel_read_spec(self@, offset as int),
    {
        if offset < 4 {
            byte_of_u32(self.source_address, offset)
        } else if offset < 8 {
            byte_of_u32(self.dest_address, offset - 4)
        } else if offset < 10 {
            byte_of_u16(self.word_count, offset - 8)
        } else {
            byte_of_u16(self.control.bits, offset - 10)
        }
    }

    /// The source address as the channel uses it.
    fn masked_source(&self, channel_idx: usize) -> (r: u32)
        requires
            channel_idx < 4,
        ensures
            r == self@.source & source_mask(channel_idx as int),
    {
        let mask: u32 = if channel_idx == 0 {
            0x07FF_FFFF
        } else {
            0x0FFF_FFFF
        };
        self.source_address & mask
    }

    /// The destination address as the channel uses it.
    fn masked_dest(&self, channel_idx: usize) -> (r: u32)
        requires
            channel_idx < 4,
        ensures
            r == self@.dest & dest_mask(channel_idx as int),
    {
        let mask: u32 = if channel_idx == 3 {
            0x0FFF_FFFF
        } else {
            0x07FF_FFFF
        };
        self.dest_address & mask
    }

    /// The number of units the channel transfers.
    fn masked_word_count(&self, channel_idx: usize) -> (r: u32)
        requires
            channel_idx < 4,
        ensures
            r == transfer_count(self@.word_count, channel_idx as int),
    {
        let mask: u32 = if channel_idx == 3 {
            0xFFFF
        } else {
            0x3FFF
        };
        let count = self.word_count as u32 & mask;
        if count == 0 {
            mask + 1
        } else {
            count
        }
    }
}

/// The four DMA channels.
pub struct DmaChannels {
    /// DMA0 - highest priority, best for timing critical transfers (eg. HBlank DMA).
    /// DMA1 and DMA2 - can be used to feed digital sample data to the Sound FIFOs.
    /// DMA3 - can be used to write to Game Pak ROM/FlashROM (but not GamePak SRAM).
    pub channels: [DmaChannel; 4],
    /// Whichever DMA is currently active.
    pub current_dma: Option<usize>,
}

impl View for DmaChannels {
    type V = Seq<DmaChannelView>;

    open spec fn view(&self) -> Seq<DmaChannelView> {
        self.channels@.map_values(|c: DmaChannel| c@)
    }
}

/// The channel and register offset of a DMA register address.
pub open spec fn dma_register(address: u32) -> (int, int) {
    ((address - DMA_0_ADDR_START) / 12, (address - DMA_0_ADDR_START) % 12)
}

impl DmaChannels {
    /// Four idle channels.
    pub fn new() -> (r: DmaChannels)
        ensures
            r.current_dma.is_none(),
            forall|i: int| 0 <= i < 4 ==> #[trigger] r@[i] == idle_channel(),
            r@.len() == 4,
    {
        let c = DmaChannel::new();
        DmaChannels { channels: [c, c, c, c], current_dma: None }
    }

    /// The registers of a channel.
    pub fn channel(&self, channel: usize) -> (r: &DmaChannel)
        requires
            channel < 4,
        ensures
            r@ == self@[channel as int],
    {
        &self.channels[channel]
    }

    /// The registers of a channel, for changing them in place.
    pub fn channel_mut(&mut self, channel: usize) -> (r: &mut DmaChannel)
        requires
            channel < 4,
        ensures
            *r == old(self).channels[channel as int],
            final(self).channels@ == old(self).channels@.update(channel as int, *final(r)),
            final(self).current_dma == old(self).current_dma,
    {
        &mut self.channels[channel]
    }

    /// The channel and offset of a register address.
    fn register_of(address: u32) -> (r: (usize, usize))
        requires
            DMA_0_ADDR_START <= address <= DMA_3_ADDR_END,
        ensures
            r.0 as int == dma_register(address).0,
            r.1 as int == dma_register(address).1,
            r.0 < 4,
            r.1 < DMA_CHANNEL_SIZE,
    {
        let rel = address - DMA_0_ADDR_START;
        ((rel / 12) as usize, (rel % 12) as usize)
    }

    /// Write a byte of the DMA registers.
    pub fn write_channel(&mut self, address: u32, value: u8, scheduler: &mut Scheduler)
        requires
            DMA_0_ADDR_START <= address <= DMA_3_ADDR_END,
        ensures
            final(self)@ == old(self)@.update(
                dma_register(address).0,
                channel_write_spec(
                    old(self)@[dma_register(address).0],
                    dma_register(address).1,
                    value,
                    dma_register(address).0,
                ),
            ),
            final(self).current_dma == old(self).current_dma,
            final(scheduler)@ == old(scheduler)@,
    {
        let (idx, offset) = Self::register_of(address);
        let mut ch = self.channels[idx];
        ch.write(offset, value, scheduler, idx);
        self.channels[idx] = ch;
        assert(self@ =~= old(self)@.update(
            dma_register(address).0,
            channel_write_spec(old(self)@[dma_register(address).0], dma_register(address).1, value, dma_register(address).0),
        ));
    }

    /// Read a byte of the DMA registers, write-only ones included.
    pub fn read_debug(&self, address: u32) -> (r: u8)
        requires
            DMA_0_ADDR_START <= address <= DMA_3_ADDR_END,
        ensures
            r == channel_read_spec(self@[dma_register(address).0], dma_register(address).1),
    {
        let (idx, offset) = Self::register_of(address);
        self.channels[idx].read_debug(offset)
    }
}

/// Copying `n` units of `size` (2 or 4) bytes, one read and one write each, with the
/// addresses moving by their steps (modulo 2^32) after each unit.
pub open spec fn dma_copy(
    b: BusView,
    c: CpuView,
    src: u32,
    dst: u32,
    src_step: i32,
    dst_step: i32,
    wide: bool,
    n: nat,
) -> BusView
    decreases n,
{
    if n == 0 {
        b
    } else {
        let b1 = if wide {
            bus_write32_spec(bus_after_read32(b, src, c), dst, bus_peek32(b, src, c))
        } else {
            bus_write16_spec(bus_after_read16(b, src, c), dst, bus_peek16(b, src, c))
        };
        dma_copy(
            b1,
            c,
            src.wrapping_add(src_step as u32),
            dst.wrapping_add(dst_step as u32),
            src_step,
            dst_step,
            wide,
            (n - 1) as nat,
        )
    }
}

/// The interrupt request bit of channel `idx`.
pub open spec fn dma_irq_bit(idx: int) -> u16 {
    if idx == 0 {
        Interrupts::DMA0.spec_bit()
    } else if idx == 1 {
        Interrupts::DMA1.spec_bit()
    } else if idx == 2 {
        Interrupts::DMA2.spec_bit()
    } else {
        Interrupts::DMA3.spec_bit()
    }
}

/// A DMA transfer of channel `ch`: two cycles pass, the transfer's units are copied, and the
/// end of the transfer requests an interrupt when asked.
pub open spec fn dma_transfer_spec(b: BusView, c: CpuView, ch: DmaChannelView, idx: int) -> BusView {
    let b0 = BusView {
        scheduler: SchedulerView { current_time: b.scheduler.current_time.wrapping_add(2), ..b.scheduler },
        ..b
    };
    let wide = ch.control & 0x400 != 0;
    let size: i32 = if wide {
        4
    } else {
        2
    };
    let b1 = dma_copy(
        b0,
        c,
        ch.transfer_source,
        ch.transfer_dest,
        DmaAddrControl::spec_from_bits(ch.control >> 7u16).spec_offset(size),
        DmaAddrControl::spec_from_bits(ch.control >> 5u16).spec_offset(size),
        wide,
        ch.transfer_length as nat,
    );
    if ch.control & 0x4000 != 0 {
        BusView {
            interrupt_flags: b1.interrupt_flags | dma_irq_bit(idx),
            scheduler: with_poll_scheduled(b1.scheduler),
            ..b1
        }
    } else {
        b1
    }
}

/// The interrupt of channel `idx`.
fn dma_interrupt(idx: usize) -> (r: Interrupts)
    requires
        idx < 4,
    ensures
        r.spec_bit() == dma_irq_bit(idx as int),
{
    if idx == 0 {
        Interrupts::DMA0
    } else if idx == 1 {
        Interrupts::DMA1
    } else if idx == 2 {
        Interrupts::DMA2
    } else {
        Interrupts::DMA3
    }
}

/// Whether a channel is enabled and starts on `timing`.
pub open spec fn channel_starts_on(ch: DmaChannelView, timing: DmaStartTiming) -> bool {
    &&& DmaStartTiming::spec_from_bits(ch.control >> 12u16) == timing
    &&& ch.control & 0x8000 != 0
}

/// Polling channels `i..4` in order: each that is enabled and starts on `timing` runs its
/// transfer on the bus as the previous ones left it.
pub open spec fn poll_dmas_spec(b: BusView, c: CpuView, timing: DmaStartTiming, i: nat) -> BusView
    decreases 4 - i,
{
    if i >= 4 {
        b
    } else {
        let b1 = if channel_starts_on(b.dma[i as int], timing) {
            dma_transfer_spec(b, c, b.dma[i as int], i as int)
        } else {
            b
        };
        poll_dmas_spec(b1, c, timing, i + 1)
    }
}

impl Bus {
    /// Run the transfer of channel `channel_idx` at once. The channel's registers are left as
    /// they are.
    pub fn on_dma_start(&mut self, cpu: &CPU, channel_idx: usize)
        requires
            old(self).wf(),
            channel_idx < 4,
        ensures
            final(self).wf(),
            final(self)@ == dma_transfer_spec(old(self)@, cpu@, old(self).dma@[channel_idx as int], channel_idx as int),
    {
        // Two non-sequential read cycles for every DMA.
        self.scheduler.add_time(2);
        let channel = self.dma.channels[channel_idx];
        let ghost ch = channel@;
        let ghost b0 = self@;
        let wide = channel.control.dma_transfer_type() == DmaTransferType::U32;
        let (src_step, dst_step) = if wide {
            (channel.control.src_addr_control().to_address_offset_u32(), channel.control.dest_addr_control().to_address_offset_u32())
        } else {
            (channel.control.src_addr_control().to_address_offset_u16(), channel.control.dest_addr_control().to_address_offset_u16())
        };
        let mut src = channel.current_transfer.source_address;
        let mut dst = channel.current_transfer.dest_address;
        let mut remaining = channel.current_transfer.length;
        while remaining > 0
            invariant
                self.wf(),
                dma_copy(self@, cpu@, src, dst, src_step, dst_step, wide, remaining as nat) == dma_copy(
                    b0,
                    cpu@,
                    ch.transfer_source,
                    ch.transfer_dest,
                    src_step,
                    dst_step,
                    wide,
                    ch.transfer_length as nat,
                ),
            decreases remaining,
        {
            if wide {
                let value = self.read_32(src, cpu);
                self.write_32(dst, value);
            } else {
                let value = self.read_16(src, cpu);
                self.write_16(dst, value);
            }
            // Two's complement lets the signed step be added as an unsigned number.
            dst = dst.wrapping_add(#[verifier::truncate] (dst_step as u32));
            src = src.wrapping_add(#[verifier::truncate] (src_step as u32));
            remaining = remaining - 1;
        }
        if channel.control.irq_on_end_of_word_count() {
            self.interrupts.request_interrupt(dma_interrupt(channel_idx), &mut self.scheduler);
        }
    }

    /// Start every enabled channel with the given start timing, in channel order.
    pub fn poll_dmas(&mut self, cpu: &CPU, start_time: DmaStartTiming)
        requires
            old(self).wf(),
        ensures
            final(self).wf(),
            final(self)@ == poll_dmas_spec(old(self)@, cpu@, start_time, 0),
    {
        let mut i: usize = 0;
        while i < 4
            invariant
                i <= 4,
                self.wf(),
                poll_dmas_spec(self@, cpu@, start_time, i as nat) == poll_dmas_spec(old(self)@, cpu@, start_time, 0),
            decreases 4 - i,
        {
            let control = self.dma.channels[i].control;
            if control.dma_start_timing() == start_time && control.dma_enable() {
                self.on_dma_start(cpu, i);
            }
            i = i + 1;
        }
    }
}

} // verus!
