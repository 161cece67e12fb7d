use grba_core::emulator::bus::dma::{DmaAddrControl, DmaChannels, DmaStartTiming};
use grba_core::emulator::bus::interrupts::InterruptManager;
use grba_core::emulator::debug::DebugEmulator;
use grba_core::emulator::bus::timers::{TimerFrequency, Timers};
use grba_core::emulator::cartridge::{Cartridge, CARTRIDGE_RAM_SIZE};
use grba_core::emulator::ppu::tile_rendering::{render_scanline_regular_bg, render_scanline_regular_bg_pixel};
use grba_core::emulator::ppu::PPU;
use grba_core::emulator::{EmuOptions, GBAEmulator};
use grba_core::scheduler::{EmuTime, EventTag, Scheduler};

fn plain_emu() -> GBAEmulator {
    let mut rom = vec![0u8; 0x200];
    // B . (an endless loop)
    rom[0..4].copy_from_slice(&0xEAFF_FFFEu32.to_le_bytes());
    GBAEmulator::new(Cartridge::new(rom, vec![0; CARTRIDGE_RAM_SIZE]), EmuOptions::default())
}

#[test]
fn dma_address_steps() {
    assert_eq!(DmaAddrControl::Increment.to_address_offset_u32(), 4);
    assert_eq!(DmaAddrControl::Decrement.to_address_offset_u32(), -4);
    assert_eq!(DmaAddrControl::Fixed.to_address_offset_u16(), 0);
    assert_eq!(DmaAddrControl::IncrReload.to_address_offset_u16(), 2);
}

#[test]
fn dma_registers_latch_masked_values_on_enable() {
    let mut dma = DmaChannels::new();
    let mut scheduler = Scheduler::new();
    // Channel 0 source 0xFFFF_FFFF, count 0 (the largest count).
    for offset in 0..4u32 {
        dma.write_channel(0x0400_00B0 + offset, 0xFF, &mut scheduler);
    }
    assert_eq!(dma.read_debug(0x0400_00B3), 0xFF);
    // Enable.
    dma.write_channel(0x0400_00BB, 0x80, &mut scheduler);
    let ch = dma.channel(0);
    assert_eq!(ch.current_transfer.source_address, 0x07FF_FFFF);
    assert_eq!(ch.current_transfer.length, 0x4000);
    assert!(ch.control().dma_enable());
}

#[test]
fn dma_copies_words_between_memories() {
    let mut emu = plain_emu();
    emu.bus.write_32(0x0200_0000, 0x1111_1111);
    emu.bus.write_32(0x0200_0004, 0x2222_2222);
    let mut scheduler = Scheduler::new();
    let base = 0x0400_00D4; // channel 3
    for (i, b) in 0x0200_0000u32.to_le_bytes().iter().enumerate() {
        emu.bus.dma.write_channel(base + i as u32, *b, &mut scheduler);
    }
    for (i, b) in 0x0300_0010u32.to_le_bytes().iter().enumerate() {
        emu.bus.dma.write_channel(base + 4 + i as u32, *b, &mut scheduler);
    }
    emu.bus.dma.write_channel(base + 8, 2, &mut scheduler);
    // 32-bit units, interrupt at the end, enable.
    emu.bus.dma.write_channel(base + 10, 0x00, &mut scheduler);
    emu.bus.dma.write_channel(base + 11, 0xC4, &mut scheduler);
    let time = emu.bus.scheduler.current_time;
    emu.bus.on_dma_start(&emu.cpu, 3);
    assert_eq!(emu.bus.ram.read_chip::<u32>(0x0300_0010), 0x1111_1111);
    assert_eq!(emu.bus.ram.read_chip::<u32>(0x0300_0014), 0x2222_2222);
    assert_eq!(emu.bus.scheduler.current_time, EmuTime(time.0 + 2));
    // DMA3 requests its interrupt.
    assert_eq!(emu.bus.interrupts.flags.bits & 0x0800, 0x0800);
}

#[test]
fn timers_count_and_overflow() {
    assert_eq!(TimerFrequency::C1024.to_ticks(), 1024);
    let mut timers = Timers::new();
    let mut scheduler = Scheduler::new();
    let mut irq = InterruptManager::new();
    // Reload value 0xFFF0, then enable with the overflow interrupt at one tick per cycle.
    timers.write_registers(0x0400_0100, 0xF0, &mut scheduler);
    timers.write_registers(0x0400_0101, 0xFF, &mut scheduler);
    timers.write_registers(0x0400_0102, 0xC0, &mut scheduler);
    assert_eq!(timers.read_registers(0x0400_0100, &mut scheduler), 0xF0);
    scheduler.add_time(10);
    assert_eq!(timers.read_registers(0x0400_0100, &mut scheduler), 0xFA);
    assert_eq!(timers.read_registers(0x0400_0102, &mut scheduler), 0xC0);
    scheduler.skip_to_next_event();
    assert_eq!(scheduler.current_time, EmuTime(15));
    let event = scheduler.pop_current().unwrap();
    assert_eq!(event.tag, EventTag::Timer0Irq);
    timers.timer_overflowed(0, &mut scheduler, event.timestamp, &mut irq);
    assert_eq!(irq.flags.bits, 0x0008);
    // Reloaded, and the next overflow is scheduled 15 cycles later; the interrupt request
    // scheduled an interrupt poll first.
    assert_eq!(timers.read_registers(0x0400_0100, &mut scheduler), 0xF0);
    assert_eq!(scheduler.pop_current().unwrap().tag, EventTag::PollInterrupt);
    scheduler.skip_to_next_event();
    assert_eq!(scheduler.current_time, EmuTime(30));
}

#[test]
fn tile_and_pixel_renderers_agree() {
    let mut ppu = PPU::new();
    // Map entry 0 selects tile 1; tile 1 line 0 holds the pixels 1..=8.
    ppu.write_vram_16(0x0600_0000, 0x0001);
    ppu.write_vram_16(0x0600_0020, 0x4321);
    ppu.write_vram_16(0x0600_0022, 0x8765);
    let mut other = PPU::new();
    other.write_vram_16(0x0600_0000, 0x0001);
    other.write_vram_16(0x0600_0020, 0x4321);
    other.write_vram_16(0x0600_0022, 0x8765);
    render_scanline_regular_bg(&mut ppu, 0);
    render_scanline_regular_bg_pixel(&mut other, 0);
    let line = ppu.current_scanline().clone();
    assert_eq!(&line[0..8], &[1, 2, 3, 4, 5, 6, 7, 8]);
    assert_eq!(&line[0..128], &other.current_scanline()[0..128]);
    // Map entry 16 reads as 0x4321: palette 4. Drawing two pixels at a time the line
    // renderer adds the palette base to transparent pixels too; the pixel renderer keeps 0.
    assert_eq!(line[128], 64);
    assert_eq!(other.current_scanline()[128], 0);
}

#[test]
fn debug_reads_see_write_only_registers() {
    let mut emu = plain_emu();
    // BG0 horizontal offset is write only.
    emu.bus.write(0x0400_0010, 0x34);
    assert_eq!(emu.bus.read(0x0400_0010, &emu.cpu), 0xFF);
    assert_eq!(emu.bus.read_dbg(0x0400_0010, &emu.cpu), 0x34);
    assert_eq!(emu.bus.read_dbg(0x0400_0056, &emu.cpu), 0xFF);
    // Byte writes to OAM only reach it through the debug path.
    emu.bus.write(0x0700_0000, 0xAB);
    assert_eq!(emu.bus.read(0x0700_0000, &emu.cpu), 0);
    emu.bus.write_dbg(0x0700_0000, 0xAB);
    assert_eq!(emu.bus.read(0x0700_0000, &emu.cpu), 0xAB);
}

#[test]
fn dma_channel_mut_changes_only_that_channel() {
    let mut channels = DmaChannels::new();
    channels.channel_mut(2).source_address = 0x0200_0000;
    assert_eq!(channels.channel(2).source_address, 0x0200_0000);
    assert_eq!(channels.channel(1).source_address, 0);
    assert_eq!(channels.channel(3).source_address, 0);
}

#[test]
fn debug_emulator_reaches_internal_state() {
    let mut emu = plain_emu();
    {
        let mut handle = DebugEmulator(&mut emu);
        handle.cpu().pipeline = [1, 2, 3];
        let (_bus, cpu) = handle.bus_and_cpu();
        cpu.pipeline[2] = 7;
    }
    assert_eq!(emu.cpu.pipeline, [1, 2, 7]);
}

#[test]
fn dma_poll_starts_only_matching_channels() {
    let mut emu = plain_emu();
    emu.bus.write_32(0x0200_0000, 0xABCD_1234);
    let mut scheduler = Scheduler::new();
    let base = 0x0400_00C8; // channel 2
    for (i, b) in 0x0200_0000u32.to_le_bytes().iter().enumerate() {
        emu.bus.dma.write_channel(base + i as u32, *b, &mut scheduler);
    }
    for (i, b) in 0x0300_0020u32.to_le_bytes().iter().enumerate() {
        emu.bus.dma.write_channel(base + 4 + i as u32, *b, &mut scheduler);
    }
    emu.bus.dma.write_channel(base + 8, 1, &mut scheduler);
    // 32-bit units, start at VBlank, enable.
    emu.bus.dma.write_channel(base + 10, 0x00, &mut scheduler);
    emu.bus.dma.write_channel(base + 11, 0x94, &mut scheduler);
    emu.bus.poll_dmas(&emu.cpu, DmaStartTiming::HBlank);
    assert_eq!(emu.bus.ram.read_chip::<u32>(0x0300_0020), 0);
    emu.bus.poll_dmas(&emu.cpu, DmaStartTiming::VBlank);
    assert_eq!(emu.bus.ram.read_chip::<u32>(0x0300_0020), 0xABCD_1234);
}
