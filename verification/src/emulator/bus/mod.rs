//! The memory bus connecting the processor to memory and devices.

pub mod helpers;
pub mod ram;
pub mod bios;
pub mod dma;
pub mod interrupts;
pub mod keypad;
pub mod system_control;
pub mod timers;

use crate::emulator::bus::dma::{idle_channel, DmaChannelView, DmaChannels};
use crate::emulator::ppu::LCD_IO_SIZE;
use vstd::multiset::Multiset;
use crate::emulator::bus::timers::Timers;
use crate::emulator::bus::bios::{in_bios_region, replace_byte, GbaBios, GbaBiosView, BIOS_SIZE};
use crate::emulator::bus::interrupts::{with_poll_scheduled, InterruptManager, IE_END, IE_START, IF_END, IF_START, IME_END, IME_START};
use crate::emulator::bus::keypad::{
    Keypad, KEYINTERRUPT_END, KEYINTERRUPT_START, KEYSTATUS_END, KEYSTATUS_START,
};
use crate::emulator::bus::ram::{board_index, chip_index, WorkRam, WorkRamView, ON_BOARD_RAM_SIZE, ON_CHIP_RAM_SIZE};
use crate::emulator::bus::system_control::{GbaSystemControl, SystemControlView};
use crate::emulator::cartridge::{rom_index, sram_index, Cartridge, CartridgeView, CARTRIDGE_RAM_SIZE, MAX_ROM_SIZE};
use crate::emulator::cpu::registers::PC_REG;
use crate::emulator::cpu::{CpuView, CPU};
use crate::emulator::frame::FRAME_PIXELS;
use crate::emulator::ppu::palette::{palette_of_color, Palette, PaletteRamView, RGBA, PALETTE_CACHE_SIZE, PALETTE_RAM_SIZE};
use crate::emulator::ppu::{
    io_readable, io_writable, ppu_view_wf, scanline_clear, vram_index, PpuView, IO_START,
    LCD_IO_END, LCD_IO_START, PPU, VRAM_SIZE,
};
use crate::scheduler::{scheduler_view_wf, Scheduler, SchedulerView};
use crate::utils::{byte_of_u16, byte_of_u32, set_byte_u16, u16_from_le, u16_from_le_spec, u16_le_bytes, u16_to_le, u16_with_byte, u32_from_le, u32_from_le_spec, u32_le_bytes, u32_with_byte, write_le_u16};
use vstd::prelude::*;

verus! {

/// The abstract state of everything on the memory bus.
pub struct BusView {
    pub bios: GbaBiosView,
    pub rom: CartridgeView,
    pub interrupt_enable: u16,
    pub interrupt_flags: u16,
    pub interrupt_master: u32,
    pub key_status: u16,
    pub key_control: u16,
    pub ram: WorkRamView,
    pub ppu: PpuView,
    pub scheduler: SchedulerView,
    pub system_control: SystemControlView,
    /// The registers of the four DMA channels.
    pub dma: Seq<DmaChannelView>,
}

/// Every memory has the size of the hardware and every component is in a valid state.
pub open spec fn bus_view_wf(b: BusView) -> bool {
    &&& b.bios.data.len() == BIOS_SIZE
    &&& b.rom.rom.len() >= MAX_ROM_SIZE
    &&& b.rom.ram.len() >= CARTRIDGE_RAM_SIZE
    &&& b.ram.board.len() == ON_BOARD_RAM_SIZE
    &&& b.ram.chip.len() == ON_CHIP_RAM_SIZE
    &&& ppu_view_wf(b.ppu)
    &&& b.dma.len() == 4
    &&& scanline_clear(b.ppu)
    &&& scheduler_view_wf(b.scheduler)
    &&& no_exit_event(b.scheduler)
}

/// No `Exit` event is queued: nothing on the bus schedules one.
pub open spec fn no_exit_event(s: SchedulerView) -> bool {
    forall|x: (u64, u8)| #[trigger] s.events.count(x) > 0 ==> x.1 != EventTag::Exit.spec_code()
}

/// The memory region of an address: its top byte.
pub open spec fn region_of(addr: u32) -> u32 {
    addr >> 24u32
}

/// Byte `addr % 4` of the latest prefetched opcode, which unused memory returns.
pub open spec fn open_bus_spec(c: CpuView, addr: u32) -> u8 {
    u32_le_bytes(c.pipeline[2])[(addr % 4) as int]
}

/// The program counter of a processor state.
pub open spec fn pc_of(c: CpuView) -> u32 {
    c.registers.general_purpose[PC_REG as int]
}

/// The byte that an I/O register read returns.
pub open spec fn io_peek(b: BusView, addr: u32) -> u8 {
    if LCD_IO_START <= addr <= LCD_IO_END {
        if io_readable(addr - IO_START) {
            b.ppu.io[addr - IO_START]
        } else {
            0xFF
        }
    } else if KEYSTATUS_START <= addr <= KEYSTATUS_END {
        u16_le_bytes(b.key_status)[addr - KEYSTATUS_START]
    } else if KEYINTERRUPT_START <= addr <= KEYINTERRUPT_END {
        u16_le_bytes(b.key_control)[addr - KEYINTERRUPT_START]
    } else if IE_START <= addr <= IE_END {
        u16_le_bytes(b.interrupt_enable)[addr - IE_START]
    } else if IF_START <= addr <= IF_END {
        u16_le_bytes(b.interrupt_flags)[addr - IF_START]
    } else if IME_START <= addr <= IME_END {
        u32_le_bytes(b.interrupt_master)[addr - IME_START]
    } else {
        0xFF
    }
}

/// The byte that a read of `addr` returns.
pub open spec fn bus_peek8(b: BusView, addr: u32, c: CpuView) -> u8 {
    let region = region_of(addr);
    if region == 0 && in_bios_region(addr) {
        if in_bios_region(pc_of(c)) {
            b.bios.data[addr as int]
        } else {
            u32_le_bytes(b.bios.latest_read_instr)[(addr % 4) as int]
        }
    } else if region == 2 {
        b.ram.board[board_index(addr)]
    } else if region == 3 {
        b.ram.chip[chip_index(addr)]
    } else if region == 4 {
        io_peek(b, addr)
    } else if region == 5 {
        b.ppu.palette.ram[(addr % 1024) as int]
    } else if region == 6 {
        b.ppu.vram[vram_index(addr)]
    } else if region == 7 {
        b.ppu.oam[(addr % 1024) as int]
    } else if 8 <= region <= 0xD {
        b.rom.rom[rom_index(addr)]
    } else if region == 0xE || region == 0xF {
        b.rom.ram[sram_index(addr)]
    } else {
        open_bus_spec(c, addr)
    }
}

/// The bus after a read of `addr`: reading the BIOS while executing it records the byte
/// in the latest read opcode; no other read changes anything.
pub open spec fn bus_after_read8(b: BusView, addr: u32, c: CpuView) -> BusView {
    if region_of(addr) == 0 && in_bios_region(addr) && in_bios_region(pc_of(c)) {
        BusView {
            bios: GbaBiosView {
                latest_read_instr: replace_byte(b.bios.latest_read_instr, (addr % 4) as int, b.bios.data[addr as int]),
                ..b.bios
            },
            ..b
        }
    } else {
        b
    }
}

/// The value of a 16-bit little endian read, as two byte reads.
pub open spec fn bus_peek16(b: BusView, addr: u32, c: CpuView) -> u16 {
    let b1 = bus_after_read8(b, addr, c);
    u16_from_le_spec(seq![bus_peek8(b, addr, c), bus_peek8(b1, addr.wrapping_add(1), c)])
}

/// The bus after a 16-bit read.
pub open spec fn bus_after_read16(b: BusView, addr: u32, c: CpuView) -> BusView {
    bus_after_read8(bus_after_read8(b, addr, c), addr.wrapping_add(1), c)
}

/// The value of a 32-bit little endian read, as four byte reads.
pub open spec fn bus_peek32(b: BusView, addr: u32, c: CpuView) -> u32 {
    let b1 = bus_after_read8(b, addr, c);
    let b2 = bus_after_read8(b1, addr.wrapping_add(1), c);
    let b3 = bus_after_read8(b2, addr.wrapping_add(2), c);
    u32_from_le_spec(
        seq![
            bus_peek8(b, addr, c),
            bus_peek8(b1, addr.wrapping_add(1), c),
            bus_peek8(b2, addr.wrapping_add(2), c),
            bus_peek8(b3, addr.wrapping_add(3), c),
        ],
    )
}

/// The bus after a 32-bit read.
pub open spec fn bus_after_read32(b: BusView, addr: u32, c: CpuView) -> BusView {
    let b1 = bus_after_read8(b, addr, c);
    let b2 = bus_after_read8(b1, addr.wrapping_add(1), c);
    let b3 = bus_after_read8(b2, addr.wrapping_add(2), c);
    bus_after_read8(b3, addr.wrapping_add(3), c)
}

/// The bus after a byte write to an I/O register. Read-only and unknown registers ignore it.
pub open spec fn io_write_spec(b: BusView, addr: u32, data: u8) -> BusView {
    if LCD_IO_START <= addr <= LCD_IO_END {
        if io_writable(addr - IO_START) {
            BusView { ppu: PpuView { io: b.ppu.io.update(addr - IO_START, data), ..b.ppu }, ..b }
        } else {
            b
        }
    } else if KEYINTERRUPT_START <= addr <= KEYINTERRUPT_END {
        BusView { key_control: u16_with_byte(b.key_control, addr - KEYINTERRUPT_START, data), ..b }
    } else if IE_START <= addr <= IE_END {
        BusView { interrupt_enable: u16_with_byte(b.interrupt_enable, (addr % 2) as int, data), ..b }
    } else if IF_START <= addr <= IF_END {
        BusView {
            interrupt_flags: u16_with_byte(
                b.interrupt_flags,
                (addr % 2) as int,
                u16_le_bytes(b.interrupt_flags)[addr - IF_START] & !data,
            ),
            scheduler: with_poll_scheduled(b.scheduler),
            ..b
        }
    } else if IME_START <= addr <= IME_END {
        BusView { interrupt_master: u32_with_byte(b.interrupt_master, (addr % 4) as int, data), ..b }
    } else {
        b
    }
}

/// The bus after a byte write to `addr`.
///
/// Palette RAM and VRAM take the byte in both halves of a halfword; a write whose
/// halfword would pass the end of the memory is ignored. Byte writes to OAM, the BIOS,
/// the ROM and unused memory are ignored.
pub open spec fn bus_write8_spec(b: BusView, addr: u32, data: u8) -> BusView {
    let region = region_of(addr);
    let doubled = ((data as u16) << 8u16 | data as u16) as u16;
    if region == 2 {
        BusView { ram: WorkRamView { board: b.ram.board.update(board_index(addr), data), ..b.ram }, ..b }
    } else if region == 3 {
        BusView { ram: WorkRamView { chip: b.ram.chip.update(chip_index(addr), data), ..b.ram }, ..b }
    } else if region == 4 {
        io_write_spec(b, addr, data)
    } else if region == 5 {
        palette_write_spec(b, addr, doubled)
    } else if region == 6 {
        vram_write_spec(b, addr, doubled)
    } else if region == 0xE || region == 0xF {
        BusView { rom: CartridgeView { ram: b.rom.ram.update(sram_index(addr), data), ..b.rom }, ..b }
    } else {
        b
    }
}

/// The bus after a halfword write to palette RAM.
pub open spec fn palette_write_spec(b: BusView, addr: u32, value: u16) -> BusView {
    if addr % 1024 != 1023 {
        BusView {
            ppu: PpuView {
                palette: PaletteRamView {
                    ram: write_le_u16(b.ppu.palette.ram, (addr % 1024) as int, value),
                    cache: b.ppu.palette.cache.update((addr % 1024) as int / 2, palette_of_color(value)),
                },
                ..b.ppu
            },
            ..b
        }
    } else {
        b
    }
}

/// The bus after a halfword write to VRAM.
pub open spec fn vram_write_spec(b: BusView, addr: u32, value: u16) -> BusView {
    if vram_index(addr) + 1 < VRAM_SIZE {
        BusView { ppu: PpuView { vram: write_le_u16(b.ppu.vram, vram_index(addr), value), ..b.ppu }, ..b }
    } else {
        b
    }
}

/// The bus after a halfword write to OAM.
pub open spec fn oam_write_spec(b: BusView, addr: u32, value: u16) -> BusView {
    if addr % 1024 != 1023 {
        BusView { ppu: PpuView { oam: write_le_u16(b.ppu.oam, (addr % 1024) as int, value), ..b.ppu }, ..b }
    } else {
        b
    }
}

/// The bus after a halfword write: palette RAM, VRAM and OAM take the halfword at once,
/// other memory two byte writes.
pub open spec fn bus_write16_spec(b: BusView, addr: u32, data: u16) -> BusView {
    let region = region_of(addr);
    if region == 5 {
        palette_write_spec(b, addr, data)
    } else if region == 6 {
        vram_write_spec(b, addr, data)
    } else if region == 7 {
        oam_write_spec(b, addr, data)
    } else {
        bus_write8_spec(bus_write8_spec(b, addr, data as u8), addr.wrapping_add(1), (data >> 8u16) as u8)
    }
}

/// The bus after a word write: two halfword writes.
pub open spec fn bus_write32_spec(b: BusView, addr: u32, data: u32) -> BusView {
    bus_write16_spec(bus_write16_spec(b, addr, data as u16), addr.wrapping_add(2), (data >> 16u32) as u16)
}

pub struct Bus {
    pub bios: GbaBios,
    pub rom: Cartridge,
    pub interrupts: InterruptManager,
    pub keypad: Keypad,
    pub ram: WorkRam,
    pub ppu: PPU,
    pub scheduler: Scheduler,
    pub system_control: GbaSystemControl,
    pub dma: DmaChannels,
    pub timers: Timers,
}

impl View for Bus {
    type V = BusView;

    open spec fn view(&self) -> BusView {
        BusView {
            bios: self.bios@,
            rom: self.rom@,
            interrupt_enable: self.interrupts.enable.bits,
            interrupt_flags: self.interrupts.flags.bits,
            interrupt_master: self.interrupts.master_enable.bits,
            key_status: self.keypad.status.bits,
            key_control: self.keypad.interrupt_control.bits,
            ram: self.ram@,
            ppu: self.ppu@,
            scheduler: self.scheduler@,
            system_control: self.system_control@,
            dma: self.dma@,
        }
    }
}

impl Bus {
    /// The bus invariant.
    pub open spec fn wf(&self) -> bool {
        bus_view_wf(self@)
    }

    /// Read a byte of an I/O register.
    pub fn read_io(&mut self, addr: u32, cpu: &CPU) -> (r: u8)
        requires
            old(self).wf(),
            region_of(addr) == 4,
        ensures
            final(self)@ == old(self)@,
            r == io_peek(old(self)@, addr),
    {
        proof {
            assert(addr >> 24u32 == 4 ==> addr >= 0x0400_0000) by (bit_vector);
        }
        if LCD_IO_START <= addr && addr <= LCD_IO_END {
            self.ppu.read_io(addr)
        } else if KEYSTATUS_START <= addr && addr <= KEYSTATUS_END {
            byte_of_u16(self.keypad.status.bits, (addr - KEYSTATUS_START) as usize)
        } else if KEYINTERRUPT_START <= addr && addr <= KEYINTERRUPT_END {
            byte_of_u16(self.keypad.interrupt_control.bits, (addr - KEYINTERRUPT_START) as usize)
        } else if IE_START <= addr && addr <= IE_END {
            self.interrupts.read_ie(addr)
        } else if IF_START <= addr && addr <= IF_END {
            self.interrupts.read_if(addr)
        } else if IME_START <= addr && addr <= IME_END {
            self.interrupts.read_ime(addr)
        } else {
            0xFF
        }
    }

    /// Write a byte of an I/O register; read-only and unknown registers ignore it.
    pub fn write_io(&mut self, addr: u32, data: u8)
        requires
            old(self).wf(),
            region_of(addr) == 4,
        ensures
            final(self).wf(),
            final(self)@ == io_write_spec(old(self)@, addr, data),
    {
        proof {
            assert(addr >> 24u32 == 4 ==> addr >= 0x0400_0000) by (bit_vector);
        }
        if LCD_IO_START <= addr && addr <= LCD_IO_END {
            self.ppu.write_io(addr, data);
        } else if KEYSTATUS_START <= addr && addr <= KEYSTATUS_END {
            // The keypad status register is read only.
        } else if KEYINTERRUPT_START <= addr && addr <= KEYINTERRUPT_END {
            self.keypad.interrupt_control.bits = set_byte_u16(
                self.keypad.interrupt_control.bits,
                (addr - KEYINTERRUPT_START) as usize,
                data,
            );
        } else if IE_START <= addr && addr <= IE_END {
            self.interrupts.write_ie(addr, data);
        } else if IF_START <= addr && addr <= IF_END {
            self.interrupts.write_if(addr, data, &mut self.scheduler);
        } else if IME_START <= addr && addr <= IME_END {
            self.interrupts.write_ime(addr, data);
        }
    }
}

} // verus!

verus! {

proof fn lemma_region_bounds(addr: u32)
    ensures
        addr >> 24u32 <= 0xFF,
        (addr >> 24u32 == 0 && addr <= 0x3FFF) ==> addr < BIOS_SIZE,
        addr & 0x3FFFF <= 0x3FFFF,
        addr & 0x7FFF <= 0x7FFF,
{
    assert(addr >> 24u32 <= 0xFF && addr & 0x3FFFF <= 0x3FFFF && addr & 0x7FFF <= 0x7FFF) by (bit_vector);
}

/// The bus at power on: the given cartridge and BIOS, zeroed RAM, VRAM and LCD registers,
/// no interrupt enabled or requested, all buttons released, the clock at zero with only the
/// first HBlank scheduled.
pub open spec fn bus_power_on(b: BusView, rom: CartridgeView, bios: Seq<u8>) -> bool {
    &&& b.rom == rom
    &&& b.bios.data == bios
    &&& b.bios.latest_read_instr == u32_from_le_spec(bios.subrange(0xE4, 0xE8))
    &&& b.interrupt_enable == 0
    &&& b.interrupt_flags == 0
    &&& b.interrupt_master == 0
    &&& b.key_status == 0x3FF
    &&& b.key_control == 0
    &&& forall|i: int| 0 <= i < ON_BOARD_RAM_SIZE ==> b.ram.board[i] == 0
    &&& forall|i: int| 0 <= i < ON_CHIP_RAM_SIZE ==> b.ram.chip[i] == 0
    &&& forall|i: int| 0 <= i < VRAM_SIZE ==> b.ppu.vram[i] == 0
    &&& forall|i: int| 0 <= i < 1024 ==> b.ppu.oam[i] == 0
    &&& forall|i: int| 0 <= i < PALETTE_RAM_SIZE ==> b.ppu.palette.ram[i] == 0
    &&& forall|i: int|
        0 <= i < PALETTE_CACHE_SIZE ==> b.ppu.palette.cache[i] == (Palette { red: 0, green: 0, blue: 0 })
    &&& forall|i: int|
        0 <= i < FRAME_PIXELS ==> b.ppu.frame[i] == (RGBA { red: 0, green: 0, blue: 0, alpha: 0 })
    &&& forall|i: int| 0 <= i < 4 ==> #[trigger] b.dma[i] == idle_channel()
    &&& forall|i: int| 0 <= i < LCD_IO_SIZE ==> b.ppu.io[i] == 0
    &&& b.scheduler.current_time == 0
    &&& b.scheduler.events == Multiset::<(u64, u8)>::empty().insert(
        (HDRAW_CYCLES as u64, EventTag::HBlank.spec_code()),
    )
    &&& b.system_control == (SystemControlView { wait_control: 0, post_boot: 0, halt_control: 0, is_halted: false })
}

impl Bus {
    /// Connect the components; the PPU starts its event chain.
    pub fn new(rom: Cartridge, bios: Vec<u8>) -> (r: Bus)
        requires
            rom.wf(),
            rom@.ram.len() >= CARTRIDGE_RAM_SIZE,
            bios@.len() == BIOS_SIZE,
        ensures
            r.wf(),
            bus_power_on(r@, rom@, bios@),
    {
        let mut result = Bus {
            ram: WorkRam::new(),
            rom,
            bios: GbaBios::new(bios),
            ppu: PPU::new(),
            scheduler: Scheduler::new(),
            interrupts: InterruptManager::new(),
            keypad: Keypad::default(),
            system_control: GbaSystemControl::new(),
            dma: DmaChannels::new(),
            timers: Timers::new(),
        };
        result.ppu.initial_startup(&mut result.scheduler);
        result
    }

    /// The memory region of an address.
    pub fn get_mem_range(addr: u32) -> (r: u32)
        ensures
            r == region_of(addr),
            r <= 0xFF,
    {
        proof {
            lemma_region_bounds(addr);
        }
        addr >> 24u32
    }

    /// Unused memory regions return the latest pre-fetched opcode.
    fn open_bus_read(&self, addr: u32, cpu: &CPU) -> (r: u8)
        ensures
            r == open_bus_spec(cpu@, addr),
    {
        byte_of_u32(cpu.pipeline[2], (addr % 4) as usize)
    }

    /// Read one byte.
    pub fn read(&mut self, addr: u32, cpu: &CPU) -> (r: u8)
        requires
            old(self).wf(),
        ensures
            final(self).wf(),
            r == bus_peek8(old(self)@, addr, cpu@),
            final(self)@ == bus_after_read8(old(self)@, addr, cpu@),
    {
        proof {
            lemma_region_bounds(addr);
        }
        let region = Self::get_mem_range(addr);
        if region == 0 && GbaBios::is_in_bios_region(addr) {
            self.bios.read(addr, cpu)
        } else if region == 2 {
            self.ram.read_board::<u8>(addr)
        } else if region == 3 {
            self.ram.read_chip::<u8>(addr)
        } else if region == 4 {
            self.read_io(addr, cpu)
        } else if region == 5 {
            self.ppu.read_palette(addr)
        } else if region == 6 {
            self.ppu.read_vram(addr)
        } else if region == 7 {
            self.ppu.read_oam(addr)
        } else if 8 <= region && region <= 0xD {
            // Wait states 1, 2 and 3 of the cartridge ROM.
            self.rom.read::<u8>(addr)
        } else if region == 0xE || region == 0xF {
            // Game pak SRAM
            self.rom.read_sram(addr)
        } else {
            self.open_bus_read(addr, cpu)
        }
    }

    /// Read a little endian halfword as two byte reads.
    pub fn read_16(&mut self, addr: u32, cpu: &CPU) -> (r: u16)
        requires
            old(self).wf(),
        ensures
            final(self).wf(),
            r == bus_peek16(old(self)@, addr, cpu@),
            final(self)@ == bus_after_read16(old(self)@, addr, cpu@),
    {
        let b0 = self.read(addr, cpu);
        let b1 = self.read(addr.wrapping_add(1), cpu);
        u16_from_le(b0, b1)
    }

    /// Read a little endian word as four byte reads.
    pub fn read_32(&mut self, addr: u32, cpu: &CPU) -> (r: u32)
        requires
            old(self).wf(),
        ensures
            final(self).wf(),
            r == bus_peek32(old(self)@, addr, cpu@),
            final(self)@ == bus_after_read32(old(self)@, addr, cpu@),
    {
        let b0 = self.read(addr, cpu);
        let b1 = self.read(addr.wrapping_add(1), cpu);
        let b2 = self.read(addr.wrapping_add(2), cpu);
        let b3 = self.read(addr.wrapping_add(3), cpu);
        u32_from_le(b0, b1, b2, b3)
    }

    /// Write one byte.
    pub fn write(&mut self, addr: u32, data: u8)
        requires
            old(self).wf(),
        ensures
            final(self).wf(),
            final(self)@ == bus_write8_spec(old(self)@, addr, data),
    {
        proof {
            lemma_region_bounds(addr);
        }
        let region = Self::get_mem_range(addr);
        let doubled: u16 = ((data as u16) << 8u16) | data as u16;
        if region == 2 {
            self.ram.write_board(addr, data);
        } else if region == 3 {
            self.ram.write_chip(addr, data);
        } else if region == 4 {
            self.write_io(addr, data);
        } else if region == 5 {
            if addr % 1024 != 1023 {
                self.ppu.write_palette(addr, data);
            }
        } else if region == 6 {
            if vram_index_fits(addr) {
                self.ppu.write_vram(addr, data);
            }
        } else if region == 0xE || region == 0xF {
            self.rom.write_sram(addr, data);
        }
        // Byte writes to the BIOS, OAM, the ROM and unused memory are ignored.
    }

    /// Write a little endian halfword.
    pub fn write_16(&mut self, addr: u32, data: u16)
        requires
            old(self).wf(),
        ensures
            final(self).wf(),
            final(self)@ == bus_write16_spec(old(self)@, addr, data),
    {
        let region = Self::get_mem_range(addr);
        if region == 5 {
            if addr % 1024 != 1023 {
                self.ppu.write_palette_16(addr, data);
            }
        } else if region == 6 {
            if vram_index_fits(addr) {
                self.ppu.write_vram_16(addr, data);
            }
        } else if region == 7 {
            if addr % 1024 != 1023 {
                self.ppu.write_oam_16(addr, data);
            }
        } else {
            let (lo, hi) = u16_to_le(data);
            self.write(addr, lo);
            self.write(addr.wrapping_add(1), hi);
        }
    }

    /// Write a little endian word as two halfword writes.
    pub fn write_32(&mut self, addr: u32, data: u32)
        requires
            old(self).wf(),
        ensures
            final(self).wf(),
            final(self)@ == bus_write32_spec(old(self)@, addr, data),
    {
        self.write_16(addr, data as u16);
        self.write_16(addr.wrapping_add(2), (data >> 16u32) as u16);
    }
}

/// Whether a halfword at the VRAM index of `addr` fits in VRAM.
fn vram_index_fits(addr: u32) -> (r: bool)
    ensures
        r == (vram_index(addr) + 1 < VRAM_SIZE),
{
    assert(addr & 0x1FFFF <= 0x1FFFF) by (bit_vector);
    let mut a = (addr & 0x1FFFF) as usize;
    if a >= VRAM_SIZE {
        a -= 0x8000;
    }
    a + 1 < VRAM_SIZE
}

} // verus!

verus! {

use crate::emulator::ppu::{
    flags_if, hblank_end_line, rendered, sched_insert, sched_poll_if, stat_set, vcount_of, vcounter_checked,
    vcounter_irq, DISPLAY_HEIGHT, HBLANK_CYCLES, HDRAW_CYCLES,
};
use crate::emulator::bus::interrupts::Interrupts;
use crate::scheduler::EventTag;

/// The bus after the start of VBlank: the VBlank flag is set and its interrupt requested
/// when enabled.
pub open spec fn bus_vblank_spec(b: BusView) -> BusView {
    let irq = b.ppu.io[4] & 0x08 != 0;
    BusView {
        ppu: stat_set(b.ppu, 0x01),
        interrupt_flags: flags_if(b.interrupt_flags, irq, Interrupts::Vblank.spec_bit()),
        scheduler: sched_poll_if(b.scheduler, irq),
        ..b
    }
}

/// The bus after the start of HBlank: the HBlank flag is set, its interrupt requested when
/// enabled, a visible line rendered, and the end of HBlank scheduled.
pub open spec fn bus_hblank_start_spec(b: BusView) -> BusView {
    let p1 = stat_set(b.ppu, 0x02);
    let irq = b.ppu.io[4] & 0x10 != 0;
    BusView {
        ppu: if vcount_of(b.ppu.io) < DISPLAY_HEIGHT {
            rendered(p1)
        } else {
            p1
        },
        interrupt_flags: flags_if(b.interrupt_flags, irq, Interrupts::Hblank.spec_bit()),
        scheduler: sched_insert(
            sched_poll_if(b.scheduler, irq),
            b.scheduler.current_time.wrapping_add(HBLANK_CYCLES as u64),
            EventTag::HBlankEnd,
        ),
        ..b
    }
}

/// The bus after the end of HBlank: the next line starts, VBlank is scheduled when it is
/// the first invisible line, and the next HBlank is scheduled.
pub open spec fn bus_hblank_end_spec(b: BusView) -> BusView {
    let p3 = hblank_end_line(b.ppu);
    let irq = vcounter_irq(p3);
    let now = b.scheduler.current_time;
    let s1 = sched_poll_if(b.scheduler, irq);
    let s2 = if vcount_of(p3.io) == DISPLAY_HEIGHT {
        sched_insert(s1, now, EventTag::VBlank)
    } else {
        s1
    };
    BusView {
        ppu: vcounter_checked(p3),
        interrupt_flags: flags_if(b.interrupt_flags, irq, Interrupts::VCounter.spec_bit()),
        scheduler: sched_insert(s2, now.wrapping_add(HDRAW_CYCLES as u64), EventTag::HBlank),
        ..b
    }
}

impl Bus {
    /// Handle the start of VBlank.
    pub fn on_vblank(&mut self)
        requires
            old(self).wf(),
        ensures
            final(self).wf(),
            final(self)@ == bus_vblank_spec(old(self)@),
    {
        self.ppu.vblank(&mut self.scheduler, &mut self.interrupts);
    }

    /// Handle the start of HBlank.
    pub fn on_hblank_start(&mut self)
        requires
            old(self).wf(),
        ensures
            final(self).wf(),
            final(self)@ == bus_hblank_start_spec(old(self)@),
    {
        self.ppu.hblank_start(&mut self.scheduler, &mut self.interrupts);
    }

    /// Handle the end of HBlank.
    pub fn on_hblank_end(&mut self)
        requires
            old(self).wf(),
        ensures
            final(self).wf(),
            final(self)@ == bus_hblank_end_spec(old(self)@),
    {
        self.ppu.hblank_end(&mut self.scheduler, &mut self.interrupts);
    }
}

} // verus!

verus! {

use crate::emulator::bus::keypad::{keypad_irq_requested, status_after};
use crate::joypad::InputKeys;

/// The bus after a button changed: the key status follows it, and a keypad interrupt is
/// requested when the keypad interrupt condition now holds.
pub open spec fn bus_button_spec(b: BusView, key: InputKeys, pressed: bool) -> BusView {
    let status = status_after(b.key_status, key, pressed);
    let irq = keypad_irq_requested(status, b.key_control);
    BusView {
        key_status: status,
        interrupt_flags: if irq {
            b.interrupt_flags | Interrupts::Keypad.spec_bit()
        } else {
            b.interrupt_flags
        },
        scheduler: if irq {
            with_poll_scheduled(b.scheduler)
        } else {
            b.scheduler
        },
        ..b
    }
}

impl Bus {
    /// Handle a button being pressed or released.
    pub fn on_button_changed(&mut self, key: InputKeys, pressed: bool)
        requires
            old(self).wf(),
        ensures
            final(self).wf(),
            final(self)@ == bus_button_spec(old(self)@, key, pressed),
    {
        self.keypad.button_changed(key, pressed, &mut self.scheduler, &mut self.interrupts);
    }
}

} // verus!

verus! {

/// A byte written to work RAM or to the cartridge's save memory reads back unchanged.
pub proof fn lemma_byte_read_after_write(b: BusView, addr: u32, value: u8, c: CpuView)
    requires
        bus_view_wf(b),
        region_of(addr) == 2 || region_of(addr) == 3 || region_of(addr) == 0xE || region_of(addr) == 0xF,
    ensures
        bus_peek8(bus_write8_spec(b, addr, value), addr, c) == value,
{
    assert(addr & 0x3FFFF <= 0x3FFFF && addr & 0x7FFF <= 0x7FFF) by (bit_vector);
}

/// A word written to work RAM at an aligned address reads back unchanged.
pub proof fn lemma_work_ram_read_after_write32(b: BusView, addr: u32, value: u32, c: CpuView)
    requires
        bus_view_wf(b),
        region_of(addr) == 2 || region_of(addr) == 3,
        addr % 4 == 0,
    ensures
        bus_peek32(bus_write32_spec(b, addr, value), addr, c) == value,
{
    let a1 = addr.wrapping_add(1);
    let a2 = addr.wrapping_add(2);
    let a3 = addr.wrapping_add(3);
    assert(a1 == (addr + 1) as u32 && a2 == (addr + 2) as u32 && a3 == (addr + 3) as u32);
    assert(addr % 4 == 0 ==> {
        &&& ((addr + 1) as u32) >> 24u32 == addr >> 24u32
        &&& ((addr + 2) as u32) >> 24u32 == addr >> 24u32
        &&& ((addr + 3) as u32) >> 24u32 == addr >> 24u32
        &&& (((addr + 1) as u32) & 0x3FFFF) == (addr & 0x3FFFF) + 1
        &&& (((addr + 2) as u32) & 0x3FFFF) == (addr & 0x3FFFF) + 2
        &&& (((addr + 3) as u32) & 0x3FFFF) == (addr & 0x3FFFF) + 3
        &&& (((addr + 1) as u32) & 0x7FFF) == (addr & 0x7FFF) + 1
        &&& (((addr + 2) as u32) & 0x7FFF) == (addr & 0x7FFF) + 2
        &&& (((addr + 3) as u32) & 0x7FFF) == (addr & 0x7FFF) + 3
        &&& addr & 0x3FFFF <= 0x3FFFC
        &&& addr & 0x7FFF <= 0x7FFC
    }) by (bit_vector);
    let lo = value as u16;
    let hi = (value >> 16u32) as u16;
    let bytes = seq![lo as u8, (lo >> 8u16) as u8, hi as u8, (hi >> 8u16) as u8];
    assert(u32_from_le_spec(bytes) == value) by {
        assert(((value as u16) as u8) as u32 | ((((value as u16) >> 8u16) as u8) as u32) << 8u32 | ((((value
            >> 16u32) as u16) as u8) as u32) << 16u32 | (((((value >> 16u32) as u16) >> 8u16) as u8) as u32)
            << 24u32 == value) by (bit_vector);
    }
    assert(a2.wrapping_add(1) == a3);
    let w1 = bus_write16_spec(b, addr, lo);
    let w = bus_write16_spec(w1, a2, hi);
    assert(w == bus_write32_spec(b, addr, value));
    if region_of(addr) == 2 {
        let i = board_index(addr);
        assert(w1.ram.board == b.ram.board.update(i, bytes[0]).update(i + 1, bytes[1]));
        assert(w.ram.board == w1.ram.board.update(i + 2, bytes[2]).update(i + 3, bytes[3]));
        assert(board_index(a1) == i + 1 && board_index(a2) == i + 2 && board_index(a3) == i + 3);
        assert(region_of(a1) == 2 && region_of(a2) == 2 && region_of(a3) == 2);
        assert(bus_peek8(w, addr, c) == bytes[0]);
        assert(bus_peek8(w, a1, c) == bytes[1]);
        assert(bus_peek8(w, a2, c) == bytes[2]);
        assert(bus_peek8(w, a3, c) == bytes[3]);
    } else {
        let i = chip_index(addr);
        assert(w1.ram.chip == b.ram.chip.update(i, bytes[0]).update(i + 1, bytes[1]));
        assert(w.ram.chip == w1.ram.chip.update(i + 2, bytes[2]).update(i + 3, bytes[3]));
        assert(chip_index(a1) == i + 1 && chip_index(a2) == i + 2 && chip_index(a3) == i + 3);
        assert(region_of(a1) == 3 && region_of(a2) == 3 && region_of(a3) == 3);
        assert(bus_peek8(w, addr, c) == bytes[0]);
        assert(bus_peek8(w, a1, c) == bytes[1]);
        assert(bus_peek8(w, a2, c) == bytes[2]);
        assert(bus_peek8(w, a3, c) == bytes[3]);
    }
    assert(bus_after_read8(w, addr, c) == w);
    assert(bus_after_read8(w, a1, c) == w);
    assert(bus_after_read8(w, a2, c) == w);
    assert(seq![bus_peek8(w, addr, c), bus_peek8(w, a1, c), bus_peek8(w, a2, c), bus_peek8(w, a3, c)] =~= bytes);
}

} // verus!

verus! {

use crate::emulator::ppu::io_dbg_peek;

/// The byte that a debug read returns: LCD registers as stored, everything else as a
/// normal read.
pub open spec fn bus_peek_dbg(b: BusView, addr: u32, c: CpuView) -> u8 {
    if region_of(addr) == 4 && LCD_IO_START <= addr <= LCD_IO_END {
        io_dbg_peek(b.ppu, addr - LCD_IO_START)
    } else {
        bus_peek8(b, addr, c)
    }
}

/// The bus after a debug write: single bytes reach VRAM and OAM, where normal byte writes
/// are doubled or ignored; everything else is a normal write.
pub open spec fn bus_write_dbg_spec(b: BusView, addr: u32, data: u8) -> BusView {
    let region = region_of(addr);
    if region == 6 {
        BusView { ppu: PpuView { vram: b.ppu.vram.update((addr & 0x1FFFF) as int, data), ..b.ppu }, ..b }
    } else if region == 7 {
        let high = b.ppu.oam[(addr.wrapping_add(1) % 1024) as int];
        oam_write_spec(b, addr, (high as u16) << 8u16 | data as u16)
    } else {
        bus_write8_spec(b, addr, data)
    }
}

impl Bus {
    /// A read for debugging: write-only LCD registers can be read too.
    pub fn read_dbg(&mut self, addr: u32, cpu: &CPU) -> (r: u8)
        requires
            old(self).wf(),
        ensures
            final(self).wf(),
            r == bus_peek_dbg(old(self)@, addr, cpu@),
            final(self)@ == (if region_of(addr) == 4 { old(self)@ } else { bus_after_read8(old(self)@, addr, cpu@) }),
    {
        if Self::get_mem_range(addr) == 4 {
            self.read_io_dbg(addr, cpu)
        } else {
            self.read(addr, cpu)
        }
    }

    /// A write for debugging: single bytes reach VRAM and OAM.
    pub fn write_dbg(&mut self, addr: u32, data: u8)
        requires
            old(self).wf(),
            region_of(addr) == 6 ==> (addr & 0x1FFFF) < VRAM_SIZE,
        ensures
            final(self).wf(),
            final(self)@ == bus_write_dbg_spec(old(self)@, addr, data),
    {
        let region = Self::get_mem_range(addr);
        if region == 6 {
            self.ppu.write_vram_dbg(addr, data);
        } else if region == 7 {
            // 8 bit OAM writes are usually ignored; for debugging they are allowed.
            let current = (self.ppu.read_oam(addr.wrapping_add(1)) as u16) << 8u16;
            if addr % 1024 != 1023 {
                self.ppu.write_oam_16(addr, current | data as u16);
            }
        } else {
            self.write(addr, data);
        }
    }

    /// A debug read of an I/O register.
    fn read_io_dbg(&mut self, addr: u32, cpu: &CPU) -> (r: u8)
        requires
            old(self).wf(),
            region_of(addr) == 4,
        ensures
            final(self)@ == old(self)@,
            r == bus_peek_dbg(old(self)@, addr, cpu@),
    {
        proof {
            assert(addr >> 24u32 == 4 ==> addr >= 0x0400_0000) by (bit_vector);
        }
        if IO_START <= addr && addr <= LCD_IO_END {
            self.ppu.read_io_dbg(addr)
        } else {
            self.read_io(addr, cpu)
        }
    }
}

} // verus!
