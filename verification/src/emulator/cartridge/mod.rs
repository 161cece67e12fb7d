//! The game cartridge: ROM image and save memory.

pub mod header;

use crate::emulator::bus::helpers::ReadType;
use crate::utils::{u16_from_le_spec, u32_from_le_spec};
use crate::emulator::cartridge::header::{
    backup_id_of_rom, header_text, CartBackupId, CartridgeHeader,
};
use vstd::prelude::*;

verus! {

pub const MAX_ROM_SIZE: usize = 1024 * 1024 * 32;

/// Maximum of `64KB` of additional SRAM
pub const CARTRIDGE_RAM_SIZE: usize = 1024 * 64;

pub const CARTRIDGE_ROM_START: u32 = 0x0800_0000;

pub const CARTRIDGE_SRAM_START: u32 = 0x0E00_0000;

/// A ROM image padded to the largest ROM size, so that reads past its end see `0xFF`.
pub open spec fn padded_rom(rom: Seq<u8>) -> Seq<u8> {
    if rom.len() < MAX_ROM_SIZE {
        rom + Seq::new((MAX_ROM_SIZE - rom.len()) as nat, |i: int| 0xFFu8)
    } else {
        rom
    }
}

/// The index in the ROM that an address maps to: the ROM is mirrored every 32MB.
pub open spec fn rom_index(addr: u32) -> int {
    (addr as int) % (MAX_ROM_SIZE as int)
}

/// The index in save memory that an address maps to: it is mirrored every 64KB.
pub open spec fn sram_index(addr: u32) -> int {
    (addr as int) % (CARTRIDGE_RAM_SIZE as int)
}

pub struct Cartridge {
    header: CartridgeHeader,
    rom: Vec<u8>,
    /// SRAM is stored in the cartridge file
    ///
    /// This is usually buffered by a backing battery, so it can be seen as a save.
    saved_ram: Vec<u8>,
}

/// The ROM image and the save memory of a cartridge.
pub struct CartridgeView {
    pub rom: Seq<u8>,
    pub ram: Seq<u8>,
}

impl View for Cartridge {
    type V = CartridgeView;

    closed spec fn view(&self) -> CartridgeView {
        CartridgeView { rom: self.rom@, ram: self.saved_ram@ }
    }
}

/// Fill a ROM with OoB data for reads: it is extended to the largest ROM size with `0xFF`.
pub fn fill_rom_out_of_bounds(rom: &mut Vec<u8>)
    requires
        old(rom)@.len() <= MAX_ROM_SIZE,
    ensures
        final(rom)@ == padded_rom(old(rom)@),
{
    let given_len = rom.len();
    rom.resize(MAX_ROM_SIZE, 0xFF);
    assert(final(rom)@ =~= padded_rom(old(rom)@)) by {
        if given_len < MAX_ROM_SIZE {
            assert forall|i: int| given_len <= i < MAX_ROM_SIZE implies rom@[i] == 0xFFu8 by {
                assert(vstd::pervasive::cloned::<u8>(0xFFu8, rom@[i]));
            }
            assert(rom@.subrange(0, given_len as int) == old(rom)@);
        }
    }
}

impl Cartridge {
    /// The ROM covers the whole cartridge address range.
    pub open spec fn wf(&self) -> bool {
        self@.rom.len() >= MAX_ROM_SIZE
    }

    /// Load a cartridge: parse the header and pad the ROM for out of bound reads.
    pub fn new(rom: Vec<u8>, ram: Vec<u8>) -> (r: Cartridge)
        requires
            rom@.len() > 0xBD,
        ensures
            r.wf(),
            r@.rom == padded_rom(rom@),
            r@.ram == ram@,
            r.spec_header().game_title@ == header_text(rom@, 0xA0, 0xAC),
            r.spec_header().game_code@ == header_text(rom@, 0xAC, 0xB0),
            r.spec_header().maker_code@ == header_text(rom@, 0xB0, 0xB2),
            r.spec_header().main_unit_code == rom@[0xB3],
            r.spec_header().device_type == rom@[0xB4],
            r.spec_header().software_version == rom@[0xBC],
            r.spec_header().complement_checksum == rom@[0xBD],
            r.spec_header().backup_id == (match backup_id_of_rom(rom@) {
                Some(id) => id,
                None => CartBackupId::Flash64,
            }),
    {
        let mut rom = rom;
        let header = CartridgeHeader::new(rom.as_slice());
        // Since games like to do out of bound reads we need to pre-emptively fill the data
        if rom.len() < MAX_ROM_SIZE {
            fill_rom_out_of_bounds(&mut rom);
        }
        Cartridge { header, rom, saved_ram: ram }
    }

    /// The parsed header.
    pub closed spec fn spec_header(&self) -> CartridgeHeader {
        self.header
    }

    pub fn header(&self) -> (r: &CartridgeHeader)
        ensures
            *r == self.spec_header(),
    {
        &self.header
    }

    pub fn rom(&self) -> (r: &Vec<u8>)
        ensures
            r@ == self@.rom,
    {
        &self.rom
    }

    pub fn ram(&self) -> (r: &Vec<u8>)
        ensures
            r@ == self@.ram,
    {
        &self.saved_ram
    }

    /// Read the value at the provided `addr` from SRAM.
    ///
    /// Note that the ROM only has an 8-bit bus, so this only ever returns a [u8]
    pub fn read_sram(&self, addr: u32) -> (r: u8)
        requires
            sram_index(addr) < self@.ram.len(),
        ensures
            r == self@.ram[sram_index(addr)],
    {
        self.saved_ram[(addr % 65536) as usize]
    }

    /// Write the given `value` to the given `addr` in SRAM.
    pub fn write_sram(&mut self, addr: u32, value: u8)
        requires
            sram_index(addr) < old(self)@.ram.len(),
        ensures
            final(self)@.ram == old(self)@.ram.update(sram_index(addr), value),
            final(self)@.rom == old(self)@.rom,
            final(self).spec_header() == old(self).spec_header(),
    {
        self.saved_ram.set((addr % 65536) as usize, value);
    }

    /// Read a little endian value from the ROM.
    pub fn read<T: ReadType>(&self, addr: u32) -> (r: T)
        requires
            self.wf(),
            rom_index(addr) + T::spec_size() <= self@.rom.len(),
        ensures
            r == T::spec_from_le(self@.rom.subrange(rom_index(addr), rom_index(addr) + T::spec_size())),
    {
        let index = (addr % 0x0200_0000) as usize;
        T::read_le(&self.rom, index)
    }

    /// Read a little endian halfword from the ROM.
    pub fn read_16(&self, addr: u32) -> (r: u16)
        requires
            self.wf(),
            rom_index(addr) + 2 <= self@.rom.len(),
        ensures
            r == u16_from_le_spec(self@.rom.subrange(rom_index(addr), rom_index(addr) + 2)),
    {
        self.read::<u16>(addr)
    }

    /// Read a little endian word from the ROM.
    pub fn read_32(&self, addr: u32) -> (r: u32)
        requires
            self.wf(),
            rom_index(addr) + 4 <= self@.rom.len(),
        ensures
            r == u32_from_le_spec(self@.rom.subrange(rom_index(addr), rom_index(addr) + 4)),
    {
        self.read::<u32>(addr)
    }
}


impl Default for Cartridge {
    /// A cartridge without a ROM or save memory, with the header of a zeroed image.
    fn default() -> (r: Cartridge)
        ensures
            r@.rom.len() == 0,
            r@.ram.len() == 0,
            r.spec_header().game_title@ == header_text(Seq::new(2000, |i: int| 0u8), 0xA0, 0xAC),
            r.spec_header().game_code@ == header_text(Seq::new(2000, |i: int| 0u8), 0xAC, 0xB0),
            r.spec_header().maker_code@ == header_text(Seq::new(2000, |i: int| 0u8), 0xB0, 0xB2),
            r.spec_header().main_unit_code == 0,
            r.spec_header().software_version == 0,
            r.spec_header().complement_checksum == 0,
    {
        let zeros: Vec<u8> = vec![0; 2000];
        assert(zeros@ =~= Seq::new(2000, |i: int| 0u8));
        Cartridge { header: CartridgeHeader::new(zeros.as_slice()), rom: Vec::new(), saved_ram: Vec::new() }
    }
}

} // verus!
