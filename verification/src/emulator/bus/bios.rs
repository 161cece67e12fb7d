//! The BIOS region of memory.

use crate::emulator::cpu::CPU;
use crate::emulator::cpu::registers::PC_REG;
use crate::utils::{u32_from_le, u32_from_le_spec, u32_le_bytes, u32_to_le};
use vstd::prelude::*;

verus! {

pub const BIOS_SIZE: usize = 16 * 1024;

pub const BIOS_REGION_START: u32 = 0x0;

pub const BIOS_REGION_END: u32 = 0x3FFF;

/// Address of the opcode that the BIOS last fetched when the cartridge starts.
pub const BIOS_STARTUP_OPCODE_ADDR: usize = 0xE4;

/// `v` with its little endian byte `k` replaced by `b`.
pub open spec fn replace_byte(v: u32, k: int, b: u8) -> u32 {
    u32_from_le_spec(u32_le_bytes(v).update(k, b))
}

/// Handles reads and data for the BIOS region of memory
pub struct GbaBios {
    data: Vec<u8>,
    latest_read_instr: u32,
}

/// The contents of the BIOS and the last value read from it.
pub struct GbaBiosView {
    pub data: Seq<u8>,
    pub latest_read_instr: u32,
}

impl View for GbaBios {
    type V = GbaBiosView;

    closed spec fn view(&self) -> GbaBiosView {
        GbaBiosView { data: self.data@, latest_read_instr: self.latest_read_instr }
    }
}

/// `true` for addresses inside the BIOS region.
pub open spec fn in_bios_region(addr: u32) -> bool {
    addr <= BIOS_REGION_END
}

impl GbaBios {
    /// The BIOS image has the size of the hardware.
    pub open spec fn wf(&self) -> bool {
        self@.data.len() == BIOS_SIZE
    }

    /// Load a BIOS image; the last read opcode starts as the one the BIOS fetched last
    /// before handing over to the cartridge.
    pub fn new(data: Vec<u8>) -> (r: GbaBios)
        requires
            data@.len() == BIOS_SIZE,
        ensures
            r.wf(),
            r@.data == data@,
            r@.latest_read_instr == u32_from_le_spec(data@.subrange(0xE4, 0xE8)),
    {
        let latest = u32_from_le(data[0xE4], data[0xE5], data[0xE6], data[0xE7]);
        assert(data@.subrange(0xE4, 0xE8) =~= seq![data@[0xE4], data@[0xE5], data@[0xE6], data@[0xE7]]);
        GbaBios { latest_read_instr: latest, data }
    }

    /// Read 32 bits. The BIOS can only be read while the program counter is inside it;
    /// otherwise the last value read from it is returned again.
    pub fn read_32(&mut self, addr: u32, cpu: &CPU) -> (r: u32)
        requires
            old(self).wf(),
            in_bios_region(cpu@.registers.general_purpose[PC_REG as int]) ==> addr + 4 <= BIOS_SIZE,
        ensures
            final(self).wf(),
            final(self)@.data == old(self)@.data,
            in_bios_region(cpu@.registers.general_purpose[PC_REG as int]) ==> {
                &&& r == u32_from_le_spec(old(self)@.data.subrange(addr as int, addr + 4))
                &&& final(self)@.latest_read_instr == r
            },
            !in_bios_region(cpu@.registers.general_purpose[PC_REG as int]) ==> {
                &&& r == old(self)@.latest_read_instr
                &&& final(self)@ == old(self)@
            },
    {
        let pc_in_bios = Self::is_in_bios_region(cpu.registers.pc());
        if pc_in_bios {
            let a = addr as usize;
            let read_opcode = u32_from_le(self.data[a], self.data[a + 1], self.data[a + 2], self.data[a + 3]);
            assert(self.data@.subrange(a as int, a + 4) =~= seq![
                self.data@[a as int],
                self.data@[a + 1],
                self.data@[a + 2],
                self.data@[a + 3],
            ]);
            self.latest_read_instr = read_opcode;
            read_opcode
        } else {
            self.latest_read_instr
        }
    }

    /// Read one byte. Reads while the program counter is inside the BIOS also update the
    /// matching byte of the last read value; other reads return a byte of that value.
    pub fn read(&mut self, addr: u32, cpu: &CPU) -> (r: u8)
        requires
            old(self).wf(),
            in_bios_region(cpu@.registers.general_purpose[PC_REG as int]) ==> addr < BIOS_SIZE,
        ensures
            final(self).wf(),
            final(self)@.data == old(self)@.data,
            in_bios_region(cpu@.registers.general_purpose[PC_REG as int]) ==> {
                &&& r == old(self)@.data[addr as int]
                &&& final(self)@.latest_read_instr == replace_byte(
                    old(self)@.latest_read_instr,
                    (addr % 4) as int,
                    r,
                )
            },
            !in_bios_region(cpu@.registers.general_purpose[PC_REG as int]) ==> {
                &&& r == u32_le_bytes(old(self)@.latest_read_instr)[(addr % 4) as int]
                &&& final(self)@ == old(self)@
            },
    {
        let pc_in_bios = Self::is_in_bios_region(cpu.registers.pc());
        let (b0, b1, b2, b3) = u32_to_le(self.latest_read_instr);
        let k = addr % 4;
        if pc_in_bios {
            let read_byte = self.data[addr as usize];
            // Reading from bios, so the latest read opcode is updated
            let new_value = if k == 0 {
                u32_from_le(read_byte, b1, b2, b3)
            } else if k == 1 {
                u32_from_le(b0, read_byte, b2, b3)
            } else if k == 2 {
                u32_from_le(b0, b1, read_byte, b3)
            } else {
                u32_from_le(b0, b1, b2, read_byte)
            };
            assert(u32_le_bytes(old(self)@.latest_read_instr).update(k as int, read_byte) =~= if k == 0 {
                seq![read_byte, b1, b2, b3]
            } else if k == 1 {
                seq![b0, read_byte, b2, b3]
            } else if k == 2 {
                seq![b0, b1, read_byte, b3]
            } else {
                seq![b0, b1, b2, read_byte]
            });
            self.latest_read_instr = new_value;
            read_byte
        } else if k == 0 {
            b0
        } else if k == 1 {
            b1
        } else if k == 2 {
            b2
        } else {
            b3
        }
    }

    /// `true` for addresses inside the BIOS region.
    pub fn is_in_bios_region(addr: u32) -> (r: bool)
        ensures
            r == in_bios_region(addr),
    {
        addr <= BIOS_REGION_END
    }
}

} // verus!
