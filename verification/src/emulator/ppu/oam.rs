//! Object attribute memory.

use crate::utils::{u16_to_le, write_le_u16};
use vstd::prelude::*;

verus! {

pub const OAM_RAM_SIZE: usize = 1024;

#[derive(Debug, Clone)]
pub struct OamRam {
    /// The raw bytes used by the emulator for storage
    oam_ram: Vec<u8>,
}

impl View for OamRam {
    type V = Seq<u8>;

    closed spec fn view(&self) -> Seq<u8> {
        self.oam_ram@
    }
}

impl OamRam {
    /// The RAM has the size of the hardware.
    pub open spec fn wf(&self) -> bool {
        self@.len() == OAM_RAM_SIZE
    }

    /// Zeroed object attribute memory.
    pub fn new() -> (r: OamRam)
        ensures
            r.wf(),
            forall|i: int| 0 <= i < OAM_RAM_SIZE ==> r@[i] == 0,
    {
        OamRam { oam_ram: vec![0u8; OAM_RAM_SIZE] }
    }

    /// The raw bytes.
    pub fn ram(&self) -> (r: &Vec<u8>)
        ensures
            r@ == self@,
    {
        &self.oam_ram
    }

    /// Read one byte; the memory is mirrored every 1KB.
    pub fn read_oam(&self, address: u32) -> (r: u8)
        requires
            self.wf(),
        ensures
            r == self@[(address % 1024) as int],
    {
        self.oam_ram[(address % 1024) as usize]
    }

    /// Write two little endian bytes.
    pub fn write_oam_16(&mut self, address: u32, value: u16)
        requires
            old(self).wf(),
            address % 1024 != 1023,
        ensures
            final(self).wf(),
            final(self)@ == write_le_u16(old(self)@, (address % 1024) as int, value),
    {
        let addr = (address % 1024) as usize;
        let (b0, b1) = u16_to_le(value);
        self.oam_ram.set(addr, b0);
        self.oam_ram.set(addr + 1, b1);
    }
}

impl Default for OamRam {
    fn default() -> (r: OamRam)
        ensures
            r.wf(),
    {
        OamRam::new()
    }
}

} // verus!
