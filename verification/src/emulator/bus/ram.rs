//! The two blocks of work RAM: 256KB on the board and 32KB on the chip.

use crate::emulator::bus::helpers::ReadType;
use crate::utils::{u16_to_le, u32_to_le, write_le_u16, write_le_u32};
use vstd::prelude::*;

verus! {

/// 3 cycles for access for u8, u16.
/// 6 cycles for access for u32
pub const ON_BOARD_RAM_SIZE: usize = 256 * 1024;

/// 1 cycle for access for u8, u16, u32
pub const ON_CHIP_RAM_SIZE: usize = 32 * 1024;

pub const ON_BOARD_RAM_START: usize = 0x0200_0000;

pub const ON_CHIP_RAM_START: usize = 0x0300_0000;

pub const ON_BOARD_RAM_END: usize = 0x0203_FFFF;

pub const ON_CHIP_RAM_END: usize = 0x0300_7FFF;

/// The contents of the work RAM.
pub struct WorkRamView {
    pub board: Seq<u8>,
    pub chip: Seq<u8>,
}

/// The index in board RAM that an address maps to: the RAM is mirrored across its region.
pub open spec fn board_index(addr: u32) -> int {
    (addr & 0x3FFFF) as int
}

/// The index in chip RAM that an address maps to: the RAM is mirrored across its region.
pub open spec fn chip_index(addr: u32) -> int {
    (addr & 0x7FFF) as int
}

pub struct WorkRam {
    /// Slow RAM on board (256KB)
    board: Vec<u8>,
    /// Fast RAM on chip (32KB)
    chip: Vec<u8>,
}

impl View for WorkRam {
    type V = WorkRamView;

    closed spec fn view(&self) -> WorkRamView {
        WorkRamView { board: self.board@, chip: self.chip@ }
    }
}

/// Reduce an address to its index in board RAM.
fn board_addr_to_index(addr: u32) -> (r: usize)
    ensures
        r == board_index(addr),
        r < ON_BOARD_RAM_SIZE,
{
    proof {
        crate::utils::lemma_bit_facts();
    }
    (addr & 0x3FFFF) as usize
}

/// Reduce an address to its index in chip RAM.
fn chip_addr_to_index(addr: u32) -> (r: usize)
    ensures
        r == chip_index(addr),
        r < ON_CHIP_RAM_SIZE,
{
    proof {
        crate::utils::lemma_bit_facts();
    }
    (addr & 0x7FFF) as usize
}

impl WorkRam {
    /// Both blocks have the size of the hardware.
    pub open spec fn wf(&self) -> bool {
        &&& self@.board.len() == ON_BOARD_RAM_SIZE
        &&& self@.chip.len() == ON_CHIP_RAM_SIZE
    }

    /// Zeroed work RAM.
    pub fn new() -> (r: WorkRam)
        ensures
            r.wf(),
            forall|i: int| 0 <= i < ON_BOARD_RAM_SIZE ==> r@.board[i] == 0,
            forall|i: int| 0 <= i < ON_CHIP_RAM_SIZE ==> r@.chip[i] == 0,
    {
        WorkRam { board: vec![0u8; ON_BOARD_RAM_SIZE], chip: vec![0u8; ON_CHIP_RAM_SIZE] }
    }

    /// Read a little endian value from board RAM.
    pub fn read_board<T: ReadType>(&self, addr: u32) -> (r: T)
        requires
            self.wf(),
            board_index(addr) + T::spec_size() <= ON_BOARD_RAM_SIZE,
        ensures
            r == T::spec_from_le(
                self@.board.subrange(board_index(addr), board_index(addr) + T::spec_size()),
            ),
    {
        let index = board_addr_to_index(addr);
        T::read_le(&self.board, index)
    }

    /// Read a little endian value from chip RAM.
    pub fn read_chip<T: ReadType>(&self, addr: u32) -> (r: T)
        requires
            self.wf(),
            chip_index(addr) + T::spec_size() <= ON_CHIP_RAM_SIZE,
        ensures
            r == T::spec_from_le(
                self@.chip.subrange(chip_index(addr), chip_index(addr) + T::spec_size()),
            ),
    {
        let index = chip_addr_to_index(addr);
        T::read_le(&self.chip, index)
    }

    pub fn write_board(&mut self, addr: u32, value: u8)
        requires
            old(self).wf(),
        ensures
            final(self)@.board == old(self)@.board.update(board_index(addr), value),
            final(self)@.chip == old(self)@.chip,
    {
        let i = board_addr_to_index(addr);
        self.board.set(i, value);
    }

    pub fn write_chip(&mut self, addr: u32, value: u8)
        requires
            old(self).wf(),
        ensures
            final(self)@.chip == old(self)@.chip.update(chip_index(addr), value),
            final(self)@.board == old(self)@.board,
    {
        let i = chip_addr_to_index(addr);
        self.chip.set(i, value);
    }

    pub fn write_board_16(&mut self, addr: u32, value: u16)
        requires
            old(self).wf(),
            board_index(addr) + 2 <= ON_BOARD_RAM_SIZE,
        ensures
            final(self)@.board == write_le_u16(old(self)@.board, board_index(addr), value),
            final(self)@.chip == old(self)@.chip,
    {
        let i = board_addr_to_index(addr);
        let (b0, b1) = u16_to_le(value);
        self.board.set(i, b0);
        self.board.set(i + 1, b1);
    }

    pub fn write_chip_16(&mut self, addr: u32, value: u16)
        requires
            old(self).wf(),
            chip_index(addr) + 2 <= ON_CHIP_RAM_SIZE,
        ensures
            final(self)@.chip == write_le_u16(old(self)@.chip, chip_index(addr), value),
            final(self)@.board == old(self)@.board,
    {
        let i = chip_addr_to_index(addr);
        let (b0, b1) = u16_to_le(value);
        self.chip.set(i, b0);
        self.chip.set(i + 1, b1);
    }

    pub fn write_board_32(&mut self, addr: u32, value: u32)
        requires
            old(self).wf(),
            board_index(addr) + 4 <= ON_BOARD_RAM_SIZE,
        ensures
            final(self)@.board == write_le_u32(old(self)@.board, board_index(addr), value),
            final(self)@.chip == old(self)@.chip,
    {
        let i = board_addr_to_index(addr);
        let (b0, b1, b2, b3) = u32_to_le(value);
        self.board.set(i, b0);
        self.board.set(i + 1, b1);
        self.board.set(i + 2, b2);
        self.board.set(i + 3, b3);
    }

    pub fn write_chip_32(&mut self, addr: u32, value: u32)
        requires
            old(self).wf(),
            chip_index(addr) + 4 <= ON_CHIP_RAM_SIZE,
        ensures
            final(self)@.chip == write_le_u32(old(self)@.chip, chip_index(addr), value),
            final(self)@.board == old(self)@.board,
    {
        let i = chip_addr_to_index(addr);
        let (b0, b1, b2, b3) = u32_to_le(value);
        self.chip.set(i, b0);
        self.chip.set(i + 1, b1);
        self.chip.set(i + 2, b2);
        self.chip.set(i + 3, b3);
    }
}

impl Default for WorkRam {
    fn default() -> (r: WorkRam)
        ensures
            r.wf(),
    {
        WorkRam::new()
    }
}

} // verus!
