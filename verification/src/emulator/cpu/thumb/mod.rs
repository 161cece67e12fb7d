//! The THUMB (16-bit) instruction set.

pub mod alu;
pub mod branch;
pub mod load_store;
pub mod multi_load_store;

use vstd::prelude::*;

verus! {

/// An encoded THUMB instruction.
pub type ThumbInstruction = u16;

/// Contains all Thumb instructions for the ArmV4T.
pub struct ThumbV4;

/// The low register number held in the three bits of `instruction` starting at bit `lo`.
pub open spec fn low_reg_field(instruction: u16, lo: u32) -> int {
    (((instruction as u32) >> lo) & 7) as int
}

/// Extract the three bit register number of `instruction` starting at bit `lo`.
pub fn low_reg_at(instruction: u16, lo: u32) -> (r: usize)
    requires
        lo < 16,
    ensures
        r as int == low_reg_field(instruction, lo),
        r < 8,
{
    let w = instruction as u32;
    proof {
        crate::utils::lemma_bit_facts();
    }
    ((w >> lo) & 7) as usize
}

/// Whether bit `n` of a THUMB instruction is set.
pub open spec fn ibit(instruction: u16, n: u32) -> bool {
    ((instruction as u32) >> n) & 1 == 1
}

/// Whether bit `n` of a THUMB instruction is set.
pub fn test_ibit(instruction: u16, n: u32) -> (r: bool)
    requires
        n < 16,
    ensures
        r == ibit(instruction, n),
{
    ((instruction as u32) >> n) & 1 == 1
}

/// The unsigned field of `instruction` of the bits selected by `mask` after shifting down by `lo`.
pub open spec fn ifield(instruction: u16, lo: u32, mask: u32) -> u32 {
    ((instruction as u32) >> lo) & mask
}

} // verus!
