//! The ARM (32-bit) instruction set.

pub mod block_data_transfer;
pub mod branching;
pub mod data_processing;
pub mod load_store;
pub mod multiply;
pub mod psr_transfer;
pub mod single_data_swap;

use crate::emulator::bus::Bus;
use crate::emulator::cpu::common::{check_condition, condition_spec};
use crate::emulator::cpu::{raise_exception_spec, Exception, CPU};
use vstd::prelude::*;

verus! {

/// An encoded ARM instruction.
pub type ArmInstruction = u32;

/// The handlers of the ARM instruction set.
pub struct ArmV4;

/// The register number held in the four bits of `instruction` starting at bit `lo`.
pub open spec fn reg_field(instruction: u32, lo: u32) -> int {
    ((instruction >> lo) & 0xF) as int
}

/// Extract the four bit register number of `instruction` starting at bit `lo`.
pub fn reg_at(instruction: u32, lo: u32) -> (r: usize)
    requires
        lo < 32,
    ensures
        r as int == reg_field(instruction, lo),
        r < 16,
{
    let v = (instruction >> lo) & 0xF;
    proof {
        crate::utils::lemma_bit_facts();
    }
    v as usize
}

/// Returns the two most significant register fields of an instruction.
/// Since all ARM instructions follow this kind of format:
/// * `0000_0000_0000_XXXX_YYYY_0000_0000_ZZZZ`
///
/// This function will return `(XXXX, YYYY)`.
pub fn get_high_registers(instruction: ArmInstruction) -> (r: (usize, usize))
    ensures
        r.0 as int == reg_field(instruction, 16),
        r.1 as int == reg_field(instruction, 12),
        r.0 < 16,
        r.1 < 16,
{
    (reg_at(instruction, 16), reg_at(instruction, 12))
}

/// The condition code of an ARM instruction: its upper four bits.
pub open spec fn condition_code(instruction: u32) -> u8 {
    (instruction >> 28u32) as u8
}

impl ArmV4 {
    /// Check if the condition encoded in the provided `instruction` holds.
    pub fn condition_holds(cpu: &CPU, instruction: ArmInstruction) -> (r: bool)
        ensures
            r == condition_spec(cpu@.registers.cpsr, condition_code(instruction)),
    {
        // Upper 4 bits contain the condition code for all ARM instructions
        proof {
            crate::utils::lemma_bit_facts();
        }
        check_condition(&cpu.registers.cpsr, (instruction >> 28u32) as u8)
    }

    /// An undefined instruction. The GBA has no handler for it, so it is executed as a no-op.
    pub fn undefined_instruction(cpu: &mut CPU, _instruction: ArmInstruction, bus: &mut Bus)
        ensures
            final(cpu)@ == old(cpu)@,
            final(bus)@ == old(bus)@,
    {
    }

    /// A software interrupt: enter Supervisor mode at the SWI vector.
    pub fn software_interrupt(cpu: &mut CPU, _instruction: ArmInstruction, bus: &mut Bus)
        requires
            old(cpu).wf(),
            old(bus).wf(),
        ensures
            final(cpu).wf(),
            final(bus).wf(),
            (final(cpu)@, final(bus)@) == raise_exception_spec(old(cpu)@, old(bus)@, Exception::SoftwareInterrupt),
    {
        cpu.raise_exception(bus, Exception::SoftwareInterrupt)
    }
}

} // verus!
