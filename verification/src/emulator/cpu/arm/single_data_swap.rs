//! `SWP` and `SWPB`: an atomic exchange of a register with memory.

use crate::emulator::bus::{
    bus_after_read32, bus_after_read8, bus_peek32, bus_peek8, bus_write32_spec, bus_write8_spec, Bus, BusView,
};
use crate::emulator::cpu::arm::{reg_at, reg_field, ArmInstruction, ArmV4};
use crate::emulator::cpu::common::{rotate_right, rotr_spec};
use crate::emulator::cpu::{bit_of, reg_of, test_bit, write_reg_spec, CpuView, CPU};
use vstd::prelude::*;

verus! {

/// The swap: memory at the base address is read, the source register written there, and the
/// value read goes to the destination register. A word read from an unaligned address is
/// rotated so that the addressed byte is at bits `0..=7`.
pub open spec fn swap_spec(c: CpuView, b: BusView, instruction: u32) -> (CpuView, BusView) {
    let source = reg_of(c, reg_field(instruction, 0));
    let base = reg_of(c, reg_field(instruction, 16));
    let rd = reg_field(instruction, 12);
    if bit_of(instruction, 22) {
        let current = bus_peek8(b, base, c);
        let b1 = bus_write8_spec(bus_after_read8(b, base, c), base, source as u8);
        write_reg_spec(c, b1, rd, current as u32)
    } else {
        let current = rotr_spec(bus_peek32(b, base, c), (8 * (base & 3)) as u32);
        let b1 = bus_write32_spec(bus_after_read32(b, base, c), base, source);
        write_reg_spec(c, b1, rd, current)
    }
}

impl ArmV4 {
    /// Swap a byte or a word between a register and memory.
    pub fn single_data_swap(cpu: &mut CPU, instruction: ArmInstruction, bus: &mut Bus)
        requires
            old(cpu).wf(),
            old(bus).wf(),
        ensures
            final(cpu).wf(),
            final(bus).wf(),
            (final(cpu)@, final(bus)@) == swap_spec(old(cpu)@, old(bus)@, instruction),
    {
        let is_byte = test_bit(instruction, 22);
        let reg_base = reg_at(instruction, 16);
        let reg_src = reg_at(instruction, 0);
        let reg_dst = reg_at(instruction, 12);
        let source_content = cpu.read_reg(reg_src);
        let base_address = cpu.read_reg(reg_base);
        if is_byte {
            let current_mem = bus.read(base_address, cpu);
            bus.write(base_address, source_content as u8);
            cpu.write_reg(reg_dst, current_mem as u32, bus);
        } else {
            proof {
                crate::utils::lemma_bit_facts();
            }
            let rotate_amount = base_address & 3;
            let current_mem = rotate_right(bus.read_32(base_address, cpu), 8 * rotate_amount);
            bus.write_32(base_address, source_content);
            cpu.write_reg(reg_dst, current_mem, bus);
        }
    }
}

/// `SWP` into `Rd` (not R15) gives `Rd` what memory held at the base address before the
/// swap: the byte there, zero extended, for `SWPB`, and the word there for `SWP` at a word
/// aligned address.
pub proof fn lemma_swap_reads_old_value(c: CpuView, b: BusView, instruction: u32)
    requires
        c.registers.general_purpose.len() == 16,
        reg_field(instruction, 12) != 15,
    ensures
        ({
            let base = reg_of(c, reg_field(instruction, 16));
            let r = reg_of(swap_spec(c, b, instruction).0, reg_field(instruction, 12));
            &&& bit_of(instruction, 22) ==> r as int == bus_peek8(b, base, c) as int
            &&& !bit_of(instruction, 22) && base & 3 == 0 ==> r == bus_peek32(b, base, c)
        }),
{
    crate::utils::lemma_bit_facts();
}

} // verus!
