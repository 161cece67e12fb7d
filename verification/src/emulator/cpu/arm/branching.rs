//! Branches: branch and exchange, branch with optional link.

use crate::emulator::bus::{Bus, BusView};
use crate::emulator::cpu::arm::{reg_at, reg_field, ArmInstruction, ArmV4};
use crate::emulator::cpu::common::{branch_and_exchange, branch_exchange_spec};
use crate::emulator::cpu::registers::{State, LINK_REG, PC_REG};
use crate::emulator::cpu::{bit_of, lemma_write_pc, reg_of, state_of, test_bit, write_reg_spec, CpuView, CPU};
use crate::utils::{sign_extend32, sign_extend_spec};
use vstd::prelude::*;

verus! {

/// `BX`: branch to the address in the register of bits `0..=3`, exchanging state by its bit 0.
pub open spec fn bx_spec(c: CpuView, b: BusView, instruction: u32) -> (CpuView, BusView) {
    branch_exchange_spec(c, b, reg_of(c, reg_field(instruction, 0)))
}

/// The byte offset of a branch: the 24-bit word offset sign extended and multiplied by four.
pub open spec fn branch_offset(instruction: u32) -> u32 {
    (sign_extend_spec(instruction & 0xFF_FFFF, 24) as u32) << 2u32
}

/// `B` and `BL`: with the link bit 24 the address of the next instruction goes to the link
/// register, then the program counter moves by the offset.
pub open spec fn branch_link_spec(c: CpuView, b: BusView, instruction: u32) -> (CpuView, BusView) {
    let pc = reg_of(c, PC_REG as int);
    let (c1, b1) = if bit_of(instruction, 24) {
        write_reg_spec(c, b, LINK_REG as int, pc.wrapping_sub(4))
    } else {
        (c, b)
    };
    write_reg_spec(c1, b1, PC_REG as int, pc.wrapping_add(branch_offset(instruction)))
}

impl ArmV4 {
    /// Branch to the address in a register, switching to THUMB state when its bit 0 is set.
    pub fn branch_and_exchange(cpu: &mut CPU, instruction: ArmInstruction, bus: &mut Bus)
        requires
            old(cpu).wf(),
            old(bus).wf(),
        ensures
            final(cpu).wf(),
            final(bus).wf(),
            (final(cpu)@, final(bus)@) == bx_spec(old(cpu)@, old(bus)@, instruction),
    {
        let r_n = reg_at(instruction, 0);
        let reg_contents = cpu.read_reg(r_n);
        branch_and_exchange(cpu, reg_contents, bus);
    }

    /// Branch by a signed offset, optionally saving the return address in the link register.
    pub fn branch_and_link(cpu: &mut CPU, instruction: ArmInstruction, bus: &mut Bus)
        requires
            old(cpu).wf(),
            old(bus).wf(),
        ensures
            final(cpu).wf(),
            final(bus).wf(),
            (final(cpu)@, final(bus)@) == branch_link_spec(old(cpu)@, old(bus)@, instruction),
    {
        let offset = (sign_extend32(instruction & 0xFF_FFFF, 24) as u32) << 2u32;
        let pc = cpu.read_reg(PC_REG);
        if test_bit(instruction, 24) {
            // The old program counter is two instructions ahead because of prefetching.
            cpu.write_reg(LINK_REG, pc.wrapping_sub(4), bus);
        }
        cpu.write_reg(PC_REG, pc.wrapping_add(offset), bus);
    }
}

/// `B` and `BL` in ARM state (with an aligned program counter, two instructions ahead)
/// jump by the 24-bit field read as a signed number of words: the program counter ends one
/// instruction past the target `pc + 4 * offset`; `BL` leaves the address of the next
/// instruction, `pc - 4`, in the link register, `B` leaves it alone; no other register changes.
pub proof fn lemma_branch_link_target(c: CpuView, b: BusView, instruction: u32)
    requires
        c.registers.general_purpose.len() == 16,
        state_of(c) == State::Arm,
        reg_of(c, PC_REG as int) & 3 == 0,
    ensures
        ({
            let pc = reg_of(c, PC_REG as int);
            let field = instruction & 0xFF_FFFF;
            let words: int = if field < 0x80_0000 {
                field as int
            } else {
                field - 0x100_0000
            };
            let c1 = branch_link_spec(c, b, instruction).0;
            &&& reg_of(c1, PC_REG as int) as int == (pc + 4 * words + 4) % 0x1_0000_0000
            &&& bit_of(instruction, 24) ==> reg_of(c1, LINK_REG as int) as int == (pc - 4) % 0x1_0000_0000
            &&& !bit_of(instruction, 24) ==> reg_of(c1, LINK_REG as int) == reg_of(c, LINK_REG as int)
            &&& forall|r: int| 0 <= r < 14 ==> #[trigger] reg_of(c1, r) == reg_of(c, r)
        }),
{
    let m: int = 0x1_0000_0000;
    let pc = reg_of(c, PC_REG as int);
    let field = instruction & 0xFF_FFFF;
    let bo = branch_offset(instruction);
    let t = pc.wrapping_add(bo);
    crate::emulator::cpu::arm::data_processing::lemma_wrap_add(pc, bo);
    assert({
        &&& field <= 0xFF_FFFF
        &&& bo == (if field < 0x80_0000 {
            field * 4
        } else {
            field * 4 + 0xFC00_0000
        })
        &&& t & 0xFFFF_FFFC == t
    }) by (bit_vector)
        requires
            field == instruction & 0xFF_FFFF,
            bo == ((((field << 8u32) as i32) >> 8u32) as i32 as u32) << 2u32,
            pc & 3 == 0,
            t as int == (pc + bo) % 0x1_0000_0000,
    ;
    let (c0, b0) = if bit_of(instruction, 24) {
        write_reg_spec(c, b, LINK_REG as int, pc.wrapping_sub(4))
    } else {
        (c, b)
    };
    assert(reg_of(c0, PC_REG as int) == pc);
    assert(state_of(c0) == State::Arm);
    lemma_write_pc(c0, b0, t);
    crate::emulator::cpu::arm::data_processing::lemma_wrap_add(t, 4);
    crate::emulator::cpu::arm::data_processing::lemma_wrap_sub(pc, 4);
    vstd::arithmetic::div_mod::lemma_add_mod_noop(pc + bo, 4, m);
    vstd::arithmetic::div_mod::lemma_small_mod(4, m as nat);
    vstd::arithmetic::div_mod::lemma_mod_twice(pc + bo, m);
    if field >= 0x80_0000 {
        vstd::arithmetic::div_mod::lemma_mod_add_multiples_vanish(pc + 4 * (field - 0x100_0000) + 4, m);
    }
}

} // verus!
