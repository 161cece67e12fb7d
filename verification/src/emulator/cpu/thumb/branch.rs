//! THUMB formats 5, 16, 18 and 19: high register operations, branches and long branch with link.

use crate::emulator::bus::{Bus, BusView};
use crate::emulator::cpu::arm::data_processing::{add_spec, lemma_wrap_add, lemma_wrap_sub, sub_spec};
use crate::emulator::cpu::common::{branch_and_exchange, branch_exchange_spec, check_condition, condition_spec};
use crate::emulator::cpu::registers::{State, LINK_REG, PC_REG};
use crate::emulator::cpu::thumb::{ifield, ibit, low_reg_at, low_reg_field, test_ibit, ThumbInstruction, ThumbV4};
use crate::emulator::cpu::{lemma_write_pc, raise_exception_spec, reg_of, state_of, write_reg_spec, CpuView, Exception, CPU};
use crate::utils::{sign_extend32, sign_extend_spec};
use vstd::prelude::*;

verus! {

/// A register of format 5: the three bit field, in the high registers when the flag is set.
pub open spec fn hi_reg_field(instruction: u16, lo: u32, high_bit: u32) -> int {
    low_reg_field(instruction, lo) + if ibit(instruction, high_bit) {
        8int
    } else {
        0int
    }
}

/// Format 5: `ADD` (without flags), `CMP` and `MOV` on any registers, and `BX`.
pub open spec fn hi_reg_op_spec(c: CpuView, b: BusView, instruction: u16) -> (CpuView, BusView) {
    let rd = hi_reg_field(instruction, 0, 7);
    let op1 = reg_of(c, rd);
    let op2 = reg_of(c, hi_reg_field(instruction, 3, 6));
    let op = ifield(instruction, 8, 3);
    if op == 0 {
        let (r, c1) = add_spec(c, op1, op2, false);
        write_reg_spec(c1, b, rd, r)
    } else if op == 1 {
        (sub_spec(c, op1, op2, true).1, b)
    } else if op == 2 {
        write_reg_spec(c, b, rd, op2)
    } else {
        branch_exchange_spec(c, b, op2)
    }
}

/// Format 16: a branch by a signed 9-bit offset when the condition holds; condition `1111`
/// is a software interrupt.
pub open spec fn conditional_branch_spec(c: CpuView, b: BusView, instruction: u16) -> (CpuView, BusView) {
    let condition = ifield(instruction, 8, 0xF);
    let offset = sign_extend_spec(((instruction as u32) & 0xFF) << 1u32, 9) as u32;
    if condition == 15 {
        raise_exception_spec(c, b, Exception::SoftwareInterrupt)
    } else if condition_spec(c.registers.cpsr, condition as u8) {
        write_reg_spec(c, b, PC_REG as int, reg_of(c, PC_REG as int).wrapping_add(offset))
    } else {
        (c, b)
    }
}

/// Format 18: a branch by a signed 12-bit offset.
pub open spec fn unconditional_branch_spec(c: CpuView, b: BusView, instruction: u16) -> (CpuView, BusView) {
    let offset = sign_extend_spec(((instruction as u32) & 0x7FF) << 1u32, 12) as u32;
    write_reg_spec(c, b, PC_REG as int, reg_of(c, PC_REG as int).wrapping_add(offset))
}

/// Format 19, first half: the link register gets the program counter plus the high part of
/// the offset.
pub open spec fn long_branch_high_spec(c: CpuView, b: BusView, instruction: u16) -> (CpuView, BusView) {
    let offset = sign_extend_spec(((instruction as u32) & 0x7FF) << 12u32, 23) as u32;
    write_reg_spec(c, b, LINK_REG as int, reg_of(c, PC_REG as int).wrapping_add(offset))
}

/// Format 19, second half: jump to the link register plus the low part of the offset, taken
/// unsigned; the link register then holds the address of the next instruction with bit 0 set.
pub open spec fn long_branch_low_spec(c: CpuView, b: BusView, instruction: u16) -> (CpuView, BusView) {
    let offset = ((instruction as u32) & 0x7FF) << 1u32;
    let target = reg_of(c, LINK_REG as int).wrapping_add(offset);
    let next = reg_of(c, PC_REG as int).wrapping_sub(2);
    let (c1, b1) = write_reg_spec(c, b, PC_REG as int, target);
    write_reg_spec(c1, b1, LINK_REG as int, next | 1)
}

impl ThumbV4 {
    /// Format 5: operations on the high registers and branch exchange.
    pub fn hi_reg_op_branch_exchange(cpu: &mut CPU, instruction: ThumbInstruction, bus: &mut Bus)
        requires
            old(cpu).wf(),
            old(bus).wf(),
        ensures
            final(cpu).wf(),
            final(bus).wf(),
            (final(cpu)@, final(bus)@) == hi_reg_op_spec(old(cpu)@, old(bus)@, instruction),
    {
        let opcode = ((instruction as u32) >> 8u32) & 3;
        // The flags select the high registers 8-15.
        let r_d = low_reg_at(instruction, 0) + if test_ibit(instruction, 7) {
            8
        } else {
            0
        };
        let r_s = low_reg_at(instruction, 3) + if test_ibit(instruction, 6) {
            8
        } else {
            0
        };
        let op1 = cpu.read_reg(r_d);
        let op2 = cpu.read_reg(r_s);
        if opcode == 0 {
            // Flags are never set
            let result = crate::emulator::cpu::common::add(cpu, op1, op2, false);
            cpu.write_reg(r_d, result, bus);
        } else if opcode == 1 {
            let _ = crate::emulator::cpu::common::sub(cpu, op1, op2, true);
        } else if opcode == 2 {
            cpu.write_reg(r_d, op2, bus);
        } else {
            branch_and_exchange(cpu, op2, bus);
        }
    }

    /// Format 16: conditional branch, or software interrupt.
    pub fn conditional_branch(cpu: &mut CPU, instruction: ThumbInstruction, bus: &mut Bus)
        requires
            old(cpu).wf(),
            old(bus).wf(),
        ensures
            final(cpu).wf(),
            final(bus).wf(),
            (final(cpu)@, final(bus)@) == conditional_branch_spec(old(cpu)@, old(bus)@, instruction),
    {
        let condition = ((instruction as u32) >> 8u32) & 0xF;
        let offset = sign_extend32(((instruction as u32) & 0xFF) << 1u32, 9) as u32;
        if condition == 15 {
            cpu.raise_exception(bus, Exception::SoftwareInterrupt);
        } else {
            proof {
                crate::utils::lemma_bit_facts();
            }
            if check_condition(&cpu.registers.cpsr, condition as u8) {
                let pc = cpu.read_reg(PC_REG);
                cpu.write_reg(PC_REG, pc.wrapping_add(offset), bus);
            }
        }
    }

    /// Format 18: unconditional branch.
    pub fn unconditional_branch(cpu: &mut CPU, instruction: ThumbInstruction, bus: &mut Bus)
        requires
            old(cpu).wf(),
            old(bus).wf(),
        ensures
            final(cpu).wf(),
            final(bus).wf(),
            (final(cpu)@, final(bus)@) == unconditional_branch_spec(old(cpu)@, old(bus)@, instruction),
    {
        let offset = sign_extend32(((instruction as u32) & 0x7FF) << 1u32, 12) as u32;
        let pc = cpu.read_reg(PC_REG);
        cpu.write_reg(PC_REG, pc.wrapping_add(offset), bus);
    }

    /// Format 19: long branch with link, offset high part.
    pub fn long_branch_with_link_high(cpu: &mut CPU, instruction: ThumbInstruction, bus: &mut Bus)
        requires
            old(cpu).wf(),
            old(bus).wf(),
        ensures
            final(cpu).wf(),
            final(bus).wf(),
            (final(cpu)@, final(bus)@) == long_branch_high_spec(old(cpu)@, old(bus)@, instruction),
    {
        let offset = sign_extend32(((instruction as u32) & 0x7FF) << 12u32, 23) as u32;
        let pc = cpu.read_reg(PC_REG);
        cpu.write_reg(LINK_REG, pc.wrapping_add(offset), bus);
    }

    /// Format 19: long branch with link, offset low part.
    pub fn long_branch_with_link_low(cpu: &mut CPU, instruction: ThumbInstruction, bus: &mut Bus)
        requires
            old(cpu).wf(),
            old(bus).wf(),
        ensures
            final(cpu).wf(),
            final(bus).wf(),
            (final(cpu)@, final(bus)@) == long_branch_low_spec(old(cpu)@, old(bus)@, instruction),
    {
        // The low half of the offset is unsigned: the sign came with the high half.
        let offset = ((instruction as u32) & 0x7FF) << 1u32;
        let lr = cpu.read_reg(LINK_REG);
        let final_value = lr.wrapping_add(offset);
        let next_instruction_address = cpu.read_reg(PC_REG).wrapping_sub(2);
        cpu.write_reg(PC_REG, final_value, bus);
        // The link register holds the address of the instruction after this one, with bit 0 set.
        cpu.write_reg(LINK_REG, next_instruction_address | 1, bus);
    }
}

/// The sum of two aligned addresses (modulo 2^32) is aligned.
pub proof fn lemma_aligned_sum(x: u32, y: u32, t: u32, mask: u32)
    requires
        (mask == 0xFFFF_FFFE && x & 1 == 0 && y & 1 == 0) || (mask == 0xFFFF_FFFC && x & 3 == 0 && y & 3 == 0),
        t as int == (x + y) % 0x1_0000_0000,
    ensures
        t & mask == t,
{
    assert(t & mask == t) by (bit_vector)
        requires
            (mask == 0xFFFF_FFFE && x & 1 == 0 && y & 1 == 0) || (mask == 0xFFFF_FFFC && x & 3 == 0 && y & 3 == 0),
            t as int == (x + y) % 0x1_0000_0000,
    ;
}

/// Adding an offset that stands for the signed `delta` modulo 2^32, then one instruction.
proof fn lemma_add_offset(base: u32, off: u32, delta: int, size: u32)
    requires
        off as int == delta + (if delta < 0 {
            0x1_0000_0000int
        } else {
            0
        }),
        -0x1_0000_0000 < delta < 0x1_0000_0000,
    ensures
        base.wrapping_add(off) as int == (base + delta) % 0x1_0000_0000,
        base.wrapping_add(off).wrapping_add(size) as int == (base + delta + size) % 0x1_0000_0000,
{
    let m: int = 0x1_0000_0000;
    lemma_wrap_add(base, off);
    lemma_wrap_add(base.wrapping_add(off), size);
    vstd::arithmetic::div_mod::lemma_add_mod_noop(base + off, size as int, m);
    vstd::arithmetic::div_mod::lemma_small_mod(size as nat, m as nat);
    vstd::arithmetic::div_mod::lemma_mod_twice(base + off, m);
    if delta < 0 {
        vstd::arithmetic::div_mod::lemma_mod_add_multiples_vanish(base + delta, m);
        vstd::arithmetic::div_mod::lemma_mod_add_multiples_vanish(base + delta + size, m);
    }
}

/// Format 16 (condition other than `1111`, aligned program counter two instructions ahead):
/// when the condition holds for the flags the program counter ends one instruction past
/// `pc + 2 * offset`, the 8-bit field read as a signed number; otherwise nothing changes.
pub proof fn lemma_conditional_branch_target(c: CpuView, b: BusView, instruction: u16)
    requires
        c.registers.general_purpose.len() == 16,
        state_of(c) == State::Thumb,
        reg_of(c, PC_REG as int) & 1 == 0,
        ifield(instruction, 8, 0xF) != 15,
    ensures
        ({
            let pc = reg_of(c, PC_REG as int);
            let field = (instruction as u32) & 0xFF;
            let delta: int = if field < 0x80 {
                2 * field
            } else {
                2 * (field - 0x100)
            };
            let r = conditional_branch_spec(c, b, instruction);
            &&& condition_spec(c.registers.cpsr, ifield(instruction, 8, 0xF) as u8) ==> reg_of(r.0, PC_REG as int) as int
                == (pc + delta + 2) % 0x1_0000_0000
            &&& condition_spec(c.registers.cpsr, ifield(instruction, 8, 0xF) as u8) ==> forall|k: int|
                0 <= k < 15 ==> #[trigger] reg_of(r.0, k) == reg_of(c, k)
            &&& !condition_spec(c.registers.cpsr, ifield(instruction, 8, 0xF) as u8) ==> r == (c, b)
        }),
{
    let pc = reg_of(c, PC_REG as int);
    let field = (instruction as u32) & 0xFF;
    let off = sign_extend_spec(((instruction as u32) & 0xFF) << 1u32, 9) as u32;
    let t = pc.wrapping_add(off);
    lemma_wrap_add(pc, off);
    assert({
        &&& off == (if field < 0x80 {
            2 * field
        } else {
            2 * field + 0xFFFF_FE00
        })
        &&& field <= 0xFF
        &&& off & 1 == 0
    }) by (bit_vector)
        requires
            field == (instruction as u32) & 0xFF,
            off == ((((((instruction as u32) & 0xFF) << 1u32) << 23u32) as i32) >> 23u32) as i32 as u32,
    ;
    lemma_aligned_sum(pc, off, t, 0xFFFF_FFFE);
    let delta: int = if field < 0x80 {
        2 * field
    } else {
        2 * (field - 0x100)
    };
    lemma_add_offset(pc, off, delta, 2);
    lemma_write_pc(c, b, t);
}

/// Format 18 (aligned program counter two instructions ahead): the program counter ends one
/// instruction past `pc + 2 * offset`, the 11-bit field read as a signed number.
pub proof fn lemma_unconditional_branch_target(c: CpuView, b: BusView, instruction: u16)
    requires
        c.registers.general_purpose.len() == 16,
        state_of(c) == State::Thumb,
        reg_of(c, PC_REG as int) & 1 == 0,
    ensures
        ({
            let pc = reg_of(c, PC_REG as int);
            let field = (instruction as u32) & 0x7FF;
            let delta: int = if field < 0x400 {
                2 * field
            } else {
                2 * (field - 0x800)
            };
            let c1 = unconditional_branch_spec(c, b, instruction).0;
            &&& reg_of(c1, PC_REG as int) as int == (pc + delta + 2) % 0x1_0000_0000
            &&& forall|k: int| 0 <= k < 15 ==> #[trigger] reg_of(c1, k) == reg_of(c, k)
        }),
{
    let pc = reg_of(c, PC_REG as int);
    let field = (instruction as u32) & 0x7FF;
    let off = sign_extend_spec(((instruction as u32) & 0x7FF) << 1u32, 12) as u32;
    let t = pc.wrapping_add(off);
    lemma_wrap_add(pc, off);
    assert({
        &&& off == (if field < 0x400 {
            2 * field
        } else {
            2 * field + 0xFFFF_F000
        })
        &&& field <= 0x7FF
        &&& off & 1 == 0
    }) by (bit_vector)
        requires
            field == (instruction as u32) & 0x7FF,
            off == ((((((instruction as u32) & 0x7FF) << 1u32) << 20u32) as i32) >> 20u32) as i32 as u32,
    ;
    lemma_aligned_sum(pc, off, t, 0xFFFF_FFFE);
    let delta: int = if field < 0x400 {
        2 * field
    } else {
        2 * (field - 0x800)
    };
    lemma_add_offset(pc, off, delta, 2);
    lemma_write_pc(c, b, t);
}

/// Format 19, first half: the link register gets `pc + 4096 * offset`, the 11-bit field read
/// as a signed number; no other register changes.
pub proof fn lemma_long_branch_high(c: CpuView, b: BusView, instruction: u16)
    requires
        c.registers.general_purpose.len() == 16,
    ensures
        ({
            let pc = reg_of(c, PC_REG as int);
            let field = (instruction as u32) & 0x7FF;
            let delta: int = if field < 0x400 {
                0x1000 * field
            } else {
                0x1000 * (field - 0x800)
            };
            let c1 = long_branch_high_spec(c, b, instruction).0;
            &&& reg_of(c1, LINK_REG as int) as int == (pc + delta) % 0x1_0000_0000
            &&& forall|k: int| 0 <= k < 16 && k != LINK_REG ==> #[trigger] reg_of(c1, k) == reg_of(c, k)
        }),
{
    let pc = reg_of(c, PC_REG as int);
    let field = (instruction as u32) & 0x7FF;
    let off = sign_extend_spec(((instruction as u32) & 0x7FF) << 12u32, 23) as u32;
    assert(off == (if field < 0x400 {
        0x1000 * field
    } else {
        0x1000 * field + 0xFF80_0000
    }) && field <= 0x7FF) by (bit_vector)
        requires
            field == (instruction as u32) & 0x7FF,
            off == ((((((instruction as u32) & 0x7FF) << 12u32) << 9u32) as i32) >> 9u32) as i32 as u32,
    ;
    let delta: int = if field < 0x400 {
        0x1000 * field
    } else {
        0x1000 * (field - 0x800)
    };
    lemma_add_offset(pc, off, delta, 2);
}

/// Format 19, second half (with an even link register and program counter): the program
/// counter ends one instruction past `lr + 2 * offset`, the 11-bit field taken unsigned, and
/// the link register holds the address of the next instruction, `pc - 2`, with bit 0 set.
pub proof fn lemma_long_branch_low(c: CpuView, b: BusView, instruction: u16)
    requires
        c.registers.general_purpose.len() == 16,
        state_of(c) == State::Thumb,
        reg_of(c, PC_REG as int) & 1 == 0,
        reg_of(c, LINK_REG as int) & 1 == 0,
    ensures
        ({
            let pc = reg_of(c, PC_REG as int);
            let lr = reg_of(c, LINK_REG as int);
            let c1 = long_branch_low_spec(c, b, instruction).0;
            &&& reg_of(c1, PC_REG as int) as int == (lr + 2 * ((instruction as u32) & 0x7FF) + 2) % 0x1_0000_0000
            &&& reg_of(c1, LINK_REG as int) as int == (pc - 2) % 0x1_0000_0000 + 1
            &&& forall|k: int| 0 <= k < 14 ==> #[trigger] reg_of(c1, k) == reg_of(c, k)
        }),
{
    let pc = reg_of(c, PC_REG as int);
    let lr = reg_of(c, LINK_REG as int);
    let field = (instruction as u32) & 0x7FF;
    let off = ((instruction as u32) & 0x7FF) << 1u32;
    let t = lr.wrapping_add(off);
    lemma_wrap_add(lr, off);
    let next = pc.wrapping_sub(2);
    lemma_wrap_sub(pc, 2);
    assert(off == 2 * field && off & 1 == 0) by (bit_vector)
        requires
            field == (instruction as u32) & 0x7FF,
            off == ((instruction as u32) & 0x7FF) << 1u32,
    ;
    lemma_aligned_sum(lr, off, t, 0xFFFF_FFFE);
    assert((next | 1) as int == next as int + 1) by (bit_vector)
        requires
            pc & 1 == 0,
            next as int == (pc - 2) % 0x1_0000_0000,
    ;
    lemma_add_offset(lr, off, 2 * field, 2);
    lemma_write_pc(c, b, t);
    let (c1, b1) = write_reg_spec(c, b, PC_REG as int, t);
    assert(reg_of(c1, LINK_REG as int) == lr);
}

/// Format 5 on a destination other than R15: `ADD` puts `Rd + Rs` modulo 2^32 into `Rd` and
/// leaves the flags alone, `MOV` copies `Rs` into `Rd`, and `CMP` writes no register and
/// compares `Rd` with `Rs` (zero flag: equal; carry: `Rd >= Rs`).
pub proof fn lemma_hi_reg_ops(c: CpuView, b: BusView, instruction: u16)
    requires
        c.registers.general_purpose.len() == 16,
        hi_reg_field(instruction, 0, 7) != 15,
    ensures
        ({
            let rd = hi_reg_field(instruction, 0, 7);
            let op1 = reg_of(c, rd);
            let op2 = reg_of(c, hi_reg_field(instruction, 3, 6));
            let op = ifield(instruction, 8, 3);
            let c1 = hi_reg_op_spec(c, b, instruction).0;
            &&& op == 0 ==> reg_of(c1, rd) as int == (op1 + op2) % 0x1_0000_0000 && c1.registers.cpsr
                == c.registers.cpsr
            &&& op == 1 ==> c1.registers.general_purpose == c.registers.general_purpose
            &&& op == 1 ==> c1.registers.cpsr.zero == (op1 == op2) && c1.registers.cpsr.carry == (op1 >= op2)
            &&& op == 2 ==> reg_of(c1, rd) == op2
        }),
{
    crate::utils::lemma_bit_facts();
    let rd = hi_reg_field(instruction, 0, 7);
    let op1 = reg_of(c, rd);
    let op2 = reg_of(c, hi_reg_field(instruction, 3, 6));
    lemma_wrap_add(op1, op2);
    crate::emulator::cpu::arm::data_processing::lemma_conditions_after_compare(
        c,
        op1,
        op2,
        true,
        c.registers.cpsr.carry,
    );
}

} // verus!
