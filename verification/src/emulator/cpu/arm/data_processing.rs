//! Data processing: the sixteen ALU operations with an immediate or shifted register operand.

use crate::emulator::bus::{Bus, BusView};
use crate::emulator::cpu::arm::{reg_at, reg_field, ArmInstruction, ArmV4};
use crate::emulator::cpu::common::{
    condition_spec,
    adc, arith_result, flag_value, rotate_right, rotr_spec, sbc, shift_spec, ShiftType,
};
use crate::emulator::cpu::registers::PC_REG;
use crate::emulator::cpu::{
    bit_of, cpu_set_reg, cpu_with_cpsr, reg_of, test_bit, with_logical_flags, write_cpsr_spec,
    write_reg_spec, CpuView, CPU,
};
use crate::utils::sign_overflow_spec;
use vstd::prelude::*;

verus! {

/// The sixteen operations of the ALU, by their four bit encoding.
#[derive(Debug, Eq, PartialEq, Structural, Copy, Clone)]
pub enum OpCode {
    And,
    Eor,
    Sub,
    Rsb,
    Add,
    Adc,
    Sbc,
    Rsc,
    Tst,
    Teq,
    Cmp,
    Cmn,
    Orr,
    Mov,
    Bic,
    Mvn,
}

impl OpCode {
    /// The operation encoded by the low four bits of `bits`.
    pub open spec fn spec_from_bits(bits: u32) -> OpCode {
        let b = bits & 0xF;
        if b == 0 {
            OpCode::And
        } else if b == 1 {
            OpCode::Eor
        } else if b == 2 {
            OpCode::Sub
        } else if b == 3 {
            OpCode::Rsb
        } else if b == 4 {
            OpCode::Add
        } else if b == 5 {
            OpCode::Adc
        } else if b == 6 {
            OpCode::Sbc
        } else if b == 7 {
            OpCode::Rsc
        } else if b == 8 {
            OpCode::Tst
        } else if b == 9 {
            OpCode::Teq
        } else if b == 10 {
            OpCode::Cmp
        } else if b == 11 {
            OpCode::Cmn
        } else if b == 12 {
            OpCode::Orr
        } else if b == 13 {
            OpCode::Mov
        } else if b == 14 {
            OpCode::Bic
        } else {
            OpCode::Mvn
        }
    }

    /// Decode the operation of the low four bits of `bits`.
    pub fn from_bits(bits: u32) -> (r: OpCode)
        ensures
            r == OpCode::spec_from_bits(bits),
    {
        let b = bits & 0xF;
        if b == 0 {
            OpCode::And
        } else if b == 1 {
            OpCode::Eor
        } else if b == 2 {
            OpCode::Sub
        } else if b == 3 {
            OpCode::Rsb
        } else if b == 4 {
            OpCode::Add
        } else if b == 5 {
            OpCode::Adc
        } else if b == 6 {
            OpCode::Sbc
        } else if b == 7 {
            OpCode::Rsc
        } else if b == 8 {
            OpCode::Tst
        } else if b == 9 {
            OpCode::Teq
        } else if b == 10 {
            OpCode::Cmp
        } else if b == 11 {
            OpCode::Cmn
        } else if b == 12 {
            OpCode::Orr
        } else if b == 13 {
            OpCode::Mov
        } else if b == 14 {
            OpCode::Bic
        } else {
            OpCode::Mvn
        }
    }

    /// The operations that only set flags and write no register.
    pub open spec fn is_test(self) -> bool {
        self == OpCode::Tst || self == OpCode::Teq || self == OpCode::Cmp || self == OpCode::Cmn
    }
}

/// A logical result: the flags are written from the value and the shifter carry when asked.
pub open spec fn logical_spec(c: CpuView, value: u32, set_flags: bool, carry: bool) -> (u32, CpuView) {
    (value, if set_flags {
        cpu_with_cpsr(c, with_logical_flags(c.registers.cpsr, value, carry))
    } else {
        c
    })
}

/// `op1 + op2`, with arithmetic flags when asked.
pub open spec fn add_spec(c: CpuView, op1: u32, op2: u32, s: bool) -> (u32, CpuView) {
    let r = op1.wrapping_add(op2);
    (r, arith_result(c, s, r, op1 + op2 > u32::MAX, sign_overflow_spec(op1, op2, r)))
}

/// `op1 - op2`, with arithmetic flags when asked; the carry is the inverted borrow.
pub open spec fn sub_spec(c: CpuView, op1: u32, op2: u32, s: bool) -> (u32, CpuView) {
    let r = op1.wrapping_sub(op2);
    (r, arith_result(c, s, r, op1 >= op2, sign_overflow_spec(op1, !op2, r)))
}

/// `op1 + op2 + C`, with arithmetic flags when asked.
pub open spec fn adc_spec(c: CpuView, op1: u32, op2: u32, s: bool) -> (u32, CpuView) {
    let cin = flag_value(c.registers.cpsr.carry);
    let r = op1.wrapping_add(op2).wrapping_add(cin);
    (r, arith_result(c, s, r, op1 + op2 + cin > u32::MAX, sign_overflow_spec(op1, op2, r)))
}

/// `op1 - op2 - !C`, with arithmetic flags when asked.
pub open spec fn sbc_spec(c: CpuView, op1: u32, op2: u32, s: bool) -> (u32, CpuView) {
    let bin = flag_value(!c.registers.cpsr.carry);
    let r = op1.wrapping_sub(op2).wrapping_sub(bin);
    (r, arith_result(c, s, r, op1 >= op2 + bin, sign_overflow_spec(op1, !op2, r)))
}

/// The value computed by an ALU operation and the processor state after its flags are set.
/// The test operations always set their flags and compute no value.
pub open spec fn alu_spec(c: CpuView, op: OpCode, op1: u32, op2: u32, s: bool, carry: bool) -> (u32, CpuView) {
    match op {
        OpCode::And => logical_spec(c, op1 & op2, s, carry),
        OpCode::Eor => logical_spec(c, op1 ^ op2, s, carry),
        OpCode::Sub => sub_spec(c, op1, op2, s),
        OpCode::Rsb => sub_spec(c, op2, op1, s),
        OpCode::Add => add_spec(c, op1, op2, s),
        OpCode::Adc => adc_spec(c, op1, op2, s),
        OpCode::Sbc => sbc_spec(c, op1, op2, s),
        OpCode::Rsc => sbc_spec(c, op2, op1, s),
        OpCode::Tst => (0, logical_spec(c, op1 & op2, true, carry).1),
        OpCode::Teq => (0, logical_spec(c, op1 ^ op2, true, carry).1),
        OpCode::Cmp => (0, sub_spec(c, op1, op2, true).1),
        OpCode::Cmn => (0, add_spec(c, op1, op2, true).1),
        OpCode::Orr => logical_spec(c, op1 | op2, s, carry),
        OpCode::Mov => logical_spec(c, op2, s, carry),
        OpCode::Bic => logical_spec(c, op1 & !op2, s, carry),
        OpCode::Mvn => logical_spec(c, !op2, s, carry),
    }
}

/// A data operation: the ALU computes and sets flags; with `S` set and R15 as destination the
/// SPSR is moved into the CPSR; then every operation but the tests writes its destination.
pub open spec fn data_operation_spec(
    c: CpuView,
    b: BusView,
    op: OpCode,
    op1: u32,
    op2: u32,
    rd: int,
    s: bool,
    carry: bool,
) -> (CpuView, BusView) {
    let (result, c1) = alu_spec(c, op, op1, op2, s, carry);
    let c2 = if rd == 15 && s {
        write_cpsr_spec(c1, c1.registers.spsr)
    } else {
        c1
    };
    if op.is_test() {
        (c2, b)
    } else {
        write_reg_spec(c2, b, rd, result)
    }
}

/// The second operand of an immediate data processing instruction: eight bits rotated right
/// by twice the four bit rotate field.
pub open spec fn dp_immediate_operand(instruction: u32) -> u32 {
    rotr_spec(instruction & 0xFF, (((instruction >> 8u32) & 0xF) * 2) as u32)
}

/// The carry of an immediate operand: bit 31 of the operand when it was rotated, the
/// current carry otherwise.
pub open spec fn dp_immediate_carry(c: CpuView, instruction: u32) -> bool {
    if ((instruction >> 8u32) & 0xF) * 2 != 0 {
        bit_of(dp_immediate_operand(instruction), 31)
    } else {
        c.registers.cpsr.carry
    }
}

/// Data processing with an immediate second operand.
pub open spec fn dp_immediate_spec(c: CpuView, b: BusView, instruction: u32) -> (CpuView, BusView) {
    data_operation_spec(
        c,
        b,
        OpCode::spec_from_bits(instruction >> 21u32),
        reg_of(c, reg_field(instruction, 16)),
        dp_immediate_operand(instruction),
        reg_field(instruction, 12),
        bit_of(instruction, 20),
        dp_immediate_carry(c, instruction),
    )
}

/// The barrel shifter applied to the register operand by the five bit immediate amount.
pub open spec fn dp_immediate_shift(c: CpuView, instruction: u32) -> (u32, bool) {
    shift_spec(
        ShiftType::spec_from_bits(instruction >> 5u32),
        reg_of(c, reg_field(instruction, 0)),
        ((instruction >> 7u32) & 0x1F) as u8,
        c.registers.cpsr.carry,
    )
}

/// Data processing with a register second operand shifted by an immediate amount.
pub open spec fn dp_register_immediate_shift_spec(c: CpuView, b: BusView, instruction: u32) -> (CpuView, BusView) {
    let (op2, carry) = dp_immediate_shift(c, instruction);
    data_operation_spec(
        c,
        b,
        OpCode::spec_from_bits(instruction >> 21u32),
        reg_of(c, reg_field(instruction, 16)),
        op2,
        reg_field(instruction, 12),
        bit_of(instruction, 20),
        carry,
    )
}

/// The barrel shifter applied to the register operand by the low byte of the shift register;
/// a zero amount leaves the operand and the carry as they are.
pub open spec fn dp_register_shift(c: CpuView, instruction: u32) -> (u32, bool) {
    let amount = reg_of(c, reg_field(instruction, 8)) as u8;
    if amount == 0 {
        (reg_of(c, reg_field(instruction, 0)), c.registers.cpsr.carry)
    } else {
        shift_spec(
            ShiftType::spec_from_bits(instruction >> 5u32),
            reg_of(c, reg_field(instruction, 0)),
            amount,
            c.registers.cpsr.carry,
        )
    }
}

/// Data processing with a register second operand shifted by a register amount. For the
/// duration of the instruction the program counter reads 4 further ahead.
pub open spec fn dp_register_register_shift_spec(c: CpuView, b: BusView, instruction: u32) -> (CpuView, BusView) {
    let c0 = cpu_set_reg(c, PC_REG as int, reg_of(c, PC_REG as int).wrapping_add(4));
    let (op2, carry) = dp_register_shift(c0, instruction);
    let (c1, b1) = data_operation_spec(
        c0,
        b,
        OpCode::spec_from_bits(instruction >> 21u32),
        reg_of(c0, reg_field(instruction, 16)),
        op2,
        reg_field(instruction, 12),
        bit_of(instruction, 20),
        carry,
    );
    (cpu_set_reg(c1, PC_REG as int, reg_of(c1, PC_REG as int).wrapping_sub(4)), b1)
}

/// Compute an ALU operation and set its flags.
pub fn alu(cpu: &mut CPU, opcode: OpCode, op1: u32, op2: u32, set_flags: bool, barrel_shift_carry: bool) -> (r: u32)
    requires
        old(cpu).wf(),
    ensures
        final(cpu).wf(),
        (r, final(cpu)@) == alu_spec(old(cpu)@, opcode, op1, op2, set_flags, barrel_shift_carry),
{
    match opcode {
        OpCode::Sub => crate::emulator::cpu::common::sub(cpu, op1, op2, set_flags),
        OpCode::Rsb => crate::emulator::cpu::common::sub(cpu, op2, op1, set_flags),
        OpCode::Add => crate::emulator::cpu::common::add(cpu, op1, op2, set_flags),
        OpCode::Adc => adc(cpu, op1, op2, set_flags),
        OpCode::Sbc => sbc(cpu, op1, op2, set_flags),
        OpCode::Rsc => sbc(cpu, op2, op1, set_flags),
        OpCode::Cmp => {
            // Normal sub, but the result is ignored
            let _ = crate::emulator::cpu::common::sub(cpu, op1, op2, true);
            0
        },
        OpCode::Cmn => {
            // Normal add, but the result is ignored
            let _ = crate::emulator::cpu::common::add(cpu, op1, op2, true);
            0
        },
        _ => logical(cpu, opcode, op1, op2, set_flags, barrel_shift_carry),
    }
}

/// Compute a logical ALU operation and set its flags; the test operations always set them.
fn logical(cpu: &mut CPU, opcode: OpCode, op1: u32, op2: u32, set_flags: bool, barrel_shift_carry: bool) -> (r: u32)
    requires
        old(cpu).wf(),
        opcode == OpCode::And || opcode == OpCode::Eor || opcode == OpCode::Tst || opcode == OpCode::Teq
            || opcode == OpCode::Orr || opcode == OpCode::Mov || opcode == OpCode::Bic || opcode == OpCode::Mvn,
    ensures
        final(cpu).wf(),
        (r, final(cpu)@) == alu_spec(old(cpu)@, opcode, op1, op2, set_flags, barrel_shift_carry),
{
    let (value, always) = match opcode {
        OpCode::And => (op1 & op2, false),
        OpCode::Eor => (op1 ^ op2, false),
        OpCode::Tst => (op1 & op2, true),
        OpCode::Teq => (op1 ^ op2, true),
        OpCode::Orr => (op1 | op2, false),
        OpCode::Mov => (op2, false),
        OpCode::Bic => (op1 & !op2, false),
        _ => (!op2, false),
    };
    if set_flags || always {
        cpu.set_logical_flags(value, barrel_shift_carry);
    }
    if always {
        0
    } else {
        value
    }
}

impl ArmV4 {
    /// Data processing with an immediate second operand.
    pub fn data_processing_immediate(cpu: &mut CPU, instruction: ArmInstruction, bus: &mut Bus)
        requires
            old(cpu).wf(),
            old(bus).wf(),
        ensures
            final(cpu).wf(),
            final(bus).wf(),
            (final(cpu)@, final(bus)@) == dp_immediate_spec(old(cpu)@, old(bus)@, instruction),
    {
        let opcode = OpCode::from_bits(instruction >> 21u32);
        let set_flags = test_bit(instruction, 20);
        let r_d = reg_at(instruction, 12);
        let r_op1 = reg_at(instruction, 16);
        let op1_value = cpu.read_reg(r_op1);
        // The immediate is zero extended to 32 bits, then rotated right by `rotate amount * 2`
        proof {
            crate::utils::lemma_bit_facts();
        }
        let rotate = ((instruction >> 8u32) & 0xF) * 2;
        let imm = instruction & 0xFF;
        let op2_value = rotate_right(imm, rotate);
        // Without a rotation the carry flag is left as it is.
        let carry = if rotate != 0 {
            test_bit(op2_value, 31)
        } else {
            cpu.registers.cpsr.carry()
        };
        Self::perform_data_operation(cpu, bus, opcode, op1_value, op2_value, r_d, set_flags, carry);
    }

    /// Data processing with a register second operand shifted by an immediate amount.
    pub fn data_processing_register_immediate_shift(cpu: &mut CPU, instruction: ArmInstruction, bus: &mut Bus)
        requires
            old(cpu).wf(),
            old(bus).wf(),
        ensures
            final(cpu).wf(),
            final(bus).wf(),
            (final(cpu)@, final(bus)@) == dp_register_immediate_shift_spec(old(cpu)@, old(bus)@, instruction),
    {
        let opcode = OpCode::from_bits(instruction >> 21u32);
        let set_flags = test_bit(instruction, 20);
        let r_d = reg_at(instruction, 12);
        let shift_type = ShiftType::from_bits(instruction >> 5u32);
        let r_op2 = reg_at(instruction, 0);
        proof {
            crate::utils::lemma_bit_facts();
        }
        let shift_amount = ((instruction >> 7u32) & 0x1F) as u8;
        let (op2_value, carry) = shift_type.perform_shift(
            cpu.read_reg(r_op2),
            shift_amount,
            cpu.registers.cpsr.carry(),
        );
        let r_op1 = reg_at(instruction, 16);
        let op1_value = cpu.read_reg(r_op1);
        Self::perform_data_operation(cpu, bus, opcode, op1_value, op2_value, r_d, set_flags, carry);
    }

    /// Data processing with a register second operand shifted by the amount in a register.
    #[verifier::rlimit(40)]
    pub fn data_processing_register_register_shift(cpu: &mut CPU, instruction: ArmInstruction, bus: &mut Bus)
        requires
            old(cpu).wf(),
            old(bus).wf(),
        ensures
            final(cpu).wf(),
            final(bus).wf(),
            (final(cpu)@, final(bus)@) == dp_register_register_shift_spec(old(cpu)@, old(bus)@, instruction),
    {
        // The program counter is 4 further ahead for the duration of this instruction.
        let pc = cpu.read_reg(PC_REG);
        cpu.registers.write_reg(PC_REG, pc.wrapping_add(4));
        let opcode = OpCode::from_bits(instruction >> 21u32);
        let set_flags = test_bit(instruction, 20);
        let r_d = reg_at(instruction, 12);
        let shift_type = ShiftType::from_bits(instruction >> 5u32);
        let r_op2 = reg_at(instruction, 0);
        let shift_register = reg_at(instruction, 8);
        // Only the lower byte of the shift register matters.
        let shift_amount = cpu.read_reg(shift_register) as u8;
        let (op2_value, carry) = if shift_amount == 0 {
            (cpu.read_reg(r_op2), cpu.registers.cpsr.carry())
        } else {
            shift_type.perform_shift(cpu.read_reg(r_op2), shift_amount, cpu.registers.cpsr.carry())
        };
        let r_op1 = reg_at(instruction, 16);
        let op1_value = cpu.read_reg(r_op1);
        Self::perform_data_operation(cpu, bus, opcode, op1_value, op2_value, r_d, set_flags, carry);
        // Undo the increment from before.
        let pc = cpu.read_reg(PC_REG);
        cpu.registers.write_reg(PC_REG, pc.wrapping_sub(4));
    }

    /// Perform the ALU operation, set the flags and write the destination register.
    pub fn perform_data_operation(
        cpu: &mut CPU,
        bus: &mut Bus,
        opcode: OpCode,
        op1: u32,
        op2: u32,
        r_d: usize,
        set_flags: bool,
        barrel_shift_carry: bool,
    )
        requires
            old(cpu).wf(),
            old(bus).wf(),
            r_d < 16,
        ensures
            final(cpu).wf(),
            final(bus).wf(),
            (final(cpu)@, final(bus)@) == data_operation_spec(
                old(cpu)@,
                old(bus)@,
                opcode,
                op1,
                op2,
                r_d as int,
                set_flags,
                barrel_shift_carry,
            ),
    {
        let result = alu(cpu, opcode, op1, op2, set_flags, barrel_shift_carry);
        // With R15 as destination and the S flag set, the SPSR of the current mode is moved
        // into the CPSR; used to return from exceptions.
        if r_d == 15 && set_flags {
            let spsr = cpu.registers.spsr;
            cpu.write_cpsr(spsr);
        }
        match opcode {
            OpCode::Teq | OpCode::Tst | OpCode::Cmn | OpCode::Cmp => {},
            _ => cpu.write_reg(r_d, result, bus),
        }
    }
}

} // verus!

verus! {

pub proof fn lemma_sub_as_u32(a: u32, b: u32)
    ensures
        a.wrapping_sub(b) == (a - b) as u32,
{
    let r = a.wrapping_sub(b);
    if a >= b {
        assert(r == a - b);
    } else {
        assert(r == a - b + 0x1_0000_0000);
        assert(((a - b + 0x1_0000_0000) as u32) == (a - b) as u32) by (bit_vector)
            requires a < b;
    }
}

/// The condition codes after `CMP a, b` compare the operands: `EQ`/`NE` as equal or not,
/// `CS`/`CC`/`HI`/`LS` as unsigned numbers, `GE`/`LT`/`GT`/`LE` as two's complement signed
/// numbers; `MI` holds when `a - b` is negative and `VS` when the signed difference does not
/// fit in 32 bits.
pub proof fn lemma_conditions_after_compare(c: CpuView, a: u32, b: u32, s: bool, carry: bool)
    ensures
        ({
            let f = alu_spec(c, OpCode::Cmp, a, b, s, carry).1.registers.cpsr;
            &&& condition_spec(f, 0) == (a == b)
            &&& condition_spec(f, 1) == (a != b)
            &&& condition_spec(f, 2) == (a >= b)
            &&& condition_spec(f, 3) == (a < b)
            &&& condition_spec(f, 4) == (((a - b) as u32 as i32) < 0)
            &&& condition_spec(f, 6) == !(i32::MIN <= (a as i32) - (b as i32) <= i32::MAX)
            &&& condition_spec(f, 8) == (a > b)
            &&& condition_spec(f, 9) == (a <= b)
            &&& condition_spec(f, 10) == ((a as i32) >= (b as i32))
            &&& condition_spec(f, 11) == ((a as i32) < (b as i32))
            &&& condition_spec(f, 12) == ((a as i32) > (b as i32))
            &&& condition_spec(f, 13) == ((a as i32) <= (b as i32))
        }),
{
    lemma_sub_as_u32(a, b);
    let r = (a - b) as u32;
    assert({
        &&& (r == 0) == (a == b)
        &&& ((r >> 31u32) & 1 == 1) == ((r as i32) < 0)
        &&& ((((a ^ r) & (!b ^ r)) >> 31u32) != 0) == !(i32::MIN <= (a as i32) - (b as i32) <= i32::MAX)
        &&& (((r >> 31u32) & 1 == 1) == ((((a ^ r) & (!b ^ r)) >> 31u32) != 0)) == ((a as i32) >= (b as i32))
        &&& (r != 0 && (((r >> 31u32) & 1 == 1) == ((((a ^ r) & (!b ^ r)) >> 31u32) != 0))) == ((a as i32) > (b as i32))
    }) by (bit_vector)
        requires
            r == (a - b) as u32,
    ;
}

/// Adding modulo 2^32.
pub proof fn lemma_wrap_add(x: u32, y: u32)
    ensures
        x.wrapping_add(y) as int == (x + y) % 0x1_0000_0000,
{
    if x + y > u32::MAX {
        vstd::arithmetic::div_mod::lemma_fundamental_div_mod_converse(x + y, 0x1_0000_0000, 1, x + y - 0x1_0000_0000);
    } else {
        vstd::arithmetic::div_mod::lemma_small_mod((x + y) as nat, 0x1_0000_0000);
    }
}

/// Subtracting modulo 2^32.
pub proof fn lemma_wrap_sub(x: u32, y: u32)
    ensures
        x.wrapping_sub(y) as int == (x - y) % 0x1_0000_0000,
{
    if x - y < 0 {
        vstd::arithmetic::div_mod::lemma_fundamental_div_mod_converse(x - y, 0x1_0000_0000, -1, x - y + 0x1_0000_0000);
    } else {
        vstd::arithmetic::div_mod::lemma_small_mod((x - y) as nat, 0x1_0000_0000);
    }
}

/// What each ALU operation computes from its operands: the logical operations act on each
/// bit `i` on its own (`BIC` clears the bits that `op2` sets), the arithmetic ones compute
/// modulo 2^32 with the carry flag as carry in (and its inverse as borrow in), and the tests
/// only set flags: `TST`/`TEQ` report whether the `AND`/`EOR` is zero, `CMN` whether the sum is
/// zero and whether it carries out.
pub proof fn lemma_alu_results(c: CpuView, op1: u32, op2: u32, s: bool, carry: bool, i: u32)
    requires
        i < 32,
    ensures
        bit_of(alu_spec(c, OpCode::And, op1, op2, s, carry).0, i) == (bit_of(op1, i) && bit_of(op2, i)),
        bit_of(alu_spec(c, OpCode::Eor, op1, op2, s, carry).0, i) == (bit_of(op1, i) != bit_of(op2, i)),
        bit_of(alu_spec(c, OpCode::Orr, op1, op2, s, carry).0, i) == (bit_of(op1, i) || bit_of(op2, i)),
        bit_of(alu_spec(c, OpCode::Bic, op1, op2, s, carry).0, i) == (bit_of(op1, i) && !bit_of(op2, i)),
        alu_spec(c, OpCode::Mov, op1, op2, s, carry).0 == op2,
        bit_of(alu_spec(c, OpCode::Mvn, op1, op2, s, carry).0, i) == !bit_of(op2, i),
        alu_spec(c, OpCode::Add, op1, op2, s, carry).0 as int == (op1 + op2) % 0x1_0000_0000,
        alu_spec(c, OpCode::Sub, op1, op2, s, carry).0 as int == (op1 - op2) % 0x1_0000_0000,
        alu_spec(c, OpCode::Rsb, op1, op2, s, carry).0 as int == (op2 - op1) % 0x1_0000_0000,
        alu_spec(c, OpCode::Adc, op1, op2, s, carry).0 as int == (op1 + op2 + (if c.registers.cpsr.carry {
            1int
        } else {
            0
        })) % 0x1_0000_0000,
        alu_spec(c, OpCode::Sbc, op1, op2, s, carry).0 as int == (op1 - op2 - (if c.registers.cpsr.carry {
            0int
        } else {
            1
        })) % 0x1_0000_0000,
        alu_spec(c, OpCode::Rsc, op1, op2, s, carry).0 as int == (op2 - op1 - (if c.registers.cpsr.carry {
            0int
        } else {
            1
        })) % 0x1_0000_0000,
        s ==> alu_spec(c, OpCode::Add, op1, op2, s, carry).1.registers.cpsr.carry == (op1 + op2 >= 0x1_0000_0000),
        s ==> alu_spec(c, OpCode::Sub, op1, op2, s, carry).1.registers.cpsr.carry == (op1 >= op2),
        alu_spec(c, OpCode::Tst, op1, op2, s, carry).1.registers.cpsr.zero == (op1 & op2 == 0),
        alu_spec(c, OpCode::Teq, op1, op2, s, carry).1.registers.cpsr.zero == (op1 == op2),
        alu_spec(c, OpCode::Cmn, op1, op2, s, carry).1.registers.cpsr.zero == ((op1 + op2) % 0x1_0000_0000 == 0),
        alu_spec(c, OpCode::Cmn, op1, op2, s, carry).1.registers.cpsr.carry == (op1 + op2 >= 0x1_0000_0000),
{
    assert({
        &&& (((op1 & op2) >> i) & 1 == 1) == (((op1 >> i) & 1 == 1) && ((op2 >> i) & 1 == 1))
        &&& (((op1 ^ op2) >> i) & 1 == 1) == (((op1 >> i) & 1 == 1) != ((op2 >> i) & 1 == 1))
        &&& (((op1 | op2) >> i) & 1 == 1) == (((op1 >> i) & 1 == 1) || ((op2 >> i) & 1 == 1))
        &&& (((op1 & !op2) >> i) & 1 == 1) == (((op1 >> i) & 1 == 1) && !((op2 >> i) & 1 == 1))
        &&& (((!op2) >> i) & 1 == 1) == !((op2 >> i) & 1 == 1)
        &&& ((op1 ^ op2) == 0) == (op1 == op2)
    }) by (bit_vector)
        requires
            i < 32,
    ;
    let m: int = 0x1_0000_0000;
    lemma_wrap_add(op1, op2);
    lemma_wrap_sub(op1, op2);
    lemma_wrap_sub(op2, op1);
    let cin: u32 = flag_value(c.registers.cpsr.carry);
    let bin: u32 = flag_value(!c.registers.cpsr.carry);
    lemma_wrap_add(op1.wrapping_add(op2), cin);
    vstd::arithmetic::div_mod::lemma_add_mod_noop(op1 + op2, cin as int, m);
    vstd::arithmetic::div_mod::lemma_small_mod(cin as nat, m as nat);
    vstd::arithmetic::div_mod::lemma_mod_twice(op1 + op2, m);
    lemma_wrap_sub(op1.wrapping_sub(op2), bin);
    lemma_wrap_sub(op2.wrapping_sub(op1), bin);
    vstd::arithmetic::div_mod::lemma_sub_mod_noop(op1 - op2, bin as int, m);
    vstd::arithmetic::div_mod::lemma_sub_mod_noop(op2 - op1, bin as int, m);
    vstd::arithmetic::div_mod::lemma_small_mod(bin as nat, m as nat);
    vstd::arithmetic::div_mod::lemma_mod_twice(op1 - op2, m);
    vstd::arithmetic::div_mod::lemma_mod_twice(op2 - op1, m);
}

/// A data operation into `Rd` (not R15) writes the ALU result into `Rd` and no other register;
/// the tests (`TST`, `TEQ`, `CMP`, `CMN`) write no register at all; without the S bit the
/// other operations leave the status registers alone.
#[verifier::spinoff_prover]
#[verifier::rlimit(30)]
pub proof fn lemma_data_operation_writes(
    c: CpuView,
    b: BusView,
    op: OpCode,
    op1: u32,
    op2: u32,
    rd: int,
    s: bool,
    carry: bool,
)
    requires
        c.registers.general_purpose.len() == 16,
        0 <= rd < 15,
    ensures
        ({
            let c1 = data_operation_spec(c, b, op, op1, op2, rd, s, carry).0;
            &&& !op.is_test() ==> reg_of(c1, rd) == alu_spec(c, op, op1, op2, s, carry).0
            &&& forall|k: int| 0 <= k < 16 && k != rd ==> #[trigger] reg_of(c1, k) == reg_of(c, k)
            &&& op.is_test() ==> c1.registers.general_purpose == c.registers.general_purpose
            &&& !op.is_test() && !s ==> c1.registers.cpsr == c.registers.cpsr && c1.registers.spsr
                == c.registers.spsr
        }),
{
}

/// The immediate operand of a data processing instruction is its low eight bits rotated
/// right by twice the four bit rotate field: bit `i` of the operand is bit
/// `(i + 2 * rotate) % 32` of those eight bits.
pub proof fn lemma_immediate_operand(instruction: u32, i: u32)
    requires
        i < 32,
    ensures
        ({
            let k = ((i + 2 * ((instruction >> 8u32) & 0xF)) % 32) as u32;
            bit_of(dp_immediate_operand(instruction), i) == (k < 8 && bit_of(instruction, k))
        }),
{
    crate::utils::lemma_bit_facts();
    let rot = ((instruction >> 8u32) & 0xF) * 2;
    let v = instruction & 0xFF;
    let k = ((i + 2 * ((instruction >> 8u32) & 0xF)) % 32) as u32;
    if rot == 0 {
        assert(rotr_spec(v, rot as u32) == v);
        assert(k == i);
    } else {
        crate::emulator::cpu::common::lemma_shift_bits(v, rot as u8, false, i);
        assert(shift_spec(ShiftType::RotateRight, v, rot as u8, false).0 == rotr_spec(v, rot as u32));
    }
    assert((((v >> k) & 1) == 1) == (k < 8 && (instruction >> k) & 1 == 1));
}

} // verus!
