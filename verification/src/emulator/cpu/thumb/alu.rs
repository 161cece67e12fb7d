//! THUMB formats 1 to 4: shifts, add/subtract, immediate operations and the ALU operations.

use crate::emulator::bus::{Bus, BusView};
use crate::emulator::cpu::arm::data_processing::{
    adc_spec, add_spec, lemma_alu_results, lemma_conditions_after_compare, lemma_wrap_add, lemma_wrap_sub, logical_spec, sbc_spec, sub_spec,
};
use crate::emulator::cpu::common::{adc, lemma_shift_bits, rotate_right, rotr_spec, sbc, shift_spec, ShiftType};
use crate::emulator::cpu::thumb::{ifield, ibit, low_reg_at, low_reg_field, test_ibit, ThumbInstruction, ThumbV4};
use crate::emulator::cpu::{bit_of, cpu_with_cpsr, reg_of, test_bit, with_zero_sign, write_reg_spec, CpuView, CPU};
use vstd::prelude::*;

verus! {

/// The shift of format 1, by the two opcode bits; the fourth pattern is format 2.
pub open spec fn shift_opcode(instruction: u16) -> ShiftType {
    let op = ifield(instruction, 11, 3);
    if op == 0 {
        ShiftType::LogicalLeft
    } else if op == 1 {
        ShiftType::LogicalRight
    } else {
        ShiftType::ArithRight
    }
}

/// The shifts of format 1.
#[derive(Debug, Copy, Clone, PartialEq, Eq, Structural)]
pub enum ShiftOpcode {
    Lsl,
    Lsr,
    Asr,
}

impl ShiftOpcode {
    /// The shift of a two bit opcode; the fourth pattern is not a shift.
    pub fn from_bits(val: u32) -> (r: ShiftOpcode)
        requires
            val < 3,
        ensures
            r.to_shift_type_spec() == (if val == 0 {
                ShiftType::LogicalLeft
            } else if val == 1 {
                ShiftType::LogicalRight
            } else {
                ShiftType::ArithRight
            }),
    {
        if val == 0 {
            ShiftOpcode::Lsl
        } else if val == 1 {
            ShiftOpcode::Lsr
        } else {
            ShiftOpcode::Asr
        }
    }

    /// The barrel shifter operation of the opcode.
    pub open spec fn to_shift_type_spec(self) -> ShiftType {
        match self {
            ShiftOpcode::Lsl => ShiftType::LogicalLeft,
            ShiftOpcode::Lsr => ShiftType::LogicalRight,
            ShiftOpcode::Asr => ShiftType::ArithRight,
        }
    }

    /// The barrel shifter operation of the opcode.
    pub fn to_shift_type(self) -> (r: ShiftType)
        ensures
            r == self.to_shift_type_spec(),
    {
        match self {
            ShiftOpcode::Lsl => ShiftType::LogicalLeft,
            ShiftOpcode::Lsr => ShiftType::LogicalRight,
            ShiftOpcode::Asr => ShiftType::ArithRight,
        }
    }
}

/// Format 1: `Rd = Rs` shifted by a five bit immediate, with logical flags.
pub open spec fn move_shifted_reg_spec(c: CpuView, b: BusView, instruction: u16) -> (CpuView, BusView) {
    let (value, carry) = shift_spec(
        shift_opcode(instruction),
        reg_of(c, low_reg_field(instruction, 3)),
        ifield(instruction, 6, 0x1F) as u8,
        c.registers.cpsr.carry,
    );
    let (c1, b1) = write_reg_spec(c, b, low_reg_field(instruction, 0), value);
    (logical_spec(c1, value, true, carry).1, b1)
}

/// Format 2: `Rd = Rs +/- (Rn or a three bit immediate)`, with arithmetic flags.
pub open spec fn add_subtract_spec(c: CpuView, b: BusView, instruction: u16) -> (CpuView, BusView) {
    let field = ifield(instruction, 6, 7);
    let operand = if ibit(instruction, 10) {
        field
    } else {
        reg_of(c, field as int)
    };
    let source = reg_of(c, low_reg_field(instruction, 3));
    let (result, c1) = if ibit(instruction, 9) {
        sub_spec(c, source, operand, true)
    } else {
        add_spec(c, source, operand, true)
    };
    write_reg_spec(c1, b, low_reg_field(instruction, 0), result)
}

/// Format 3: `MOV`, `CMP`, `ADD` and `SUB` of an eight bit immediate with `Rd`.
pub open spec fn move_compare_add_subtract_spec(c: CpuView, b: BusView, instruction: u16) -> (CpuView, BusView) {
    let rd = low_reg_field(instruction, 8);
    let offset = (instruction as u32) & 0xFF;
    let current = reg_of(c, rd);
    let op = ifield(instruction, 11, 3);
    if op == 0 {
        let (c1, b1) = write_reg_spec(c, b, rd, offset);
        (cpu_with_cpsr(c1, with_zero_sign(c1.registers.cpsr, offset)), b1)
    } else if op == 1 {
        (sub_spec(c, current, offset, true).1, b)
    } else if op == 2 {
        let (r, c1) = add_spec(c, current, offset, true);
        write_reg_spec(c1, b, rd, r)
    } else {
        let (r, c1) = sub_spec(c, current, offset, true);
        write_reg_spec(c1, b, rd, r)
    }
}

/// The result and carry of the THUMB register shifts `LSR`, `ASR` and `ROR` (`kind` 0, 1, 2):
/// a zero amount leaves value and carry unchanged.
pub open spec fn thumb_shift(kind: int, value: u32, amount: u32, carry: bool) -> (u32, bool) {
    if amount == 0 {
        (value, carry)
    } else if kind == 0 {
        if amount < 32 {
            (value >> amount, bit_of(value, (amount - 1) as u32))
        } else if amount == 32 {
            (0, bit_of(value, 31))
        } else {
            (0, false)
        }
    } else if kind == 1 {
        if amount < 32 {
            ((((value as i32) >> amount) as i32) as u32, bit_of(value, (amount - 1) as u32))
        } else if bit_of(value, 31) {
            (u32::MAX, true)
        } else {
            (0, false)
        }
    } else {
        let s = rotr_spec(value, amount);
        (s, bit_of(s, 31))
    }
}

/// The value and flag-updated state of a format 4 operation on `op1 = Rd` and `op2 = Rs`,
/// and whether it writes `Rd`.
pub open spec fn thumb_alu_spec(c: CpuView, opcode: u32, op1: u32, op2: u32) -> (u32, CpuView, bool) {
    let carry = c.registers.cpsr.carry;
    let zs = |v: u32| cpu_with_cpsr(c, with_zero_sign(c.registers.cpsr, v));
    if opcode == 0 {
        (op1 & op2, zs(op1 & op2), true)
    } else if opcode == 1 {
        (op1 ^ op2, zs(op1 ^ op2), true)
    } else if opcode == 2 {
        let (r, k) = shift_spec(ShiftType::LogicalLeft, op1, op2 as u8, carry);
        (r, logical_spec(c, r, true, k).1, true)
    } else if opcode == 3 || opcode == 4 || opcode == 7 {
        let kind = if opcode == 3 {
            0int
        } else if opcode == 4 {
            1int
        } else {
            2int
        };
        let (r, k) = thumb_shift(kind, op1, op2, carry);
        (r, logical_spec(c, r, true, k).1, true)
    } else if opcode == 5 {
        let (r, c1) = adc_spec(c, op1, op2, true);
        (r, c1, true)
    } else if opcode == 6 {
        let (r, c1) = sbc_spec(c, op1, op2, true);
        (r, c1, true)
    } else if opcode == 8 {
        (0, zs(op1 & op2), false)
    } else if opcode == 9 {
        let (r, c1) = sub_spec(c, 0, op2, true);
        (r, c1, true)
    } else if opcode == 10 {
        (0, sub_spec(c, op1, op2, true).1, false)
    } else if opcode == 11 {
        (0, add_spec(c, op1, op2, true).1, false)
    } else if opcode == 12 {
        (op1 | op2, zs(op1 | op2), true)
    } else if opcode == 13 {
        // The carry flag is destroyed by the multiply.
        let r = op1.wrapping_mul(op2);
        (r, logical_spec(c, r, true, false).1, true)
    } else if opcode == 14 {
        (op1 & !op2, zs(op1 & !op2), true)
    } else {
        (!op2, zs(!op2), true)
    }
}

/// Format 4: an ALU operation on two low registers; the flags are set and then `Rd` written.
pub open spec fn alu_operations_spec(c: CpuView, b: BusView, instruction: u16) -> (CpuView, BusView) {
    let rd = low_reg_field(instruction, 0);
    let (r, c1, writes) = thumb_alu_spec(
        c,
        ifield(instruction, 6, 0xF),
        reg_of(c, rd),
        reg_of(c, low_reg_field(instruction, 3)),
    );
    if writes {
        write_reg_spec(c1, b, rd, r)
    } else {
        (c1, b)
    }
}

/// The THUMB register shifts `LSR`, `ASR` and `ROR` (`kind` 0, 1, 2).
fn thumb_shift_exec(kind: u32, value: u32, amount: u32, carry: bool) -> (r: (u32, bool))
    requires
        kind <= 2,
    ensures
        r == thumb_shift(kind as int, value, amount, carry),
{
    if amount == 0 {
        (value, carry)
    } else if kind == 0 {
        if amount < 32 {
            (value >> amount, test_bit(value, amount - 1))
        } else if amount == 32 {
            (0, test_bit(value, 31))
        } else {
            (0, false)
        }
    } else if kind == 1 {
        if amount < 32 {
            // An arithmetic shift of the value read as a signed number.
            (((value as i32) >> amount) as u32, test_bit(value, amount - 1))
        } else {
            // Sign extension leaves either nothing at all or all ones.
            let carry = test_bit(value, 31);
            (if carry {
                u32::MAX
            } else {
                0
            }, carry)
        }
    } else {
        let shifted = rotate_right(value, amount);
        (shifted, test_bit(shifted, 31))
    }
}

impl ThumbV4 {
    /// Format 1: move a shifted register.
    pub fn move_shifted_reg(cpu: &mut CPU, instruction: ThumbInstruction, bus: &mut Bus)
        requires
            old(cpu).wf(),
            old(bus).wf(),
            ifield(instruction, 11, 3) != 3,
        ensures
            final(cpu).wf(),
            final(bus).wf(),
            (final(cpu)@, final(bus)@) == move_shifted_reg_spec(old(cpu)@, old(bus)@, instruction),
    {
        proof {
            crate::utils::lemma_bit_facts();
        }
        let opcode = ShiftOpcode::from_bits(((instruction as u32) >> 11u32) & 3);
        let shift_type = opcode.to_shift_type();
        let offset = (((instruction as u32) >> 6u32) & 0x1F) as u8;
        let r_d = low_reg_at(instruction, 0);
        let r_s = low_reg_at(instruction, 3);
        let (value, carry) = shift_type.perform_shift(cpu.read_reg(r_s), offset, cpu.registers.cpsr.carry());
        cpu.write_reg(r_d, value, bus);
        cpu.set_logical_flags(value, carry);
    }

    /// Format 2: add or subtract a register or a three bit immediate.
    pub fn add_subtract(cpu: &mut CPU, instruction: ThumbInstruction, bus: &mut Bus)
        requires
            old(cpu).wf(),
            old(bus).wf(),
        ensures
            final(cpu).wf(),
            final(bus).wf(),
            (final(cpu)@, final(bus)@) == add_subtract_spec(old(cpu)@, old(bus)@, instruction),
    {
        let is_immediate = test_ibit(instruction, 10);
        let is_sub = test_ibit(instruction, 9);
        let r_n_or_immediate = low_reg_at(instruction, 6);
        let r_s = low_reg_at(instruction, 3);
        let r_d = low_reg_at(instruction, 0);
        let to_add = if is_immediate {
            r_n_or_immediate as u32
        } else {
            cpu.read_reg(r_n_or_immediate)
        };
        let s_contents = cpu.read_reg(r_s);
        let to_write = if is_sub {
            crate::emulator::cpu::common::sub(cpu, s_contents, to_add, true)
        } else {
            crate::emulator::cpu::common::add(cpu, s_contents, to_add, true)
        };
        cpu.write_reg(r_d, to_write, bus);
    }

    /// Format 3: move, compare, add or subtract an eight bit immediate.
    pub fn move_compare_add_subtract(cpu: &mut CPU, instruction: ThumbInstruction, bus: &mut Bus)
        requires
            old(cpu).wf(),
            old(bus).wf(),
        ensures
            final(cpu).wf(),
            final(bus).wf(),
            (final(cpu)@, final(bus)@) == move_compare_add_subtract_spec(old(cpu)@, old(bus)@, instruction),
    {
        let opcode = ((instruction as u32) >> 11u32) & 3;
        let r_d = low_reg_at(instruction, 8);
        let offset = (instruction as u32) & 0xFF;
        let current_value = cpu.read_reg(r_d);
        if opcode == 0 {
            cpu.write_reg(r_d, offset, bus);
            cpu.set_zero_and_sign(offset);
        } else if opcode == 1 {
            // Same as sub, only the flags are written however
            let _ = crate::emulator::cpu::common::sub(cpu, current_value, offset, true);
        } else if opcode == 2 {
            let result = crate::emulator::cpu::common::add(cpu, current_value, offset, true);
            cpu.write_reg(r_d, result, bus);
        } else {
            let result = crate::emulator::cpu::common::sub(cpu, current_value, offset, true);
            cpu.write_reg(r_d, result, bus);
        }
    }

    /// Format 4: the sixteen ALU operations on low registers.
    pub fn alu_operations(cpu: &mut CPU, instruction: ThumbInstruction, bus: &mut Bus)
        requires
            old(cpu).wf(),
            old(bus).wf(),
        ensures
            final(cpu).wf(),
            final(bus).wf(),
            (final(cpu)@, final(bus)@) == alu_operations_spec(old(cpu)@, old(bus)@, instruction),
    {
        let opcode = ((instruction as u32) >> 6u32) & 0xF;
        let r_s = low_reg_at(instruction, 3);
        let r_d = low_reg_at(instruction, 0);
        let op1 = cpu.read_reg(r_d);
        let op2 = cpu.read_reg(r_s);
        let (result, writes) = Self::alu_compute(cpu, opcode, op1, op2);
        if writes {
            cpu.write_reg(r_d, result, bus);
        }
    }

    /// Compute a format 4 operation and set its flags; gives the value and whether `Rd` is written.
    fn alu_compute(cpu: &mut CPU, opcode: u32, op1: u32, op2: u32) -> (r: (u32, bool))
        requires
            old(cpu).wf(),
        ensures
            final(cpu).wf(),
            (r.0, final(cpu)@, r.1) == thumb_alu_spec(old(cpu)@, opcode, op1, op2),
    {
        if opcode == 0 {
            let result = op1 & op2;
            cpu.set_zero_and_sign(result);
            (result, true)
        } else if opcode == 1 {
            let result = op1 ^ op2;
            cpu.set_zero_and_sign(result);
            (result, true)
        } else if opcode == 2 {
            let (result, carry) = ShiftType::LogicalLeft.perform_shift(op1, op2 as u8, cpu.registers.cpsr.carry());
            cpu.set_logical_flags(result, carry);
            (result, true)
        } else if opcode == 3 || opcode == 4 || opcode == 7 {
            // THUMB register shifts leave value and carry alone for a zero amount.
            let kind: u32 = if opcode == 3 {
                0
            } else if opcode == 4 {
                1
            } else {
                2
            };
            let (result, carry) = thumb_shift_exec(kind, op1, op2, cpu.registers.cpsr.carry());
            cpu.set_logical_flags(result, carry);
            (result, true)
        } else if opcode == 5 {
            (adc(cpu, op1, op2, true), true)
        } else if opcode == 6 {
            (sbc(cpu, op1, op2, true), true)
        } else if opcode == 8 {
            cpu.set_zero_and_sign(op1 & op2);
            (0, false)
        } else if opcode == 9 {
            (crate::emulator::cpu::common::sub(cpu, 0, op2, true), true)
        } else if opcode == 10 {
            let _ = crate::emulator::cpu::common::sub(cpu, op1, op2, true);
            (0, false)
        } else if opcode == 11 {
            let _ = crate::emulator::cpu::common::add(cpu, op1, op2, true);
            (0, false)
        } else if opcode == 12 {
            let result = op1 | op2;
            cpu.set_zero_and_sign(result);
            (result, true)
        } else if opcode == 13 {
            let result = op1.wrapping_mul(op2);
            // Carry flag gets destroyed by the multiply.
            cpu.set_logical_flags(result, false);
            (result, true)
        } else if opcode == 14 {
            let result = op1 & !op2;
            cpu.set_zero_and_sign(result);
            (result, true)
        } else {
            let result = !op2;
            cpu.set_zero_and_sign(result);
            (result, true)
        }
    }
}

/// The logical format 4 operations act on each bit `i` of `op1 = Rd` and `op2 = Rs` on its
/// own: `AND`, `EOR`, `ORR`, `BIC` (clears the bits that `op2` sets) and `MVN`.
pub proof fn lemma_thumb_logical_results(c: CpuView, op1: u32, op2: u32, i: u32)
    requires
        i < 32,
    ensures
        bit_of(thumb_alu_spec(c, 0, op1, op2).0, i) == (bit_of(op1, i) && bit_of(op2, i)),
        bit_of(thumb_alu_spec(c, 1, op1, op2).0, i) == (bit_of(op1, i) != bit_of(op2, i)),
        bit_of(thumb_alu_spec(c, 12, op1, op2).0, i) == (bit_of(op1, i) || bit_of(op2, i)),
        bit_of(thumb_alu_spec(c, 14, op1, op2).0, i) == (bit_of(op1, i) && !bit_of(op2, i)),
        bit_of(thumb_alu_spec(c, 15, op1, op2).0, i) == !bit_of(op2, i),
{
    lemma_alu_results(c, op1, op2, true, c.registers.cpsr.carry, i);
}

/// The format 4 shifts by `op2 = Rs` in `1..=31` move the bits of `op1 = Rd`: `LSL` fills
/// with zeros from below, `LSR` with zeros from above, `ASR` with copies of bit 31, and `ROR`
/// wraps the bits around.
pub proof fn lemma_thumb_shift_results(c: CpuView, op1: u32, op2: u32, i: u32)
    requires
        i < 32,
        1 <= op2 < 32,
    ensures
        bit_of(thumb_alu_spec(c, 2, op1, op2).0, i) == (i >= op2 && bit_of(op1, (i - op2) as u32)),
        bit_of(thumb_alu_spec(c, 3, op1, op2).0, i) == (i + op2 < 32 && bit_of(op1, (i + op2) as u32)),
        bit_of(thumb_alu_spec(c, 4, op1, op2).0, i) == (if i + op2 < 32 {
            bit_of(op1, (i + op2) as u32)
        } else {
            bit_of(op1, 31)
        }),
        bit_of(thumb_alu_spec(c, 7, op1, op2).0, i) == bit_of(op1, ((i + op2) % 32) as u32),
{
    assert((op2 as u8) as u32 == op2);
    lemma_shift_bits(op1, op2 as u8, c.registers.cpsr.carry, i);
}

/// The arithmetic format 4 operations compute modulo 2^32: `ADC` adds the carry, `SBC`
/// subtracts its inverse, `NEG` negates `op2 = Rs` and `MUL` multiplies.
pub proof fn lemma_thumb_arith_results(c: CpuView, op1: u32, op2: u32)
    ensures
        thumb_alu_spec(c, 5, op1, op2).0 as int == (op1 + op2 + (if c.registers.cpsr.carry {
            1int
        } else {
            0
        })) % 0x1_0000_0000,
        thumb_alu_spec(c, 6, op1, op2).0 as int == (op1 - op2 - (if c.registers.cpsr.carry {
            0int
        } else {
            1
        })) % 0x1_0000_0000,
        thumb_alu_spec(c, 9, op1, op2).0 as int == (0 - op2) % 0x1_0000_0000,
        thumb_alu_spec(c, 13, op1, op2).0 as int == (op1 * op2) % 0x1_0000_0000,
{
    lemma_alu_results(c, op1, op2, true, c.registers.cpsr.carry, 0);
    lemma_wrap_sub(0, op2);
    let m: int = 0x1_0000_0000;
    assert(0 <= (op1 as nat * op2 as nat) % (m as nat) < m) by {
        vstd::arithmetic::div_mod::lemma_mod_bound((op1 as nat * op2 as nat) as int, m);
    }
    assert(op1.wrapping_mul(op2) as int == (op1 * op2) % m);
}

/// The format 4 tests write no register: `TST` reports whether `op1 & op2` is zero, `CMP`
/// whether the operands are equal and, in its carry, whether `op1 >= op2` unsigned, and `CMN`
/// whether the sum is zero modulo 2^32 and whether it carries out.
pub proof fn lemma_thumb_test_results(c: CpuView, op1: u32, op2: u32)
    ensures
        !thumb_alu_spec(c, 8, op1, op2).2,
        thumb_alu_spec(c, 8, op1, op2).1.registers.cpsr.zero == (op1 & op2 == 0),
        !thumb_alu_spec(c, 10, op1, op2).2,
        thumb_alu_spec(c, 10, op1, op2).1.registers.cpsr.zero == (op1 == op2),
        thumb_alu_spec(c, 10, op1, op2).1.registers.cpsr.carry == (op1 >= op2),
        !thumb_alu_spec(c, 11, op1, op2).2,
        thumb_alu_spec(c, 11, op1, op2).1.registers.cpsr.zero == ((op1 + op2) % 0x1_0000_0000 == 0),
        thumb_alu_spec(c, 11, op1, op2).1.registers.cpsr.carry == (op1 + op2 >= 0x1_0000_0000),
{
    lemma_conditions_after_compare(c, op1, op2, true, c.registers.cpsr.carry);
    lemma_wrap_add(op1, op2);
}

/// Format 2: `Rd` gets `Rs` plus or minus (bit 9) the register or three bit immediate
/// (bit 10) operand, modulo 2^32; the zero flag says whether that is zero and the carry
/// whether the addition carries out or the subtraction does not borrow.
pub proof fn lemma_thumb_add_subtract(c: CpuView, b: BusView, instruction: u16)
    requires
        c.registers.general_purpose.len() == 16,
    ensures
        ({
            let field = ifield(instruction, 6, 7);
            let operand = if ibit(instruction, 10) {
                field
            } else {
                reg_of(c, field as int)
            };
            let source = reg_of(c, low_reg_field(instruction, 3));
            let c1 = add_subtract_spec(c, b, instruction).0;
            let r = reg_of(c1, low_reg_field(instruction, 0));
            &&& ibit(instruction, 9) ==> r as int == (source - operand) % 0x1_0000_0000
            &&& ibit(instruction, 9) ==> c1.registers.cpsr.carry == (source >= operand)
            &&& !ibit(instruction, 9) ==> r as int == (source + operand) % 0x1_0000_0000
            &&& !ibit(instruction, 9) ==> c1.registers.cpsr.carry == (source + operand >= 0x1_0000_0000)
            &&& c1.registers.cpsr.zero == (r == 0)
        }),
{
    crate::utils::lemma_bit_facts();
    let field = ifield(instruction, 6, 7);
    let operand = if ibit(instruction, 10) {
        field
    } else {
        reg_of(c, field as int)
    };
    let source = reg_of(c, low_reg_field(instruction, 3));
    lemma_wrap_add(source, operand);
    lemma_wrap_sub(source, operand);
}

/// Format 3 with the eight bit immediate: `MOV` puts it into `Rd`, `ADD` and `SUB` add it to or
/// subtract it from `Rd` modulo 2^32, and `CMP` writes no register and compares `Rd` with it
/// (zero flag: equal; carry: `Rd >= imm`).
pub proof fn lemma_thumb_immediate_ops(c: CpuView, b: BusView, instruction: u16)
    requires
        c.registers.general_purpose.len() == 16,
    ensures
        ({
            let rd = low_reg_field(instruction, 8);
            let imm = (instruction as u32) & 0xFF;
            let current = reg_of(c, rd);
            let op = ifield(instruction, 11, 3);
            let c1 = move_compare_add_subtract_spec(c, b, instruction).0;
            &&& op == 0 ==> reg_of(c1, rd) == imm && c1.registers.cpsr.zero == (imm == 0)
            &&& op == 1 ==> c1.registers.general_purpose == c.registers.general_purpose
            &&& op == 1 ==> c1.registers.cpsr.zero == (current == imm) && c1.registers.cpsr.carry == (current
                >= imm)
            &&& op == 2 ==> reg_of(c1, rd) as int == (current + imm) % 0x1_0000_0000
            &&& op == 3 ==> reg_of(c1, rd) as int == (current - imm) % 0x1_0000_0000
        }),
{
    crate::utils::lemma_bit_facts();
    let rd = low_reg_field(instruction, 8);
    let imm = (instruction as u32) & 0xFF;
    let current = reg_of(c, rd);
    lemma_wrap_add(current, imm);
    lemma_wrap_sub(current, imm);
    lemma_conditions_after_compare(c, current, imm, true, c.registers.cpsr.carry);
}

} // verus!
