//! Behaviour shared by the ARM and THUMB instruction sets: the barrel shifter,
//! condition codes and the flag setting arithmetic.

use crate::emulator::bus::{Bus, BusView};
use crate::emulator::cpu::registers::{PsrView, State, PC_REG, PSR};
use crate::emulator::cpu::{
    bit_of, cpu_with_cpsr, test_bit, with_arithmetic_flags, write_reg_spec, CpuView, CPU,
};
use crate::utils::{has_sign_overflowed, sign_overflow_spec};
use vstd::prelude::*;

verus! {

/// The four operations of the barrel shifter.
#[derive(Debug, PartialEq, Eq, Structural, Copy, Clone)]
pub enum ShiftType {
    LogicalLeft,
    LogicalRight,
    ArithRight,
    RotateRight,
}

/// `value` rotated right by `amount` bits.
pub open spec fn rotr_spec(value: u32, amount: u32) -> u32 {
    let k = amount % 32;
    if k == 0 {
        value
    } else {
        (value >> k) | (value << ((32 - k) as u32))
    }
}

/// Rotate `value` right by `amount` bits, as `u32::rotate_right` does.
pub fn rotate_right(value: u32, amount: u32) -> (r: u32)
    ensures
        r == rotr_spec(value, amount),
{
    let k = amount % 32;
    if k == 0 {
        value
    } else {
        (value >> k) | (value << (32 - k))
    }
}

/// The result and carry out of the barrel shifter.
pub open spec fn shift_spec(ty: ShiftType, value: u32, amount: u8, carry: bool) -> (u32, bool) {
    match ty {
        ShiftType::LogicalLeft => {
            if amount == 0 {
                (value, carry)
            } else if amount < 32 {
                (value << (amount as u32), bit_of(value, (32 - amount) as u32))
            } else if amount == 32 {
                (0, bit_of(value, 0))
            } else {
                (0, false)
            }
        },
        ShiftType::LogicalRight => {
            if amount < 32 {
                (value >> (amount as u32), bit_of(value, amount.saturating_sub(1) as u32))
            } else if amount == 32 {
                (0, bit_of(value, 31))
            } else {
                (0, false)
            }
        },
        ShiftType::ArithRight => {
            if amount < 32 {
                ((((value as i32) >> (amount as u32)) as i32) as u32, bit_of(value, amount.saturating_sub(1) as u32))
            } else if bit_of(value, 31) {
                (u32::MAX, true)
            } else {
                (0, false)
            }
        },
        ShiftType::RotateRight => {
            if amount == 0 {
                // Rotate right extended: the carry flag is shifted in at the top.
                ((if carry {
                    0x8000_0000u32
                } else {
                    0
                }) | (value >> 1u32), bit_of(value, 0))
            } else {
                let s = rotr_spec(value, amount as u32);
                (s, bit_of(s, 31))
            }
        },
    }
}

impl ShiftType {
    /// The shift type encoded by the two bits `0..=1` of `bits`.
    pub open spec fn spec_from_bits(bits: u32) -> ShiftType {
        if bits & 3 == 0 {
            ShiftType::LogicalLeft
        } else if bits & 3 == 1 {
            ShiftType::LogicalRight
        } else if bits & 3 == 2 {
            ShiftType::ArithRight
        } else {
            ShiftType::RotateRight
        }
    }

    /// Decode a two bit shift type field.
    pub fn from_bits(bits: u32) -> (r: ShiftType)
        ensures
            r == ShiftType::spec_from_bits(bits),
    {
        let b = bits & 3;
        if b == 0 {
            ShiftType::LogicalLeft
        } else if b == 1 {
            ShiftType::LogicalRight
        } else if b == 2 {
            ShiftType::ArithRight
        } else {
            ShiftType::RotateRight
        }
    }

    /// Performs the specified shift operation on the given value.
    /// Will return the shifted value, as well as the carry flag.
    pub fn perform_shift(self, value: u32, shift_amount: u8, current_carry: bool) -> (r: (u32, bool))
        ensures
            r == shift_spec(self, value, shift_amount, current_carry),
    {
        match self {
            ShiftType::LogicalLeft => {
                if shift_amount == 0 {
                    (value, current_carry)
                } else if shift_amount < 32 {
                    let carry = test_bit(value, (32 - shift_amount) as u32);
                    // Least significant bit that is shifted out goes to the carry flag
                    (value << (shift_amount as u32), carry)
                } else if shift_amount == 32 {
                    (0, test_bit(value, 0))
                } else {
                    (0, false)
                }
            },
            ShiftType::LogicalRight => {
                if shift_amount < 32 {
                    let carry = test_bit(value, shift_amount.saturating_sub(1) as u32);
                    (value >> (shift_amount as u32), carry)
                } else if shift_amount == 32 {
                    // A shift by 32 moves the top bit out last.
                    (0, test_bit(value, 31))
                } else {
                    // Beyond 32 every bit, the carry included, is shifted out.
                    (0, false)
                }
            },
            ShiftType::ArithRight => {
                if shift_amount < 32 {
                    let carry = test_bit(value, shift_amount.saturating_sub(1) as u32);
                    // An arithmetic shift of the value read as a signed number.
                    let shifted = ((value as i32) >> (shift_amount as u32)) as u32;
                    (shifted, carry)
                } else {
                    let carry = test_bit(value, 31);
                    // Sign extension leaves either nothing at all or all ones.
                    let shifted = if carry {
                        u32::MAX
                    } else {
                        0
                    };
                    (shifted, carry)
                }
            },
            ShiftType::RotateRight => {
                if shift_amount == 0 {
                    let carry_flag: u32 = if current_carry {
                        0x8000_0000
                    } else {
                        0
                    };
                    // Carry flag is appended and everything is shifted by one position
                    (carry_flag | (value >> 1u32), test_bit(value, 0))
                } else {
                    let shifted = rotate_right(value, shift_amount as u32);
                    (shifted, test_bit(shifted, 31))
                }
            },
        }
    }
}

/// The barrel shifter moves bits: for a shift by `n` bits (`1 <= n < 32`) bit `i` of the
/// result is the bit of `value` that the shift brings there, and the carry is the last bit
/// shifted out. A logical shift fills with zeros, an arithmetic right shift with copies of
/// bit 31, and a rotation wraps the bits around.
pub proof fn lemma_shift_bits(value: u32, n: u8, carry: bool, i: u32)
    requires
        1 <= n < 32,
        i < 32,
    ensures
        bit_of(shift_spec(ShiftType::LogicalLeft, value, n, carry).0, i) == (i >= n && bit_of(value, (i - n) as u32)),
        shift_spec(ShiftType::LogicalLeft, value, n, carry).1 == bit_of(value, (32 - n) as u32),
        bit_of(shift_spec(ShiftType::LogicalRight, value, n, carry).0, i) == (i + n < 32 && bit_of(value, (i + n) as u32)),
        shift_spec(ShiftType::LogicalRight, value, n, carry).1 == bit_of(value, (n - 1) as u32),
        bit_of(shift_spec(ShiftType::ArithRight, value, n, carry).0, i) == (if i + n < 32 {
            bit_of(value, (i + n) as u32)
        } else {
            bit_of(value, 31)
        }),
        shift_spec(ShiftType::ArithRight, value, n, carry).1 == bit_of(value, (n - 1) as u32),
        bit_of(shift_spec(ShiftType::RotateRight, value, n, carry).0, i) == bit_of(value, ((i + n) % 32) as u32),
        shift_spec(ShiftType::RotateRight, value, n, carry).1 == bit_of(value, (n - 1) as u32),
{
    let m = n as u32;
    assert(m % 32 == m);
    assert({
        &&& ((value << m) >> i) & 1 == 1 <==> (i >= m && (value >> ((i - m) as u32)) & 1 == 1)
        &&& ((value >> m) >> i) & 1 == 1 <==> (i + m < 32 && (value >> ((i + m) as u32)) & 1 == 1)
        &&& ((((value as i32) >> m) as i32) as u32 >> i) & 1 == 1 <==> (if i + m < 32 {
            (value >> ((i + m) as u32)) & 1 == 1
        } else {
            (value >> 31u32) & 1 == 1
        })
        &&& (((value >> m) | (value << ((32 - m) as u32))) >> i) & 1 == 1 <==> (value >> ((i + m) % 32) as u32) & 1 == 1
        &&& (((value >> m) | (value << ((32 - m) as u32))) >> 31u32) & 1 == 1 <==> (value >> ((m - 1) as u32)) & 1 == 1
    }) by (bit_vector)
        requires
            1 <= m < 32,
            i < 32,
    ;
    assert(n.saturating_sub(1) == n - 1);
}

/// Shifts by 32 or more and the rotation through the carry (`RRX`, a rotation by 0): an
/// arithmetic shift fills every bit with bit 31, logical shifts leave nothing, and `RRX`
/// moves the carry into bit 31 and bit 0 out to the carry.
pub proof fn lemma_shift_edges(value: u32, n: u8, carry: bool, i: u32)
    requires
        i < 32,
    ensures
        n >= 32 ==> shift_spec(ShiftType::LogicalLeft, value, n, carry).0 == 0,
        n >= 32 ==> shift_spec(ShiftType::LogicalRight, value, n, carry).0 == 0,
        n > 32 ==> !shift_spec(ShiftType::LogicalLeft, value, n, carry).1,
        n > 32 ==> !shift_spec(ShiftType::LogicalRight, value, n, carry).1,
        n >= 32 ==> bit_of(shift_spec(ShiftType::ArithRight, value, n, carry).0, i) == bit_of(value, 31),
        n >= 32 ==> shift_spec(ShiftType::ArithRight, value, n, carry).1 == bit_of(value, 31),
        n == 0 ==> shift_spec(ShiftType::LogicalLeft, value, n, carry) == (value, carry),
        n == 0 ==> bit_of(shift_spec(ShiftType::RotateRight, value, n, carry).0, i) == (if i == 31 {
            carry
        } else {
            bit_of(value, (i + 1) as u32)
        }),
        n == 0 ==> shift_spec(ShiftType::RotateRight, value, n, carry).1 == bit_of(value, 0),
{
    let top: u32 = if carry { 0x8000_0000 } else { 0 };
    assert({
        &&& (0xFFFF_FFFFu32 >> i) & 1 == 1
        &&& (0u32 >> i) & 1 == 0
        &&& ((top | (value >> 1u32)) >> i) & 1 == 1 <==> (if i == 31 {
            top == 0x8000_0000
        } else {
            (value >> ((i + 1) as u32)) & 1 == 1
        })
    }) by (bit_vector)
        requires
            i < 32,
            top == 0 || top == 0x8000_0000,
    ;
}

/// Whether the four bit `condition` code holds for the flags of `cpsr`.
pub open spec fn condition_spec(cpsr: PsrView, condition: u8) -> bool {
    let z = cpsr.zero;
    let c = cpsr.carry;
    let n = cpsr.sign;
    let v = cpsr.overflow;
    if condition == 0 {
        z
    } else if condition == 1 {
        !z
    } else if condition == 2 {
        c
    } else if condition == 3 {
        !c
    } else if condition == 4 {
        n
    } else if condition == 5 {
        !n
    } else if condition == 6 {
        v
    } else if condition == 7 {
        !v
    } else if condition == 8 {
        c && !z
    } else if condition == 9 {
        !c || z
    } else if condition == 10 {
        n == v
    } else if condition == 11 {
        n != v
    } else if condition == 12 {
        !z && (n == v)
    } else if condition == 13 {
        z || (n != v)
    } else {
        condition == 14
    }
}

/// The condition codes come in complementary pairs: code `2k + 1` holds exactly when code
/// `2k` fails; `AL` (14) always holds and `NV` (15) never does.
pub proof fn lemma_condition_pairs(cpsr: PsrView, k: u8)
    requires
        k < 7,
    ensures
        condition_spec(cpsr, (2 * k + 1) as u8) == !condition_spec(cpsr, (2 * k) as u8),
        condition_spec(cpsr, 14),
        !condition_spec(cpsr, 15),
{
    if k == 0 {
    } else if k == 1 {
    } else if k == 2 {
    } else if k == 3 {
    } else if k == 4 {
    } else if k == 5 {
    } else {
        assert(k == 6);
    }
}

/// Check the provided condition code. The expected format is a four bit value in the lower nibble of `condition`
///
/// This works for both the `ARM` condition codes check, as well as the `THUMB` conditional branches
pub fn check_condition(cpsr: &PSR, condition: u8) -> (r: bool)
    requires
        condition < 16,
    ensures
        r == condition_spec(cpsr@, condition),
{
    match condition {
        // Is zero set (is equal)
        0 => cpsr.zero(),
        // Is zero not set (not equal)
        1 => !cpsr.zero(),
        // Is carry
        2 => cpsr.carry(),
        // Is carry clear
        3 => !cpsr.carry(),
        // Is sign negative
        4 => cpsr.sign(),
        // Is sign positive or zero
        5 => !cpsr.sign(),
        // Has overflowed
        6 => cpsr.overflow(),
        // No overflow
        7 => !cpsr.overflow(),
        // Unsigned higher
        8 => cpsr.carry() && !cpsr.zero(),
        // Unsigned lower or same
        9 => !cpsr.carry() || cpsr.zero(),
        // Greater than or equal
        10 => cpsr.sign() == cpsr.overflow(),
        // Less than
        11 => cpsr.sign() != cpsr.overflow(),
        // Greater than
        12 => !cpsr.zero() && (cpsr.sign() == cpsr.overflow()),
        // Less than or equal
        13 => cpsr.zero() || (cpsr.sign() != cpsr.overflow()),
        // Always
        14 => true,
        // Never
        _ => false,
    }
}

/// The processor state after an operation that may or may not write arithmetic flags.
pub open spec fn arith_result(
    c: CpuView,
    write_flags: bool,
    value: u32,
    carry: bool,
    overflow: bool,
) -> CpuView {
    if write_flags {
        cpu_with_cpsr(c, with_arithmetic_flags(c.registers.cpsr, value, carry, overflow))
    } else {
        c
    }
}

/// `1` when `flag` is set, `0` otherwise.
pub open spec fn flag_value(flag: bool) -> u32 {
    if flag {
        1
    } else {
        0
    }
}

/// Defines the `add` instruction behaviour for both the ARM and THUMB modes.
///
/// The `write_flags` parameter is used to determine whether the flags should be written, will be an arithmetic write.
pub fn add(cpu: &mut CPU, op1: u32, op2: u32, write_flags: bool) -> (r: u32)
    ensures
        r == op1.wrapping_add(op2),
        final(cpu)@ == arith_result(
            old(cpu)@,
            write_flags,
            r,
            op1 + op2 > u32::MAX,
            sign_overflow_spec(op1, op2, r),
        ),
{
    let result = op1.wrapping_add(op2);
    let carry = result < op1;
    if write_flags {
        cpu.set_arithmetic_flags(result, carry, has_sign_overflowed(op1, op2, result));
    }
    result
}

/// Defines the `sub` instruction behaviour for both the ARM and THUMB modes.
///
/// The carry flag is the inverted borrow, and the overflow flag is computed against the inverted `op2`.
pub fn sub(cpu: &mut CPU, op1: u32, op2: u32, write_flags: bool) -> (r: u32)
    ensures
        r == op1.wrapping_sub(op2),
        final(cpu)@ == arith_result(
            old(cpu)@,
            write_flags,
            r,
            op1 >= op2,
            sign_overflow_spec(op1, !op2, r),
        ),
{
    let result = op1.wrapping_sub(op2);
    if write_flags {
        cpu.set_arithmetic_flags(result, op1 >= op2, has_sign_overflowed(op1, !op2, result));
    }
    result
}

/// Add with carry: `op1 + op2 + C`.
pub fn adc(cpu: &mut CPU, op1: u32, op2: u32, write_flags: bool) -> (r: u32)
    ensures
        r == op1.wrapping_add(op2).wrapping_add(flag_value(old(cpu)@.registers.cpsr.carry)),
        final(cpu)@ == arith_result(
            old(cpu)@,
            write_flags,
            r,
            op1 + op2 + flag_value(old(cpu)@.registers.cpsr.carry) > u32::MAX,
            sign_overflow_spec(op1, op2, r),
        ),
{
    let c: u32 = if cpu.registers.cpsr.carry() {
        1
    } else {
        0
    };
    let result = op1.wrapping_add(op2).wrapping_add(c);
    let full: u64 = op1 as u64 + op2 as u64 + c as u64;
    if write_flags {
        cpu.set_arithmetic_flags(result, full > 0xFFFF_FFFF, has_sign_overflowed(op1, op2, result));
    }
    result
}

/// Subtract with carry: `op1 - op2 - !C`.
pub fn sbc(cpu: &mut CPU, op1: u32, op2: u32, write_flags: bool) -> (r: u32)
    ensures
        r == op1.wrapping_sub(op2).wrapping_sub(flag_value(!old(cpu)@.registers.cpsr.carry)),
        final(cpu)@ == arith_result(
            old(cpu)@,
            write_flags,
            r,
            op1 >= op2 + flag_value(!old(cpu)@.registers.cpsr.carry),
            sign_overflow_spec(op1, !op2, r),
        ),
{
    let borrow_in: u32 = if cpu.registers.cpsr.carry() {
        0
    } else {
        1
    };
    let result = op1.wrapping_sub(op2).wrapping_sub(borrow_in);
    let to_subtract: u64 = op2 as u64 + borrow_in as u64;
    if write_flags {
        cpu.set_arithmetic_flags(result, op1 as u64 >= to_subtract, has_sign_overflowed(op1, !op2, result));
    }
    result
}

/// A branch with a possible state exchange: bit 0 of the address selects THUMB state, then
/// the program counter is written, which flushes the pipeline.
pub open spec fn branch_exchange_spec(c: CpuView, b: BusView, address: u32) -> (CpuView, BusView) {
    let state = if address & 1 == 1 {
        State::Thumb
    } else {
        State::Arm
    };
    write_reg_spec(cpu_with_cpsr(c, PsrView { state, ..c.registers.cpsr }), b, PC_REG as int, address)
}

/// Perform a branch and (possible) state exchange.
///
/// If the `0th` bit of the `address` is set then the CPU will change to [State::Thumb], otherwise it will switch to
/// [State::Arm].
pub fn branch_and_exchange(cpu: &mut CPU, address: u32, bus: &mut Bus)
    requires
        old(cpu).wf(),
        old(bus).wf(),
    ensures
        final(cpu).wf(),
        final(bus).wf(),
        (final(cpu)@, final(bus)@) == branch_exchange_spec(old(cpu)@, old(bus)@, address),
{
    let new_state = if address & 1 == 1 {
        State::Thumb
    } else {
        State::Arm
    };
    cpu.switch_state(new_state, bus);
    // Write the new program counter, which flushes the pipeline.
    cpu.write_reg(PC_REG, address, bus);
}

} // verus!
