//! Multiplication: `MUL`/`MLA` and the long forms `UMULL`, `UMLAL`, `SMULL` and `SMLAL`.

use crate::emulator::bus::{Bus, BusView};
use crate::emulator::cpu::arm::{reg_at, reg_field, ArmInstruction, ArmV4};
use crate::emulator::cpu::registers::PsrView;
use crate::emulator::cpu::{
    bit_of, cpu_set_reg, cpu_with_cpsr, reg_of, test_bit, with_zero_sign, write_reg_spec, CpuView, CPU,
};
use vstd::prelude::*;

verus! {

/// `MUL` and `MLA`: `Rd = Rm * Rs (+ Rn)`, modulo 2^32, with zero and sign flags when asked.
pub open spec fn multiply_spec(c: CpuView, b: BusView, instruction: u32) -> (CpuView, BusView) {
    let addend = if bit_of(instruction, 21) {
        reg_of(c, reg_field(instruction, 12))
    } else {
        0
    };
    let result = reg_of(c, reg_field(instruction, 8)).wrapping_mul(reg_of(c, reg_field(instruction, 0))).wrapping_add(
        addend,
    );
    let (c1, b1) = write_reg_spec(c, b, reg_field(instruction, 16), result);
    if bit_of(instruction, 20) {
        (cpu_with_cpsr(c1, with_zero_sign(c1.registers.cpsr, result)), b1)
    } else {
        (c1, b1)
    }
}

/// The 64-bit product of a long multiply, as two's complement bits when signed.
pub open spec fn long_product(a: u32, b: u32, signed: bool) -> u64 {
    if signed {
        ((a as i32) as int * (b as i32) as int) as u64
    } else {
        (a as int * b as int) as u64
    }
}

/// The 64-bit result of a long multiply: the product plus, when accumulating, the
/// register pair `RdHi:RdLo`, modulo 2^64.
pub open spec fn long_result(c: CpuView, instruction: u32) -> u64 {
    let product = long_product(
        reg_of(c, reg_field(instruction, 8)),
        reg_of(c, reg_field(instruction, 0)),
        bit_of(instruction, 22),
    );
    let addend: u64 = if bit_of(instruction, 21) {
        ((reg_of(c, reg_field(instruction, 16)) as u64) << 32u64) | reg_of(c, reg_field(instruction, 12)) as u64
    } else {
        0
    };
    product.wrapping_add(addend)
}

/// The long multiplies: the high word goes to `RdHi`, then the low word to `RdLo`; the
/// registers are written directly, without any pipeline effect.
pub open spec fn multiply_long_spec(c: CpuView, instruction: u32) -> CpuView {
    let result = long_result(c, instruction);
    let c1 = cpu_set_reg(
        cpu_set_reg(c, reg_field(instruction, 16), (result >> 32u64) as u32),
        reg_field(instruction, 12),
        result as u32,
    );
    if bit_of(instruction, 20) {
        cpu_with_cpsr(c1, PsrView { sign: result >> 63u64 == 1, zero: result == 0, ..c1.registers.cpsr })
    } else {
        c1
    }
}

impl ArmV4 {
    /// Implements the `MUL` and `MLA` instructions.
    pub fn multiply(cpu: &mut CPU, instruction: ArmInstruction, bus: &mut Bus)
        requires
            old(cpu).wf(),
            old(bus).wf(),
        ensures
            final(cpu).wf(),
            final(bus).wf(),
            (final(cpu)@, final(bus)@) == multiply_spec(old(cpu)@, old(bus)@, instruction),
    {
        let accumulate = test_bit(instruction, 21);
        let should_set_condition = test_bit(instruction, 20);
        let r_d = reg_at(instruction, 16);
        let r_add = reg_at(instruction, 12);
        let r_1 = reg_at(instruction, 8);
        let r_2 = reg_at(instruction, 0);
        let addend = if accumulate {
            cpu.read_reg(r_add)
        } else {
            0
        };
        let result = cpu.read_reg(r_1).wrapping_mul(cpu.read_reg(r_2)).wrapping_add(addend);
        cpu.write_reg(r_d, result, bus);
        if should_set_condition {
            cpu.set_zero_and_sign(result);
        }
    }

    /// Implements the long multiplies, signed or unsigned, with or without accumulation.
    pub fn multiply_long(cpu: &mut CPU, instruction: ArmInstruction, _bus: &mut Bus)
        requires
            old(cpu).wf(),
        ensures
            final(cpu).wf(),
            final(cpu)@ == multiply_long_spec(old(cpu)@, instruction),
            final(_bus)@ == old(_bus)@,
    {
        let signed = test_bit(instruction, 22);
        let accumulate = test_bit(instruction, 21);
        let should_set_condition = test_bit(instruction, 20);
        let r_high = reg_at(instruction, 16);
        let r_low = reg_at(instruction, 12);
        let r_1 = reg_at(instruction, 8);
        let r_2 = reg_at(instruction, 0);
        let a = cpu.read_reg(r_1);
        let b = cpu.read_reg(r_2);
        let product: u64 = if signed {
            let x = a as i32 as i64;
            let y = b as i32 as i64;
            assert(-0x8000_0000 <= x <= 0x7FFF_FFFF && -0x8000_0000 <= y <= 0x7FFF_FFFF ==> -0x4000_0000_0000_0000
                <= x * y <= 0x4000_0000_0000_0000) by (nonlinear_arith);
            (x * y) as u64
        } else {
            assert((a as u64) * (b as u64) <= 0xFFFF_FFFE_0000_0001) by (nonlinear_arith)
                requires
                    a <= 0xFFFF_FFFF,
                    b <= 0xFFFF_FFFF,
            ;
            (a as u64) * (b as u64)
        };
        let addend: u64 = if accumulate {
            ((cpu.read_reg(r_high) as u64) << 32u64) | cpu.read_reg(r_low) as u64
        } else {
            0
        };
        let result = product.wrapping_add(addend);
        cpu.registers.write_reg(r_high, (result >> 32u64) as u32);
        cpu.registers.write_reg(r_low, result as u32);
        if should_set_condition {
            cpu.registers.cpsr.set_sign(result >> 63u64 == 1);
            cpu.registers.cpsr.set_zero(result == 0);
        }
    }
}

/// `MUL` and `MLA` compute modulo 2^32: the destination gets `Rm * Rs`, plus `Rn` when the
/// accumulate bit is set (so `MLA` with `Rn = 0` is `MUL`); with the S bit the zero flag says
/// whether that result is zero and the sign flag is its bit 31.
pub proof fn lemma_multiply_result(c: CpuView, b: BusView, instruction: u32)
    requires
        c.registers.general_purpose.len() == 16,
        reg_field(instruction, 16) != 15,
    ensures
        ({
            let r = reg_of(multiply_spec(c, b, instruction).0, reg_field(instruction, 16));
            let product = reg_of(c, reg_field(instruction, 0)) * reg_of(c, reg_field(instruction, 8));
            let addend: int = if bit_of(instruction, 21) {
                reg_of(c, reg_field(instruction, 12)) as int
            } else {
                0
            };
            &&& r as int == (product + addend) % 0x1_0000_0000
            &&& bit_of(instruction, 20) ==> multiply_spec(c, b, instruction).0.registers.cpsr.zero == (r == 0)
            &&& bit_of(instruction, 20) ==> multiply_spec(c, b, instruction).0.registers.cpsr.sign == (r >= 0x8000_0000)
        }),
{
    let m: int = 0x1_0000_0000;
    let x = reg_of(c, reg_field(instruction, 8));
    let y = reg_of(c, reg_field(instruction, 0));
    let a: u32 = if bit_of(instruction, 21) {
        reg_of(c, reg_field(instruction, 12))
    } else {
        0
    };
    let p = x.wrapping_mul(y);
    assert(0 <= (x as nat * y as nat) % (m as nat) < m) by {
        vstd::arithmetic::div_mod::lemma_mod_bound((x as nat * y as nat) as int, m);
    }
    assert(p as int == (x * y) % m);
    vstd::arithmetic::mul::lemma_mul_is_commutative(x as int, y as int);
    let r = p.wrapping_add(a);
    if p + a > u32::MAX {
        vstd::arithmetic::div_mod::lemma_fundamental_div_mod_converse(p + a, m, 1, p + a - m);
    } else {
        vstd::arithmetic::div_mod::lemma_small_mod((p + a) as nat, m as nat);
    }
    vstd::arithmetic::div_mod::lemma_add_mod_noop(x * y, a as int, m);
    vstd::arithmetic::div_mod::lemma_small_mod(a as nat, m as nat);
    vstd::arithmetic::div_mod::lemma_mod_twice(x * y, m);
    assert((instruction >> 16u32) & 0xF <= 15 && ((r >> 31u32) & 1 == 1) == (r >= 0x8000_0000)) by (bit_vector);
    let rd = reg_field(instruction, 16);
    let c1 = cpu_set_reg(c, rd, r);
    assert(multiply_spec(c, b, instruction).0.registers.general_purpose == c1.registers.general_purpose);
    assert(reg_of(c1, rd) == r);
}

/// The unsigned long multiplies compute modulo 2^64: `RdHi:RdLo` gets `Rm * Rs`, plus the old
/// `RdHi:RdLo` for `UMLAL`, when `RdHi` and `RdLo` are different registers.
pub proof fn lemma_unsigned_multiply_long_result(c: CpuView, instruction: u32)
    requires
        c.registers.general_purpose.len() == 16,
        !bit_of(instruction, 22),
        reg_field(instruction, 16) != reg_field(instruction, 12),
    ensures
        ({
            let c1 = multiply_long_spec(c, instruction);
            let hi = reg_field(instruction, 16);
            let lo = reg_field(instruction, 12);
            let addend: int = if bit_of(instruction, 21) {
                reg_of(c, hi) * 0x1_0000_0000 + reg_of(c, lo)
            } else {
                0
            };
            reg_of(c1, hi) * 0x1_0000_0000 + reg_of(c1, lo) == (reg_of(c, reg_field(instruction, 8)) * reg_of(
                c,
                reg_field(instruction, 0),
            ) + addend) % 0x1_0000_0000_0000_0000
        }),
{
    let m: int = 0x1_0000_0000_0000_0000;
    let x = reg_of(c, reg_field(instruction, 8));
    let y = reg_of(c, reg_field(instruction, 0));
    let hi_old = reg_of(c, reg_field(instruction, 16));
    let lo_old = reg_of(c, reg_field(instruction, 12));
    assert(x as int * y as int <= 0xFFFF_FFFE_0000_0001) by (nonlinear_arith)
        requires
            x <= 0xFFFF_FFFF,
            y <= 0xFFFF_FFFF,
    ;
    assert(0 <= x as int * y as int) by (nonlinear_arith);
    let p = long_product(x, y, false);
    assert(p as int == x * y);
    let a: u64 = if bit_of(instruction, 21) {
        ((hi_old as u64) << 32u64) | lo_old as u64
    } else {
        0
    };
    let r = p.wrapping_add(a);
    assert({
        &&& (instruction >> 16u32) & 0xF <= 15
        &&& (instruction >> 12u32) & 0xF <= 15
        &&& ((hi_old as u64) << 32u64) | lo_old as u64 == hi_old as u64 * 0x1_0000_0000 + lo_old as u64
        &&& ((r >> 32u64) as u32) as int * 0x1_0000_0000 + (r as u32) as int == r as int
    }) by (bit_vector);
    assert(r == long_result(c, instruction));
    if p + a > u64::MAX {
        vstd::arithmetic::div_mod::lemma_fundamental_div_mod_converse(p + a, m, 1, p + a - m);
    } else {
        vstd::arithmetic::div_mod::lemma_small_mod((p + a) as nat, m as nat);
    }
    let hi = reg_field(instruction, 16);
    let lo = reg_field(instruction, 12);
    let c1 = cpu_set_reg(cpu_set_reg(c, hi, (r >> 32u64) as u32), lo, r as u32);
    assert(multiply_long_spec(c, instruction).registers.general_purpose == c1.registers.general_purpose);
    assert(reg_of(c1, hi) == (r >> 32u64) as u32);
    assert(reg_of(c1, lo) == r as u32);
}

} // verus!
