//! Program status register transfers: `MRS` and `MSR`.

use crate::emulator::bus::{Bus, BusView};
use crate::emulator::cpu::arm::data_processing::dp_immediate_operand;
use crate::emulator::cpu::arm::{reg_at, reg_field, ArmInstruction, ArmV4};
use crate::emulator::cpu::common::rotate_right;
use crate::emulator::cpu::registers::{psr_of_raw, raw_of_psr, raw_psr_is_valid, State, PSR, PSR_RESERVED_MASK};
use crate::emulator::cpu::{bit_of, cpu_with_spsr, reg_of, test_bit, write_cpsr_spec, write_reg_spec, CpuView, CPU};
use vstd::prelude::*;

verus! {

/// `MRS`: the CPSR, or with bit 22 the SPSR, packed into the register of bits `12..=15`.
pub open spec fn mrs_spec(c: CpuView, b: BusView, instruction: u32) -> (CpuView, BusView) {
    let source = if bit_of(instruction, 22) {
        c.registers.spsr
    } else {
        c.registers.cpsr
    };
    write_reg_spec(c, b, reg_field(instruction, 12), raw_of_psr(source))
}

/// The status register value after `MSR`: each of the four bytes selected by the field
/// mask comes from the new value, the others from the current one.
pub open spec fn msr_value(current: u32, new_value: u32, field_mask: u32) -> u32 {
    let v0 = if field_mask & 1 != 0 {
        (current & 0xFFFF_FF00) | (new_value & 0xFF)
    } else {
        current
    };
    let v1 = if field_mask & 2 != 0 {
        (v0 & 0xFFFF_00FF) | (new_value & 0xFF00)
    } else {
        v0
    };
    let v2 = if field_mask & 4 != 0 {
        (v1 & 0xFF00_FFFF) | (new_value & 0xFF_0000)
    } else {
        v1
    };
    if field_mask & 8 != 0 {
        (v2 & 0x00FF_FFFF) | (new_value & 0xFF00_0000)
    } else {
        v2
    }
}

/// `MSR`: the selected fields of the CPSR, or with bit 22 the SPSR, are replaced. Writing
/// the CPSR banks the registers of a new mode. A value whose mode bits name no processor
/// mode is not written.
pub open spec fn msr_spec(c: CpuView, instruction: u32, new_value: u32) -> CpuView {
    let to_spsr = bit_of(instruction, 22);
    let current = raw_of_psr(
        if to_spsr {
            c.registers.spsr
        } else {
            c.registers.cpsr
        },
    );
    let value = msr_value(current, new_value, (instruction >> 16u32) & 0xF);
    if !raw_psr_is_valid(value) {
        c
    } else if to_spsr {
        cpu_with_spsr(c, psr_of_raw(value))
    } else {
        write_cpsr_spec(c, psr_of_raw(value))
    }
}

impl ArmV4 {
    /// Transfer PSR contents to a register.
    pub fn mrs_trans_psr_reg(cpu: &mut CPU, instruction: ArmInstruction, bus: &mut Bus)
        requires
            old(cpu).wf(),
            old(bus).wf(),
        ensures
            final(cpu).wf(),
            final(bus).wf(),
            (final(cpu)@, final(bus)@) == mrs_spec(old(cpu)@, old(bus)@, instruction),
    {
        let r_d = reg_at(instruction, 12);
        let contents = if test_bit(instruction, 22) {
            cpu.registers.spsr
        } else {
            cpu.registers.cpsr
        };
        cpu.write_reg(r_d, contents.as_raw(), bus);
    }

    /// Transfer an immediate (rotated like a data processing immediate) to a PSR.
    pub fn msr_immediate(cpu: &mut CPU, instruction: ArmInstruction, _bus: &mut Bus)
        requires
            old(cpu).wf(),
        ensures
            final(cpu).wf(),
            final(cpu)@ == msr_spec(old(cpu)@, instruction, dp_immediate_operand(instruction)),
            final(_bus)@ == old(_bus)@,
    {
        // The immediate is zero extended to 32 bits, then rotated right by `rotate amount * 2`
        proof {
            crate::utils::lemma_bit_facts();
        }
        let rotate = ((instruction >> 8u32) & 0xF) * 2;
        let imm = instruction & 0xFF;
        let new_value = rotate_right(imm, rotate);
        Self::msr_common(cpu, instruction, new_value);
    }

    /// Transfer register contents to a PSR.
    pub fn msr_register(cpu: &mut CPU, instruction: ArmInstruction, _bus: &mut Bus)
        requires
            old(cpu).wf(),
        ensures
            final(cpu).wf(),
            final(cpu)@ == msr_spec(old(cpu)@, instruction, reg_of(old(cpu)@, reg_field(instruction, 0))),
            final(_bus)@ == old(_bus)@,
    {
        let r_m = reg_at(instruction, 0);
        let new_value = cpu.read_reg(r_m);
        Self::msr_common(cpu, instruction, new_value);
    }

    /// `MSR` with either operand form: bit 25 selects the immediate form.
    pub fn msr_match(cpu: &mut CPU, instruction: ArmInstruction, bus: &mut Bus)
        requires
            old(cpu).wf(),
        ensures
            final(cpu).wf(),
            final(cpu)@ == msr_spec(
                old(cpu)@,
                instruction,
                if bit_of(instruction, 25) {
                    dp_immediate_operand(instruction)
                } else {
                    reg_of(old(cpu)@, reg_field(instruction, 0))
                },
            ),
            final(bus)@ == old(bus)@,
    {
        if test_bit(instruction, 25) {
            Self::msr_immediate(cpu, instruction, bus);
        } else {
            Self::msr_register(cpu, instruction, bus);
        }
    }

    /// Replace the fields of a PSR selected by the field mask of `instruction`.
    fn msr_common(cpu: &mut CPU, instruction: ArmInstruction, new_value: u32)
        requires
            old(cpu).wf(),
        ensures
            final(cpu).wf(),
            final(cpu)@ == msr_spec(old(cpu)@, instruction, new_value),
    {
        let to_spsr = test_bit(instruction, 22);
        let field_mask = (instruction >> 16u32) & 0xF;
        let mut value = if to_spsr {
            cpu.registers.spsr.as_raw()
        } else {
            cpu.registers.cpsr.as_raw()
        };
        // Control bits
        if field_mask & 1 != 0 {
            value = (value & 0xFFFF_FF00) | (new_value & 0xFF);
        }
        // Extension bits
        if field_mask & 2 != 0 {
            value = (value & 0xFFFF_00FF) | (new_value & 0xFF00);
        }
        // Status bits
        if field_mask & 4 != 0 {
            value = (value & 0xFF00_FFFF) | (new_value & 0xFF_0000);
        }
        // Flag bits
        if field_mask & 8 != 0 {
            value = (value & 0x00FF_FFFF) | (new_value & 0xFF00_0000);
        }
        if !PSR::is_valid_raw(value) {
            return;
        }
        let psr = PSR::from_raw(value);
        if to_spsr {
            cpu.registers.spsr = psr;
        } else {
            cpu.write_cpsr(psr);
        }
    }
}

/// `MSR` replaces exactly the bytes of the status register that the field mask (bits
/// `16..=19`) selects: when the resulting value names a processor mode, byte `j` of the new
/// CPSR (or SPSR with bit 22) is byte `j` of the operand if mask bit `j` is set and the old
/// byte otherwise; a value naming no mode leaves the processor unchanged.
pub proof fn lemma_msr_fields(c: CpuView, instruction: u32, new_value: u32, j: u32)
    requires
        j < 4,
    ensures
        ({
            let to_spsr = bit_of(instruction, 22);
            let old_raw = raw_of_psr(
                if to_spsr {
                    c.registers.spsr
                } else {
                    c.registers.cpsr
                },
            );
            let mask = (instruction >> 16u32) & 0xF;
            let value = msr_value(old_raw, new_value, mask);
            let c1 = msr_spec(c, instruction, new_value);
            let new_raw = raw_of_psr(
                if to_spsr {
                    c1.registers.spsr
                } else {
                    c1.registers.cpsr
                },
            );
            &&& raw_psr_is_valid(value) ==> (new_raw >> (8 * j)) & 0xFF == (if (mask >> j) & 1 == 1 {
                (new_value >> (8 * j)) & 0xFF
            } else {
                (old_raw >> (8 * j)) & 0xFF
            })
            &&& !raw_psr_is_valid(value) ==> c1 == c
        }),
{
    let to_spsr = bit_of(instruction, 22);
    let old_raw = raw_of_psr(
        if to_spsr {
            c.registers.spsr
        } else {
            c.registers.cpsr
        },
    );
    let mask = (instruction >> 16u32) & 0xF;
    let value = msr_value(old_raw, new_value, mask);
    crate::utils::lemma_bit_facts();
    if raw_psr_is_valid(value) {
        crate::emulator::cpu::registers::lemma_raw_psr_roundtrip(value);
    }
    assert((value >> (8 * j)) & 0xFF == (if (mask >> j) & 1 == 1 {
        (new_value >> (8 * j)) & 0xFF
    } else {
        (old_raw >> (8 * j)) & 0xFF
    })) by (bit_vector)
        requires
            j < 4,
            mask <= 0xF,
            value == msr_value(old_raw, new_value, mask),
    ;
}

/// `MRS` into `Rd` (not R15) gives the status register's packed value: bits 31, 30, 29 and
/// 28 are the N, Z, C and V flags, bit 7 the IRQ disable, bit 6 the FIQ disable, bit 5 is set
/// in THUMB state, bits 0..=4 are the mode bits and bits 8..=27 the reserved bits kept.
pub proof fn lemma_mrs_packs(c: CpuView, b: BusView, instruction: u32)
    requires
        c.registers.general_purpose.len() == 16,
        reg_field(instruction, 12) != 15,
        c.registers.cpsr.reserved & !PSR_RESERVED_MASK == 0,
        c.registers.spsr.reserved & !PSR_RESERVED_MASK == 0,
    ensures
        ({
            let p = if bit_of(instruction, 22) {
                c.registers.spsr
            } else {
                c.registers.cpsr
            };
            let r = reg_of(mrs_spec(c, b, instruction).0, reg_field(instruction, 12));
            &&& bit_of(r, 31) == p.sign
            &&& bit_of(r, 30) == p.zero
            &&& bit_of(r, 29) == p.carry
            &&& bit_of(r, 28) == p.overflow
            &&& bit_of(r, 7) == p.irq_disable
            &&& bit_of(r, 6) == p.fiq_disable
            &&& bit_of(r, 5) == (p.state == State::Thumb)
            &&& r & 0x1F == p.mode.spec_bits()
            &&& r & PSR_RESERVED_MASK == p.reserved
        }),
{
    let p = if bit_of(instruction, 22) {
        c.registers.spsr
    } else {
        c.registers.cpsr
    };
    let m = p.mode.spec_bits();
    let res = p.reserved;
    let (sn, z, cy, v, i, f, t) = (p.sign, p.zero, p.carry, p.overflow, p.irq_disable, p.fiq_disable, p.state
        == State::Thumb);
    let r = raw_of_psr(p);
    crate::utils::lemma_bit_facts();
    assert(reg_of(mrs_spec(c, b, instruction).0, reg_field(instruction, 12)) == r);
    assert({
        &&& (r >> 31u32) & 1 == 1 <==> sn
        &&& (r >> 30u32) & 1 == 1 <==> z
        &&& (r >> 29u32) & 1 == 1 <==> cy
        &&& (r >> 28u32) & 1 == 1 <==> v
        &&& (r >> 7u32) & 1 == 1 <==> i
        &&& (r >> 6u32) & 1 == 1 <==> f
        &&& (r >> 5u32) & 1 == 1 <==> t
        &&& r & 0x1F == m
        &&& r & 0x0FFF_FF00 == res
    }) by (bit_vector)
        requires
            m < 32,
            res & !0x0FFF_FF00u32 == 0,
            r == res | (if sn { 0x8000_0000u32 } else { 0 }) | (if z { 0x4000_0000u32 } else { 0 }) | (if cy {
                0x2000_0000u32
            } else {
                0
            }) | (if v { 0x1000_0000u32 } else { 0 }) | (if i { 0x80u32 } else { 0 }) | (if f { 0x40u32 } else {
                0
            }) | (if t { 0x20u32 } else { 0 }) | m,
    ;
}

} // verus!
