//! THUMB formats 6 to 12: PC, register, immediate and SP relative loads and stores,
//! load address and stack pointer adjustment.

use crate::emulator::bus::{
    bus_after_read16, bus_after_read32, bus_after_read8, bus_peek16, bus_peek32, bus_peek8, bus_write16_spec,
    bus_write32_spec, bus_write8_spec, Bus, BusView,
};
use crate::emulator::cpu::registers::{PC_REG, SP_REG};
use crate::emulator::cpu::thumb::{ifield, ibit, low_reg_at, low_reg_field, test_ibit, ThumbInstruction, ThumbV4};
use crate::emulator::cpu::arm::data_processing::{lemma_wrap_add, lemma_wrap_sub};
use crate::emulator::cpu::{reg_of, write_reg_spec, CpuView, CPU};
use crate::utils::{sign_extend32, sign_extend_spec};
use vstd::prelude::*;

verus! {

/// Format 6: load a word from the word aligned program counter plus a word offset.
pub open spec fn pc_relative_load_spec(c: CpuView, b: BusView, instruction: u16) -> (CpuView, BusView) {
    let address = (reg_of(c, PC_REG as int) & 0xFFFF_FFFC).wrapping_add(((instruction as u32) & 0xFF) << 2u32);
    write_reg_spec(c, bus_after_read32(b, address, c), low_reg_field(instruction, 8), bus_peek32(b, address, c))
}

/// A word or byte load into, or store from, `rd` at `address`.
pub open spec fn load_or_store_spec(
    c: CpuView,
    b: BusView,
    load: bool,
    byte: bool,
    rd: int,
    address: u32,
) -> (CpuView, BusView) {
    if load {
        if byte {
            write_reg_spec(c, bus_after_read8(b, address, c), rd, bus_peek8(b, address, c) as u32)
        } else {
            write_reg_spec(c, bus_after_read32(b, address, c), rd, bus_peek32(b, address, c))
        }
    } else if byte {
        (c, bus_write8_spec(b, address, reg_of(c, rd) as u8))
    } else {
        (c, bus_write32_spec(b, address, reg_of(c, rd)))
    }
}

/// The address of formats 7 and 8: base register plus offset register.
pub open spec fn register_offset_address(c: CpuView, instruction: u16) -> u32 {
    reg_of(c, low_reg_field(instruction, 3)).wrapping_add(reg_of(c, low_reg_field(instruction, 6)))
}

/// Format 7: load or store a word or byte at base plus offset register.
pub open spec fn reg_offset_spec(c: CpuView, b: BusView, instruction: u16) -> (CpuView, BusView) {
    load_or_store_spec(
        c,
        b,
        ibit(instruction, 11),
        ibit(instruction, 10),
        low_reg_field(instruction, 0),
        register_offset_address(c, instruction),
    )
}

/// Format 9: load or store a word or byte at base plus a five bit offset, in words for words.
pub open spec fn immediate_offset_spec(c: CpuView, b: BusView, instruction: u16) -> (CpuView, BusView) {
    let byte = ibit(instruction, 12);
    let field = ifield(instruction, 6, 0x1F);
    let offset = if byte {
        field
    } else {
        field << 2u32
    };
    load_or_store_spec(
        c,
        b,
        ibit(instruction, 11),
        byte,
        low_reg_field(instruction, 0),
        reg_of(c, low_reg_field(instruction, 3)).wrapping_add(offset),
    )
}

/// Format 8: `STRH`, `LDRH` and the sign extending loads `LDSB` (from bit 7 of the byte) and
/// `LDSH` (from bit 15 of the halfword).
pub open spec fn sign_extended_spec(c: CpuView, b: BusView, instruction: u16) -> (CpuView, BusView) {
    let h = ibit(instruction, 11);
    let rd = low_reg_field(instruction, 0);
    let address = register_offset_address(c, instruction);
    if ibit(instruction, 10) {
        if h {
            write_reg_spec(
                c,
                bus_after_read16(b, address, c),
                rd,
                sign_extend_spec(bus_peek16(b, address, c) as u32, 16) as u32,
            )
        } else {
            write_reg_spec(
                c,
                bus_after_read8(b, address, c),
                rd,
                sign_extend_spec(bus_peek8(b, address, c) as u32, 8) as u32,
            )
        }
    } else if h {
        write_reg_spec(c, bus_after_read16(b, address, c), rd, bus_peek16(b, address, c) as u32)
    } else {
        (c, bus_write16_spec(b, address, reg_of(c, rd) as u16))
    }
}

/// Format 10: load or store a halfword at base plus a five bit offset in halfwords.
pub open spec fn halfword_spec(c: CpuView, b: BusView, instruction: u16) -> (CpuView, BusView) {
    let rd = low_reg_field(instruction, 0);
    let address = reg_of(c, low_reg_field(instruction, 3)).wrapping_add(ifield(instruction, 6, 0x1F) << 1u32);
    if ibit(instruction, 11) {
        write_reg_spec(c, bus_after_read16(b, address, c), rd, bus_peek16(b, address, c) as u32)
    } else {
        (c, bus_write16_spec(b, address, reg_of(c, rd) as u16))
    }
}

/// Format 11: load or store a word at the stack pointer plus a word offset.
pub open spec fn sp_relative_spec(c: CpuView, b: BusView, instruction: u16) -> (CpuView, BusView) {
    let rd = low_reg_field(instruction, 8);
    let address = reg_of(c, SP_REG as int).wrapping_add(((instruction as u32) & 0xFF) << 2u32);
    if ibit(instruction, 11) {
        write_reg_spec(c, bus_after_read32(b, address, c), rd, bus_peek32(b, address, c))
    } else {
        (c, bus_write32_spec(b, address, reg_of(c, rd)))
    }
}

/// Format 12: `Rd` = the stack pointer, or the word aligned program counter, plus a word offset.
pub open spec fn load_address_spec(c: CpuView, b: BusView, instruction: u16) -> (CpuView, BusView) {
    let source = if ibit(instruction, 11) {
        reg_of(c, SP_REG as int)
    } else {
        reg_of(c, PC_REG as int) & 0xFFFF_FFFC
    };
    write_reg_spec(c, b, low_reg_field(instruction, 8), source.wrapping_add(((instruction as u32) & 0xFF) << 2u32))
}

/// Format 13: the stack pointer moves by a seven bit word offset, down when bit 7 is set.
pub open spec fn add_offset_to_sp_spec(c: CpuView, b: BusView, instruction: u16) -> (CpuView, BusView) {
    let offset = ((instruction as u32) & 0x7F) << 2u32;
    let sp = reg_of(c, SP_REG as int);
    write_reg_spec(
        c,
        b,
        SP_REG as int,
        if ibit(instruction, 7) {
            sp.wrapping_sub(offset)
        } else {
            sp.wrapping_add(offset)
        },
    )
}

impl ThumbV4 {
    /// Format 6: PC relative load.
    pub fn pc_relative_load(cpu: &mut CPU, instruction: ThumbInstruction, bus: &mut Bus)
        requires
            old(cpu).wf(),
            old(bus).wf(),
        ensures
            final(cpu).wf(),
            final(bus).wf(),
            (final(cpu)@, final(bus)@) == pc_relative_load_spec(old(cpu)@, old(bus)@, instruction),
    {
        let r_d = low_reg_at(instruction, 8);
        let imm_value = ((instruction as u32) & 0xFF) << 2u32;
        // The program counter is word aligned for this addition.
        let pc_value = cpu.registers.pc() & 0xFFFF_FFFC;
        let address = pc_value.wrapping_add(imm_value);
        let value = bus.read_32(address, cpu);
        cpu.write_reg(r_d, value, bus);
    }

    /// Format 7: load or store with a register offset.
    pub fn load_store_with_reg_offset(cpu: &mut CPU, instruction: ThumbInstruction, bus: &mut Bus)
        requires
            old(cpu).wf(),
            old(bus).wf(),
        ensures
            final(cpu).wf(),
            final(bus).wf(),
            (final(cpu)@, final(bus)@) == reg_offset_spec(old(cpu)@, old(bus)@, instruction),
    {
        let is_load = test_ibit(instruction, 11);
        let is_byte_transfer = test_ibit(instruction, 10);
        let r_offset = low_reg_at(instruction, 6);
        let r_base = low_reg_at(instruction, 3);
        let r_d = low_reg_at(instruction, 0);
        let target_addr = cpu.read_reg(r_base).wrapping_add(cpu.read_reg(r_offset));
        Self::load_or_store_value(cpu, bus, is_load, is_byte_transfer, r_d, target_addr)
    }

    /// Format 9: load or store with a five bit immediate offset.
    pub fn load_store_with_immediate_offset(cpu: &mut CPU, instruction: ThumbInstruction, bus: &mut Bus)
        requires
            old(cpu).wf(),
            old(bus).wf(),
        ensures
            final(cpu).wf(),
            final(bus).wf(),
            (final(cpu)@, final(bus)@) == immediate_offset_spec(old(cpu)@, old(bus)@, instruction),
    {
        let is_byte_transfer = test_ibit(instruction, 12);
        let is_load = test_ibit(instruction, 11);
        let field = ((instruction as u32) >> 6u32) & 0x1F;
        // A word transfer has its offset in words.
        let offset = if is_byte_transfer {
            field
        } else {
            field << 2u32
        };
        let r_base = low_reg_at(instruction, 3);
        let r_d = low_reg_at(instruction, 0);
        let target_addr = cpu.read_reg(r_base).wrapping_add(offset);
        Self::load_or_store_value(cpu, bus, is_load, is_byte_transfer, r_d, target_addr)
    }

    /// Format 8: load or store a sign extended byte or halfword.
    pub fn load_store_sign_extended_byte_halfword(cpu: &mut CPU, instruction: ThumbInstruction, bus: &mut Bus)
        requires
            old(cpu).wf(),
            old(bus).wf(),
        ensures
            final(cpu).wf(),
            final(bus).wf(),
            (final(cpu)@, final(bus)@) == sign_extended_spec(old(cpu)@, old(bus)@, instruction),
    {
        let h_flag = test_ibit(instruction, 11);
        let is_sign_extended = test_ibit(instruction, 10);
        let r_offset = low_reg_at(instruction, 6);
        let r_base = low_reg_at(instruction, 3);
        let r_d = low_reg_at(instruction, 0);
        let target_addr = cpu.read_reg(r_base).wrapping_add(cpu.read_reg(r_offset));
        if is_sign_extended {
            if h_flag {
                let value = bus.read_16(target_addr, cpu);
                cpu.write_reg(r_d, sign_extend32(value as u32, 16) as u32, bus);
            } else {
                let value = bus.read(target_addr, cpu);
                cpu.write_reg(r_d, sign_extend32(value as u32, 8) as u32, bus);
            }
        } else {
            if h_flag {
                let value = bus.read_16(target_addr, cpu);
                cpu.write_reg(r_d, value as u32, bus);
            } else {
                bus.write_16(target_addr, cpu.read_reg(r_d) as u16);
            }
        }
    }

    /// Format 10: load or store a halfword.
    pub fn load_store_halfword(cpu: &mut CPU, instruction: ThumbInstruction, bus: &mut Bus)
        requires
            old(cpu).wf(),
            old(bus).wf(),
        ensures
            final(cpu).wf(),
            final(bus).wf(),
            (final(cpu)@, final(bus)@) == halfword_spec(old(cpu)@, old(bus)@, instruction),
    {
        let is_load = test_ibit(instruction, 11);
        let offset = (((instruction as u32) >> 6u32) & 0x1F) << 1u32;
        let r_base = low_reg_at(instruction, 3);
        let r_d = low_reg_at(instruction, 0);
        let target_addr = cpu.read_reg(r_base).wrapping_add(offset);
        if is_load {
            let value = bus.read_16(target_addr, cpu);
            cpu.write_reg(r_d, value as u32, bus);
        } else {
            bus.write_16(target_addr, cpu.read_reg(r_d) as u16);
        }
    }

    /// Format 11: SP relative load or store.
    pub fn sp_relative_load_store(cpu: &mut CPU, instruction: ThumbInstruction, bus: &mut Bus)
        requires
            old(cpu).wf(),
            old(bus).wf(),
        ensures
            final(cpu).wf(),
            final(bus).wf(),
            (final(cpu)@, final(bus)@) == sp_relative_spec(old(cpu)@, old(bus)@, instruction),
    {
        let is_load = test_ibit(instruction, 11);
        let r_d = low_reg_at(instruction, 8);
        let offset = ((instruction as u32) & 0xFF) << 2u32;
        let target_addr = cpu.read_reg(SP_REG).wrapping_add(offset);
        if is_load {
            let value = bus.read_32(target_addr, cpu);
            cpu.write_reg(r_d, value, bus);
        } else {
            bus.write_32(target_addr, cpu.read_reg(r_d));
        }
    }

    /// Format 12: load an address relative to SP or PC.
    pub fn load_address(cpu: &mut CPU, instruction: ThumbInstruction, bus: &mut Bus)
        requires
            old(cpu).wf(),
            old(bus).wf(),
        ensures
            final(cpu).wf(),
            final(bus).wf(),
            (final(cpu)@, final(bus)@) == load_address_spec(old(cpu)@, old(bus)@, instruction),
    {
        let source_is_sp = test_ibit(instruction, 11);
        let r_d = low_reg_at(instruction, 8);
        let constant = ((instruction as u32) & 0xFF) << 2u32;
        let load_value = if source_is_sp {
            cpu.read_reg(SP_REG)
        } else {
            cpu.read_reg(PC_REG) & 0xFFFF_FFFC
        };
        cpu.write_reg(r_d, load_value.wrapping_add(constant), bus);
    }

    /// Format 13: add a signed offset to the stack pointer.
    pub fn add_offset_to_stack_pointer(cpu: &mut CPU, instruction: ThumbInstruction, bus: &mut Bus)
        requires
            old(cpu).wf(),
            old(bus).wf(),
        ensures
            final(cpu).wf(),
            final(bus).wf(),
            (final(cpu)@, final(bus)@) == add_offset_to_sp_spec(old(cpu)@, old(bus)@, instruction),
    {
        let offset_is_negative = test_ibit(instruction, 7);
        let offset = ((instruction as u32) & 0x7F) << 2u32;
        let sp = cpu.read_reg(SP_REG);
        let new_sp = if offset_is_negative {
            sp.wrapping_sub(offset)
        } else {
            sp.wrapping_add(offset)
        };
        cpu.write_reg(SP_REG, new_sp, bus);
    }

    /// Load into, or store from, `r_d` a word or byte at `target_addr`.
    fn load_or_store_value(cpu: &mut CPU, bus: &mut Bus, is_load: bool, is_byte_transfer: bool, r_d: usize, target_addr: u32)
        requires
            old(cpu).wf(),
            old(bus).wf(),
            r_d < 16,
        ensures
            final(cpu).wf(),
            final(bus).wf(),
            (final(cpu)@, final(bus)@) == load_or_store_spec(
                old(cpu)@,
                old(bus)@,
                is_load,
                is_byte_transfer,
                r_d as int,
                target_addr,
            ),
    {
        if is_load {
            if is_byte_transfer {
                let value = bus.read(target_addr, cpu);
                cpu.write_reg(r_d, value as u32, bus);
            } else {
                let value = bus.read_32(target_addr, cpu);
                cpu.write_reg(r_d, value, bus);
            }
        } else {
            if is_byte_transfer {
                bus.write(target_addr, cpu.read_reg(r_d) as u8);
            } else {
                bus.write_32(target_addr, cpu.read_reg(r_d));
            }
        }
    }
}

/// Format 8 loads into `Rd`: `LDRH` the halfword at the address zero extended, `LDSH` the
/// halfword with bits 16..31 copies of its bit 15, `LDSB` the byte with bits 8..31 copies of
/// its bit 7.
pub proof fn lemma_thumb_sign_extended_loads(c: CpuView, b: BusView, instruction: u16)
    requires
        c.registers.general_purpose.len() == 16,
    ensures
        ({
            let rd = low_reg_field(instruction, 0);
            let address = register_offset_address(c, instruction);
            let h = bus_peek16(b, address, c);
            let v = bus_peek8(b, address, c);
            let r = reg_of(sign_extended_spec(c, b, instruction).0, rd);
            &&& ibit(instruction, 11) && !ibit(instruction, 10) ==> r < 0x1_0000 && r & 0xFFFF == h as u32
            &&& ibit(instruction, 11) && ibit(instruction, 10) ==> r & 0xFFFF == h as u32 && r >> 16u32 == (
            if h & 0x8000 != 0 {
                0xFFFFu32
            } else {
                0
            })
            &&& !ibit(instruction, 11) && ibit(instruction, 10) ==> r & 0xFF == v as u32 && r >> 8u32 == (if v
                & 0x80 != 0 {
                0xFF_FFFFu32
            } else {
                0
            })
        }),
{
    crate::utils::lemma_bit_facts();
    let address = register_offset_address(c, instruction);
    let h = bus_peek16(b, address, c);
    let v = bus_peek8(b, address, c);
    assert({
        &&& (h as u32) < 0x1_0000 && (h as u32) & 0xFFFF == h as u32
        &&& ((((h as u32) << 16u32) as i32) >> 16u32) as u32 & 0xFFFF == h as u32
        &&& ((((h as u32) << 16u32) as i32) >> 16u32) as u32 >> 16u32 == (if h & 0x8000 != 0 {
            0xFFFFu32
        } else {
            0
        })
        &&& ((((v as u32) << 24u32) as i32) >> 24u32) as u32 & 0xFF == v as u32
        &&& ((((v as u32) << 24u32) as i32) >> 24u32) as u32 >> 8u32 == (if v & 0x80 != 0 {
            0xFF_FFFFu32
        } else {
            0
        })
    }) by (bit_vector);
}

/// Format 12 puts the stack pointer, or the program counter with bits 0 and 1 cleared, plus
/// four times the 8-bit field into `Rd`; format 13 moves the stack pointer by four times the
/// 7-bit field, down when bit 7 is set.
pub proof fn lemma_thumb_address_arithmetic(c: CpuView, b: BusView, instruction: u16)
    requires
        c.registers.general_purpose.len() == 16,
    ensures
        ({
            let imm8 = (instruction as u32) & 0xFF;
            let base: int = if ibit(instruction, 11) {
                reg_of(c, SP_REG as int) as int
            } else {
                reg_of(c, PC_REG as int) - reg_of(c, PC_REG as int) % 4
            };
            reg_of(load_address_spec(c, b, instruction).0, low_reg_field(instruction, 8)) as int == (base + 4
                * imm8) % 0x1_0000_0000
        }),
        ({
            let imm7 = (instruction as u32) & 0x7F;
            let sp = reg_of(c, SP_REG as int);
            reg_of(add_offset_to_sp_spec(c, b, instruction).0, SP_REG as int) as int == (if ibit(instruction, 7) {
                sp - 4 * imm7
            } else {
                sp + 4 * imm7
            }) % 0x1_0000_0000
        }),
{
    crate::utils::lemma_bit_facts();
    let pc = reg_of(c, PC_REG as int);
    let sp = reg_of(c, SP_REG as int);
    let imm8 = (instruction as u32) & 0xFF;
    let imm7 = (instruction as u32) & 0x7F;
    let aligned = pc & 0xFFFF_FFFC;
    assert({
        &&& (((instruction as u32) & 0xFF) << 2u32) == 4 * imm8
        &&& (((instruction as u32) & 0x7F) << 2u32) == 4 * imm7
        &&& aligned as int == pc - pc % 4
    }) by (bit_vector)
        requires
            imm8 == (instruction as u32) & 0xFF,
            imm7 == (instruction as u32) & 0x7F,
            aligned == pc & 0xFFFF_FFFC,
    ;
    let source = if ibit(instruction, 11) {
        sp
    } else {
        aligned
    };
    lemma_wrap_add(source, ((instruction as u32) & 0xFF) << 2u32);
    lemma_wrap_add(sp, ((instruction as u32) & 0x7F) << 2u32);
    lemma_wrap_sub(sp, ((instruction as u32) & 0x7F) << 2u32);
}

} // verus!
