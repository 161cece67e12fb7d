//! Single data transfers: `LDR`/`STR` of words and bytes, and the halfword and signed forms.

use crate::emulator::bus::{
    bus_after_read16, bus_after_read32, bus_after_read8, bus_peek16, bus_peek32, bus_peek8, bus_write16_spec,
    bus_write32_spec, bus_write8_spec, Bus, BusView,
};
use crate::emulator::cpu::arm::{reg_at, reg_field, ArmInstruction, ArmV4};
use crate::emulator::cpu::common::{rotate_right, rotr_spec, shift_spec, ShiftType};
use crate::emulator::cpu::registers::PC_REG;
use crate::emulator::cpu::{bit_of, reg_of, test_bit, write_reg_spec, CpuView, CPU};
use vstd::prelude::*;

verus! {

/// The base address moved up or down by the offset, wrapping around the address space.
pub open spec fn offset_address(base: u32, offset: u32, up: bool) -> u32 {
    if up {
        base.wrapping_add(offset)
    } else {
        base.wrapping_sub(offset)
    }
}

/// Moves `base` up or down by `offset`.
pub fn apply_offset(base: u32, offset: u32, up: bool) -> (r: u32)
    ensures
        r == offset_address(base, offset, up),
{
    if up {
        base.wrapping_add(offset)
    } else {
        base.wrapping_sub(offset)
    }
}

/// The base register writeback after a transfer: post-indexed transfers always write the
/// moved address back, pre-indexed ones when the W bit is set; a load into the base register
/// itself suppresses the writeback.
pub open spec fn writeback_spec(
    c: CpuView,
    b: BusView,
    load: bool,
    rn: int,
    rd: int,
    pre: bool,
    writeback: bool,
    moved: u32,
) -> (CpuView, BusView) {
    if load && rn == rd {
        (c, b)
    } else if !pre || writeback {
        write_reg_spec(c, b, rn, moved)
    } else {
        (c, b)
    }
}

/// The offset of `LDR`/`STR`: a twelve bit immediate, or a register shifted by an immediate
/// amount (the shifter carry is discarded).
pub open spec fn transfer_offset(c: CpuView, instruction: u32) -> u32 {
    if !bit_of(instruction, 25) {
        instruction & 0xFFF
    } else {
        shift_spec(
            ShiftType::spec_from_bits(instruction >> 5u32),
            reg_of(c, reg_field(instruction, 0)),
            ((instruction >> 7u32) & 0x1F) as u8,
            c.registers.cpsr.carry,
        ).0
    }
}

/// `LDR` and `STR`. A byte load reads the addressed byte; a word load reads the word aligned
/// address and rotates the word so that the addressed byte is at bits `0..=7`. A stored R15
/// is 12 ahead of the instruction.
pub open spec fn single_data_transfer_spec(c: CpuView, b: BusView, instruction: u32) -> (CpuView, BusView) {
    let rn = reg_field(instruction, 16);
    let rd = reg_field(instruction, 12);
    let load = bit_of(instruction, 20);
    let byte = bit_of(instruction, 22);
    let pre = bit_of(instruction, 24);
    let base = reg_of(c, rn);
    let moved = offset_address(base, transfer_offset(c, instruction), bit_of(instruction, 23));
    let address = if pre {
        moved
    } else {
        base
    };
    let aligned = address & 0xFFFF_FFFC;
    let (c1, b1) = if load {
        if byte {
            write_reg_spec(c, bus_after_read8(b, address, c), rd, bus_peek8(b, address, c) as u32)
        } else {
            write_reg_spec(
                c,
                bus_after_read32(b, aligned, c),
                rd,
                rotr_spec(bus_peek32(b, aligned, c), (8 * (address & 3)) as u32),
            )
        }
    } else {
        let data = if rd == PC_REG {
            reg_of(c, rd).wrapping_add(4)
        } else {
            reg_of(c, rd)
        };
        if byte {
            (c, bus_write8_spec(b, address, data as u8))
        } else {
            (c, bus_write32_spec(b, aligned, data))
        }
    };
    writeback_spec(c1, b1, load, rn, rd, pre, bit_of(instruction, 21), moved)
}

/// The kinds of halfword and signed transfers, by the two `SH` bits.
#[derive(Debug, Eq, PartialEq, Structural, Copy, Clone)]
pub enum SwapType {
    Swp,
    UnsignedU16,
    Signedi8,
    Signedi16,
}

impl SwapType {
    /// The kind encoded by the low two bits of `bits`.
    pub open spec fn spec_from_bits(bits: u32) -> SwapType {
        if bits & 3 == 0 {
            SwapType::Swp
        } else if bits & 3 == 1 {
            SwapType::UnsignedU16
        } else if bits & 3 == 2 {
            SwapType::Signedi8
        } else {
            SwapType::Signedi16
        }
    }

    /// Decode the two `SH` bits.
    pub fn from_bits(bits: u32) -> (r: SwapType)
        ensures
            r == SwapType::spec_from_bits(bits),
    {
        let b = bits & 3;
        if b == 0 {
            SwapType::Swp
        } else if b == 1 {
            SwapType::UnsignedU16
        } else if b == 2 {
            SwapType::Signedi8
        } else {
            SwapType::Signedi16
        }
    }
}

/// A byte read as a signed number and extended to 32 bits.
pub open spec fn sign_extend_byte(v: u8) -> u32 {
    (v as i8) as u32
}

/// The transfer of a halfword or signed instruction at `address`. Signed transfers always
/// load; a signed halfword at an odd address loads the sign extended byte there.
pub open spec fn halfword_transfer_spec(
    c: CpuView,
    b: BusView,
    sh: SwapType,
    load: bool,
    rd: int,
    address: u32,
) -> (CpuView, BusView) {
    let aligned = address & 0xFFFF_FFFE;
    match sh {
        SwapType::UnsignedU16 => {
            if load {
                write_reg_spec(
                    c,
                    bus_after_read16(b, aligned, c),
                    rd,
                    rotr_spec(bus_peek16(b, aligned, c) as u32, (8 * (address & 1)) as u32),
                )
            } else {
                (c, bus_write16_spec(b, aligned, reg_of(c, rd) as u16))
            }
        },
        SwapType::Signedi16 => {
            if address & 1 == 0 {
                write_reg_spec(
                    c,
                    bus_after_read16(b, aligned, c),
                    rd,
                    (bus_peek16(b, aligned, c) as i16) as u32,
                )
            } else {
                write_reg_spec(c, bus_after_read8(b, address, c), rd, sign_extend_byte(bus_peek8(b, address, c)))
            }
        },
        _ => write_reg_spec(c, bus_after_read8(b, address, c), rd, sign_extend_byte(bus_peek8(b, address, c))),
    }
}

/// A halfword or signed transfer with the given offset. The `SH` pattern of a swap has no
/// transfer here and leaves everything unchanged.
pub open spec fn halfword_spec(c: CpuView, b: BusView, instruction: u32, offset: u32) -> (CpuView, BusView) {
    let rn = reg_field(instruction, 16);
    let rd = reg_field(instruction, 12);
    let load = bit_of(instruction, 20);
    let pre = bit_of(instruction, 24);
    let base = reg_of(c, rn);
    let moved = offset_address(base, offset, bit_of(instruction, 23));
    let address = if pre {
        moved
    } else {
        base
    };
    let sh = SwapType::spec_from_bits(instruction >> 5u32);
    if sh == SwapType::Swp {
        (c, b)
    } else {
        let (c1, b1) = halfword_transfer_spec(c, b, sh, load, rd, address);
        writeback_spec(c1, b1, load, rn, rd, pre, bit_of(instruction, 21), moved)
    }
}

/// The offset of the immediate halfword form: bits `8..=11` are its high nibble and bits
/// `0..=3` its low nibble.
pub open spec fn halfword_immediate_offset(instruction: u32) -> u32 {
    (((instruction >> 8u32) & 0xF) << 4u32) | (instruction & 0xF)
}

impl ArmV4 {
    /// `LDR` and `STR` of words and bytes.
    #[verifier::rlimit(40)]
    pub fn single_data_transfer(cpu: &mut CPU, instruction: ArmInstruction, bus: &mut Bus)
        requires
            old(cpu).wf(),
            old(bus).wf(),
        ensures
            final(cpu).wf(),
            final(bus).wf(),
            (final(cpu)@, final(bus)@) == single_data_transfer_spec(old(cpu)@, old(bus)@, instruction),
    {
        let reg_base = reg_at(instruction, 16);
        let reg_dest = reg_at(instruction, 12);
        let is_load = test_bit(instruction, 20);
        let is_byte_transfer = test_bit(instruction, 22);
        let is_up = test_bit(instruction, 23);
        let is_preindexed = test_bit(instruction, 24);
        let has_writeback = test_bit(instruction, 21);
        let offset = if !test_bit(instruction, 25) {
            instruction & 0xFFF
        } else {
            let reg_offset = reg_at(instruction, 0);
            let shift_type = ShiftType::from_bits(instruction >> 5u32);
            proof {
                crate::utils::lemma_bit_facts();
            }
            let shift_amount = ((instruction >> 7u32) & 0x1F) as u8;
            // No flags are set by the LDR/STR instructions.
            let (offset, _) = shift_type.perform_shift(
                cpu.read_reg(reg_offset),
                shift_amount,
                cpu.registers.cpsr.carry(),
            );
            offset
        };
        let base_address = cpu.read_reg(reg_base);
        let moved = apply_offset(base_address, offset, is_up);
        let address = if is_preindexed {
            moved
        } else {
            base_address
        };
        let aligned = address & 0xFFFF_FFFC;
        if is_load {
            if is_byte_transfer {
                let value = bus.read(address, cpu) as u32;
                cpu.write_reg(reg_dest, value, bus);
            } else {
                let value = bus.read_32(aligned, cpu);
                // The addressed byte ends up at bits 0..=7 of an unaligned read.
                proof {
                    crate::utils::lemma_bit_facts();
                }
                let final_val = rotate_right(value, 8 * (address & 3));
                cpu.write_reg(reg_dest, final_val, bus);
            }
        } else {
            // A stored R15 is three words ahead of the instruction instead of the usual two.
            let data = if reg_dest == PC_REG {
                cpu.read_reg(reg_dest).wrapping_add(4)
            } else {
                cpu.read_reg(reg_dest)
            };
            if is_byte_transfer {
                bus.write(address, data as u8);
            } else {
                bus.write_32(aligned, data);
            }
        }
        Self::writeback(cpu, bus, is_load, reg_base, reg_dest, is_preindexed, has_writeback, moved);
    }

    /// Write the moved address back to the base register where the transfer asks for it.
    fn writeback(
        cpu: &mut CPU,
        bus: &mut Bus,
        is_load: bool,
        reg_base: usize,
        reg_dest: usize,
        is_preindexed: bool,
        has_writeback: bool,
        moved: u32,
    )
        requires
            old(cpu).wf(),
            old(bus).wf(),
            reg_base < 16,
        ensures
            final(cpu).wf(),
            final(bus).wf(),
            (final(cpu)@, final(bus)@) == writeback_spec(
                old(cpu)@,
                old(bus)@,
                is_load,
                reg_base as int,
                reg_dest as int,
                is_preindexed,
                has_writeback,
                moved,
            ),
    {
        // No writeback occurs if the base and destination register are the same on a load.
        if !is_load || reg_base != reg_dest {
            if !is_preindexed || has_writeback {
                cpu.write_reg(reg_base, moved, bus);
            }
        }
    }

    /// Halfword and signed transfers with a register offset.
    pub fn halfword_and_signed_register(cpu: &mut CPU, instruction: ArmInstruction, bus: &mut Bus)
        requires
            old(cpu).wf(),
            old(bus).wf(),
        ensures
            final(cpu).wf(),
            final(bus).wf(),
            (final(cpu)@, final(bus)@) == halfword_spec(
                old(cpu)@,
                old(bus)@,
                instruction,
                reg_of(old(cpu)@, reg_field(instruction, 0)),
            ),
    {
        let reg_offset = reg_at(instruction, 0);
        let offset = cpu.read_reg(reg_offset);
        Self::halfword_operation(cpu, bus, instruction, offset);
    }

    /// Halfword and signed transfers with an immediate offset.
    pub fn halfword_and_signed_immediate(cpu: &mut CPU, instruction: ArmInstruction, bus: &mut Bus)
        requires
            old(cpu).wf(),
            old(bus).wf(),
        ensures
            final(cpu).wf(),
            final(bus).wf(),
            (final(cpu)@, final(bus)@) == halfword_spec(
                old(cpu)@,
                old(bus)@,
                instruction,
                halfword_immediate_offset(instruction),
            ),
    {
        let offset = (((instruction >> 8u32) & 0xF) << 4u32) | (instruction & 0xF);
        Self::halfword_operation(cpu, bus, instruction, offset);
    }

    /// The transfer and writeback shared by both halfword forms.
    fn halfword_operation(cpu: &mut CPU, bus: &mut Bus, instruction: ArmInstruction, offset: u32)
        requires
            old(cpu).wf(),
            old(bus).wf(),
        ensures
            final(cpu).wf(),
            final(bus).wf(),
            (final(cpu)@, final(bus)@) == halfword_spec(old(cpu)@, old(bus)@, instruction, offset),
    {
        let is_preindexed = test_bit(instruction, 24);
        let is_up = test_bit(instruction, 23);
        let has_writeback = test_bit(instruction, 21);
        let is_load = test_bit(instruction, 20);
        let sh = SwapType::from_bits(instruction >> 5u32);
        let reg_base = reg_at(instruction, 16);
        let reg_dest = reg_at(instruction, 12);
        let base_address = cpu.read_reg(reg_base);
        let moved = apply_offset(base_address, offset, is_up);
        let address = if is_preindexed {
            moved
        } else {
            base_address
        };
        if sh == SwapType::Swp {
            // The swap pattern is decoded as a single data swap elsewhere; nothing is transferred.
            return;
        }
        Self::halfword_transfer(cpu, bus, sh, is_load, reg_dest, address);
        Self::writeback(cpu, bus, is_load, reg_base, reg_dest, is_preindexed, has_writeback, moved);
    }

    /// Transfer a halfword or a signed byte or halfword.
    fn halfword_transfer(cpu: &mut CPU, bus: &mut Bus, sh: SwapType, is_load: bool, reg_dest: usize, address: u32)
        requires
            old(cpu).wf(),
            old(bus).wf(),
            reg_dest < 16,
        ensures
            final(cpu).wf(),
            final(bus).wf(),
            (final(cpu)@, final(bus)@) == halfword_transfer_spec(
                old(cpu)@,
                old(bus)@,
                sh,
                is_load,
                reg_dest as int,
                address,
            ),
    {
        let aligned = address & 0xFFFF_FFFE;
        match sh {
            SwapType::UnsignedU16 => {
                if is_load {
                    let value = bus.read_16(aligned, cpu) as u32;
                    // ARMv4 force aligns and rotates the value of an unaligned read.
                    proof {
                        crate::utils::lemma_bit_facts();
                    }
                    let final_val = rotate_right(value, 8 * (address & 1));
                    cpu.write_reg(reg_dest, final_val, bus);
                } else {
                    let value = cpu.read_reg(reg_dest) as u16;
                    bus.write_16(aligned, value);
                }
            },
            SwapType::Signedi16 => {
                if address & 1 == 0 {
                    let value = bus.read_16(aligned, cpu) as i16 as u32;
                    cpu.write_reg(reg_dest, value, bus);
                } else {
                    // Unaligned: only the odd byte is read, then sign extended.
                    let value = bus.read(address, cpu) as i8 as u32;
                    cpu.write_reg(reg_dest, value, bus);
                }
            },
            _ => {
                // The load bit is ignored: signed transfers always load.
                let value = bus.read(address, cpu) as i8 as u32;
                cpu.write_reg(reg_dest, value, bus);
            },
        }
    }
}

/// What the halfword and signed loads put into `Rd` (not R15): `LDRH` at an even address the
/// halfword there, zero extended; `LDRSH` at an even address the halfword with bits 16..31
/// copies of its bit 15; `LDRSB` the byte at the address with bits 8..31 copies of its bit 7.
pub proof fn lemma_halfword_loads(c: CpuView, b: BusView, rd: int, address: u32)
    requires
        c.registers.general_purpose.len() == 16,
        0 <= rd < 15,
    ensures
        ({
            let h = bus_peek16(b, address, c);
            let r = reg_of(halfword_transfer_spec(c, b, SwapType::UnsignedU16, true, rd, address).0, rd);
            address & 1 == 0 ==> r < 0x1_0000 && r & 0xFFFF == h as u32
        }),
        ({
            let h = bus_peek16(b, address, c);
            let r = reg_of(halfword_transfer_spec(c, b, SwapType::Signedi16, true, rd, address).0, rd);
            address & 1 == 0 ==> r & 0xFFFF == h as u32 && r >> 16u32 == (if h & 0x8000 != 0 {
                0xFFFFu32
            } else {
                0
            })
        }),
        ({
            let v = bus_peek8(b, address, c);
            let r = reg_of(halfword_transfer_spec(c, b, SwapType::Signedi8, true, rd, address).0, rd);
            r & 0xFF == v as u32 && r >> 8u32 == (if v & 0x80 != 0 {
                0xFF_FFFFu32
            } else {
                0
            })
        }),
{
    let h = bus_peek16(b, address, c);
    let v = bus_peek8(b, address, c);
    assert({
        &&& address & 1 == 0 ==> address & 0xFFFF_FFFE == address
        &&& (h as u32) < 0x1_0000 && (h as u32) & 0xFFFF == h as u32
        &&& ((h as i16) as u32) & 0xFFFF == h as u32
        &&& ((h as i16) as u32) >> 16u32 == (if h & 0x8000 != 0 {
            0xFFFFu32
        } else {
            0
        })
        &&& ((v as i8) as u32) & 0xFF == v as u32
        &&& ((v as i8) as u32) >> 8u32 == (if v & 0x80 != 0 {
            0xFF_FFFFu32
        } else {
            0
        })
    }) by (bit_vector);
}

/// `LDRB` into `Rd` (not R15, with a base register other than R15) loads the byte at the
/// transfer address, zero extended: the address is the base moved by the offset when pre
/// indexed, the base itself when post indexed.
pub proof fn lemma_byte_load(c: CpuView, b: BusView, instruction: u32)
    requires
        c.registers.general_purpose.len() == 16,
        bit_of(instruction, 20),
        bit_of(instruction, 22),
        reg_field(instruction, 12) != 15,
        reg_field(instruction, 16) != 15,
    ensures
        ({
            let base = reg_of(c, reg_field(instruction, 16));
            let address = if bit_of(instruction, 24) {
                offset_address(base, transfer_offset(c, instruction), bit_of(instruction, 23))
            } else {
                base
            };
            let r = reg_of(single_data_transfer_spec(c, b, instruction).0, reg_field(instruction, 12));
            r < 0x100 && r as u8 == bus_peek8(b, address, c)
        }),
{
    let v = bus_peek8(b, if bit_of(instruction, 24) {
        offset_address(reg_of(c, reg_field(instruction, 16)), transfer_offset(c, instruction), bit_of(instruction, 23))
    } else {
        reg_of(c, reg_field(instruction, 16))
    }, c);
    assert((instruction >> 16u32) & 0xF <= 15 && (instruction >> 12u32) & 0xF <= 15 && (v as u32) < 0x100 && (v as u32)
        as u8 == v) by (bit_vector);
}

/// `LDR` into `Rd` (not R15, with a base register other than R15) at a word aligned
/// transfer address loads the word there unchanged.
pub proof fn lemma_word_load(c: CpuView, b: BusView, instruction: u32)
    requires
        c.registers.general_purpose.len() == 16,
        bit_of(instruction, 20),
        !bit_of(instruction, 22),
        reg_field(instruction, 12) != 15,
        reg_field(instruction, 16) != 15,
    ensures
        ({
            let base = reg_of(c, reg_field(instruction, 16));
            let address = if bit_of(instruction, 24) {
                offset_address(base, transfer_offset(c, instruction), bit_of(instruction, 23))
            } else {
                base
            };
            let r = reg_of(single_data_transfer_spec(c, b, instruction).0, reg_field(instruction, 12));
            address & 3 == 0 ==> r == bus_peek32(b, address, c)
        }),
{
    crate::utils::lemma_bit_facts();
    let base = reg_of(c, reg_field(instruction, 16));
    let address = if bit_of(instruction, 24) {
        offset_address(base, transfer_offset(c, instruction), bit_of(instruction, 23))
    } else {
        base
    };
    assert((address & 0xFFFF_FFFC) + (address & 3) == address);
}

} // verus!
