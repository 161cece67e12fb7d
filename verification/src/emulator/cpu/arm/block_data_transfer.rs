//! Block data transfers: `LDM` and `STM`.

use crate::emulator::bus::{bus_after_read32, bus_peek32, bus_write32_spec, Bus, BusView};
use crate::emulator::cpu::arm::{reg_at, reg_field, ArmInstruction, ArmV4};
use crate::emulator::cpu::registers::{swap_banks_spec, Mode, PC_REG};
use crate::emulator::cpu::{
    bit_of, cpu_set_reg, reg_of, test_bit, write_cpsr_spec, write_reg_spec, CpuView, CPU,
};
use vstd::prelude::*;

verus! {

/// The number of set bits among bits `0..n` of `list`.
pub open spec fn popcount(list: u32, n: nat) -> nat
    decreases n,
{
    if n == 0 {
        0
    } else {
        popcount(list, (n - 1) as nat) + if bit_of(list, (n - 1) as u32) {
            1nat
        } else {
            0nat
        }
    }
}

/// Count the set bits of a 16-bit register list.
pub fn count_registers(list: u32) -> (r: u32)
    ensures
        r == popcount(list, 16),
        r <= 16,
{
    let mut count: u32 = 0;
    let mut i: u32 = 0;
    while i < 16
        invariant
            i <= 16,
            count == popcount(list, i as nat),
            count <= i,
        decreases 16 - i,
    {
        if test_bit(list, i) {
            count = count + 1;
        }
        i = i + 1;
    }
    count
}

/// The `(writeback address, start address)` of a block transfer of `count` registers from
/// `base`. An empty list moves the base by 0x40, as sixteen registers would.
pub open spec fn block_addresses(pre: bool, up: bool, count: u32, base: u32) -> (u32, u32) {
    if up {
        let moved = if count != 0 {
            base.wrapping_add((4 * count) as u32)
        } else {
            base.wrapping_add(0x40)
        };
        (moved, if pre {
            base.wrapping_add(4)
        } else {
            base
        })
    } else {
        let moved = if count != 0 {
            base.wrapping_sub((4 * count) as u32)
        } else {
            base.wrapping_sub(0x40)
        };
        // Pre decrement starts at the final address, post decrement one word higher.
        (moved, if pre {
            moved
        } else {
            moved.wrapping_add(4)
        })
    }
}

/// Loading the listed registers from `i` up to `end`, in ascending order from ascending addresses.
pub open spec fn load_from(c: CpuView, b: BusView, list: u32, i: nat, end: nat, address: u32) -> (CpuView, BusView)
    decreases end - i,
{
    if i >= end {
        (c, b)
    } else if bit_of(list, i as u32) {
        let (c1, b1) = write_reg_spec(c, bus_after_read32(b, address, c), i as int, bus_peek32(b, address, c));
        load_from(c1, b1, list, i + 1, end, address.wrapping_add(4))
    } else {
        load_from(c, b, list, i + 1, end, address)
    }
}

/// Storing the listed registers from `i` up to `end`, in ascending order to ascending addresses.
pub open spec fn store_from(c: CpuView, b: BusView, list: u32, i: nat, end: nat, address: u32) -> BusView
    decreases end - i,
{
    if i >= end {
        b
    } else if bit_of(list, i as u32) {
        store_from(c, bus_write32_spec(b, address, reg_of(c, i as int)), list, i + 1, end, address.wrapping_add(4))
    } else {
        store_from(c, b, list, i + 1, end, address)
    }
}

/// The transfer of every listed register.
pub open spec fn transfer_spec(c: CpuView, b: BusView, load: bool, list: u32, address: u32) -> (CpuView, BusView) {
    if load {
        load_from(c, b, list, 0, 16, address)
    } else {
        (c, store_from(c, b, list, 0, 16, address))
    }
}

/// The register list of a block transfer: an empty list transfers R15 alone.
pub open spec fn effective_list(instruction: u32) -> u32 {
    if instruction & 0xFFFF == 0 {
        0x8000
    } else {
        instruction & 0xFFFF
    }
}

/// Whether the base register is the lowest register of the list.
pub open spec fn base_first(list: u32, rn: int) -> bool {
    popcount((list << ((15 - rn) as u32)) & 0xFFFF, 16) == 1
}

/// The base register in the list: a load disables the writeback (as on ARMv4); a store of a
/// base that is not first in the list stores the written back base, so it is written first.
/// Gives the state and whether the writeback still happens.
pub open spec fn base_in_list_spec(
    c: CpuView,
    b: BusView,
    load: bool,
    list: u32,
    rn: int,
    writeback: bool,
    moved: u32,
) -> (CpuView, BusView, bool) {
    if !bit_of(list, rn as u32) {
        (c, b, writeback)
    } else if load {
        (c, b, false)
    } else if !base_first(list, rn) {
        let (c1, b1) = write_reg_spec(c, b, rn, moved);
        (c1, b1, writeback)
    } else {
        (c, b, writeback)
    }
}

/// The processor state with its registers banked from one mode to another.
pub open spec fn cpu_swap_banks(c: CpuView, from: Mode, to: Mode) -> CpuView {
    CpuView { registers: swap_banks_spec(c.registers, from, to), ..c }
}

/// The transfer of a block with the S bit of `instruction` taken into account: a load that
/// includes R15 first moves the SPSR into the CPSR, and any other transfer with the S bit uses
/// the User mode registers.
pub open spec fn banked_transfer_spec(
    c: CpuView,
    b: BusView,
    instruction: u32,
    load: bool,
    list: u32,
    start: u32,
) -> (CpuView, BusView) {
    if !bit_of(instruction, 22) {
        transfer_spec(c, b, load, list, start)
    } else if bit_of(list, 15) && load {
        transfer_spec(write_cpsr_spec(c, c.registers.spsr), b, load, list, start)
    } else {
        let mode = c.registers.cpsr.mode;
        let (c3, b3) = transfer_spec(cpu_swap_banks(c, mode, Mode::User), b, load, list, start);
        (cpu_swap_banks(c3, Mode::User, mode), b3)
    }
}

/// A block transfer: the listed registers move from or to consecutive words, and the base
/// register is written back when the W bit asks for it.
#[verifier::opaque]
pub open spec fn block_transfer_spec(c: CpuView, b: BusView, instruction: u32, load: bool) -> (CpuView, BusView) {
    let rn = reg_field(instruction, 16);
    let count = popcount(instruction & 0xFFFF, 16) as u32;
    let (moved, start) = block_addresses(bit_of(instruction, 24), bit_of(instruction, 23), count, reg_of(c, rn));
    let list = effective_list(instruction);
    let (c1, b1, writeback) = base_in_list_spec(c, b, load, list, rn, bit_of(instruction, 21), moved);
    let (c4, b4) = banked_transfer_spec(c1, b1, instruction, load, list, start);
    if writeback {
        write_reg_spec(c4, b4, rn, moved)
    } else {
        (c4, b4)
    }
}

/// `STM`: R15 is read 12 ahead of the instruction for its duration.
pub open spec fn block_store_spec(c: CpuView, b: BusView, instruction: u32) -> (CpuView, BusView) {
    let c0 = cpu_set_reg(c, PC_REG as int, reg_of(c, PC_REG as int).wrapping_add(4));
    let (c1, b1) = block_transfer_spec(c0, b, instruction, false);
    (cpu_set_reg(c1, PC_REG as int, reg_of(c1, PC_REG as int).wrapping_sub(4)), b1)
}

impl ArmV4 {
    /// `STM`: store a list of registers.
    pub fn block_data_transfer_store(cpu: &mut CPU, instruction: ArmInstruction, bus: &mut Bus)
        requires
            old(cpu).wf(),
            old(bus).wf(),
        ensures
            final(cpu).wf(),
            final(bus).wf(),
            (final(cpu)@, final(bus)@) == block_store_spec(old(cpu)@, old(bus)@, instruction),
    {
        // For the duration of this instruction PC will be 12 ahead instead of just 8.
        let pc = cpu.read_reg(PC_REG);
        cpu.registers.write_reg(PC_REG, pc.wrapping_add(4));
        Self::block_data_transfer(cpu, instruction, bus, false);
        let pc = cpu.read_reg(PC_REG);
        cpu.registers.write_reg(PC_REG, pc.wrapping_sub(4));
    }

    /// `LDM`: load a list of registers.
    pub fn block_data_transfer_load(cpu: &mut CPU, instruction: ArmInstruction, bus: &mut Bus)
        requires
            old(cpu).wf(),
            old(bus).wf(),
        ensures
            final(cpu).wf(),
            final(bus).wf(),
            (final(cpu)@, final(bus)@) == block_transfer_spec(old(cpu)@, old(bus)@, instruction, true),
    {
        Self::block_data_transfer(cpu, instruction, bus, true);
    }

    /// A block transfer, with or without the S bit.
    fn block_data_transfer(cpu: &mut CPU, instruction: ArmInstruction, bus: &mut Bus, is_load: bool)
        requires
            old(cpu).wf(),
            old(bus).wf(),
        ensures
            final(cpu).wf(),
            final(bus).wf(),
            (final(cpu)@, final(bus)@) == block_transfer_spec(old(cpu)@, old(bus)@, instruction, is_load),
    {
        reveal(block_transfer_spec);
        let list_bits = instruction & 0xFFFF;
        let register_count = count_registers(list_bits);
        let reg_base = reg_at(instruction, 16);
        let (moved, start) = Self::calculate_addresses(
            test_bit(instruction, 24),
            test_bit(instruction, 23),
            register_count,
            cpu.read_reg(reg_base),
        );
        // An empty register list is interpreted as R15 being transferred.
        let register_list = if list_bits == 0 {
            0x8000
        } else {
            list_bits
        };
        let has_writeback = Self::base_in_list(
            cpu,
            bus,
            is_load,
            register_list,
            reg_base,
            test_bit(instruction, 21),
            moved,
        );
        Self::banked_transfer(cpu, bus, instruction, is_load, register_list, start);
        if has_writeback {
            cpu.write_reg(reg_base, moved, bus);
        }
    }

    /// Transfer the registers, with the S bit of `instruction` taken into account.
    fn banked_transfer(cpu: &mut CPU, bus: &mut Bus, instruction: ArmInstruction, is_load: bool, register_list: u32, start: u32)
        requires
            old(cpu).wf(),
            old(bus).wf(),
        ensures
            final(cpu).wf(),
            final(bus).wf(),
            (final(cpu)@, final(bus)@) == banked_transfer_spec(
                old(cpu)@,
                old(bus)@,
                instruction,
                is_load,
                register_list,
                start,
            ),
    {
        if !test_bit(instruction, 22) {
            Self::iterate_registers(cpu, bus, is_load, register_list, start);
        } else if test_bit(register_list, 15) && is_load {
            // LDM with R15 in the list and the S bit set: the mode changes.
            let spsr = cpu.registers.spsr;
            cpu.write_cpsr(spsr);
            Self::iterate_registers(cpu, bus, is_load, register_list, start);
        } else {
            // Otherwise the data is transferred with the User bank.
            let old_mode = cpu.registers.cpsr.mode();
            cpu.registers.swap_register_banks(old_mode, Mode::User);
            Self::iterate_registers(cpu, bus, is_load, register_list, start);
            cpu.registers.swap_register_banks(Mode::User, old_mode);
        }
    }

    /// Handle the base register appearing in the list; returns whether the writeback still happens.
    fn base_in_list(
        cpu: &mut CPU,
        bus: &mut Bus,
        is_load: bool,
        register_list: u32,
        reg_base: usize,
        has_writeback: bool,
        moved: u32,
    ) -> (r: bool)
        requires
            old(cpu).wf(),
            old(bus).wf(),
            reg_base < 16,
        ensures
            final(cpu).wf(),
            final(bus).wf(),
            (final(cpu)@, final(bus)@, r) == base_in_list_spec(
                old(cpu)@,
                old(bus)@,
                is_load,
                register_list,
                reg_base as int,
                has_writeback,
                moved,
            ),
    {
        if !test_bit(register_list, reg_base as u32) {
            return has_writeback;
        }
        if is_load {
            // In ARMv4 writeback gets disabled, unlike ARMv5.
            return false;
        }
        // In ARMv4 the old base is stored if it is first in the list, otherwise the new base.
        let shifted = (register_list << (15 - reg_base) as u32) & 0xFFFF;
        if count_registers(shifted) != 1 {
            cpu.write_reg(reg_base, moved, bus);
        }
        has_writeback
    }

    /// Calculate the `(writeback_address, start_address)` values for a block data transfer.
    pub fn calculate_addresses(is_preindexed: bool, is_up: bool, register_count: u32, start_address: u32) -> (r: (
        u32,
        u32,
    ))
        requires
            register_count <= 16,
        ensures
            r == block_addresses(is_preindexed, is_up, register_count, start_address),
    {
        if is_up {
            let final_address = if register_count != 0 {
                start_address.wrapping_add(4 * register_count)
            } else {
                start_address.wrapping_add(0x40)
            };
            let start = if is_preindexed {
                start_address.wrapping_add(4)
            } else {
                start_address
            };
            (final_address, start)
        } else {
            let final_address = if register_count != 0 {
                start_address.wrapping_sub(4 * register_count)
            } else {
                start_address.wrapping_sub(0x40)
            };
            let start = if is_preindexed {
                final_address
            } else {
                final_address.wrapping_add(4)
            };
            (final_address, start)
        }
    }

    /// Load or store every register of the list, in ascending order.
    fn iterate_registers(cpu: &mut CPU, bus: &mut Bus, is_load: bool, register_list: u32, start: u32)
        requires
            old(cpu).wf(),
            old(bus).wf(),
        ensures
            final(cpu).wf(),
            final(bus).wf(),
            (final(cpu)@, final(bus)@) == transfer_spec(old(cpu)@, old(bus)@, is_load, register_list, start),
    {
        let mut address = start;
        let mut i: u32 = 0;
        if is_load {
            while i < 16
                invariant
                    i <= 16,
                    cpu.wf(),
                    bus.wf(),
                    load_from(cpu@, bus@, register_list, i as nat, 16, address) == load_from(
                        old(cpu)@,
                        old(bus)@,
                        register_list,
                        0,
                        16,
                        start,
                    ),
                decreases 16 - i,
            {
                if test_bit(register_list, i) {
                    let value = bus.read_32(address, cpu);
                    cpu.write_reg(i as usize, value, bus);
                    address = address.wrapping_add(4);
                }
                i = i + 1;
            }
        } else {
            while i < 16
                invariant
                    i <= 16,
                    bus.wf(),
                    cpu.wf(),
                    cpu@ == old(cpu)@,
                    store_from(cpu@, bus@, register_list, i as nat, 16, address) == store_from(
                        old(cpu)@,
                        old(bus)@,
                        register_list,
                        0,
                        16,
                        start,
                    ),
                decreases 16 - i,
            {
                if test_bit(register_list, i) {
                    let value = cpu.read_reg(i as usize);
                    bus.write_32(address, value);
                    address = address.wrapping_add(4);
                }
                i = i + 1;
            }
        }
    }
}

/// The four addressing modes of a block transfer of `count` registers (1 to 16) from `base`,
/// modulo 2^32: increment after starts at the base, increment before one word above it,
/// decrement before `count` words below it and decrement after one word higher than that;
/// the written back base moves by `count` words up or down. The `count` words transferred
/// therefore end just below `base + 4` going up (before) or at `base` going down (after). An
/// empty list moves the base by 0x40.
pub proof fn lemma_block_addresses(pre: bool, up: bool, count: u32, base: u32)
    requires
        count <= 16,
    ensures
        ({
            let (moved, start) = block_addresses(pre, up, count, base);
            let m: int = 0x1_0000_0000;
            &&& count != 0 && up ==> moved as int == (base + 4 * count) % m
            &&& count != 0 && !up ==> moved as int == (base - 4 * count) % m
            &&& count == 0 && up ==> moved as int == (base + 0x40) % m
            &&& count == 0 && !up ==> moved as int == (base - 0x40) % m
            &&& up && pre ==> start as int == (base + 4) % m
            &&& up && !pre ==> start == base
            &&& count != 0 && !up && pre ==> start as int == (base - 4 * count) % m
            &&& count != 0 && !up && !pre ==> start as int == (base - 4 * count + 4) % m
        }),
{
    let m: int = 0x1_0000_0000;
    let k = (4 * count) as u32;
    crate::emulator::cpu::arm::data_processing::lemma_wrap_add(base, k);
    crate::emulator::cpu::arm::data_processing::lemma_wrap_add(base, 0x40);
    crate::emulator::cpu::arm::data_processing::lemma_wrap_add(base, 4);
    crate::emulator::cpu::arm::data_processing::lemma_wrap_sub(base, k);
    crate::emulator::cpu::arm::data_processing::lemma_wrap_sub(base, 0x40);
    let moved = base.wrapping_sub(k);
    crate::emulator::cpu::arm::data_processing::lemma_wrap_add(moved, 4);
    vstd::arithmetic::div_mod::lemma_add_mod_noop(base - k, 4, m);
    vstd::arithmetic::div_mod::lemma_small_mod(4, m as nat);
    vstd::arithmetic::div_mod::lemma_mod_twice(base - k, m);
}

} // verus!
