//! THUMB formats 14 and 15: push/pop and the multiple loads and stores.

use crate::emulator::bus::{bus_after_read32, bus_peek32, bus_write32_spec, Bus, BusView};
use crate::emulator::cpu::arm::block_data_transfer::popcount;
use crate::emulator::cpu::arm::data_processing::{lemma_wrap_add, lemma_wrap_sub};
use crate::emulator::cpu::registers::{LINK_REG, PC_REG, SP_REG};
use crate::emulator::cpu::thumb::{ibit, low_reg_at, low_reg_field, test_ibit, ThumbInstruction, ThumbV4};
use crate::emulator::cpu::{bit_of, reg_of, test_bit, write_reg_spec, CpuView, CPU};
use vstd::prelude::*;

verus! {

/// Loading the listed low registers from `i` up to R7 from consecutive words at `address`
/// (word aligned first when `aligned`); gives the state and the address after the last word.
pub open spec fn load_words(c: CpuView, b: BusView, list: u32, i: nat, address: u32, aligned: bool) -> (
    CpuView,
    BusView,
    u32,
)
    decreases 8 - i,
{
    if i >= 8 {
        (c, b, address)
    } else if bit_of(list, i as u32) {
        let a = if aligned {
            address & 0xFFFF_FFFC
        } else {
            address
        };
        let (c1, b1) = write_reg_spec(c, bus_after_read32(b, a, c), i as int, bus_peek32(b, a, c));
        load_words(c1, b1, list, i + 1, address.wrapping_add(4), aligned)
    } else {
        load_words(c, b, list, i + 1, address, aligned)
    }
}

/// Storing the listed low registers from `i` up to R7 to consecutive words at `address`;
/// gives the bus and the address after the last word.
pub open spec fn store_words(c: CpuView, b: BusView, list: u32, i: nat, address: u32) -> (BusView, u32)
    decreases 8 - i,
{
    if i >= 8 {
        (b, address)
    } else if bit_of(list, i as u32) {
        store_words(c, bus_write32_spec(b, address, reg_of(c, i as int)), list, i + 1, address.wrapping_add(4))
    } else {
        store_words(c, b, list, i + 1, address)
    }
}

/// Pushing the listed low registers below `n`, highest first, each to the word aligned
/// address below the stack pointer; gives the bus and the new stack pointer.
pub open spec fn push_below(c: CpuView, b: BusView, list: u32, n: nat, sp: u32) -> (BusView, u32)
    decreases n,
{
    if n == 0 {
        (b, sp)
    } else if bit_of(list, (n - 1) as u32) {
        let s = sp.wrapping_sub(4);
        push_below(c, bus_write32_spec(b, s & 0xFFFF_FFFC, reg_of(c, n - 1)), list, (n - 1) as nat, s)
    } else {
        push_below(c, b, list, (n - 1) as nat, sp)
    }
}

/// Format 14: `POP` loads the listed registers (and with bit 8 then the program counter)
/// upwards from the stack pointer; `PUSH` stores the link register (with bit 8) and then the
/// listed registers downwards. The stack pointer is written last.
pub open spec fn push_pop_spec(c: CpuView, b: BusView, instruction: u16) -> (CpuView, BusView) {
    let list = (instruction as u32) & 0xFF;
    let with_pc_lr = ibit(instruction, 8);
    let sp = reg_of(c, SP_REG as int);
    if ibit(instruction, 11) {
        let (c1, b1, sp1) = load_words(c, b, list, 0, sp, true);
        let a = sp1 & 0xFFFF_FFFC;
        let (c2, b2, sp2) = if with_pc_lr {
            let (c2, b2) = write_reg_spec(c1, bus_after_read32(b1, a, c1), PC_REG as int, bus_peek32(b1, a, c1));
            (c2, b2, sp1.wrapping_add(4))
        } else {
            (c1, b1, sp1)
        };
        write_reg_spec(c2, b2, SP_REG as int, sp2)
    } else {
        let (b1, sp1) = if with_pc_lr {
            let s = sp.wrapping_sub(4);
            (bus_write32_spec(b, s & 0xFFFF_FFFC, reg_of(c, LINK_REG as int)), s)
        } else {
            (b, sp)
        };
        let (b2, sp2) = push_below(c, b1, list, 8, sp1);
        write_reg_spec(c, b2, SP_REG as int, sp2)
    }
}

/// Format 15, `STMIA`: the listed registers go to consecutive words from the base, which is
/// then written back. An empty list stores the program counter (two further ahead) and moves
/// the base by 0x40. A base in the list that is not its lowest register is stored with its
/// written back value.
pub open spec fn multiple_store_spec(c: CpuView, b: BusView, instruction: u16) -> (CpuView, BusView) {
    let rb = low_reg_field(instruction, 8);
    let list = (instruction as u32) & 0xFF;
    let base = reg_of(c, rb);
    if list == 0 {
        let b1 = bus_write32_spec(b, base, reg_of(c, PC_REG as int).wrapping_add(2));
        write_reg_spec(c, b1, rb, base.wrapping_add(0x40))
    } else {
        let (c1, b1) = if bit_of(list, rb as u32) && popcount((list << ((7 - rb) as u32)) & 0xFF, 8) != 1 {
            write_reg_spec(c, b, rb, base.wrapping_add((4 * popcount(list, 8)) as u32))
        } else {
            (c, b)
        };
        let (b2, end) = store_words(c1, b1, list, 0, base);
        write_reg_spec(c1, b2, rb, end)
    }
}

/// Format 15, `LDMIA`: the listed registers are loaded from consecutive words from the base,
/// which is written back unless it is in the list. An empty list loads the program counter
/// and moves the base by 0x40.
pub open spec fn multiple_load_spec(c: CpuView, b: BusView, instruction: u16) -> (CpuView, BusView) {
    let rb = low_reg_field(instruction, 8);
    let list = (instruction as u32) & 0xFF;
    let base = reg_of(c, rb);
    if list == 0 {
        let (c1, b1) = write_reg_spec(c, bus_after_read32(b, base, c), PC_REG as int, bus_peek32(b, base, c));
        write_reg_spec(c1, b1, rb, base.wrapping_add(0x40))
    } else {
        let (c1, b1, end) = load_words(c, b, list, 0, base, false);
        if !bit_of(list, rb as u32) {
            write_reg_spec(c1, b1, rb, end)
        } else {
            (c1, b1)
        }
    }
}

/// Count the set bits among the low eight bits of `list`.
pub fn count_low_registers(list: u32) -> (r: u32)
    ensures
        r == popcount(list, 8),
        r <= 8,
{
    let mut count: u32 = 0;
    let mut i: u32 = 0;
    while i < 8
        invariant
            i <= 8,
            count == popcount(list, i as nat),
            count <= i,
        decreases 8 - i,
    {
        if test_bit(list, i) {
            count = count + 1;
        }
        i = i + 1;
    }
    count
}

impl ThumbV4 {
    /// Load the listed low registers from consecutive words; returns the address after the last.
    fn load_list(cpu: &mut CPU, bus: &mut Bus, register_list: u32, start: u32, aligned: bool) -> (r: u32)
        requires
            old(cpu).wf(),
            old(bus).wf(),
        ensures
            final(cpu).wf(),
            final(bus).wf(),
            (final(cpu)@, final(bus)@, r) == load_words(old(cpu)@, old(bus)@, register_list, 0, start, aligned),
    {
        let mut address = start;
        let mut i: u32 = 0;
        while i < 8
            invariant
                i <= 8,
                cpu.wf(),
                bus.wf(),
                load_words(cpu@, bus@, register_list, i as nat, address, aligned) == load_words(
                    old(cpu)@,
                    old(bus)@,
                    register_list,
                    0,
                    start,
                    aligned,
                ),
            decreases 8 - i,
        {
            if test_bit(register_list, i) {
                let a = if aligned {
                    address & 0xFFFF_FFFC
                } else {
                    address
                };
                let value = bus.read_32(a, cpu);
                address = address.wrapping_add(4);
                cpu.write_reg(i as usize, value, bus);
            }
            i = i + 1;
        }
        address
    }

    /// Store the listed low registers to consecutive words; returns the address after the last.
    fn store_list(cpu: &CPU, bus: &mut Bus, register_list: u32, start: u32) -> (r: u32)
        requires
            cpu.wf(),
            old(bus).wf(),
        ensures
            final(bus).wf(),
            (final(bus)@, r) == store_words(cpu@, old(bus)@, register_list, 0, start),
    {
        let mut address = start;
        let mut i: u32 = 0;
        while i < 8
            invariant
                i <= 8,
                cpu.wf(),
                bus.wf(),
                store_words(cpu@, bus@, register_list, i as nat, address) == store_words(
                    cpu@,
                    old(bus)@,
                    register_list,
                    0,
                    start,
                ),
            decreases 8 - i,
        {
            if test_bit(register_list, i) {
                let reg_value = cpu.read_reg(i as usize);
                bus.write_32(address, reg_value);
                address = address.wrapping_add(4);
            }
            i = i + 1;
        }
        address
    }

    /// Format 14: push or pop registers.
    pub fn push_pop_registers(cpu: &mut CPU, instruction: ThumbInstruction, bus: &mut Bus)
        requires
            old(cpu).wf(),
            old(bus).wf(),
        ensures
            final(cpu).wf(),
            final(bus).wf(),
            (final(cpu)@, final(bus)@) == push_pop_spec(old(cpu)@, old(bus)@, instruction),
    {
        let is_pop = test_ibit(instruction, 11);
        let store_lr_load_pc = test_ibit(instruction, 8);
        let register_list = (instruction as u32) & 0xFF;
        let mut sp = cpu.read_reg(SP_REG);
        if is_pop {
            sp = Self::load_list(cpu, bus, register_list, sp, true);
            if store_lr_load_pc {
                let value = bus.read_32(sp & 0xFFFF_FFFC, cpu);
                cpu.write_reg(PC_REG, value, bus);
                sp = sp.wrapping_add(4);
            }
        } else {
            if store_lr_load_pc {
                sp = sp.wrapping_sub(4);
                bus.write_32(sp & 0xFFFF_FFFC, cpu.read_reg(LINK_REG));
            }
            let ghost sp1 = sp;
            let ghost b1 = bus@;
            let mut i: u32 = 8;
            while i > 0
                invariant
                    i <= 8,
                    cpu.wf(),
                    bus.wf(),
                    cpu@ == old(cpu)@,
                    push_below(cpu@, bus@, register_list, i as nat, sp) == push_below(
                        old(cpu)@,
                        b1,
                        register_list,
                        8,
                        sp1,
                    ),
                decreases i,
            {
                i = i - 1;
                if test_bit(register_list, i) {
                    let reg_value = cpu.read_reg(i as usize);
                    sp = sp.wrapping_sub(4);
                    bus.write_32(sp & 0xFFFF_FFFC, reg_value);
                }
            }
        }
        cpu.write_reg(SP_REG, sp, bus);
    }

    /// Format 15: store multiple registers, incrementing the base.
    pub fn multiple_store(cpu: &mut CPU, instruction: ThumbInstruction, bus: &mut Bus)
        requires
            old(cpu).wf(),
            old(bus).wf(),
        ensures
            final(cpu).wf(),
            final(bus).wf(),
            (final(cpu)@, final(bus)@) == multiple_store_spec(old(cpu)@, old(bus)@, instruction),
    {
        let r_base = low_reg_at(instruction, 8);
        let register_list = (instruction as u32) & 0xFF;
        let base_address = cpu.read_reg(r_base);
        if register_list == 0 {
            // The program counter is 2 further ahead than usual in this edge case; an empty
            // list transfers it and moves the base by 0x40.
            let reg_value = cpu.read_reg(PC_REG).wrapping_add(2);
            bus.write_32(base_address, reg_value);
            cpu.write_reg(r_base, base_address.wrapping_add(0x40), bus);
            return;
        }
        // In ARMv4 the old base is stored if it is first in the list, otherwise the new base.
        if test_bit(register_list, r_base as u32) {
            let shifted = (register_list << (7 - r_base) as u32) & 0xFF;
            if count_low_registers(shifted) != 1 {
                let final_address = base_address.wrapping_add(4 * count_low_registers(register_list));
                cpu.write_reg(r_base, final_address, bus);
            }
        }
        let end = Self::store_list(cpu, bus, register_list, base_address);
        cpu.write_reg(r_base, end, bus);
    }

    /// Format 15: load multiple registers, incrementing the base.
    pub fn multiple_load(cpu: &mut CPU, instruction: ThumbInstruction, bus: &mut Bus)
        requires
            old(cpu).wf(),
            old(bus).wf(),
        ensures
            final(cpu).wf(),
            final(bus).wf(),
            (final(cpu)@, final(bus)@) == multiple_load_spec(old(cpu)@, old(bus)@, instruction),
    {
        let r_base = low_reg_at(instruction, 8);
        let register_list = (instruction as u32) & 0xFF;
        let base_address = cpu.read_reg(r_base);
        if register_list == 0 {
            // An empty list loads the program counter and moves the base by 0x40.
            let value = bus.read_32(base_address, cpu);
            cpu.write_reg(PC_REG, value, bus);
            cpu.write_reg(r_base, base_address.wrapping_add(0x40), bus);
            return;
        }
        let end = Self::load_list(cpu, bus, register_list, base_address, false);
        // With the base in the list the writeback is disabled.
        if !test_bit(register_list, r_base as u32) {
            cpu.write_reg(r_base, end, bus);
        }
    }
}

/// `(x mod 2^32) + y` and `x + y` agree modulo 2^32.
proof fn lemma_mod_shift(x: int, y: int)
    ensures
        (x % 0x1_0000_0000 + y) % 0x1_0000_0000 == (x + y) % 0x1_0000_0000,
{
    let m: int = 0x1_0000_0000;
    vstd::arithmetic::div_mod::lemma_add_mod_noop(x, y, m);
    vstd::arithmetic::div_mod::lemma_add_mod_noop(x % m, y, m);
    vstd::arithmetic::div_mod::lemma_mod_twice(x, m);
}

/// Loading the listed registers from `i` on moves the address by one word per listed register.
proof fn lemma_load_words_end(c: CpuView, b: BusView, list: u32, i: nat, address: u32, aligned: bool)
    requires
        i <= 8,
        c.registers.general_purpose.len() == 16,
    ensures
        load_words(c, b, list, i, address, aligned).0.registers.general_purpose.len() == 16,
        load_words(c, b, list, i, address, aligned).2 as int == (address + 4 * (popcount(list, 8) - popcount(
            list,
            i,
        ))) % 0x1_0000_0000,
    decreases 8 - i,
{
    let m: int = 0x1_0000_0000;
    if i >= 8 {
        vstd::arithmetic::div_mod::lemma_small_mod(address as nat, m as nat);
    } else {
        assert(popcount(list, i + 1) == popcount(list, i) + if bit_of(list, i as u32) {
            1nat
        } else {
            0nat
        });
        if bit_of(list, i as u32) {
            let (c1, b1) = write_reg_spec(c, bus_after_read32(b, if aligned { address & 0xFFFF_FFFC } else { address }, c), i as int, bus_peek32(b, if aligned { address & 0xFFFF_FFFC } else { address }, c));
            lemma_load_words_end(c1, b1, list, i + 1, address.wrapping_add(4), aligned);
            lemma_wrap_add(address, 4);
            lemma_mod_shift(address + 4, 4 * (popcount(list, 8) - popcount(list, i + 1)));
        } else {
            lemma_load_words_end(c, b, list, i + 1, address, aligned);
        }
    }
}

/// Pushing the listed registers below `n` moves the stack pointer down one word per register.
proof fn lemma_push_below_end(c: CpuView, b: BusView, list: u32, n: nat, sp: u32)
    ensures
        push_below(c, b, list, n, sp).1 as int == (sp - 4 * popcount(list, n)) % 0x1_0000_0000,
    decreases n,
{
    let m: int = 0x1_0000_0000;
    if n == 0 {
        vstd::arithmetic::div_mod::lemma_small_mod(sp as nat, m as nat);
    } else if bit_of(list, (n - 1) as u32) {
        let s = sp.wrapping_sub(4);
        lemma_push_below_end(c, bus_write32_spec(b, s & 0xFFFF_FFFC, reg_of(c, n - 1)), list, (n - 1) as nat, s);
        lemma_wrap_sub(sp, 4);
        lemma_mod_shift(sp - 4, -4 * popcount(list, (n - 1) as nat));
    } else {
        lemma_push_below_end(c, b, list, (n - 1) as nat, sp);
    }
}

/// `PUSH` moves the stack pointer down and `POP` up by one word per register moved: each
/// listed register, and the link register (push) or program counter (pop) with bit 8.
pub proof fn lemma_push_pop_stack_pointer(c: CpuView, b: BusView, instruction: u16)
    requires
        c.registers.general_purpose.len() == 16,
    ensures
        ({
            let list = (instruction as u32) & 0xFF;
            let words = popcount(list, 8) + if ibit(instruction, 8) {
                1int
            } else {
                0int
            };
            let sp = reg_of(c, SP_REG as int);
            let sp1 = reg_of(push_pop_spec(c, b, instruction).0, SP_REG as int);
            &&& ibit(instruction, 11) ==> sp1 as int == (sp + 4 * words) % 0x1_0000_0000
            &&& !ibit(instruction, 11) ==> sp1 as int == (sp - 4 * words) % 0x1_0000_0000
        }),
{
    let m: int = 0x1_0000_0000;
    let list = (instruction as u32) & 0xFF;
    let sp = reg_of(c, SP_REG as int);
    assert(popcount(list, 0) == 0);
    lemma_load_words_end(c, b, list, 0, sp, true);
    let (c1, b1, e) = load_words(c, b, list, 0, sp, true);
    lemma_wrap_add(e, 4);
    lemma_mod_shift(sp + 4 * popcount(list, 8), 4);
    if ibit(instruction, 8) {
        let a = e & 0xFFFF_FFFC;
        let (c2, b2) = write_reg_spec(c1, bus_after_read32(b1, a, c1), PC_REG as int, bus_peek32(b1, a, c1));
        assert(c2.registers.general_purpose.len() == 16);
    }
    let s = sp.wrapping_sub(4);
    lemma_wrap_sub(sp, 4);
    if ibit(instruction, 8) {
        let b0 = bus_write32_spec(b, s & 0xFFFF_FFFC, reg_of(c, LINK_REG as int));
        lemma_push_below_end(c, b0, list, 8, s);
        lemma_mod_shift(sp - 4, -4 * popcount(list, 8));
    } else {
        lemma_push_below_end(c, b, list, 8, sp);
    }
}

} // verus!
