//! The ARM7TDMI processor.

pub mod arm;
pub mod common;
pub mod execution;
pub mod lut;
pub mod registers;
pub mod thumb;

use crate::emulator::cpu::lut::{ArmHandler, ThumbHandler};
use crate::emulator::cpu::registers::{PsrView, RegistersView, Registers};
use vstd::prelude::*;

verus! {

/// The abstract state of the processor.
pub struct CpuView {
    pub registers: RegistersView,
    pub pipeline: Seq<u32>,
    pub arm_lut: Seq<ArmHandler>,
    pub thumb_lut: Seq<ThumbHandler>,
}

/// The processor: its registers, the three stage instruction pipeline and the decoding
/// tables of both instruction sets.
pub struct CPU {
    pub registers: Registers,
    /// GBA has a pipeline of execute-decode-fetch.
    pub pipeline: [u32; 3],
    pub arm_lut: Vec<ArmHandler>,
    pub thumb_lut: Vec<ThumbHandler>,
}

impl View for CPU {
    type V = CpuView;

    open spec fn view(&self) -> CpuView {
        CpuView {
            registers: self.registers@,
            pipeline: self.pipeline@,
            arm_lut: self.arm_lut@,
            thumb_lut: self.thumb_lut@,
        }
    }
}

/// The status register with the zero and sign flags set from `value`.
pub open spec fn with_zero_sign(p: PsrView, value: u32) -> PsrView {
    PsrView { zero: value == 0, sign: bit_of(value, 31), ..p }
}

/// The status register with the zero and sign flags set from `value` and the carry flag set to `carry`.
pub open spec fn with_logical_flags(p: PsrView, value: u32, carry: bool) -> PsrView {
    PsrView { carry, ..with_zero_sign(p, value) }
}

/// The status register with all four condition flags set.
pub open spec fn with_arithmetic_flags(p: PsrView, value: u32, carry: bool, overflow: bool) -> PsrView {
    PsrView { overflow, ..with_logical_flags(p, value, carry) }
}

/// The processor state with another current program status register.
pub open spec fn cpu_with_cpsr(c: CpuView, p: PsrView) -> CpuView {
    CpuView { registers: RegistersView { cpsr: p, ..c.registers }, ..c }
}

/// Whether bit `n` of `value` is set.
pub open spec fn bit_of(value: u32, n: u32) -> bool {
    (value >> n) & 1 == 1
}

/// Whether bit `n` of `value` is set.
pub fn test_bit(value: u32, n: u32) -> (r: bool)
    requires
        n < 32,
    ensures
        r == bit_of(value, n),
{
    (value >> n) & 1 == 1
}

impl CPU {
    /// Set the zero and sign flags from `value`.
    pub fn set_zero_and_sign(&mut self, value: u32)
        ensures
            final(self)@ == cpu_with_cpsr(old(self)@, with_zero_sign(old(self)@.registers.cpsr, value)),
    {
        self.registers.cpsr.set_zero(value == 0);
        self.registers.cpsr.set_sign(test_bit(value, 31));
    }

    /// Set the flags of a logical operation: zero and sign from `value`, carry from the barrel shifter.
    pub fn set_logical_flags(&mut self, value: u32, carry: bool)
        ensures
            final(self)@ == cpu_with_cpsr(
                old(self)@,
                with_logical_flags(old(self)@.registers.cpsr, value, carry),
            ),
    {
        self.set_zero_and_sign(value);
        self.registers.cpsr.set_carry(carry);
    }

    /// Set the flags of an arithmetic operation.
    pub fn set_arithmetic_flags(&mut self, value: u32, carry: bool, overflow: bool)
        ensures
            final(self)@ == cpu_with_cpsr(
                old(self)@,
                with_arithmetic_flags(old(self)@.registers.cpsr, value, carry, overflow),
            ),
    {
        self.set_logical_flags(value, carry);
        self.registers.cpsr.set_overflow(overflow);
    }
}

} // verus!

verus! {

use crate::emulator::bus::{bus_after_read16, bus_after_read32, bus_peek16, bus_peek32, Bus, BusView};
use crate::emulator::cpu::lut::{arm_lut_entry, thumb_lut_entry, ARM_LUT_SIZE, THUMB_LUT_SIZE};
use crate::emulator::cpu::registers::{instruction_size, registers_view_wf, swap_banks_spec, Mode, State, LINK_REG, PC_REG, PSR};

/// The processor invariant: register files of the hardware's size, a three stage pipeline
/// and the decoding tables.
pub open spec fn cpu_view_wf(c: CpuView) -> bool {
    &&& registers_view_wf(c.registers)
    &&& c.pipeline.len() == 3
    &&& c.arm_lut.len() == ARM_LUT_SIZE
    &&& c.thumb_lut.len() == THUMB_LUT_SIZE
    &&& forall|i: int| 0 <= i < ARM_LUT_SIZE ==> #[trigger] c.arm_lut[i] == arm_lut_entry(i as usize)
    &&& forall|i: int| 0 <= i < THUMB_LUT_SIZE ==> #[trigger] c.thumb_lut[i] == thumb_lut_entry(i as usize)
}

/// The value of register `reg`.
pub open spec fn reg_of(c: CpuView, reg: int) -> u32 {
    c.registers.general_purpose[reg]
}

/// The instruction set the processor is in.
pub open spec fn state_of(c: CpuView) -> State {
    c.registers.cpsr.state
}

/// The processor state with register `reg` set to `v`, without any pipeline effect.
pub open spec fn cpu_set_reg(c: CpuView, reg: int, v: u32) -> CpuView {
    CpuView {
        registers: RegistersView { general_purpose: c.registers.general_purpose.update(reg, v), ..c.registers },
        ..c
    }
}

/// The processor state with pipeline stage `i` set to `v`.
pub open spec fn cpu_set_pipeline(c: CpuView, i: int, v: u32) -> CpuView {
    CpuView { pipeline: c.pipeline.update(i, v), ..c }
}

/// The processor state with the program counter advanced by one instruction.
pub open spec fn cpu_advance_pc(c: CpuView) -> CpuView {
    cpu_set_reg(c, PC_REG as int, reg_of(c, PC_REG as int).wrapping_add(instruction_size(state_of(c))))
}

/// The processor state with another saved program status register.
pub open spec fn cpu_with_spsr(c: CpuView, p: PsrView) -> CpuView {
    CpuView { registers: RegistersView { spsr: p, ..c.registers }, ..c }
}

/// The instruction fetched at the program counter, and the bus after the fetch.
pub open spec fn fetch_spec(b: BusView, c: CpuView) -> (u32, BusView) {
    let pc = reg_of(c, PC_REG as int);
    match state_of(c) {
        State::Arm => (bus_peek32(b, pc, c), bus_after_read32(b, pc, c)),
        State::Thumb => (bus_peek16(b, pc, c) as u32, bus_after_read16(b, pc, c)),
    }
}

/// Flushing the pipeline: the executing stage is emptied, the decode stage refetched at the
/// program counter, which then advances by one instruction, and the fetch stage refetched.
pub open spec fn flush_spec(c: CpuView, b: BusView) -> (CpuView, BusView) {
    let c0 = cpu_set_pipeline(c, 0, 0);
    let (v1, b1) = fetch_spec(b, c0);
    let c1 = cpu_advance_pc(cpu_set_pipeline(c0, 1, v1));
    let (v2, b2) = fetch_spec(b1, c1);
    (cpu_set_pipeline(c1, 2, v2), b2)
}

/// Advancing the pipeline by one stage and prefetching the next instruction.
pub open spec fn advance_pipeline_spec(c: CpuView, b: BusView) -> (CpuView, BusView) {
    let c0 = cpu_set_pipeline(cpu_set_pipeline(c, 0, c.pipeline[1]), 1, c.pipeline[2]);
    let c1 = cpu_advance_pc(c0);
    let (v, b1) = fetch_spec(b, c1);
    (cpu_set_pipeline(c1, 2, v), b1)
}

/// The alignment mask of the program counter in each state.
pub open spec fn pc_align_mask(s: State) -> u32 {
    match s {
        State::Arm => 0xFFFF_FFFC,
        State::Thumb => 0xFFFF_FFFE,
    }
}

/// Writing a general purpose register. A write to the program counter is aligned to the
/// instruction size and flushes the pipeline.
pub open spec fn write_reg_spec(c: CpuView, b: BusView, reg: int, v: u32) -> (CpuView, BusView) {
    if reg != PC_REG {
        (cpu_set_reg(c, reg, v), b)
    } else {
        flush_spec(cpu_set_reg(c, PC_REG as int, v & pc_align_mask(state_of(c))), b)
    }
}

/// Switching the processor mode: the registers are banked and the mode bits updated.
pub open spec fn switch_mode_spec(c: CpuView, new_mode: Mode) -> CpuView {
    let old_mode = c.registers.cpsr.mode;
    if old_mode == new_mode {
        c
    } else {
        let r = swap_banks_spec(c.registers, old_mode, new_mode);
        CpuView { registers: RegistersView { cpsr: PsrView { mode: new_mode, ..r.cpsr }, ..r }, ..c }
    }
}

/// Writing the whole current program status register: the registers of the new mode are
/// banked in, then the register takes the new value.
pub open spec fn write_cpsr_spec(c: CpuView, p: PsrView) -> CpuView {
    let r = swap_banks_spec(c.registers, c.registers.cpsr.mode, p.mode);
    CpuView { registers: RegistersView { cpsr: p, ..r }, ..c }
}

/// The exceptions of the ARM7TDMI.
#[derive(Debug, Copy, Clone, PartialEq, Eq, Structural)]
pub enum Exception {
    SoftwareInterrupt,
    UndefinedInstruction,
    /// Unused in GBA
    PrefetchAbort,
    /// Unused in GBA, only IRQ is used
    FastInterrupt,
    Interrupt,
    /// Unused in GBA
    DataAbort,
    Reset,
}

/// Address of the software interrupt vector.
pub const SOFTWARE_INTERRUPT_ADDR: u32 = 0x0000_0008;

/// Address of the interrupt vector.
pub const IRQ_ADDR: u32 = 0x0000_0018;

/// How far the link register points back from the program counter when an exception is taken.
pub open spec fn exception_pc_offset(e: Exception, s: State) -> u32 {
    match (e, s) {
        (Exception::Interrupt, State::Thumb) => 0,
        (Exception::SoftwareInterrupt, State::Thumb) => 2,
        _ => 4,
    }
}

/// Taking a software interrupt or an interrupt: the processor switches to ARM state and to
/// Supervisor or IRQ mode, saves the return address in the link register, jumps to the
/// vector with interrupts disabled and keeps the old status register in the SPSR.
pub open spec fn raise_exception_spec(c: CpuView, b: BusView, e: Exception) -> (CpuView, BusView) {
    let link = reg_of(c, PC_REG as int).wrapping_sub(exception_pc_offset(e, state_of(c)));
    let (jump, mode) = if e == Exception::SoftwareInterrupt {
        (SOFTWARE_INTERRUPT_ADDR, Mode::Supervisor)
    } else {
        (IRQ_ADDR, Mode::IRQ)
    };
    let old_cpsr = c.registers.cpsr;
    let c1 = cpu_with_cpsr(c, PsrView { state: State::Arm, ..c.registers.cpsr });
    let c2 = switch_mode_spec(c1, mode);
    let (c3, b3) = write_reg_spec(c2, b, LINK_REG as int, link);
    let (c4, b4) = write_reg_spec(c3, b3, PC_REG as int, jump);
    let c5 = cpu_with_cpsr(c4, PsrView { irq_disable: true, ..c4.registers.cpsr });
    (cpu_with_spsr(c5, old_cpsr), b4)
}

impl CPU {
    /// The processor invariant.
    pub open spec fn wf(&self) -> bool {
        cpu_view_wf(self@)
    }

    /// Read from a general purpose register.
    pub fn read_reg(&self, reg: usize) -> (r: u32)
        requires
            self.wf(),
            reg < 16,
        ensures
            r == reg_of(self@, reg as int),
    {
        self.registers.read_reg(reg)
    }

    /// The instruction set the processor is in.
    pub fn state(&self) -> (r: State)
        ensures
            r == state_of(self@),
    {
        self.registers.cpsr.state()
    }

    /// Fetch the instruction at the program counter.
    fn fetch(&self, bus: &mut Bus) -> (r: u32)
        requires
            self.wf(),
            old(bus).wf(),
        ensures
            final(bus).wf(),
            (r, final(bus)@) == fetch_spec(old(bus)@, self@),
    {
        let pc = self.registers.pc();
        match self.state() {
            State::Arm => bus.read_32(pc, self),
            State::Thumb => bus.read_16(pc, self) as u32,
        }
    }

    /// Clear the entire pipeline, and partly refill it afterwards.
    ///
    /// This is a partial refill to account for immediately incrementing the PC when the next
    /// instruction is executed.
    pub fn flush_pipeline(&mut self, bus: &mut Bus)
        requires
            old(self).wf(),
            old(bus).wf(),
        ensures
            final(self).wf(),
            final(bus).wf(),
            (final(self)@, final(bus)@) == flush_spec(old(self)@, old(bus)@),
    {
        self.pipeline[0] = 0;
        let v1 = self.fetch(bus);
        self.pipeline[1] = v1;
        self.registers.advance_pc();
        let v2 = self.fetch(bus);
        self.pipeline[2] = v2;
        assert(self@ =~= flush_spec(old(self)@, old(bus)@).0);
    }

    /// Advance the pipeline one stage and prefetch the next instruction.
    pub fn advance_pipeline(&mut self, bus: &mut Bus)
        requires
            old(self).wf(),
            old(bus).wf(),
        ensures
            final(self).wf(),
            final(bus).wf(),
            (final(self)@, final(bus)@) == advance_pipeline_spec(old(self)@, old(bus)@),
    {
        self.pipeline[0] = self.pipeline[1];
        self.pipeline[1] = self.pipeline[2];
        // Advance the PC depending on state
        self.registers.advance_pc();
        // Prefetch the next instruction
        let v = self.fetch(bus);
        self.pipeline[2] = v;
        assert(self@ =~= advance_pipeline_spec(old(self)@, old(bus)@).0);
    }

    /// Write to a general purpose register.
    ///
    /// Upon writes to PC the lower bits are cleared to align it and the pipeline is flushed.
    pub fn write_reg(&mut self, reg: usize, value: u32, bus: &mut Bus)
        requires
            old(self).wf(),
            old(bus).wf(),
            reg < 16,
        ensures
            final(self).wf(),
            final(bus).wf(),
            (final(self)@, final(bus)@) == write_reg_spec(old(self)@, old(bus)@, reg as int, value),
    {
        if reg != PC_REG {
            self.registers.write_reg(reg, value);
        } else {
            let to_write = match self.state() {
                State::Arm => value & 0xFFFF_FFFC,
                State::Thumb => value & 0xFFFF_FFFE,
            };
            self.registers.write_reg(PC_REG, to_write);
            self.flush_pipeline(bus);
        }
    }

    /// Switches between ARM and Thumb mode.
    pub fn switch_state(&mut self, new_state: State, _bus: &mut Bus)
        ensures
            final(self)@ == cpu_with_cpsr(old(self)@, PsrView { state: new_state, ..old(self)@.registers.cpsr }),
            final(_bus)@ == old(_bus)@,
    {
        if self.state() != new_state {
            self.registers.cpsr.set_state(new_state);
        }
    }

    /// Switch the processor mode, banking the registers of the old mode and loading those of
    /// the new one.
    pub fn switch_mode(&mut self, new_mode: Mode, _bus: &mut Bus)
        requires
            old(self).wf(),
        ensures
            final(self).wf(),
            final(self)@ == switch_mode_spec(old(self)@, new_mode),
            final(_bus)@ == old(_bus)@,
    {
        let old_mode = self.registers.cpsr.mode();
        // Try to swap, if we're already in the same mode this'll fail.
        if !self.registers.swap_register_banks(old_mode, new_mode) {
            return;
        }
        self.registers.cpsr.set_mode(new_mode);
    }

    /// Write the whole current program status register, banking the registers when the mode changes.
    pub fn write_cpsr(&mut self, value: PSR)
        requires
            old(self).wf(),
        ensures
            final(self).wf(),
            final(self)@ == write_cpsr_spec(old(self)@, value@),
    {
        let old_mode = self.registers.cpsr.mode();
        self.registers.swap_register_banks(old_mode, value.mode());
        self.registers.cpsr = value;
    }

    /// Take a software interrupt or an interrupt.
    #[verifier::rlimit(40)]
    #[verifier::spinoff_prover]
    pub fn raise_exception(&mut self, bus: &mut Bus, exception: Exception)
        requires
            old(self).wf(),
            old(bus).wf(),
            exception == Exception::SoftwareInterrupt || exception == Exception::Interrupt,
        ensures
            final(self).wf(),
            final(bus).wf(),
            (final(self)@, final(bus)@) == raise_exception_spec(old(self)@, old(bus)@, exception),
    {
        let (pipeline_subtraction, jump_addr, new_mode) = match exception {
            Exception::SoftwareInterrupt => {
                let sub: u32 = match self.state() {
                    State::Arm => 4,
                    State::Thumb => 2,
                };
                (sub, SOFTWARE_INTERRUPT_ADDR, Mode::Supervisor)
            },
            _ => {
                // Users return to the interrupted instruction with `SUBS pc, r14, #4`,
                // so nothing is subtracted in Thumb state and 4 in ARM state.
                let sub: u32 = match self.state() {
                    State::Arm => 4,
                    State::Thumb => 0,
                };
                (sub, IRQ_ADDR, Mode::IRQ)
            },
        };
        let link_reg_value = self.read_reg(PC_REG).wrapping_sub(pipeline_subtraction);
        let old_cpsr = self.registers.cpsr;
        // Change CPU state to ARM (if not already)
        self.switch_state(State::Arm, bus);
        // Enter the exception's mode
        self.switch_mode(new_mode, bus);
        // Set the link register to the next instruction
        self.write_reg(LINK_REG, link_reg_value, bus);
        // Jump to the exception handler
        self.write_reg(PC_REG, jump_addr, bus);
        // Disable any further interrupts
        self.registers.cpsr.set_irq_disable(true);
        // Preserve our old cpsr
        self.registers.spsr = old_cpsr;
    }
}

/// Writing the program counter: it takes the aligned address, then the pipeline refill moves
/// it one instruction further; the other registers and the state stay as they were.
pub proof fn lemma_write_pc(c: CpuView, b: BusView, target: u32)
    requires
        c.registers.general_purpose.len() == 16,
    ensures
        ({
            let c1 = write_reg_spec(c, b, PC_REG as int, target).0;
            &&& reg_of(c1, PC_REG as int) == (target & pc_align_mask(state_of(c))).wrapping_add(
                instruction_size(state_of(c)),
            )
            &&& state_of(c1) == state_of(c)
            &&& forall|r: int| 0 <= r < 15 ==> #[trigger] reg_of(c1, r) == reg_of(c, r)
        }),
{
}

} // verus!
