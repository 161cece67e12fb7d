//! Instruction dispatch, stepping and interrupt polling of the processor.

use crate::emulator::bus::{Bus, BusView};
use crate::emulator::bus::system_control::SystemControlView;
use crate::emulator::cpu::arm::block_data_transfer::{block_store_spec, block_transfer_spec};
use crate::emulator::cpu::arm::branching::{branch_link_spec, bx_spec};
use crate::emulator::cpu::arm::data_processing::{
    dp_immediate_operand, dp_immediate_spec, dp_register_immediate_shift_spec, dp_register_register_shift_spec,
};
use crate::emulator::cpu::arm::load_store::{halfword_immediate_offset, halfword_spec, single_data_transfer_spec};
use crate::emulator::cpu::arm::multiply::{multiply_long_spec, multiply_spec};
use crate::emulator::cpu::arm::psr_transfer::{mrs_spec, msr_spec};
use crate::emulator::cpu::arm::single_data_swap::swap_spec;
use crate::emulator::cpu::arm::{condition_code, reg_field, ArmInstruction, ArmV4};
use crate::emulator::cpu::common::condition_spec;
use crate::emulator::cpu::lut::{
    arm_lut_entry, create_arm_lut, create_thumb_lut, thumb_lut_entry, ArmHandler, ThumbHandler, ARM_LUT_SIZE,
    THUMB_LUT_SIZE,
};
use crate::emulator::cpu::registers::{psr_of_raw, Mode, Registers, RegistersView, PSR};
use crate::emulator::cpu::thumb::alu::{
    add_subtract_spec, alu_operations_spec, move_compare_add_subtract_spec, move_shifted_reg_spec,
};
use crate::emulator::cpu::thumb::branch::{
    conditional_branch_spec, hi_reg_op_spec, long_branch_high_spec, long_branch_low_spec, unconditional_branch_spec,
};
use crate::emulator::cpu::thumb::load_store::{
    add_offset_to_sp_spec, halfword_spec as thumb_halfword_spec, immediate_offset_spec, load_address_spec,
    pc_relative_load_spec, reg_offset_spec, sign_extended_spec, sp_relative_spec,
};
use crate::emulator::cpu::thumb::multi_load_store::{multiple_load_spec, multiple_store_spec, push_pop_spec};
use crate::emulator::cpu::thumb::{ThumbInstruction, ThumbV4};
use crate::emulator::cpu::{
    advance_pipeline_spec, cpu_view_wf, flush_spec, raise_exception_spec, reg_of, state_of, CpuView, Exception,
    CPU,
};
use crate::emulator::cpu::registers::State;
use vstd::prelude::*;

verus! {

/// The table index of an ARM instruction: bits `20..=27` followed by bits `4..=7`.
pub open spec fn arm_lut_index(instruction: u32) -> usize {
    ((((instruction >> 20u32) & 0xFF) << 4u32) | ((instruction >> 4u32) & 0xF)) as usize
}

/// What the ARM handler `h` does with `instruction`.
pub open spec fn arm_handler_spec(h: ArmHandler, c: CpuView, b: BusView, instruction: u32) -> (CpuView, BusView) {
    match h {
        ArmHandler::SoftwareInterrupt => raise_exception_spec(c, b, Exception::SoftwareInterrupt),
        ArmHandler::BlockDataTransferLoad => block_transfer_spec(c, b, instruction, true),
        ArmHandler::BlockDataTransferStore => block_store_spec(c, b, instruction),
        ArmHandler::Multiply => multiply_spec(c, b, instruction),
        ArmHandler::MultiplyLong => (multiply_long_spec(c, instruction), b),
        ArmHandler::SingleDataSwap => swap_spec(c, b, instruction),
        ArmHandler::HalfwordAndSignedRegister => halfword_spec(
            c,
            b,
            instruction,
            reg_of(c, reg_field(instruction, 0)),
        ),
        ArmHandler::HalfwordAndSignedImmediate => halfword_spec(
            c,
            b,
            instruction,
            halfword_immediate_offset(instruction),
        ),
        ArmHandler::BranchAndExchange => bx_spec(c, b, instruction),
        ArmHandler::BranchAndLink => branch_link_spec(c, b, instruction),
        ArmHandler::SingleDataTransfer => single_data_transfer_spec(c, b, instruction),
        ArmHandler::MrsTransPsrReg => mrs_spec(c, b, instruction),
        ArmHandler::MsrImmediate => (msr_spec(c, instruction, dp_immediate_operand(instruction)), b),
        ArmHandler::MsrRegister => (msr_spec(c, instruction, reg_of(c, reg_field(instruction, 0))), b),
        ArmHandler::DataProcessingImmediate => dp_immediate_spec(c, b, instruction),
        ArmHandler::DataProcessingRegisterRegisterShift => dp_register_register_shift_spec(c, b, instruction),
        ArmHandler::DataProcessingRegisterImmediateShift => dp_register_immediate_shift_spec(c, b, instruction),
        ArmHandler::UndefinedInstruction => (c, b),
    }
}

/// Executing an ARM instruction: nothing when its condition fails, otherwise the handler
/// that the decoding table gives for it.
pub open spec fn execute_arm_spec(c: CpuView, b: BusView, instruction: u32) -> (CpuView, BusView) {
    if !condition_spec(c.registers.cpsr, condition_code(instruction)) {
        (c, b)
    } else {
        arm_handler_spec(arm_lut_entry(arm_lut_index(instruction)), c, b, instruction)
    }
}

/// What the THUMB handler `h` does with `instruction`.
pub open spec fn thumb_handler_spec(h: ThumbHandler, c: CpuView, b: BusView, instruction: u16) -> (CpuView, BusView) {
    match h {
        ThumbHandler::MoveShiftedReg => move_shifted_reg_spec(c, b, instruction),
        ThumbHandler::AddSubtract => add_subtract_spec(c, b, instruction),
        ThumbHandler::MoveCompareAddSubtract => move_compare_add_subtract_spec(c, b, instruction),
        ThumbHandler::AluOperations => alu_operations_spec(c, b, instruction),
        ThumbHandler::HiRegOpBranchExchange => hi_reg_op_spec(c, b, instruction),
        ThumbHandler::PcRelativeLoad => pc_relative_load_spec(c, b, instruction),
        ThumbHandler::LoadStoreWithRegOffset => reg_offset_spec(c, b, instruction),
        ThumbHandler::LoadStoreSignExtendedByteHalfword => sign_extended_spec(c, b, instruction),
        ThumbHandler::LoadStoreWithImmediateOffset => immediate_offset_spec(c, b, instruction),
        ThumbHandler::LoadStoreHalfword => thumb_halfword_spec(c, b, instruction),
        ThumbHandler::SpRelativeLoadStore => sp_relative_spec(c, b, instruction),
        ThumbHandler::LoadAddress => load_address_spec(c, b, instruction),
        ThumbHandler::AddOffsetToStackPointer => add_offset_to_sp_spec(c, b, instruction),
        ThumbHandler::PushPopRegisters => push_pop_spec(c, b, instruction),
        ThumbHandler::MultipleStore => multiple_store_spec(c, b, instruction),
        ThumbHandler::MultipleLoad => multiple_load_spec(c, b, instruction),
        ThumbHandler::ConditionalBranch => conditional_branch_spec(c, b, instruction),
        ThumbHandler::UnconditionalBranch => unconditional_branch_spec(c, b, instruction),
        ThumbHandler::LongBranchWithLinkHigh => long_branch_high_spec(c, b, instruction),
        ThumbHandler::LongBranchWithLinkLow => long_branch_low_spec(c, b, instruction),
        ThumbHandler::Undefined => (c, b),
    }
}

/// Executing a THUMB instruction: the handler that the decoding table gives for its upper byte.
pub open spec fn execute_thumb_spec(c: CpuView, b: BusView, instruction: u16) -> (CpuView, BusView) {
    thumb_handler_spec(thumb_lut_entry(((instruction as u32) >> 8u32) as usize), c, b, instruction)
}

/// Executing the instruction in the execute stage, in the current state's instruction set.
pub open spec fn execute_spec(c: CpuView, b: BusView) -> (CpuView, BusView) {
    match state_of(c) {
        State::Arm => execute_arm_spec(c, b, c.pipeline[0]),
        State::Thumb => execute_thumb_spec(c, b, c.pipeline[0] as u16),
    }
}

/// One processor step: the pipeline advances, then the instruction that reached the execute
/// stage is executed.
pub open spec fn step_spec(c: CpuView, b: BusView) -> (CpuView, BusView) {
    let (c1, b1) = advance_pipeline_spec(c, b);
    execute_spec(c1, b1)
}

/// Polling the interrupts: an interrupt that is both requested and enabled takes the
/// processor out of HALT, and is taken unless the CPSR or the master enable disables it.
pub open spec fn poll_interrupts_spec(c: CpuView, b: BusView) -> (CpuView, BusView) {
    if b.interrupt_enable & b.interrupt_flags == 0 {
        (c, b)
    } else {
        let b1 = BusView { system_control: SystemControlView { is_halted: false, ..b.system_control }, ..b };
        if c.registers.cpsr.irq_disable || b.interrupt_master & 1 != 1 {
            (c, b1)
        } else {
            raise_exception_spec(c, b1, Exception::Interrupt)
        }
    }
}

/// The register file at power on; skipping the BIOS sets the stack pointers of User,
/// Supervisor and IRQ mode and starts at the cartridge.
pub open spec fn power_on_registers(skip_bios: bool) -> RegistersView {
    RegistersView {
        general_purpose: Seq::new(
            16,
            |i: int|
                if skip_bios && i == 13 {
                    0x0300_7F00u32
                } else if skip_bios && i == 15 {
                    0x0800_0000u32
                } else {
                    0u32
                },
        ),
        cpsr: psr_of_raw(0xDF),
        spsr: psr_of_raw(0xDF),
        spsr_bank: Seq::new(5, |i: int| PSR::spec_default()),
        r8_bank: Seq::new(2, |i: int| 0u32),
        r9_bank: Seq::new(2, |i: int| 0u32),
        r10_bank: Seq::new(2, |i: int| 0u32),
        r11_bank: Seq::new(2, |i: int| 0u32),
        r12_bank: Seq::new(2, |i: int| 0u32),
        r13_bank: Seq::new(
            6,
            |i: int|
                if skip_bios && i == 2 {
                    0x0300_7FE0u32
                } else if skip_bios && i == 4 {
                    0x0300_7FA0u32
                } else {
                    0u32
                },
        ),
        r14_bank: Seq::new(6, |i: int| 0u32),
    }
}

/// The processor at power on, before its pipeline is filled.
pub open spec fn power_on_cpu(skip_bios: bool) -> CpuView {
    CpuView {
        registers: power_on_registers(skip_bios),
        pipeline: seq![0u32, 0u32, 0u32],
        arm_lut: Seq::new(ARM_LUT_SIZE as nat, |i: int| arm_lut_entry(i as usize)),
        thumb_lut: Seq::new(THUMB_LUT_SIZE as nat, |i: int| thumb_lut_entry(i as usize)),
    }
}

/// An upper byte that the THUMB table maps to format 1 has a shift opcode other than `11`.
proof fn lemma_shift_format(w: u32)
    requires
        w < 0x10000,
        ((w >> 8u32) as usize) & 0xF8 != 0x18,
        ((w >> 8u32) as usize) & 0xE0 == 0,
    ensures
        (w >> 11u32) & 3 != 3,
{
    assert(w < 0x10000 && ((w >> 8u32) as usize) & 0xF8 != 0x18 && ((w >> 8u32) as usize) & 0xE0 == 0 ==> (w
        >> 11u32) & 3 != 3) by (bit_vector);
}

impl CPU {
    /// Create a new CPU and fill its pipeline.
    ///
    /// `skip_bios` - Whether to skip the BIOS. If skipped the stack pointers and the program
    /// counter are set as the BIOS would leave them.
    pub fn new(skip_bios: bool, bus: &mut Bus) -> (r: CPU)
        requires
            old(bus).wf(),
        ensures
            r.wf(),
            final(bus).wf(),
            (r@, final(bus)@) == flush_spec(power_on_cpu(skip_bios), old(bus)@),
    {
        let mut result = CPU {
            registers: Registers::default(),
            pipeline: [0;3],
            arm_lut: create_arm_lut(),
            thumb_lut: create_thumb_lut(),
        };
        if skip_bios {
            // Stack pointer
            result.registers.general_purpose[13] = 0x0300_7F00;
            // Stack pointers of Supervisor and IRQ mode
            result.registers.r13_bank[Mode::Supervisor.to_bank_index()] = 0x0300_7FE0;
            result.registers.r13_bank[Mode::IRQ.to_bank_index()] = 0x0300_7FA0;
            // Program counter at the start of the cartridge
            result.registers.general_purpose[15] = 0x0800_0000;
        }
        let ghost p = power_on_cpu(skip_bios);
        assert(result.registers@.general_purpose =~= p.registers.general_purpose);
        assert(result.registers@.spsr_bank =~= p.registers.spsr_bank);
        assert(result.registers@.r8_bank =~= p.registers.r8_bank);
        assert(result.registers@.r9_bank =~= p.registers.r9_bank);
        assert(result.registers@.r10_bank =~= p.registers.r10_bank);
        assert(result.registers@.r11_bank =~= p.registers.r11_bank);
        assert(result.registers@.r12_bank =~= p.registers.r12_bank);
        assert(result.registers@.r13_bank =~= p.registers.r13_bank);
        assert(result.registers@.r14_bank =~= p.registers.r14_bank);
        assert(result@.pipeline =~= p.pipeline);
        assert(result@.arm_lut =~= p.arm_lut);
        assert(result@.thumb_lut =~= p.thumb_lut);
        assert(result@ == p);
        result.flush_pipeline(bus);
        result
    }

    /// Main stepping function: advances the CPU one instruction.
    pub fn step_instruction(&mut self, bus: &mut Bus)
        requires
            old(self).wf(),
            old(bus).wf(),
        ensures
            final(self).wf(),
            final(bus).wf(),
            (final(self)@, final(bus)@) == step_spec(old(self)@, old(bus)@),
    {
        // The pipeline advances first, to recover from a flush (which only partly fills it).
        self.advance_pipeline(bus);
        let instruction = self.pipeline[0];
        match self.state() {
            State::Arm => self.execute_arm(bus, instruction),
            State::Thumb => self.execute_thumb(bus, instruction as u16),
        }
    }

    /// Execute an ARM instruction whose condition holds.
    #[verifier::rlimit(60)]
    pub fn execute_arm(&mut self, bus: &mut Bus, instruction: ArmInstruction)
        requires
            old(self).wf(),
            old(bus).wf(),
        ensures
            final(self).wf(),
            final(bus).wf(),
            (final(self)@, final(bus)@) == execute_arm_spec(old(self)@, old(bus)@, instruction),
    {
        if !ArmV4::condition_holds(self, instruction) {
            return;
        }
        assert(((((instruction >> 20u32) & 0xFF) << 4u32) | ((instruction >> 4u32) & 0xF)) < 4096) by (bit_vector);
        let lut_index = ((((instruction >> 20u32) & 0xFF) << 4u32) | ((instruction >> 4u32) & 0xF)) as usize;
        match self.arm_lut[lut_index] {
            ArmHandler::SoftwareInterrupt => ArmV4::software_interrupt(self, instruction, bus),
            ArmHandler::BlockDataTransferLoad => ArmV4::block_data_transfer_load(self, instruction, bus),
            ArmHandler::BlockDataTransferStore => ArmV4::block_data_transfer_store(self, instruction, bus),
            ArmHandler::Multiply => ArmV4::multiply(self, instruction, bus),
            ArmHandler::MultiplyLong => ArmV4::multiply_long(self, instruction, bus),
            ArmHandler::SingleDataSwap => ArmV4::single_data_swap(self, instruction, bus),
            ArmHandler::HalfwordAndSignedRegister => ArmV4::halfword_and_signed_register(self, instruction, bus),
            ArmHandler::HalfwordAndSignedImmediate => ArmV4::halfword_and_signed_immediate(self, instruction, bus),
            ArmHandler::BranchAndExchange => ArmV4::branch_and_exchange(self, instruction, bus),
            ArmHandler::BranchAndLink => ArmV4::branch_and_link(self, instruction, bus),
            ArmHandler::SingleDataTransfer => ArmV4::single_data_transfer(self, instruction, bus),
            ArmHandler::MrsTransPsrReg => ArmV4::mrs_trans_psr_reg(self, instruction, bus),
            ArmHandler::MsrImmediate => ArmV4::msr_immediate(self, instruction, bus),
            ArmHandler::MsrRegister => ArmV4::msr_register(self, instruction, bus),
            ArmHandler::DataProcessingImmediate => ArmV4::data_processing_immediate(self, instruction, bus),
            ArmHandler::DataProcessingRegisterRegisterShift => ArmV4::data_processing_register_register_shift(
                self,
                instruction,
                bus,
            ),
            ArmHandler::DataProcessingRegisterImmediateShift => ArmV4::data_processing_register_immediate_shift(
                self,
                instruction,
                bus,
            ),
            ArmHandler::UndefinedInstruction => ArmV4::undefined_instruction(self, instruction, bus),
        }
    }

    /// Execute a THUMB instruction.
    #[verifier::rlimit(60)]
    pub fn execute_thumb(&mut self, bus: &mut Bus, instruction: ThumbInstruction)
        requires
            old(self).wf(),
            old(bus).wf(),
        ensures
            final(self).wf(),
            final(bus).wf(),
            (final(self)@, final(bus)@) == execute_thumb_spec(old(self)@, old(bus)@, instruction),
    {
        let w = instruction as u32;
        assert(w >> 8u32 < 256) by (bit_vector)
            requires
                w < 0x10000,
        ;
        let lut_index = (w >> 8u32) as usize;
        match self.thumb_lut[lut_index] {
            ThumbHandler::MoveShiftedReg => {
                proof {
                    lemma_shift_format(w);
                }
                ThumbV4::move_shifted_reg(self, instruction, bus)
            },
            ThumbHandler::AddSubtract => ThumbV4::add_subtract(self, instruction, bus),
            ThumbHandler::MoveCompareAddSubtract => ThumbV4::move_compare_add_subtract(self, instruction, bus),
            ThumbHandler::AluOperations => ThumbV4::alu_operations(self, instruction, bus),
            ThumbHandler::HiRegOpBranchExchange => ThumbV4::hi_reg_op_branch_exchange(self, instruction, bus),
            ThumbHandler::PcRelativeLoad => ThumbV4::pc_relative_load(self, instruction, bus),
            ThumbHandler::LoadStoreWithRegOffset => ThumbV4::load_store_with_reg_offset(self, instruction, bus),
            ThumbHandler::LoadStoreSignExtendedByteHalfword => ThumbV4::load_store_sign_extended_byte_halfword(
                self,
                instruction,
                bus,
            ),
            ThumbHandler::LoadStoreWithImmediateOffset => ThumbV4::load_store_with_immediate_offset(
                self,
                instruction,
                bus,
            ),
            ThumbHandler::LoadStoreHalfword => ThumbV4::load_store_halfword(self, instruction, bus),
            ThumbHandler::SpRelativeLoadStore => ThumbV4::sp_relative_load_store(self, instruction, bus),
            ThumbHandler::LoadAddress => ThumbV4::load_address(self, instruction, bus),
            ThumbHandler::AddOffsetToStackPointer => ThumbV4::add_offset_to_stack_pointer(self, instruction, bus),
            ThumbHandler::PushPopRegisters => ThumbV4::push_pop_registers(self, instruction, bus),
            ThumbHandler::MultipleStore => ThumbV4::multiple_store(self, instruction, bus),
            ThumbHandler::MultipleLoad => ThumbV4::multiple_load(self, instruction, bus),
            ThumbHandler::ConditionalBranch => ThumbV4::conditional_branch(self, instruction, bus),
            ThumbHandler::UnconditionalBranch => ThumbV4::unconditional_branch(self, instruction, bus),
            ThumbHandler::LongBranchWithLinkHigh => ThumbV4::long_branch_with_link_high(self, instruction, bus),
            ThumbHandler::LongBranchWithLinkLow => ThumbV4::long_branch_with_link_low(self, instruction, bus),
            ThumbHandler::Undefined => {},
        }
    }

    /// Take a pending interrupt if it is enabled.
    pub fn poll_interrupts(&mut self, bus: &mut Bus)
        requires
            old(self).wf(),
            old(bus).wf(),
        ensures
            final(self).wf(),
            final(bus).wf(),
            (final(self)@, final(bus)@) == poll_interrupts_spec(old(self)@, old(bus)@),
    {
        let ie = bus.interrupts.enable.bits;
        let iflags = bus.interrupts.flags.bits;
        // An interrupt raised in `iflags` that is also enabled in `ie`
        if ie & iflags != 0 {
            // Take out of HALT mode, then check if interrupts are enabled
            bus.system_control.resume();
            // With interrupts disabled nothing more happens.
            if self.registers.cpsr.irq_disable() || !bus.interrupts.master_enable.interrupt_enable() {
                return;
            }
            self.raise_exception(bus, Exception::Interrupt);
        }
    }
}

} // verus!

verus! {

use crate::emulator::cpu::registers::{registers_view_wf, swap_banks_spec};
use crate::emulator::cpu::write_cpsr_spec;

/// The mode an exception enters.
pub open spec fn exception_mode(e: Exception) -> Mode {
    if e == Exception::SoftwareInterrupt {
        Mode::Supervisor
    } else {
        Mode::IRQ
    }
}

/// Banking from mode `a` to mode `b`, writing R14 and R15 there, and banking back to `a`
/// restores R0-R14 of mode `a`.
pub proof fn lemma_swap_back_after_writes(r: RegistersView, a: Mode, b: Mode, lr: u32, pc: u32)
    requires
        registers_view_wf(r),
        a.spec_bank_index() != b.spec_bank_index(),
    ensures
        ({
            let s = swap_banks_spec(r, a, b);
            let s2 = RegistersView { general_purpose: s.general_purpose.update(14, lr).update(15, pc), ..s };
            forall|i: int| 0 <= i < 15 ==> #[trigger] swap_banks_spec(s2, b, a).general_purpose[i] == r.general_purpose[i]
        }),
{
}

/// Returning from an exception by moving the SPSR back into the CPSR (as `MOVS pc, lr` and
/// `SUBS pc, lr, #4` do) restores the status register and R0-R14 of the interrupted mode,
/// when the exception was taken from another mode.
pub proof fn lemma_exception_return(c: CpuView, b: BusView, e: Exception)
    requires
        cpu_view_wf(c),
        e == Exception::SoftwareInterrupt || e == Exception::Interrupt,
        c.registers.cpsr.mode != exception_mode(e),
    ensures
        ({
            let (c1, b1) = raise_exception_spec(c, b, e);
            let c2 = write_cpsr_spec(c1, c1.registers.spsr);
            &&& c2.registers.cpsr == c.registers.cpsr
            &&& forall|i: int| 0 <= i < 15 ==> #[trigger] c2.registers.general_purpose[i] == c.registers.general_purpose[i]
        }),
{
    let (c1, b1) = raise_exception_spec(c, b, e);
    let m = exception_mode(e);
    let old_mode = c.registers.cpsr.mode;
    assert(old_mode.spec_bank_index() != m.spec_bank_index());
    let s = swap_banks_spec(c.registers, old_mode, m);
    let link = c1.registers.general_purpose[14];
    let pc = c1.registers.general_purpose[15];
    let s2 = RegistersView { general_purpose: s.general_purpose.update(14, link).update(15, pc), ..s };
    assert(c1.registers.general_purpose =~= s2.general_purpose);
    assert(c1.registers.r8_bank == s2.r8_bank);
    assert(c1.registers.r13_bank == s2.r13_bank);
    assert(c1.registers.cpsr.mode == m);
    lemma_swap_back_after_writes(c.registers, old_mode, m, link, pc);
    let c2 = write_cpsr_spec(c1, c1.registers.spsr);
    assert(swap_banks_spec(c1.registers, m, old_mode).general_purpose == swap_banks_spec(s2, m, old_mode).general_purpose);
}

} // verus!
