//! Decoding tables: which handler executes an instruction, indexed by its distinguishing bits.

use vstd::prelude::*;

verus! {

/// For indexing into the ARM table a 12-bit value is used: bits 20..=27 of the
/// instruction, followed by bits 4..=7.
pub const ARM_LUT_SIZE: usize = 4096;

/// For indexing into the THUMB table the upper byte of the instruction is used.
pub const THUMB_LUT_SIZE: usize = 256;

/// The handlers of ARM instructions.
#[derive(Debug, Copy, Clone, PartialEq, Eq, Structural)]
pub enum ArmHandler {
    SoftwareInterrupt,
    BlockDataTransferLoad,
    BlockDataTransferStore,
    Multiply,
    MultiplyLong,
    SingleDataSwap,
    HalfwordAndSignedRegister,
    HalfwordAndSignedImmediate,
    BranchAndExchange,
    BranchAndLink,
    SingleDataTransfer,
    MrsTransPsrReg,
    MsrImmediate,
    MsrRegister,
    DataProcessingImmediate,
    DataProcessingRegisterRegisterShift,
    DataProcessingRegisterImmediateShift,
    UndefinedInstruction,
}

/// The handlers of THUMB instructions.
#[derive(Debug, Copy, Clone, PartialEq, Eq, Structural)]
pub enum ThumbHandler {
    MoveShiftedReg,
    AddSubtract,
    MoveCompareAddSubtract,
    AluOperations,
    HiRegOpBranchExchange,
    PcRelativeLoad,
    LoadStoreWithRegOffset,
    LoadStoreSignExtendedByteHalfword,
    LoadStoreWithImmediateOffset,
    LoadStoreHalfword,
    SpRelativeLoadStore,
    LoadAddress,
    AddOffsetToStackPointer,
    PushPopRegisters,
    MultipleStore,
    MultipleLoad,
    ConditionalBranch,
    UnconditionalBranch,
    LongBranchWithLinkHigh,
    LongBranchWithLinkLow,
    Undefined,
}

/// The ARM handler of table index `i`, with the patterns checked in order.
pub open spec fn arm_lut_entry(i: usize) -> ArmHandler {
    if i & 0xF00 == 0xF00 {
        // Software Interrupt: 1111_XXXX_XXXX
        ArmHandler::SoftwareInterrupt
    } else if i & 0xE00 == 0x800 {
        // Block Data Transfer: 100X_XXXX_XXXX, the load bit is bit 4 of the index.
        if i & 0x010 != 0 {
            ArmHandler::BlockDataTransferLoad
        } else {
            ArmHandler::BlockDataTransferStore
        }
    } else if i & 0xFCF == 0x009 {
        // Multiply: 0000_00XX_1001
        ArmHandler::Multiply
    } else if i & 0xF8F == 0x089 {
        // Multiply long: 0000_1XXX_1001
        ArmHandler::MultiplyLong
    } else if i & 0xFBF == 0x109 {
        // Single Data Swap: 0001_0X00_1001
        ArmHandler::SingleDataSwap
    } else if i & 0xE49 == 0x009 {
        // Halfword Data Transfer, register: 000X_X0XX_1XX1
        ArmHandler::HalfwordAndSignedRegister
    } else if i & 0xE49 == 0x049 {
        // Halfword Data Transfer, immediate: 000X_X1XX_1XX1
        ArmHandler::HalfwordAndSignedImmediate
    } else if i == 0x121 {
        // Branch and Exchange: 0001_0010_0001
        ArmHandler::BranchAndExchange
    } else if i & 0xE00 == 0xA00 {
        // Branch: 101X_XXXX_XXXX
        ArmHandler::BranchAndLink
    } else if i & 0xC00 == 0x400 {
        // Single Data Transfer: 01XX_XXXX_XXXX
        ArmHandler::SingleDataTransfer
    } else if i & 0xFBF == 0x100 {
        // MRS (Transfer PSR to register): 0001_0X00_0000
        ArmHandler::MrsTransPsrReg
    } else if i & 0xDB0 == 0x120 {
        // MSR (Transfer register or immediate to PSR): 00X1_0X10_XXXX, the immediate
        // bit is bit 9 of the index.
        if i & 0x200 != 0 {
            ArmHandler::MsrImmediate
        } else {
            ArmHandler::MsrRegister
        }
    } else if i & 0xE00 == 0x200 {
        // Data Processing Immediate: 001X_XXXX_XXXX
        ArmHandler::DataProcessingImmediate
    } else if i & 0xE00 == 0x000 {
        // Data Processing Register: 000X_XXXX_XXXX, bit 0 of the index selects a shift by register.
        if i & 1 != 0 {
            ArmHandler::DataProcessingRegisterRegisterShift
        } else {
            ArmHandler::DataProcessingRegisterImmediateShift
        }
    } else {
        ArmHandler::UndefinedInstruction
    }
}

/// The ARM handler of table index `i`.
pub fn arm_lut_decode(i: usize) -> (r: ArmHandler)
    ensures
        r == arm_lut_entry(i),
{
    if i & 0xF00 == 0xF00 {
        ArmHandler::SoftwareInterrupt
    } else if i & 0xE00 == 0x800 {
        // Check load bit ahead of time.
        if i & 0x010 != 0 {
            ArmHandler::BlockDataTransferLoad
        } else {
            ArmHandler::BlockDataTransferStore
        }
    } else if i & 0xFCF == 0x009 {
        ArmHandler::Multiply
    } else if i & 0xF8F == 0x089 {
        ArmHandler::MultiplyLong
    } else if i & 0xFBF == 0x109 {
        // Single data swap has to be matched before the halfword transfers, which it is a part of.
        ArmHandler::SingleDataSwap
    } else if i & 0xE49 == 0x009 {
        ArmHandler::HalfwordAndSignedRegister
    } else if i & 0xE49 == 0x049 {
        ArmHandler::HalfwordAndSignedImmediate
    } else if i == 0x121 {
        ArmHandler::BranchAndExchange
    } else if i & 0xE00 == 0xA00 {
        ArmHandler::BranchAndLink
    } else if i & 0xC00 == 0x400 {
        ArmHandler::SingleDataTransfer
    } else if i & 0xFBF == 0x100 {
        ArmHandler::MrsTransPsrReg
    } else if i & 0xDB0 == 0x120 {
        if i & 0x200 != 0 {
            ArmHandler::MsrImmediate
        } else {
            ArmHandler::MsrRegister
        }
    } else if i & 0xE00 == 0x200 {
        ArmHandler::DataProcessingImmediate
    } else if i & 0xE00 == 0x000 {
        if i & 1 != 0 {
            ArmHandler::DataProcessingRegisterRegisterShift
        } else {
            ArmHandler::DataProcessingRegisterImmediateShift
        }
    } else {
        // Any remaining will be undefined
        ArmHandler::UndefinedInstruction
    }
}

/// Create the lookup table for the ARM instructions.
pub fn create_arm_lut() -> (r: Vec<ArmHandler>)
    ensures
        r@.len() == ARM_LUT_SIZE,
        forall|i: int| 0 <= i < ARM_LUT_SIZE ==> #[trigger] r@[i] == arm_lut_entry(i as usize),
{
    let mut result: Vec<ArmHandler> = Vec::new();
    let mut i: usize = 0;
    while i < ARM_LUT_SIZE
        invariant
            i <= ARM_LUT_SIZE,
            result@.len() == i,
            forall|j: int| 0 <= j < i ==> #[trigger] result@[j] == arm_lut_entry(j as usize),
        decreases ARM_LUT_SIZE - i,
    {
        result.push(arm_lut_decode(i));
        i = i + 1;
    }
    result
}

/// The THUMB handler of an upper instruction byte, following the THUMB instruction formats.
pub open spec fn thumb_lut_entry(i: usize) -> ThumbHandler {
    if i & 0xF8 == 0x18 {
        // Add/Subtract: 0001_1XXX
        ThumbHandler::AddSubtract
    } else if i & 0xE0 == 0x00 {
        // Move Shifted Register: 000X_XXXX
        ThumbHandler::MoveShiftedReg
    } else if i & 0xE0 == 0x20 {
        // Move/compare/add/subtract immediate: 001X_XXXX
        ThumbHandler::MoveCompareAddSubtract
    } else if i & 0xFC == 0x40 {
        // ALU operations: 0100_00XX
        ThumbHandler::AluOperations
    } else if i & 0xFC == 0x44 {
        // Hi register operations and branch exchange: 0100_01XX
        ThumbHandler::HiRegOpBranchExchange
    } else if i & 0xF8 == 0x48 {
        // PC-relative load: 0100_1XXX
        ThumbHandler::PcRelativeLoad
    } else if i & 0xF2 == 0x50 {
        // Load/store with register offset: 0101_XX0X
        ThumbHandler::LoadStoreWithRegOffset
    } else if i & 0xF2 == 0x52 {
        // Load/store sign-extended byte/halfword: 0101_XX1X
        ThumbHandler::LoadStoreSignExtendedByteHalfword
    } else if i & 0xE0 == 0x60 {
        // Load/store with immediate offset: 011X_XXXX
        ThumbHandler::LoadStoreWithImmediateOffset
    } else if i & 0xF0 == 0x80 {
        // Load/store halfword: 1000_XXXX
        ThumbHandler::LoadStoreHalfword
    } else if i & 0xF0 == 0x90 {
        // SP-relative load/store: 1001_XXXX
        ThumbHandler::SpRelativeLoadStore
    } else if i & 0xF0 == 0xA0 {
        // Load address: 1010_XXXX
        ThumbHandler::LoadAddress
    } else if i == 0xB0 {
        // Add offset to stack pointer: 1011_0000
        ThumbHandler::AddOffsetToStackPointer
    } else if i & 0xF6 == 0xB4 {
        // Push/pop registers: 1011_X10X
        ThumbHandler::PushPopRegisters
    } else if i & 0xF8 == 0xC0 {
        // Multiple store: 1100_0XXX
        ThumbHandler::MultipleStore
    } else if i & 0xF8 == 0xC8 {
        // Multiple load: 1100_1XXX
        ThumbHandler::MultipleLoad
    } else if i & 0xF0 == 0xD0 {
        // Conditional branch, and software interrupt for condition 1111: 1101_XXXX
        ThumbHandler::ConditionalBranch
    } else if i & 0xF8 == 0xE0 {
        // Unconditional branch: 1110_0XXX
        ThumbHandler::UnconditionalBranch
    } else if i & 0xF8 == 0xF0 {
        // Long branch with link, offset high: 1111_0XXX
        ThumbHandler::LongBranchWithLinkHigh
    } else if i & 0xF8 == 0xF8 {
        // Long branch with link, offset low: 1111_1XXX
        ThumbHandler::LongBranchWithLinkLow
    } else {
        ThumbHandler::Undefined
    }
}

/// The THUMB handler of an upper instruction byte.
pub fn thumb_lut_decode(i: usize) -> (r: ThumbHandler)
    ensures
        r == thumb_lut_entry(i),
{
    if i & 0xF8 == 0x18 {
        ThumbHandler::AddSubtract
    } else if i & 0xE0 == 0x00 {
        ThumbHandler::MoveShiftedReg
    } else if i & 0xE0 == 0x20 {
        ThumbHandler::MoveCompareAddSubtract
    } else if i & 0xFC == 0x40 {
        ThumbHandler::AluOperations
    } else if i & 0xFC == 0x44 {
        ThumbHandler::HiRegOpBranchExchange
    } else if i & 0xF8 == 0x48 {
        ThumbHandler::PcRelativeLoad
    } else if i & 0xF2 == 0x50 {
        ThumbHandler::LoadStoreWithRegOffset
    } else if i & 0xF2 == 0x52 {
        ThumbHandler::LoadStoreSignExtendedByteHalfword
    } else if i & 0xE0 == 0x60 {
        ThumbHandler::LoadStoreWithImmediateOffset
    } else if i & 0xF0 == 0x80 {
        ThumbHandler::LoadStoreHalfword
    } else if i & 0xF0 == 0x90 {
        ThumbHandler::SpRelativeLoadStore
    } else if i & 0xF0 == 0xA0 {
        ThumbHandler::LoadAddress
    } else if i == 0xB0 {
        ThumbHandler::AddOffsetToStackPointer
    } else if i & 0xF6 == 0xB4 {
        ThumbHandler::PushPopRegisters
    } else if i & 0xF8 == 0xC0 {
        ThumbHandler::MultipleStore
    } else if i & 0xF8 == 0xC8 {
        ThumbHandler::MultipleLoad
    } else if i & 0xF0 == 0xD0 {
        ThumbHandler::ConditionalBranch
    } else if i & 0xF8 == 0xE0 {
        ThumbHandler::UnconditionalBranch
    } else if i & 0xF8 == 0xF0 {
        ThumbHandler::LongBranchWithLinkHigh
    } else if i & 0xF8 == 0xF8 {
        ThumbHandler::LongBranchWithLinkLow
    } else {
        ThumbHandler::Undefined
    }
}

/// Create the lookup table for the THUMB instructions.
pub fn create_thumb_lut() -> (r: Vec<ThumbHandler>)
    ensures
        r@.len() == THUMB_LUT_SIZE,
        forall|i: int| 0 <= i < THUMB_LUT_SIZE ==> #[trigger] r@[i] == thumb_lut_entry(i as usize),
{
    let mut result: Vec<ThumbHandler> = Vec::new();
    let mut i: usize = 0;
    while i < THUMB_LUT_SIZE
        invariant
            i <= THUMB_LUT_SIZE,
            result@.len() == i,
            forall|j: int| 0 <= j < i ==> #[trigger] result@[j] == thumb_lut_entry(j as usize),
        decreases THUMB_LUT_SIZE - i,
    {
        result.push(thumb_lut_decode(i));
        i = i + 1;
    }
    result
}

} // verus!
