use grba_core::emulator::cpu::lut::{create_arm_lut, create_thumb_lut, ArmHandler, ThumbHandler};

#[test]
fn mod_test_lut_filling() {
    let lut = create_arm_lut();

    // Check MSR matching
    let fn_ref = lut[0b0011_0110_0000];
    assert_eq!(fn_ref, ArmHandler::MsrImmediate);

    // Check Data Processing matching (AND operation in immediate mode)
    let fn_ref = lut[0b0010_0000_0000];
    assert_eq!(fn_ref, ArmHandler::DataProcessingImmediate);
}

#[test]
fn arm_lut_distinguishes_formats() {
    let lut = create_arm_lut();
    assert_eq!(lut[0xF00], ArmHandler::SoftwareInterrupt);
    assert_eq!(lut[0x009], ArmHandler::Multiply);
    assert_eq!(lut[0x089], ArmHandler::MultiplyLong);
    assert_eq!(lut[0x109], ArmHandler::SingleDataSwap);
    assert_eq!(lut[0x00B], ArmHandler::HalfwordAndSignedRegister);
    assert_eq!(lut[0x04B], ArmHandler::HalfwordAndSignedImmediate);
    assert_eq!(lut[0x121], ArmHandler::BranchAndExchange);
    assert_eq!(lut[0xA00], ArmHandler::BranchAndLink);
    assert_eq!(lut[0x590], ArmHandler::SingleDataTransfer);
    assert_eq!(lut[0x810], ArmHandler::BlockDataTransferLoad);
    assert_eq!(lut[0x800], ArmHandler::BlockDataTransferStore);
    assert_eq!(lut[0x100], ArmHandler::MrsTransPsrReg);
    assert_eq!(lut[0x120], ArmHandler::MsrRegister);
    assert_eq!(lut[0x001], ArmHandler::DataProcessingRegisterRegisterShift);
    assert_eq!(lut[0x000], ArmHandler::DataProcessingRegisterImmediateShift);
    assert_eq!(lut.len(), 4096);
}

#[test]
fn thumb_lut_distinguishes_formats() {
    let lut = create_thumb_lut();
    assert_eq!(lut.len(), 256);
    assert_eq!(lut[0x00], ThumbHandler::MoveShiftedReg);
    assert_eq!(lut[0x18], ThumbHandler::AddSubtract);
    assert_eq!(lut[0x20], ThumbHandler::MoveCompareAddSubtract);
    assert_eq!(lut[0x40], ThumbHandler::AluOperations);
    assert_eq!(lut[0x47], ThumbHandler::HiRegOpBranchExchange);
    assert_eq!(lut[0x48], ThumbHandler::PcRelativeLoad);
    assert_eq!(lut[0x50], ThumbHandler::LoadStoreWithRegOffset);
    assert_eq!(lut[0x52], ThumbHandler::LoadStoreSignExtendedByteHalfword);
    assert_eq!(lut[0x60], ThumbHandler::LoadStoreWithImmediateOffset);
    assert_eq!(lut[0x80], ThumbHandler::LoadStoreHalfword);
    assert_eq!(lut[0x90], ThumbHandler::SpRelativeLoadStore);
    assert_eq!(lut[0xA0], ThumbHandler::LoadAddress);
    assert_eq!(lut[0xB0], ThumbHandler::AddOffsetToStackPointer);
    assert_eq!(lut[0xB5], ThumbHandler::PushPopRegisters);
    assert_eq!(lut[0xC0], ThumbHandler::MultipleStore);
    assert_eq!(lut[0xC8], ThumbHandler::MultipleLoad);
    assert_eq!(lut[0xD0], ThumbHandler::ConditionalBranch);
    assert_eq!(lut[0xE0], ThumbHandler::UnconditionalBranch);
    assert_eq!(lut[0xF0], ThumbHandler::LongBranchWithLinkHigh);
    assert_eq!(lut[0xF8], ThumbHandler::LongBranchWithLinkLow);
    assert_eq!(lut[0xB2], ThumbHandler::Undefined);
}
