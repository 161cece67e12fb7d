use grba_core::emulator::cpu::registers::{Mode, Registers, State, PSR};

#[test]
fn registers_psr_test() {
    let value = 0b1101_0000_0000_0000_0000_0000_1011_0000;
    let cpsr = PSR::from_raw(value);
    println!("{:?}", cpsr);

    assert!(cpsr.sign());
    assert!(cpsr.zero());
    assert!(!cpsr.carry());
    assert!(cpsr.overflow());

    assert!(cpsr.irq_disable());
    assert!(!cpsr.fiq_disable());
    assert_eq!(cpsr.mode(), Mode::User);
    assert_eq!(cpsr.state(), State::Thumb);
    assert_eq!(cpsr.as_raw(), value);
}

#[test]
fn psr_raw_round_trip_keeps_reserved_bits() {
    let value: u32 = 0x0123_4593;
    let psr = PSR::from_raw(value);
    assert_eq!(psr.mode(), Mode::Supervisor);
    assert_eq!(psr.state(), State::Arm);
    assert_eq!(psr.as_raw(), value);
}

#[test]
fn psr_setters_change_one_flag() {
    let mut psr = PSR::new();
    assert_eq!(psr.as_raw(), 0x10);
    psr.set_carry(true);
    assert_eq!(psr.as_raw(), 0x2000_0010);
    psr.set_mode(Mode::IRQ);
    assert_eq!(psr.as_raw(), 0x2000_0012);
    psr.set_state(State::Thumb);
    assert_eq!(psr.as_raw(), 0x2000_0032);
    psr.update_control_flags(0xF000_0000);
    assert!(psr.sign() && psr.zero() && psr.carry() && psr.overflow());
}

#[test]
fn psr_invalid_mode_is_detected() {
    assert!(PSR::is_valid_raw(0x1F));
    assert!(!PSR::is_valid_raw(0x00));
    assert!(!PSR::is_valid_raw(0x15));
}

#[test]
fn register_banks_swap_back() {
    let mut regs = Registers::default();
    for i in 0..16 {
        regs.general_purpose[i] = i as u32 * 3;
    }
    let before = regs.general_purpose;
    assert!(regs.swap_register_banks(Mode::System, Mode::FIQ));
    // FIQ has its own R8-R14, which start out zero.
    assert_eq!(regs.general_purpose[8], 0);
    assert_eq!(regs.general_purpose[14], 0);
    assert_eq!(regs.general_purpose[7], 21);
    assert!(regs.swap_register_banks(Mode::FIQ, Mode::System));
    assert_eq!(regs.general_purpose, before);
    // Swapping to the same mode does nothing.
    assert!(!regs.swap_register_banks(Mode::System, Mode::System));
}

#[test]
fn mode_bank_indices() {
    assert_eq!(Mode::User.to_bank_index(), 0);
    assert_eq!(Mode::System.to_bank_index(), 0);
    assert_eq!(Mode::FIQ.to_bank_index(), 1);
    assert_eq!(Mode::Supervisor.to_bank_index(), 2);
    assert_eq!(Mode::IRQ.to_bank_index(), 4);
    assert!(!Mode::User.has_spsr());
    assert!(Mode::IRQ.has_spsr());
    assert_eq!(Mode::IRQ.to_spsr_index(), 3);
}

#[test]
fn next_pc_is_one_instruction_behind() {
    let mut regs = Registers::default();
    regs.general_purpose[15] = 0x0800_0008;
    assert_eq!(regs.next_pc(), 0x0800_0004);
    regs.cpsr.set_state(State::Thumb);
    assert_eq!(regs.next_pc(), 0x0800_0006);
}
