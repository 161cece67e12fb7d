use grba_core::emulator::bus::ram::WorkRam;
use grba_core::emulator::bus::system_control::{GbaSystemControl, HaltType, WAIT_CNT_START};
use grba_core::emulator::cartridge::{Cartridge, CARTRIDGE_RAM_SIZE};
use grba_core::emulator::cpu::arm::get_high_registers;
use grba_core::emulator::cpu::registers::{State, PSR};
use grba_core::emulator::ppu::registers::{ColorSpecialEffect, WindowDimensions};
use grba_core::emulator::{EmuOptions, GBAEmulator};
use grba_core::logging::InstructionSnapshot;
use grba_core::scheduler::{EventTag, Scheduler};

#[test]
fn system_control_registers_keep_their_bytes() {
    let mut control = GbaSystemControl::new();
    control.write_wait_cnt(WAIT_CNT_START + 1, 0x45);
    assert_eq!(control.read_wait_cnt(WAIT_CNT_START + 1), 0x45);
    assert_eq!(control.read_wait_cnt(WAIT_CNT_START), 0);
    control.write_post_flag(1);
    assert_eq!(control.read_post_boot(), 1);
}

#[test]
fn halt_control_halts_or_stops() {
    let mut control = GbaSystemControl::new();
    let mut scheduler = Scheduler::new();
    assert_eq!(control.write_halt_control(0x80, &mut scheduler), HaltType::Stop);
    assert!(scheduler.pop_current().is_none());
    assert_eq!(control.write_halt_control(0x00, &mut scheduler), HaltType::Halt);
    assert_eq!(scheduler.pop_current().map(|e| e.tag), Some(EventTag::Halt));
}

#[test]
fn high_register_fields() {
    // LDR r3, [r9]
    assert_eq!(get_high_registers(0xE599_3000), (9, 3));
}

#[test]
fn state_and_effect_decoding() {
    assert_eq!(State::from_bit(0), Some(State::Arm));
    assert_eq!(State::from_bit(1), Some(State::Thumb));
    assert_eq!(State::from_bit(2), None);
    assert_eq!(ColorSpecialEffect::from_selection(0x0040), ColorSpecialEffect::AlphaBlending);
    assert_eq!(ColorSpecialEffect::from_selection(0x00C0), ColorSpecialEffect::BrightnessDecrease);
    assert_eq!(ColorSpecialEffect::from_selection(0x003F), ColorSpecialEffect::Disabled);
    let window = WindowDimensions { bits: 0x10F0 };
    assert_eq!(window.right_bottom_most(), 0xF0);
    assert_eq!(window.left_top_most(), 0x10);
}

#[test]
fn fiq_disable_bit_shows_in_raw_value() {
    let mut psr = PSR::new();
    psr.set_fiq_disable(true);
    assert_eq!(psr.as_raw() & 0x40, 0x40);
}

#[test]
fn chip_ram_halfword_write() {
    let mut ram = WorkRam::new();
    ram.write_chip_16(0x0300_0102, 0xBEEF);
    assert_eq!(ram.read_chip::<u16>(0x0300_0102), 0xBEEF);
    assert_eq!(ram.read_chip::<u8>(0x0300_0103), 0xBE);
}

#[test]
fn snapshot_copies_registers() {
    let mut rom = vec![0u8; 0x200];
    rom[0..4].copy_from_slice(&0xEAFF_FFFEu32.to_le_bytes());
    let mut emu = GBAEmulator::new(Cartridge::new(rom, vec![0; CARTRIDGE_RAM_SIZE]), EmuOptions::default());
    emu.cpu.registers.general_purpose[5] = 0x55;
    let snapshot = InstructionSnapshot::from_registers(&emu.cpu.registers);
    assert_eq!(snapshot.r5, 0x55);
    assert_eq!(snapshot.cpsr, emu.cpu.registers.cpsr.as_raw());
    let cache = emu.bus.ppu.palette_cache();
    let _ = cache;
}

#[test]
fn time_moves_back_by_a_negative_amount() {
    let mut scheduler = Scheduler::new();
    scheduler.add_time(10);
    scheduler.add_time(-4);
    assert_eq!(scheduler.current_time().0, 6);
}

#[test]
fn larger_save_memory_is_accepted() {
    let mut rom = vec![0u8; 0x200];
    rom[0..4].copy_from_slice(&0xEAFF_FFFEu32.to_le_bytes());
    let mut emu = GBAEmulator::new(Cartridge::new(rom, vec![0; 2 * CARTRIDGE_RAM_SIZE]), EmuOptions::default());
    emu.bus.write(0x0E00_0005, 0x77);
    assert_eq!(emu.bus.read(0x0E01_0005, &emu.cpu), 0x77);
}

#[test]
fn status_registers_pack_and_unpack() {
    for raw in [0x0000_0010u32, 0xF0AB_CDFF, 0x1234_56D3, 0x8000_003F] {
        let psr = PSR::from_raw(raw);
        assert_eq!(psr.as_raw(), raw);
        let again = PSR::from_raw(psr.as_raw());
        assert_eq!(again.as_raw(), psr.as_raw());
        assert_eq!(again.mode(), psr.mode());
        assert_eq!(again.state(), psr.state());
    }
}
