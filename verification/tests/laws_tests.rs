use grba_core::emulator::bus::interrupts::InterruptManager;
use grba_core::emulator::ppu::PPU;
use grba_core::scheduler::{EventTag, Scheduler};
use grba_core::emulator::cartridge::{Cartridge, CARTRIDGE_RAM_SIZE};
use grba_core::emulator::cpu::arm::data_processing::OpCode;
use grba_core::emulator::cpu::arm::ArmV4;
use grba_core::emulator::cpu::common::{check_condition, ShiftType};
use grba_core::emulator::cpu::registers::{Mode, PSR};
use grba_core::emulator::cpu::Exception;
use grba_core::emulator::{EmuOptions, GBAEmulator};
use grba_core::utils::{u16_from_le, u16_to_le, u32_from_le, u32_to_le};

fn plain_emu() -> GBAEmulator {
    let mut rom = vec![0u8; 0x200];
    rom[0..4].copy_from_slice(&0xEAFF_FFFEu32.to_le_bytes());
    GBAEmulator::new(Cartridge::new(rom, vec![0; CARTRIDGE_RAM_SIZE]), EmuOptions::default())
}

#[test]
fn work_ram_reads_back_written_words() {
    let mut emu = plain_emu();
    for addr in [0x0200_0000u32, 0x0203_FFFC, 0x0300_7FFC, 0x0300_1230] {
        emu.bus.write_32(addr, 0xCAFE_F00D ^ addr);
        assert_eq!(emu.bus.read_32(addr, &emu.cpu), 0xCAFE_F00D ^ addr);
    }
}

#[test]
fn returning_from_an_exception_restores_the_interrupted_mode() {
    let mut emu = plain_emu();
    for i in 0..15 {
        emu.cpu.registers.general_purpose[i] = 0x100 + i as u32;
    }
    let before = emu.cpu.registers.general_purpose;
    let cpsr = emu.cpu.registers.cpsr.as_raw();
    emu.cpu.raise_exception(&mut emu.bus, Exception::SoftwareInterrupt);
    assert_eq!(emu.cpu.registers.cpsr.mode(), Mode::Supervisor);
    // MOVS pc, lr
    let lr = emu.cpu.registers.general_purpose[14];
    ArmV4::perform_data_operation(&mut emu.cpu, &mut emu.bus, OpCode::Mov, 0, lr, 15, true, false);
    assert_eq!(emu.cpu.registers.cpsr.as_raw(), cpsr);
    assert_eq!(emu.cpu.registers.general_purpose[..15], before[..15]);
}

#[test]
fn condition_codes_come_in_complementary_pairs() {
    for raw in [0x0000_001Fu32, 0x4000_001F, 0x8000_001F, 0x2000_001F, 0x1000_001F, 0x9000_001F, 0x6000_001F] {
        let psr = PSR::from_raw(raw);
        for k in 0u8..7 {
            assert_eq!(check_condition(&psr, 2 * k + 1), !check_condition(&psr, 2 * k));
        }
        assert!(check_condition(&psr, 14));
        assert!(!check_condition(&psr, 15));
    }
    // With carry and zero both clear the value is lower: LS holds, HI does not.
    let psr = PSR::from_raw(0x0000_001F);
    assert!(!check_condition(&psr, 8));
    assert!(check_condition(&psr, 9));
    // Carry set and zero set: equal, so lower or same.
    let psr = PSR::from_raw(0x6000_001F);
    assert!(!check_condition(&psr, 8));
    assert!(check_condition(&psr, 9));
}

#[test]
fn little_endian_bytes_round_trip() {
    let (a, b) = u16_to_le(0xBEEF);
    assert_eq!((a, b), (0xEF, 0xBE));
    assert_eq!(u16_from_le(a, b), 0xBEEF);
    let (a, b, c, d) = u32_to_le(0xFEED_BEEF);
    assert_eq!(u32_from_le(a, b, c, d), 0xFEED_BEEF);
}

#[test]
fn psr_raw_round_trip_on_many_values() {
    for raw in [0x0000_0010u32, 0xF000_00FF, 0x1234_5613, 0x0FFF_FF97, 0x8000_003B] {
        assert_eq!(PSR::from_raw(raw).as_raw(), raw);
    }
}

#[test]
fn ram_and_save_memory_read_back_written_bytes() {
    let mut emu = plain_emu();
    for addr in [0x0200_0001u32, 0x0213_FFFF, 0x0300_0003, 0x0E00_0010, 0x0F00_FFFF] {
        let value = (addr as u8) ^ 0x5A;
        emu.bus.write(addr, value);
        assert_eq!(emu.bus.read(addr, &emu.cpu), value);
    }
}

#[test]
fn a_frame_is_228_lines_of_1232_cycles_with_one_vblank() {
    let mut ppu = PPU::new();
    let mut scheduler = Scheduler::new();
    let mut interrupts = InterruptManager::new();
    let mut vblanks = 0;
    for _ in 0..228 {
        ppu.hblank_start(&mut scheduler, &mut interrupts);
        scheduler.add_time(272);
        assert_eq!(scheduler.pop_current().map(|e| e.tag), Some(EventTag::HBlankEnd));
        ppu.hblank_end(&mut scheduler, &mut interrupts);
        scheduler.add_time(960);
        loop {
            match scheduler.pop_current().map(|e| e.tag) {
                Some(EventTag::VBlank) => vblanks += 1,
                Some(EventTag::HBlank) => break,
                other => panic!("unexpected event {:?}", other),
            }
        }
    }
    assert_eq!(vblanks, 1);
    assert_eq!(ppu.vertical_counter(), 0);
    assert_eq!(scheduler.current_time().0, 280_896);
}

#[test]
fn logical_right_shifts_past_32_clear_the_carry() {
    assert_eq!(ShiftType::LogicalRight.perform_shift(0x8000_0000, 32, false), (0, true));
    assert_eq!(ShiftType::LogicalRight.perform_shift(0x8000_0000, 33, true), (0, false));
    assert_eq!(ShiftType::LogicalRight.perform_shift(0xFFFF_FFFF, 255, true), (0, false));
    assert_eq!(ShiftType::LogicalRight.perform_shift(0x0000_0003, 1, false), (1, true));
    assert_eq!(ShiftType::LogicalLeft.perform_shift(0x0000_0001, 33, true), (0, false));
    assert_eq!(ShiftType::LogicalLeft.perform_shift(0x0000_0001, 32, false), (0, true));
}
