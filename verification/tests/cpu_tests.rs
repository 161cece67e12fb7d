use grba_core::emulator::cartridge::{Cartridge, CARTRIDGE_RAM_SIZE};
use grba_core::emulator::cpu::registers::State;
use grba_core::emulator::cpu::thumb::ThumbV4;
use grba_core::emulator::{EmuOptions, GBAEmulator};
use grba_core::InputKeys;

/// An emulator whose cartridge starts with the given little endian words.
fn emu_with_words(program: &[u32]) -> GBAEmulator {
    let mut rom = vec![0u8; 0x200];
    for (i, w) in program.iter().enumerate() {
        rom[i * 4..i * 4 + 4].copy_from_slice(&w.to_le_bytes());
    }
    let cart = Cartridge::new(rom, vec![0; CARTRIDGE_RAM_SIZE]);
    GBAEmulator::new(cart, EmuOptions::default())
}

#[test]
fn skipping_the_bios_starts_at_the_cartridge() {
    let emu = emu_with_words(&[0xE3A0_0005]);
    // The pipeline holds the first instruction, the PC points one instruction further.
    assert_eq!(emu.cpu.registers.general_purpose[15], 0x0800_0004);
    assert_eq!(emu.cpu.registers.general_purpose[13], 0x0300_7F00);
    assert_eq!(emu.cpu.pipeline[1], 0xE3A0_0005);
}

#[test]
fn arm_data_processing_and_flags() {
    // MOV r0, #5; ADD r1, r0, #3; SUBS r2, r1, #8
    let mut emu = emu_with_words(&[0xE3A0_0005, 0xE280_1003, 0xE251_2008]);
    emu.step_instruction();
    assert_eq!(emu.cpu.registers.general_purpose[0], 5);
    emu.step_instruction();
    assert_eq!(emu.cpu.registers.general_purpose[1], 8);
    emu.step_instruction();
    assert_eq!(emu.cpu.registers.general_purpose[2], 0);
    let cpsr = emu.cpu.registers.cpsr;
    assert!(cpsr.zero());
    assert!(cpsr.carry());
    assert!(!cpsr.sign());
    assert!(!cpsr.overflow());
}

#[test]
fn arm_store_then_load_round_trips_through_ram() {
    // MOV r3, #0x02000000; MOV r0, #0xAA; STR r0, [r3, #4]; LDR r4, [r3, #4]
    let mut emu = emu_with_words(&[0xE3A0_3402, 0xE3A0_00AA, 0xE583_0004, 0xE593_4004]);
    for _ in 0..4 {
        emu.step_instruction();
    }
    assert_eq!(emu.cpu.registers.general_purpose[3], 0x0200_0000);
    assert_eq!(emu.bus.ram.read_board::<u32>(0x0200_0004), 0xAA);
    assert_eq!(emu.cpu.registers.general_purpose[4], 0xAA);
}

#[test]
fn arm_branch_skips_instructions() {
    // B +1; MOV r0, #1; MOV r0, #2; MOV r0, #3
    let mut emu = emu_with_words(&[0xEA00_0001, 0xE3A0_0001, 0xE3A0_0002, 0xE3A0_0003]);
    emu.step_instruction();
    assert_eq!(emu.cpu.registers.general_purpose[15], 0x0800_0010);
    emu.step_instruction();
    assert_eq!(emu.cpu.registers.general_purpose[0], 3);
}

#[test]
fn arm_condition_fails_skips() {
    // MOVS r0, #0 (sets Z); MOVNE r1, #9; MOVEQ r2, #7
    let mut emu = emu_with_words(&[0xE3B0_0000, 0x13A0_1009, 0x03A0_2007]);
    for _ in 0..3 {
        emu.step_instruction();
    }
    assert_eq!(emu.cpu.registers.general_purpose[1], 0);
    assert_eq!(emu.cpu.registers.general_purpose[2], 7);
}

#[test]
fn arm_multiply_and_long_multiply() {
    // MOV r0, #7; MOV r1, #6; MUL r2, r0, r1; MVN r3, #0; UMULL r4, r5, r3, r3
    let mut emu = emu_with_words(&[0xE3A0_0007, 0xE3A0_1006, 0xE002_0190, 0xE3E0_3000, 0xE085_4393]);
    for _ in 0..5 {
        emu.step_instruction();
    }
    assert_eq!(emu.cpu.registers.general_purpose[2], 42);
    // 0xFFFFFFFF * 0xFFFFFFFF = 0xFFFFFFFE_00000001
    assert_eq!(emu.cpu.registers.general_purpose[4], 0x0000_0001);
    assert_eq!(emu.cpu.registers.general_purpose[5], 0xFFFF_FFFE);
}

#[test]
fn arm_block_transfer_stores_and_loads() {
    // MOV r0, #0x03000000; MOV r1, #1; MOV r2, #2; STMIA r0!, {r1, r2}; LDMDB r0, {r3, r4}
    let mut emu = emu_with_words(&[
        0xE3A0_0403,
        0xE3A0_1001,
        0xE3A0_2002,
        0xE8A0_0006,
        0xE910_0018,
    ]);
    for _ in 0..5 {
        emu.step_instruction();
    }
    assert_eq!(emu.cpu.registers.general_purpose[0], 0x0300_0008);
    assert_eq!(emu.bus.ram.read_chip::<u32>(0x0300_0000), 1);
    assert_eq!(emu.bus.ram.read_chip::<u32>(0x0300_0004), 2);
    assert_eq!(emu.cpu.registers.general_purpose[3], 1);
    assert_eq!(emu.cpu.registers.general_purpose[4], 2);
}

#[test]
fn arm_psr_transfers() {
    // MRS r0, CPSR; MSR CPSR_f, #0xF0000000
    let mut emu = emu_with_words(&[0xE10F_0000, 0xE328_F20F]);
    emu.step_instruction();
    assert_eq!(emu.cpu.registers.general_purpose[0], 0xDF);
    emu.step_instruction();
    assert_eq!(emu.cpu.registers.cpsr.as_raw(), 0xF000_00DF);
}

#[test]
fn branch_exchange_to_thumb() {
    // ADD r0, pc, #1; BX r0; then THUMB: MOVS r1, #7; ADDS r2, r1, #1
    let mut emu = emu_with_words(&[0xE28F_0001, 0xE12F_FF10, 0x1C4A_2107]);
    emu.step_instruction();
    assert_eq!(emu.cpu.registers.general_purpose[0], 0x0800_0009);
    emu.step_instruction();
    assert_eq!(emu.cpu.registers.cpsr.state(), State::Thumb);
    emu.step_instruction();
    assert_eq!(emu.cpu.registers.general_purpose[1], 7);
    emu.step_instruction();
    assert_eq!(emu.cpu.registers.general_purpose[2], 8);
    assert_eq!(emu.cpu.registers.general_purpose[15], 0x0800_000E);
}

#[test]
fn software_interrupt_enters_supervisor_mode() {
    // SWI 0
    let mut emu = emu_with_words(&[0xEF00_0000]);
    emu.step_instruction();
    let cpsr = emu.cpu.registers.cpsr;
    assert_eq!(cpsr.mode(), grba_core::emulator::cpu::registers::Mode::Supervisor);
    assert!(cpsr.irq_disable());
    // The vector is at 0x08, the pipeline has been refilled past it.
    assert_eq!(emu.cpu.registers.general_purpose[15], 0x0000_000C);
    // The link register holds the address of the instruction after the SWI.
    assert_eq!(emu.cpu.registers.general_purpose[14], 0x0800_0004);
    // The old CPSR is kept in the SPSR.
    assert_eq!(emu.cpu.registers.spsr.as_raw(), 0xDF);
}

#[test]
fn key_presses_clear_status_bits() {
    let mut emu = emu_with_words(&[0xEAFF_FFFE]);
    assert_eq!(emu.bus.keypad.status.bits, 0x3FF);
    emu.key_down(InputKeys::A);
    assert_eq!(emu.bus.keypad.status.bits, 0x3FE);
    emu.key_up(InputKeys::A);
    assert_eq!(emu.bus.keypad.status.bits, 0x3FF);
}

#[test]
fn running_to_vblank_reaches_the_last_visible_line() {
    // B . (an endless loop)
    let mut emu = emu_with_words(&[0xEAFF_FFFE]);
    emu.run_to_vblank();
    // 160 lines of 1232 cycles each have passed.
    assert!(emu.bus.scheduler.current_time.0 >= 160 * 1232);
    assert!(emu.bus.scheduler.current_time.0 < 160 * 1232 + 8);
    assert_eq!(emu.frame_buffer().0.len(), 240 * 160);
}

#[test]
fn breakpoints_stop_debug_runs() {
    // MOV r0, #1; MOV r0, #2; B .
    let mut emu = emu_with_words(&[0xE3A0_0001, 0xE3A0_0002, 0xEAFF_FFFE]);
    emu.add_breakpoint(0x0800_0004);
    let (vblank, hit) = emu.step_instruction_debug();
    assert!(!vblank);
    assert!(hit);
    assert!(!emu.run_to_vblank_debug());
}

#[test]
fn arm_byte_load_reads_the_addressed_byte() {
    // MOV r3, #0x02000000; LDRB r4, [r3, #1]; LDRB r5, [r3, #3]
    let mut emu = emu_with_words(&[0xE3A0_3402, 0xE5D3_4001, 0xE5D3_5003]);
    emu.bus.write_32(0x0200_0000, 0x4433_2211);
    for _ in 0..3 {
        emu.step_instruction();
    }
    assert_eq!(emu.cpu.registers.general_purpose[4], 0x22);
    assert_eq!(emu.cpu.registers.general_purpose[5], 0x44);
}

#[test]
fn arm_halfword_immediate_offset_uses_both_nibbles() {
    // MOV r1, #0x02000000; LDRH r0, [r1, #0x12]
    let mut emu = emu_with_words(&[0xE3A0_1402, 0xE1D1_01B2]);
    emu.bus.write_16(0x0200_0002, 0x1111);
    emu.bus.write_16(0x0200_0012, 0xBEEF);
    emu.step_instruction();
    emu.step_instruction();
    assert_eq!(emu.cpu.registers.general_purpose[0], 0xBEEF);
}

#[test]
fn thumb_long_branch_low_offset_is_unsigned() {
    let mut emu = emu_with_words(&[0]);
    emu.cpu.registers.cpsr.set_state(State::Thumb);
    emu.cpu.registers.general_purpose[14] = 0x0800_1000;
    let pc = emu.cpu.registers.general_purpose[15];
    // BL low half with offset 0x400: the target is LR + 0x800.
    ThumbV4::long_branch_with_link_low(&mut emu.cpu, 0xF800 | 0x400, &mut emu.bus);
    assert_eq!(emu.cpu.registers.general_purpose[15], 0x0800_1800 + 2);
    assert_eq!(emu.cpu.registers.general_purpose[14], pc.wrapping_sub(2) | 1);
}
