use grba_core::emulator::cartridge::header::{
    backup_id_from_name, find_backup_id, parse_region, CartBackupId, CartridgeHeader, Region,
};
use grba_core::emulator::cartridge::{Cartridge, CARTRIDGE_RAM_SIZE, MAX_ROM_SIZE};

fn rom_with_header() -> Vec<u8> {
    let mut rom = vec![0u8; 0x400];
    rom[0xA0..0xA0 + 7].copy_from_slice(b"POKEMON");
    rom[0xAC..0xB0].copy_from_slice(b"BPEE");
    rom[0xB0..0xB2].copy_from_slice(b"01");
    rom[0xB3] = 0;
    rom[0xBC] = 2;
    rom[0x300..0x30C].copy_from_slice(b"SRAM_V113xx\0");
    rom
}

#[test]
fn header_fields_are_parsed() {
    let rom = rom_with_header();
    let header = CartridgeHeader::new(&rom);
    assert_eq!(header.game_title, "POKEMON");
    assert_eq!(header.game_code, "BPEE");
    assert_eq!(header.maker_code, "01");
    assert_eq!(header.software_version, 2);
    assert_eq!(header.region(), Some(Region::Usa));
    assert_eq!(header.backup_id, CartBackupId::Sram);
}

#[test]
fn non_utf8_titles_are_decoded_lossily() {
    let mut rom = rom_with_header();
    rom[0xA0] = 0xFF;
    let header = CartridgeHeader::new(&rom);
    assert_eq!(header.game_title, "\u{FFFD}OKEMON");
}

#[test]
fn backup_ids_by_name() {
    assert_eq!(backup_id_from_name(b"EEPROM"), Some(CartBackupId::EEProm));
    assert_eq!(backup_id_from_name(b"FLASH512"), Some(CartBackupId::Flash64));
    assert_eq!(backup_id_from_name(b"FLASH1M"), Some(CartBackupId::Flash128));
    assert_eq!(backup_id_from_name(b"NONE"), None);
}

#[test]
fn backup_id_search() {
    let mut rom = vec![0u8; 0x100];
    rom[0x40..0x4C].copy_from_slice(b"FLASH1M_V103");
    assert_eq!(find_backup_id(&rom), Some(CartBackupId::Flash128));
    let empty = vec![0u8; 0x100];
    assert_eq!(find_backup_id(&empty), None);
    // Without any announcement the header falls back to 64KB of Flash.
    let mut plain = vec![0u8; 0x200];
    plain[0xA0] = b'X';
    assert_eq!(CartridgeHeader::new(&plain).backup_id, CartBackupId::Flash64);
}

#[test]
fn regions_by_game_code() {
    assert_eq!(parse_region("AXVJ"), Some(Region::Japan));
    assert_eq!(parse_region("AXVP"), Some(Region::Europe));
    assert_eq!(parse_region("AXVD"), Some(Region::German));
    // Unknown codes default to Japan; a code without a fourth character has none.
    assert_eq!(parse_region("AXVQ"), Some(Region::Japan));
    assert_eq!(parse_region("AX"), None);
}

#[test]
fn roms_are_padded_for_out_of_bounds_reads() {
    let rom = rom_with_header();
    let cart = Cartridge::new(rom, vec![0; CARTRIDGE_RAM_SIZE]);
    assert_eq!(cart.rom().len(), MAX_ROM_SIZE);
    assert_eq!(cart.read_16(0x0800_00AC), u16::from_le_bytes(*b"BP"));
    assert_eq!(cart.read_32(0x0800_00A0), u32::from_le_bytes(*b"POKE"));
    // Past the end of the image the padding reads as 0xFF.
    assert_eq!(cart.read_16(0x0800_1000), 0xFFFF);
}

#[test]
fn header_checksum_matches_complement() {
    let mut rom = rom_with_header();
    let chk = CartridgeHeader::calculate_checksum(&rom);
    rom[0xBD] = chk;
    let header = CartridgeHeader::new(&rom);
    assert_eq!(header.complement_checksum, chk);
}

#[test]
fn sram_reads_back_writes() {
    let mut cart = Cartridge::new(rom_with_header(), vec![0; CARTRIDGE_RAM_SIZE]);
    cart.write_sram(0x0E00_0010, 0x5A);
    assert_eq!(cart.read_sram(0x0E00_0010), 0x5A);
    assert_eq!(cart.ram()[0x10], 0x5A);
}

#[test]
fn padded_titles_lose_only_their_outer_nul_characters() {
    let mut rom = rom_with_header();
    rom[0xA0..0xAC].copy_from_slice(b"\0\0AB\0CD\0\0\0\0\0");
    rom[0xB0..0xB2].copy_from_slice(b"\0\0");
    let header = CartridgeHeader::new(&rom);
    assert_eq!(header.game_title, "AB\0CD");
    assert_eq!(header.maker_code, "");
}
