use grba_core::emulator::bus::ram::WorkRam;

#[test]
fn test_mem_access() {
    let mut ram = WorkRam::new();

    // Ensure our basic read and writes work correctly on board RAM
    ram.write_board_32(0x02000000, 0xFEED_BEEF);

    assert_eq!(ram.read_board::<u32>(0x02000000), 0xFEED_BEEF);

    // Ensure the byte order is Little Endian
    assert_eq!(ram.read_board::<u16>(0x02000000), 0xBEEF);
    assert_eq!(ram.read_board::<u8>(0x02000000), 0xEF);

    // Ensure the same works for the chip RAM
    ram.write_chip_32(0x03000000, 0xFEED_BEEF);

    assert_eq!(ram.read_chip::<u32>(0x03000000), 0xFEED_BEEF);
    assert_eq!(ram.read_chip::<u16>(0x03000000), 0xBEEF);
    assert_eq!(ram.read_chip::<u8>(0x03000000), 0xEF);
}

#[test]
fn ram_is_mirrored() {
    let mut ram = WorkRam::new();
    // On board RAM is 256 KiB, mirrored over the region.
    ram.write_board_16(0x0204_0010, 0x1234);
    assert_eq!(ram.read_board::<u16>(0x0200_0010), 0x1234);
    // On chip RAM is 32 KiB.
    ram.write_chip(0x0300_8001, 0xAB);
    assert_eq!(ram.read_chip::<u8>(0x0300_0001), 0xAB);
}
