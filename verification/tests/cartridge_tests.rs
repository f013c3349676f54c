use runesco::cartridge::{create_rom, Mirroring, Rom, TestRom, CHR_ROM_PAGE_SIZE,
    PRG_ROM_PAGE_SIZE};

#[test]
fn test() {
    let test_rom = create_rom(TestRom {
        header: vec![
            0x4E, 0x45, 0x53, 0x1A, 0x02, 0x01, 0x31, 00, 00, 00, 00, 00, 00, 00, 00, 00,
        ],
        trainer: None,
        pgp_rom: vec![1; 2 * PRG_ROM_PAGE_SIZE],
        chr_rom: vec![2; 1 * CHR_ROM_PAGE_SIZE],
    });

    let rom: Rom = Rom::new(&test_rom).unwrap();

    assert_eq!(rom.chr_rom, vec![2; 1 * CHR_ROM_PAGE_SIZE]);
    assert_eq!(rom.prg_rom, vec![1; 2 * PRG_ROM_PAGE_SIZE]);
    assert_eq!(rom.mapper, 3);
    assert_eq!(rom.screen_mirroring, Mirroring::VERTICAL);
}

#[test]
fn test_with_trainer() {
    let test_rom = create_rom(TestRom {
        header: vec![
            0x4E,
            0x45,
            0x53,
            0x1A,
            0x02,
            0x01,
            0x31 | 0b100,
            00,
            00,
            00,
            00,
            00,
            00,
            00,
            00,
            00,
        ],
        trainer: Some(vec![0; 512]),
        pgp_rom: vec![1; 2 * PRG_ROM_PAGE_SIZE],
        chr_rom: vec![2; 1 * CHR_ROM_PAGE_SIZE],
    });

    let rom: Rom = Rom::new(&test_rom).unwrap();

    assert_eq!(rom.chr_rom, vec!(2; 1 * CHR_ROM_PAGE_SIZE));
    assert_eq!(rom.prg_rom, vec!(1; 2 * PRG_ROM_PAGE_SIZE));
    assert_eq!(rom.mapper, 3);
    assert_eq!(rom.screen_mirroring, Mirroring::VERTICAL);
}

#[test]
fn test_nes2_is_not_supported() {
    let test_rom = create_rom(TestRom {
        header: vec![
            0x4E, 0x45, 0x53, 0x1A, 0x01, 0x01, 0x31, 0x8, 00, 00, 00, 00, 00, 00, 00, 00,
        ],
        trainer: None,
        pgp_rom: vec![1; 1 * PRG_ROM_PAGE_SIZE],
        chr_rom: vec![2; 1 * CHR_ROM_PAGE_SIZE],
    });
    let rom = Rom::new(&test_rom);
    match rom {
        Result::Ok(_) => assert!(false, "should not load rom"),
        Result::Err(str) => assert_eq!(str, "NES2.0 format is not supported"),
    }
}

#[test]
fn test_truncated_image_is_rejected() {
    let test_rom = create_rom(TestRom {
        header: vec![
            0x4E, 0x45, 0x53, 0x1A, 0x02, 0x01, 0x31, 00, 00, 00, 00, 00, 00, 00, 00, 00,
        ],
        trainer: None,
        pgp_rom: vec![1; PRG_ROM_PAGE_SIZE],
        chr_rom: vec![],
    });
    let rom = Rom::new(&test_rom);
    match rom {
        Result::Ok(_) => assert!(false, "should not load rom"),
        Result::Err(msg) => assert_eq!(msg, "File is truncated"),
    }
}

#[test]
fn test_bad_magic_is_rejected() {
    let mut raw = vec![0u8; 16 + PRG_ROM_PAGE_SIZE];
    raw[0] = 0x4E;
    let rom = Rom::new(&raw);
    match rom {
        Result::Ok(_) => assert!(false, "should not load rom"),
        Result::Err(msg) => assert_eq!(msg, "File is not in iNES file format"),
    }
}

#[test]
fn test_test_rom_shape() {
    let rom = runesco::cartridge::test_rom();
    assert_eq!(rom.prg_rom.len(), 2 * PRG_ROM_PAGE_SIZE);
    assert_eq!(rom.chr_rom.len(), CHR_ROM_PAGE_SIZE);
    assert_eq!(rom.mapper, 3);
    assert_eq!(rom.screen_mirroring, Mirroring::VERTICAL);
}
