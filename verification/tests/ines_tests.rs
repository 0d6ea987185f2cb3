use nes_core::ines::Rom;
use nes_core::ppu::Mirroring;

struct TestRom {
    header: Vec<u8>,
    trainer: Option<Vec<u8>>,
    prg_rom: Vec<u8>,
    chr_rom: Vec<u8>,
}

fn create_raw(rom: TestRom) -> Vec<u8> {
    let mut res = Vec::with_capacity(
        rom.header.len() + rom.trainer.as_ref().map_or(0, |v| v.len()) + rom.prg_rom.len()
            + rom.chr_rom.len(),
    );
    res.extend(&rom.header);
    if let Some(c) = rom.trainer {
        res.extend(c);
    }
    res.extend(&rom.prg_rom);
    res.extend(&rom.chr_rom);
    res
}

#[test]
fn test() {
    let raw = create_raw(TestRom {
        header: vec![
            0x4E, 0x45, 0x53, 0x1A, 0x02, 0x01, 0x31, 00, 00, 00, 00, 00, 00, 00, 00, 00,
        ],
        trainer: None,
        prg_rom: vec![1; 2 * 16384],
        chr_rom: vec![2; 1 * 8192],
    });
    let rom = Rom::analyze_raw(&raw).unwrap();

    assert_eq!(rom.chr_rom, vec!(2; 1 * 8192));
    assert_eq!(rom.prg_rom, vec!(1; 2 * 16384));
    assert_eq!(rom.mapper, 3);
    assert_eq!(rom.mirroring, Mirroring::Vertical);
}

#[test]
fn test_trainer_is_skipped() {
    let raw = create_raw(TestRom {
        header: vec![
            0x4E, 0x45, 0x53, 0x1A, 0x01, 0x01, 0b0000_0100, 00, 00, 00, 00, 00, 00, 00, 00, 00,
        ],
        trainer: Some(vec![9; 512]),
        prg_rom: vec![3; 16384],
        chr_rom: vec![4; 8192],
    });
    let rom = Rom::analyze_raw(&raw).unwrap();
    assert_eq!(rom.prg_rom[0], 3);
    assert_eq!(rom.chr_rom[0], 4);
    assert_eq!(rom.mirroring, Mirroring::Horizontal);
}

#[test]
fn test_four_screen_wins_over_vertical() {
    let raw = create_raw(TestRom {
        header: vec![
            0x4E, 0x45, 0x53, 0x1A, 0x01, 0x01, 0b0000_1001, 00, 00, 00, 00, 00, 00, 00, 00, 00,
        ],
        trainer: None,
        prg_rom: vec![0; 16384],
        chr_rom: vec![0; 8192],
    });
    let rom = Rom::analyze_raw(&raw).unwrap();
    assert_eq!(rom.mirroring, Mirroring::FourScreen);
}

#[test]
fn test_bad_magic_rejected() {
    let raw = create_raw(TestRom {
        header: vec![
            0x4E, 0x45, 0x53, 0x00, 0x01, 0x01, 0x00, 00, 00, 00, 00, 00, 00, 00, 00, 00,
        ],
        trainer: None,
        prg_rom: vec![0; 16384],
        chr_rom: vec![0; 8192],
    });
    assert!(matches!(Rom::analyze_raw(&raw), Err("Not iNES file format")));
}

#[test]
fn test_later_header_revision_rejected() {
    let raw = create_raw(TestRom {
        header: vec![
            0x4E, 0x45, 0x53, 0x1A, 0x01, 0x01, 0x00, 0b0000_1000, 00, 00, 00, 00, 00, 00, 00, 00,
        ],
        trainer: None,
        prg_rom: vec![0; 16384],
        chr_rom: vec![0; 8192],
    });
    assert!(matches!(Rom::analyze_raw(&raw), Err("Only iNES 1.0 is supported")));
}

#[test]
fn test_truncated_image_rejected() {
    let raw = create_raw(TestRom {
        header: vec![
            0x4E, 0x45, 0x53, 0x1A, 0x02, 0x01, 0x00, 00, 00, 00, 00, 00, 00, 00, 00, 00,
        ],
        trainer: None,
        prg_rom: vec![0; 16384],
        chr_rom: vec![0; 8192],
    });
    assert!(Rom::analyze_raw(&raw).is_err());
}
