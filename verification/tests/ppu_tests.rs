use nes_core::errors::EmuError;
use nes_core::ppu::Mirroring;
use nes_core::ppu::Ppu;
use nes_core::ppu::STAT_VBLANK;

#[test]
fn test_ppu_vram_writes() {
    let mut ppu = Ppu::new_empty_rom();
    ppu.write_to_ppu_addr(0x23);
    ppu.write_to_ppu_addr(0x05);
    ppu.write_to_data(0x66).unwrap();

    assert_eq!(ppu.vram[0x0305], 0x66);
}

#[test]
fn test_ppu_vram_reads() {
    let mut ppu = Ppu::new_empty_rom();
    ppu.write_to_ctrl(0);
    ppu.vram[0x0305] = 0x66;

    ppu.write_to_ppu_addr(0x23);
    ppu.write_to_ppu_addr(0x05);

    ppu.read_data().unwrap(); //load_into_buffer
    assert_eq!(ppu.addr.get(), 0x2306);
    assert_eq!(ppu.read_data().unwrap(), 0x66);
}

#[test]
fn test_status_read_resets_latch() {
    // A stray single write leaves the latch on the low byte; reading the
    // status register resets it, so the next two writes assemble a full
    // address again.
    let mut ppu = Ppu::new_empty_rom();
    ppu.write_to_ppu_addr(0x21);
    ppu.read_status();
    ppu.write_to_ppu_addr(0x23);
    ppu.write_to_ppu_addr(0x05);
    assert_eq!(ppu.addr.get(), 0x2305);
}

#[test]
fn test_addr_masked_to_14_bits() {
    let mut ppu = Ppu::new_empty_rom();
    ppu.write_to_ppu_addr(0xff);
    ppu.write_to_ppu_addr(0xff);
    assert_eq!(ppu.addr.get(), 0x3fff);
}

#[test]
fn test_one_frame_per_field() {
    // Consuming exactly 341 * 262 cycles from the top of the frame
    // reports exactly one completed field, and the vertical-blank flag
    // rises once and is clear again at the end.
    let mut ppu = Ppu::new_empty_rom();
    let total: u32 = 341 * 262;
    let mut consumed: u32 = 0;
    let mut frames = 0;
    let mut rises = 0;
    let mut vblank = false;
    while consumed < total {
        let chunk = if total - consumed >= 100 { 100u8 } else { (total - consumed) as u8 };
        if ppu.tick(chunk) {
            frames += 1;
        }
        let now = ppu.stat.bits & STAT_VBLANK != 0;
        if now && !vblank {
            rises += 1;
        }
        vblank = now;
        consumed += chunk as u32;
    }
    assert_eq!(frames, 1);
    assert_eq!(rises, 1);
    assert!(ppu.stat.bits & STAT_VBLANK == 0);
    assert_eq!(ppu.scanline, 0);
}

#[test]
fn test_vblank_nmi_raised_at_scanline_241() {
    let mut ppu = Ppu::new_empty_rom();
    ppu.write_to_ctrl(0x80);
    let mut fired = false;
    for _ in 0..(341 * 242 / 100 + 1) {
        ppu.tick(100);
        if ppu.nmi_interrupt.is_some() {
            fired = true;
            break;
        }
    }
    assert!(fired);
    assert!(ppu.stat.bits & STAT_VBLANK != 0);
}

#[test]
fn test_ctrl_enable_during_vblank_raises_nmi() {
    // Turning the interrupt enable on while the vertical-blank flag is
    // already set raises the interrupt immediately.
    let mut ppu = Ppu::new_empty_rom();
    ppu.stat.bits = STAT_VBLANK;
    assert!(ppu.nmi_interrupt.is_none());
    ppu.write_to_ctrl(0x80);
    assert_eq!(ppu.nmi_interrupt, Some(1));
}

#[test]
fn test_vertical_mirroring_pairs() {
    // Under vertical mirroring the first and third logical nametables
    // share a page; under horizontal mirroring the first and second do.
    let v = Ppu::new(vec![0; 2048], Mirroring::Vertical);
    let h = Ppu::new(vec![0; 2048], Mirroring::Horizontal);
    for k in [0u16, 1, 0x123, 0x3ff] {
        assert_eq!(v.mirror_vram_addr(0x2000 + k), v.mirror_vram_addr(0x2800 + k));
        assert_eq!(h.mirror_vram_addr(0x2000 + k), h.mirror_vram_addr(0x2400 + k));
    }
    assert_eq!(v.mirror_vram_addr(0x2400), 0x400);
    assert_eq!(h.mirror_vram_addr(0x2800), 0x400);
}

#[test]
fn test_vertical_mirroring_observed_through_data_port() {
    // A write to 0x2000 + 5 under vertical mirroring reads back at
    // 0x2800 + 5 (buffered, so the second read returns it).
    let mut ppu = Ppu::new(vec![0; 2048], Mirroring::Vertical);
    ppu.write_to_ppu_addr(0x20);
    ppu.write_to_ppu_addr(0x05);
    ppu.write_to_data(0x77).unwrap();
    ppu.read_status();
    ppu.write_to_ppu_addr(0x28);
    ppu.write_to_ppu_addr(0x05);
    ppu.read_data().unwrap();
    assert_eq!(ppu.read_data().unwrap(), 0x77);
}

#[test]
fn test_data_port_increment_of_32() {
    let mut ppu = Ppu::new_empty_rom();
    ppu.write_to_ctrl(0b100);
    ppu.write_to_ppu_addr(0x21);
    ppu.write_to_ppu_addr(0x00);
    ppu.write_to_data(0x11).unwrap();
    assert_eq!(ppu.addr.get(), 0x2120);
}

#[test]
fn test_palette_reads_are_immediate_and_mirrored() {
    let mut ppu = Ppu::new_empty_rom();
    ppu.write_to_ppu_addr(0x3f);
    ppu.write_to_ppu_addr(0x10);
    ppu.write_to_data(0x2a).unwrap();
    // 0x3f10 aliases 0x3f00.
    ppu.read_status();
    ppu.write_to_ppu_addr(0x3f);
    ppu.write_to_ppu_addr(0x00);
    assert_eq!(ppu.read_data().unwrap(), 0x2a);
}

#[test]
fn test_write_to_chr_region_is_fault() {
    let mut ppu = Ppu::new_empty_rom();
    ppu.write_to_ppu_addr(0x10);
    ppu.write_to_ppu_addr(0x00);
    assert_eq!(ppu.write_to_data(1), Err(EmuError::WriteToChrRom { addr: 0x1000 }));
}

#[test]
fn test_forbidden_range_is_fault() {
    let mut ppu = Ppu::new_empty_rom();
    ppu.write_to_ppu_addr(0x30);
    ppu.write_to_ppu_addr(0x00);
    assert_eq!(ppu.write_to_data(1), Err(EmuError::PpuForbiddenRange { addr: 0x3000 }));
    assert_eq!(ppu.read_data(), Err(EmuError::PpuForbiddenRange { addr: 0x3000 }));
}

#[test]
fn test_oam_data_cursor() {
    let mut ppu = Ppu::new_empty_rom();
    ppu.write_to_oam_addr(0x10);
    ppu.write_to_oam_data(0x66);
    ppu.write_to_oam_data(0x77);
    ppu.write_to_oam_addr(0x10);
    assert_eq!(ppu.read_oam_data(), 0x66);
    ppu.write_to_oam_addr(0x11);
    assert_eq!(ppu.read_oam_data(), 0x77);
}

#[test]
fn test_status_read_clears_vblank() {
    let mut ppu = Ppu::new_empty_rom();
    ppu.stat.bits = STAT_VBLANK;
    let snapshot = ppu.read_status();
    assert_eq!(snapshot, STAT_VBLANK);
    assert_eq!(ppu.stat.bits & STAT_VBLANK, 0);
}
