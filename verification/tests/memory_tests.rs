use nes_core::errors::EmuError;
use nes_core::ines::Rom;
use nes_core::memory::Bus;
use nes_core::memory::Mem;

fn create_rom() -> Rom {
    let mut raw = vec![
        0x4E, 0x45, 0x53, 0x1A, 0x02, 0x01, 0x31, 0x00, 0x00, 0x00, 0x00, 0x00, 0x00, 0x00, 0x00,
        0x00,
    ];
    raw.extend(vec![1; 2 * 16384]);
    raw.extend(vec![2; 8192]);
    Rom::analyze_raw(&raw).unwrap()
}

fn small_rom() -> Rom {
    // A single 16 KiB page: the upper half of the address space mirrors it.
    let mut raw = vec![
        0x4E, 0x45, 0x53, 0x1A, 0x01, 0x01, 0x00, 0x00, 0x00, 0x00, 0x00, 0x00, 0x00, 0x00, 0x00,
        0x00,
    ];
    let mut prg = vec![0; 16384];
    prg[0] = 0xab;
    raw.extend(prg);
    raw.extend(vec![0; 8192]);
    Rom::analyze_raw(&raw).unwrap()
}

#[test]
fn test_ram_is_mirrored_through_0x1fff() {
    let mut bus = Bus::new(create_rom());
    bus.mem_write(0x0005, 0x42).unwrap();
    assert_eq!(bus.mem_read(0x0805).unwrap(), 0x42);
    assert_eq!(bus.mem_read(0x1805).unwrap(), 0x42);
}

#[test]
fn test_prg_rom_mirroring_for_16k_image() {
    let mut bus = Bus::new(small_rom());
    assert_eq!(bus.mem_read(0x8000).unwrap(), 0xab);
    assert_eq!(bus.mem_read(0xc000).unwrap(), 0xab);
}

#[test]
fn test_write_to_rom_is_fault() {
    let mut bus = Bus::new(create_rom());
    assert_eq!(bus.mem_write(0x8000, 1), Err(EmuError::WriteToPrgRom { addr: 0x8000 }));
}

#[test]
fn test_write_to_status_register_is_fault() {
    let mut bus = Bus::new(create_rom());
    assert_eq!(bus.mem_write(0x2002, 1), Err(EmuError::WriteToPpuStatus));
}

#[test]
fn test_unmapped_write_is_fault() {
    let mut bus = Bus::new(create_rom());
    assert_eq!(bus.mem_write(0x5000, 1), Err(EmuError::UnmappedWrite { addr: 0x5000 }));
}

#[test]
fn test_unmapped_and_write_only_reads_are_zero() {
    let mut bus = Bus::new(create_rom());
    assert_eq!(bus.mem_read(0x5000).unwrap(), 0);
    assert_eq!(bus.mem_read(0x2000).unwrap(), 0);
    assert_eq!(bus.mem_read(0x4016).unwrap(), 0);
}

#[test]
fn test_ppu_registers_mirrored_through_0x3fff() {
    // A data-port address written through the mirror at 0x3456 lands in
    // the address register as a write to 0x2006.
    let mut bus = Bus::new(create_rom());
    bus.mem_write(0x3456, 0x23).unwrap();
    bus.mem_write(0x3456, 0x05).unwrap();
    assert_eq!(bus.ppu.addr.get(), 0x2305);
}

#[test]
fn test_data_port_write_through_bus() {
    let mut bus = Bus::new(create_rom());
    bus.mem_write(0x2006, 0x23).unwrap();
    bus.mem_write(0x2006, 0x05).unwrap();
    bus.mem_write(0x2007, 0x66).unwrap();
    assert_eq!(bus.ppu.vram[0x0305], 0x66);
}

#[test]
fn test_oam_dma_copies_a_page() {
    let mut bus = Bus::new(create_rom());
    for i in 0..256u16 {
        bus.mem_write(0x0200 + i, i as u8).unwrap();
    }
    bus.mem_write(0x2003, 0x10).unwrap();
    bus.mem_write(0x4014, 0x02).unwrap();
    assert_eq!(bus.ppu.oam_data[0x10], 0);
    assert_eq!(bus.ppu.oam_data[0x11], 1);
    assert_eq!(bus.ppu.oam_data[0x0f], 0xff);
    // The cursor ends where it began.
    assert_eq!(bus.ppu.oam_addr, 0x10);
}

#[test]
fn test_mem_read_u16_little_endian() {
    let mut bus = Bus::new(create_rom());
    Mem::mem_write_u16(&mut bus, 0x10, 0x1234).unwrap();
    assert_eq!(Mem::mem_read_u16(&mut bus, 0x10).unwrap(), 0x1234);
    assert_eq!(bus.mem_read(0x10).unwrap(), 0x34);
    assert_eq!(bus.mem_read(0x11).unwrap(), 0x12);
}

#[test]
fn test_peek_has_no_side_effects() {
    let mut bus = Bus::new(create_rom());
    bus.ppu.stat.bits = 0x80;
    assert_eq!(bus.mem_peek(0x2002), 0);
    assert_eq!(bus.ppu.stat.bits, 0x80);
    // A routed read clears the flag.
    assert_eq!(bus.mem_read(0x2002).unwrap(), 0x80);
    assert_eq!(bus.ppu.stat.bits, 0);
}

#[test]
fn test_poll_nmi_takes_the_interrupt() {
    let mut bus = Bus::new(create_rom());
    bus.ppu.nmi_interrupt = Some(1);
    assert_eq!(bus.poll_nmi_status(), Some(1));
    assert_eq!(bus.poll_nmi_status(), None);
}

#[test]
fn test_tick_advances_three_ppu_cycles_per_cpu_cycle() {
    let mut bus = Bus::new(create_rom());
    bus.tick(10);
    assert_eq!(bus.ppu.cycles, 30);
    assert_eq!(bus.cycles, 10);
}

#[test]
fn test_frame_complete_latched_until_polled() {
    let mut bus = Bus::new(create_rom());
    // 341 * 262 picture-processor cycles = 29781 processor cycles, with
    // a remainder that a final smaller tick covers.
    for _ in 0..360 {
        bus.tick(85);
    }
    assert!(bus.poll_frame_complete());
    assert!(!bus.poll_frame_complete());
}
