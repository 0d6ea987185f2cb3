use nes_core::cpu::Cpu;
use nes_core::cpu::FLAG_CARRY;
use nes_core::cpu::FLAG_NEGATIVE;
use nes_core::cpu::FLAG_OVERFLOW;
use nes_core::cpu::FLAG_ZERO;
use nes_core::ines::Rom;
use nes_core::memory::Bus;
use nes_core::memory::Mem;

fn create_raw(header: Vec<u8>, prg_rom: Vec<u8>, chr_rom: Vec<u8>) -> Vec<u8> {
    let mut res = Vec::new();
    res.extend(&header);
    res.extend(&prg_rom);
    res.extend(&chr_rom);
    res
}

pub fn create_rom() -> Rom {
    let raw = create_raw(
        vec![
            0x4E, 0x45, 0x53, 0x1A, 0x02, 0x01, 0x31, 0x00, 0x00, 0x00, 0x00, 0x00, 0x00, 0x00,
            0x00, 0x00,
        ],
        vec![1; 2 * 16384],
        vec![2; 8192],
    );
    Rom::analyze_raw(&raw).unwrap()
}

fn cpu_with_program(prg: &[u8]) -> Cpu {
    let mut rom = create_rom();
    for i in 0..prg.len() {
        rom.prg_rom[i] = prg[i];
    }
    let bus = Bus::new(rom);
    let mut cpu = Cpu::new(bus);
    cpu.reset();
    cpu.pc = 0x8000;
    cpu
}

#[test]
fn test_0xa9_lda_immidiate_load_data() {
    let mut rom = create_rom();
    let prg = vec![0xa9, 0x05, 0x00];
    for i in 0..prg.len() {
        rom.prg_rom[i] = prg[i];
    }
    let bus = Bus::new(rom);
    let mut cpu = Cpu::new(bus);
    cpu.reset();
    cpu.pc = 0x8000;
    cpu.run().unwrap();
    assert!(cpu.stat.bits() & 0b0000_0010 == 0b00);
    assert!(cpu.stat.bits() & 0b1000_0000 == 0);
}

#[test]
fn test_0xa9_lda_zero_flag() {
    let mut rom = create_rom();
    let prg = vec![0xa9, 0x00, 0x00];
    for i in 0..prg.len() {
        rom.prg_rom[i] = prg[i];
    }
    let bus = Bus::new(rom);
    let mut cpu = Cpu::new(bus);
    cpu.reset();
    cpu.pc = 0x8000;
    cpu.run().unwrap();
    assert!(cpu.stat.contains(FLAG_ZERO));
}

#[test]
fn test_0xaa_tax_move_a_to_x() {
    let mut rom = create_rom();
    let prg = vec![0xa9, 0x0a, 0xaa, 0x00];
    for i in 0..prg.len() {
        rom.prg_rom[i] = prg[i];
    }
    let bus = Bus::new(rom);
    let mut cpu = Cpu::new(bus);
    cpu.reset();
    cpu.pc = 0x8000;
    cpu.run().unwrap();
    assert_eq!(cpu.x, 10)
}

#[test]
fn test_5_ops_working_together() {
    let mut rom = create_rom();
    let prg = vec![0xa9, 0xc0, 0xaa, 0xe8, 0x00];
    for i in 0..prg.len() {
        rom.prg_rom[i] = prg[i];
    }
    let bus = Bus::new(rom);
    let mut cpu = Cpu::new(bus);
    cpu.reset();
    cpu.pc = 0x8000;
    cpu.run().unwrap();
    assert_eq!(cpu.x, 0xc1)
}

#[test]
fn test_inx_overflow() {
    let mut rom = create_rom();
    let prg = vec![0xa2, 0xff, 0xe8, 0xe8, 0x00];
    for i in 0..prg.len() {
        rom.prg_rom[i] = prg[i];
    }
    let bus = Bus::new(rom);
    let mut cpu = Cpu::new(bus);
    cpu.reset();
    cpu.pc = 0x8000;
    cpu.run().unwrap();
    assert_eq!(cpu.x, 1)
}

#[test]
fn test_lda_from_memory() {
    let mut rom = create_rom();
    let prg = vec![0xa5, 0x10, 0x00];
    for i in 0..prg.len() {
        rom.prg_rom[i] = prg[i];
    }
    let bus = Bus::new(rom);
    let mut cpu = Cpu::new(bus);
    cpu.reset();
    cpu.pc = 0x8000;
    cpu.mem_write(0x10, 0x55).unwrap();
    cpu.run().unwrap();
    assert_eq!(cpu.a, 0x55);
}

#[test]
fn test_reset_vector_and_lda() {
    // Program at the start of ROM, reset vector pointing at it: after
    // reset the program counter comes from 0xFFFC/D.
    let mut rom = create_rom();
    let prg = vec![0xa9, 0x05, 0x00];
    for i in 0..prg.len() {
        rom.prg_rom[i] = prg[i];
    }
    rom.prg_rom[0x7ffc] = 0x00;
    rom.prg_rom[0x7ffd] = 0x80;
    let bus = Bus::new(rom);
    let mut cpu = Cpu::new(bus);
    cpu.reset();
    assert_eq!(cpu.pc, 0x8000);
    cpu.run().unwrap();
    assert_eq!(cpu.a, 5);
    assert!(!cpu.stat.contains(FLAG_ZERO));
    assert!(!cpu.stat.contains(FLAG_NEGATIVE));
}

#[test]
fn test_inx_overflow_flags() {
    // X wraps from 0xFF through 0x00 to 0x01: neither Zero nor Negative.
    let mut cpu = cpu_with_program(&[0xa2, 0xff, 0xe8, 0xe8, 0x00]);
    cpu.run().unwrap();
    assert_eq!(cpu.x, 0x01);
    assert!(!cpu.stat.contains(FLAG_ZERO));
    assert!(!cpu.stat.contains(FLAG_NEGATIVE));
}

#[test]
fn test_lda_negative_flag() {
    let mut cpu = cpu_with_program(&[0xa9, 0x80, 0x00]);
    cpu.run().unwrap();
    assert_eq!(cpu.a, 0x80);
    assert!(cpu.stat.contains(FLAG_NEGATIVE));
    assert!(!cpu.stat.contains(FLAG_ZERO));
}

#[test]
fn test_adc_then_sbc_round_trip() {
    // LDA #10, SEC, ADC #5 (10+5+1 = 16), SBC #5 (16-5-1 = 10): the
    // accumulator returns to its value before the pair and no overflow
    // is reported.
    let mut cpu = cpu_with_program(&[0xa9, 0x0a, 0x38, 0x69, 0x05, 0xe9, 0x05, 0x00]);
    cpu.run().unwrap();
    assert_eq!(cpu.a, 0x0a);
    assert!(!cpu.stat.contains(FLAG_OVERFLOW));
    assert!(cpu.stat.contains(FLAG_CARRY));
}

#[test]
fn test_adc_carry_and_overflow() {
    // CLC, LDA #0x7F, ADC #0x01: 0x80 with signed overflow, no carry.
    let mut cpu = cpu_with_program(&[0x18, 0xa9, 0x7f, 0x69, 0x01, 0x00]);
    cpu.run().unwrap();
    assert_eq!(cpu.a, 0x80);
    assert!(cpu.stat.contains(FLAG_OVERFLOW));
    assert!(!cpu.stat.contains(FLAG_CARRY));
    assert!(cpu.stat.contains(FLAG_NEGATIVE));
}

#[test]
fn test_cmp_flags_and_accumulator() {
    // LDA #5, CMP #3: A unchanged, Carry (5 >= 3), not Zero.
    let mut cpu = cpu_with_program(&[0xa9, 0x05, 0xc9, 0x03, 0x00]);
    cpu.run().unwrap();
    assert_eq!(cpu.a, 0x05);
    assert!(cpu.stat.contains(FLAG_CARRY));
    assert!(!cpu.stat.contains(FLAG_ZERO));
}

#[test]
fn test_cmp_equal_sets_zero_and_carry() {
    let mut cpu = cpu_with_program(&[0xa9, 0x05, 0xc9, 0x05, 0x00]);
    cpu.run().unwrap();
    assert_eq!(cpu.a, 0x05);
    assert!(cpu.stat.contains(FLAG_CARRY));
    assert!(cpu.stat.contains(FLAG_ZERO));
}

#[test]
fn test_cmp_less_clears_carry() {
    let mut cpu = cpu_with_program(&[0xa9, 0x02, 0xc9, 0x05, 0x00]);
    cpu.run().unwrap();
    assert_eq!(cpu.a, 0x02);
    assert!(!cpu.stat.contains(FLAG_CARRY));
    assert!(!cpu.stat.contains(FLAG_ZERO));
}

#[test]
fn test_pha_pla_round_trip() {
    // LDA #0x42, PHA, LDA #0, PLA: the accumulator comes back.
    let mut cpu = cpu_with_program(&[0xa9, 0x42, 0x48, 0xa9, 0x00, 0x68, 0x00]);
    let sp_before = 0xfd;
    cpu.run().unwrap();
    assert_eq!(cpu.a, 0x42);
    assert_eq!(cpu.sp, sp_before);
}

#[test]
fn test_php_plp_round_trip() {
    // SEC, PHP, CLC, PLP: the carry set before the push is set again
    // after the pop.
    let mut cpu = cpu_with_program(&[0x38, 0x08, 0x18, 0x28, 0x00]);
    cpu.run().unwrap();
    assert!(cpu.stat.contains(FLAG_CARRY));
}

#[test]
fn test_jsr_rts() {
    // JSR to a routine that loads X, RTS back, then load Y.
    // 0x8000: JSR 0x8006; 0x8003: LDY #2; 0x8005: BRK; 0x8006: LDX #1; RTS
    let mut cpu = cpu_with_program(&[
        0x20, 0x06, 0x80, 0xa0, 0x02, 0x00, 0xa2, 0x01, 0x60,
    ]);
    cpu.run().unwrap();
    assert_eq!(cpu.x, 1);
    assert_eq!(cpu.y, 2);
}

#[test]
fn test_branch_taken_and_not_taken() {
    // LDX #1, DEX (sets Zero), BNE +1 (not taken), BEQ +1 (taken over
    // the LDA #7), LDA #9.
    let mut cpu = cpu_with_program(&[
        0xa2, 0x01, 0xca, 0xd0, 0x02, 0xf0, 0x02, 0xa9, 0x07, 0xa9, 0x09, 0x00,
    ]);
    cpu.run().unwrap();
    assert_eq!(cpu.a, 0x09);
}

#[test]
fn test_asl_sets_carry_from_bit7() {
    // LDA #0x81, ASL A: result 0x02, carry from the bit shifted out.
    let mut cpu = cpu_with_program(&[0xa9, 0x81, 0x0a, 0x00]);
    cpu.run().unwrap();
    assert_eq!(cpu.a, 0x02);
    assert!(cpu.stat.contains(FLAG_CARRY));
}

#[test]
fn test_ror_rotates_through_carry() {
    // SEC, LDA #0x02, ROR A: carry rotates into bit 7, bit 0 out.
    let mut cpu = cpu_with_program(&[0x38, 0xa9, 0x02, 0x6a, 0x00]);
    cpu.run().unwrap();
    assert_eq!(cpu.a, 0x81);
    assert!(!cpu.stat.contains(FLAG_CARRY));
}

#[test]
fn test_sta_and_inc_memory() {
    // LDA #7, STA $10, INC $10, LDA $10.
    let mut cpu = cpu_with_program(&[0xa9, 0x07, 0x85, 0x10, 0xe6, 0x10, 0xa5, 0x10, 0x00]);
    cpu.run().unwrap();
    assert_eq!(cpu.a, 0x08);
}

#[test]
fn test_bit_copies_operand_bits() {
    // mem[0x10] = 0xC0; LDA #0x00; BIT $10: Zero (A & m == 0),
    // Negative from bit 7, Overflow from bit 6.
    let mut cpu = cpu_with_program(&[0xa9, 0x00, 0x24, 0x10, 0x00]);
    cpu.bus.mem_write(0x10, 0xc0).unwrap();
    cpu.run().unwrap();
    assert!(cpu.stat.contains(FLAG_ZERO));
    assert!(cpu.stat.contains(FLAG_NEGATIVE));
    assert!(cpu.stat.contains(FLAG_OVERFLOW));
}

#[test]
fn test_lax_loads_both_registers() {
    // mem[0x10] = 0x3E; LAX $10 (0xA7): A and X both loaded.
    let mut cpu = cpu_with_program(&[0xa7, 0x10, 0x00]);
    cpu.bus.mem_write(0x10, 0x3e).unwrap();
    cpu.run().unwrap();
    assert_eq!(cpu.a, 0x3e);
    assert_eq!(cpu.x, 0x3e);
}

#[test]
fn test_step_stops_on_brk() {
    let mut cpu = cpu_with_program(&[0xe8, 0x00]);
    assert_eq!(cpu.step().unwrap(), true);
    assert_eq!(cpu.x, 1);
    assert_eq!(cpu.step().unwrap(), false);
}
