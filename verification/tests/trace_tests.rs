use nes_core::cpu::Cpu;
use nes_core::ines::Rom;
use nes_core::memory::Bus;
use nes_core::trace::trace;

fn create_rom() -> Rom {
    let mut raw = vec![
        0x4E, 0x45, 0x53, 0x1A, 0x02, 0x01, 0x31, 0x00, 0x00, 0x00, 0x00, 0x00, 0x00, 0x00, 0x00,
        0x00,
    ];
    raw.extend(vec![1; 2 * 16384]);
    raw.extend(vec![2; 8192]);
    Rom::analyze_raw(&raw).unwrap()
}

fn run_collecting_traces(cpu: &mut Cpu) -> Vec<String> {
    let mut result: Vec<String> = vec![];
    loop {
        result.push(trace(cpu));
        match cpu.step() {
            Ok(true) => (),
            _ => break,
        }
    }
    result
}

#[test]
fn test_format_trace() {
    let mut bus = Bus::new(create_rom());
    bus.mem_write(100, 0xa2).unwrap();
    bus.mem_write(101, 0x01).unwrap();
    bus.mem_write(102, 0xca).unwrap();
    bus.mem_write(103, 0x88).unwrap();
    bus.mem_write(104, 0x00).unwrap();

    let mut cpu = Cpu::new(bus);
    cpu.pc = 100;
    cpu.a = 1;
    cpu.x = 2;
    cpu.y = 3;
    let result = run_collecting_traces(&mut cpu);
    assert_eq!(
        "0064  A2 01     LDX #$01                        A:01 X:02 Y:03 P:24 SP:FD",
        result[0]
    );
    assert_eq!(
        "0066  CA        DEX                             A:01 X:01 Y:03 P:24 SP:FD",
        result[1]
    );
    assert_eq!(
        "0067  88        DEY                             A:01 X:00 Y:03 P:26 SP:FD",
        result[2]
    );
}

#[test]
fn test_format_mem_access() {
    let mut bus = Bus::new(create_rom());
    // ORA ($33), Y
    bus.mem_write(100, 0x11).unwrap();
    bus.mem_write(101, 0x33).unwrap();

    //data
    bus.mem_write(0x33, 00).unwrap();
    bus.mem_write(0x34, 04).unwrap();

    //target cell
    bus.mem_write(0x400, 0xAA).unwrap();

    let mut cpu = Cpu::new(bus);
    cpu.pc = 0x64;
    cpu.y = 0;
    let result = run_collecting_traces(&mut cpu);
    assert_eq!(
        "0064  11 33     ORA ($33),Y = 0400 @ 0400 = AA  A:00 X:00 Y:00 P:24 SP:FD",
        result[0]
    );
}

#[test]
fn test_trace_absolute_and_accumulator_forms() {
    let mut bus = Bus::new(create_rom());
    // LDA $0123; ASL A; JMP $0064
    bus.mem_write(0x64, 0xad).unwrap();
    bus.mem_write(0x65, 0x23).unwrap();
    bus.mem_write(0x66, 0x01).unwrap();
    bus.mem_write(0x67, 0x0a).unwrap();
    bus.mem_write(0x68, 0x4c).unwrap();
    bus.mem_write(0x69, 0x64).unwrap();
    bus.mem_write(0x6a, 0x00).unwrap();
    bus.mem_write(0x0123, 0x5f).unwrap();

    let mut cpu = Cpu::new(bus);
    cpu.pc = 0x64;
    assert_eq!(
        "0064  AD 23 01  LDA $0123 = 5F                  A:00 X:00 Y:00 P:24 SP:FD",
        trace(&cpu)
    );
    cpu.step().unwrap();
    assert_eq!(
        "0067  0A        ASL A                           A:5F X:00 Y:00 P:24 SP:FD",
        trace(&cpu)
    );
    cpu.step().unwrap();
    assert_eq!(
        "0068  4C 64 00  JMP $0064                       A:BE X:00 Y:00 P:A4 SP:FD",
        trace(&cpu)
    );
}

#[test]
fn test_trace_branch_target() {
    let mut bus = Bus::new(create_rom());
    // BNE -2 from 0x66: target 0x0064.
    bus.mem_write(0x64, 0xd0).unwrap();
    bus.mem_write(0x65, 0xfe).unwrap();
    let mut cpu = Cpu::new(bus);
    cpu.pc = 0x64;
    assert_eq!(
        "0064  D0 FE     BNE $0064                       A:00 X:00 Y:00 P:24 SP:FD",
        trace(&cpu)
    );
}
