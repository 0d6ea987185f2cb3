//! The instruction table: a read-only mapping from each of the 256
//! opcode bytes to its mnemonic, byte length, base cycle count and
//! addressing mode. Byte length is determined by the addressing mode.

use vstd::prelude::*;

use crate::cpu::AddressingMode;

verus! {

/// One row of the instruction table.
pub struct Instruction {
    pub opcode: u8,
    pub mnemonic: &'static str,
    pub len: u8,
    pub cycles: u8,
    pub mode: AddressingMode,
}

impl Instruction {
    pub fn new(opcode: u8, mnemonic: &'static str, len: u8, cycles: u8, mode: AddressingMode) -> (r:
        Instruction)
        ensures
            r.opcode == opcode,
            r.mnemonic@ == mnemonic@,
            r.len == len,
            r.cycles == cycles,
            r.mode == mode,
    {
        Instruction { opcode, mnemonic, len, cycles, mode }
    }
}

/// The addressing mode of each opcode.
pub open spec fn mode_spec(op: u8) -> AddressingMode {
    match op {
        0x09 | 0x0b | 0x29 | 0x2b | 0x49 | 0x4b | 0x69 | 0x6b | 0x80 | 0x82 | 0x89 | 0x8b | 0xa0 | 0xa2 | 0xa9 | 0xab | 0xc0 | 0xc2 | 0xc9 | 0xcb | 0xe0 | 0xe2 | 0xe9 | 0xeb => AddressingMode::Immediate,
        0x04 | 0x05 | 0x06 | 0x07 | 0x24 | 0x25 | 0x26 | 0x27 | 0x44 | 0x45 | 0x46 | 0x47 | 0x64 | 0x65 | 0x66 | 0x67 | 0x84 | 0x85 | 0x86 | 0x87 | 0xa4 | 0xa5 | 0xa6 | 0xa7 | 0xc4 | 0xc5 | 0xc6 | 0xc7 | 0xe4 | 0xe5 | 0xe6 | 0xe7 => AddressingMode::ZeroPage,
        0x14 | 0x15 | 0x16 | 0x17 | 0x34 | 0x35 | 0x36 | 0x37 | 0x54 | 0x55 | 0x56 | 0x57 | 0x74 | 0x75 | 0x76 | 0x77 | 0x94 | 0x95 | 0xb4 | 0xb5 | 0xd4 | 0xd5 | 0xd6 | 0xd7 | 0xf4 | 0xf5 | 0xf6 | 0xf7 => AddressingMode::ZeroPageX,
        0x96 | 0x97 | 0xb6 | 0xb7 => AddressingMode::ZeroPageY,
        0x0c | 0x0d | 0x0e | 0x0f | 0x20 | 0x2c | 0x2d | 0x2e | 0x2f | 0x4c | 0x4d | 0x4e | 0x4f | 0x6c | 0x6d | 0x6e | 0x6f | 0x8c | 0x8d | 0x8e | 0x8f | 0xac | 0xad | 0xae | 0xaf | 0xcc | 0xcd | 0xce | 0xcf | 0xec | 0xed | 0xee | 0xef => AddressingMode::Absolute,
        0x1c | 0x1d | 0x1e | 0x1f | 0x3c | 0x3d | 0x3e | 0x3f | 0x5c | 0x5d | 0x5e | 0x5f | 0x7c | 0x7d | 0x7e | 0x7f | 0x9c | 0x9d | 0xbc | 0xbd | 0xdc | 0xdd | 0xde | 0xdf | 0xfc | 0xfd | 0xfe | 0xff => AddressingMode::AbsoluteX,
        0x19 | 0x1b | 0x39 | 0x3b | 0x59 | 0x5b | 0x79 | 0x7b | 0x99 | 0x9b | 0x9e | 0x9f | 0xb9 | 0xbb | 0xbe | 0xbf | 0xd9 | 0xdb | 0xf9 | 0xfb => AddressingMode::AbsoluteY,
        0x01 | 0x03 | 0x21 | 0x23 | 0x41 | 0x43 | 0x61 | 0x63 | 0x81 | 0x83 | 0xa1 | 0xa3 | 0xc1 | 0xc3 | 0xe1 | 0xe3 => AddressingMode::IndirectX,
        0x11 | 0x13 | 0x31 | 0x33 | 0x51 | 0x53 | 0x71 | 0x73 | 0x91 | 0x93 | 0xb1 | 0xb3 | 0xd1 | 0xd3 | 0xf1 | 0xf3 => AddressingMode::IndirectY,
        0x10 | 0x30 | 0x50 | 0x70 | 0x90 | 0xb0 | 0xd0 | 0xf0 => AddressingMode::Relative,
        _ => AddressingMode::Implied,
    }
}

/// The number of bytes an instruction with the given mode occupies.
pub open spec fn mode_len_spec(m: AddressingMode) -> u8 {
    match m {
        AddressingMode::Implied => 1,
        AddressingMode::Absolute => 3,
        AddressingMode::AbsoluteX => 3,
        AddressingMode::AbsoluteY => 3,
        _ => 2,
    }
}

/// The base cycle count of each opcode.
pub open spec fn cycles_spec(op: u8) -> u8 {
    match op {
        0x02 | 0x09 | 0x0a | 0x0b | 0x10 | 0x12 | 0x18 | 0x1a | 0x22 | 0x29 | 0x2a | 0x2b | 0x30 | 0x32 | 0x38 | 0x3a | 0x42 | 0x49 | 0x4a | 0x4b | 0x50 | 0x52 | 0x58 | 0x5a | 0x62 | 0x69 | 0x6a | 0x6b | 0x70 | 0x72 | 0x78 | 0x7a | 0x80 | 0x82 | 0x88 | 0x89 | 0x8a | 0x8b | 0x90 | 0x92 | 0x98 | 0x9a | 0xa0 | 0xa2 | 0xa8 | 0xa9 | 0xaa | 0xab | 0xb0 | 0xb2 | 0xb8 | 0xba | 0xc0 | 0xc2 | 0xc8 | 0xc9 | 0xca | 0xcb | 0xd0 | 0xd2 | 0xd8 | 0xda | 0xe0 | 0xe2 | 0xe8 | 0xe9 | 0xea | 0xeb | 0xf0 | 0xf2 | 0xf8 | 0xfa => 2,
        0x04 | 0x05 | 0x08 | 0x24 | 0x25 | 0x44 | 0x45 | 0x48 | 0x4c | 0x64 | 0x65 | 0x84 | 0x85 | 0x86 | 0x87 | 0xa4 | 0xa5 | 0xa6 | 0xa7 | 0xc4 | 0xc5 | 0xe4 | 0xe5 => 3,
        0x0c | 0x0d | 0x14 | 0x15 | 0x19 | 0x1c | 0x1d | 0x28 | 0x2c | 0x2d | 0x34 | 0x35 | 0x39 | 0x3c | 0x3d | 0x4d | 0x54 | 0x55 | 0x59 | 0x5c | 0x5d | 0x68 | 0x6d | 0x74 | 0x75 | 0x79 | 0x7c | 0x7d | 0x8c | 0x8d | 0x8e | 0x8f | 0x94 | 0x95 | 0x96 | 0x97 | 0xac | 0xad | 0xae | 0xaf | 0xb4 | 0xb5 | 0xb6 | 0xb7 | 0xb9 | 0xbb | 0xbc | 0xbd | 0xbe | 0xbf | 0xcc | 0xcd | 0xd4 | 0xd5 | 0xd9 | 0xdc | 0xdd | 0xec | 0xed | 0xf4 | 0xf5 | 0xf9 | 0xfc | 0xfd => 4,
        0x06 | 0x07 | 0x11 | 0x26 | 0x27 | 0x31 | 0x46 | 0x47 | 0x51 | 0x66 | 0x67 | 0x6c | 0x71 | 0x99 | 0x9b | 0x9c | 0x9d | 0x9e | 0x9f | 0xb1 | 0xb3 | 0xc6 | 0xc7 | 0xd1 | 0xe6 | 0xe7 | 0xf1 => 5,
        0x01 | 0x0e | 0x0f | 0x16 | 0x17 | 0x20 | 0x21 | 0x2e | 0x2f | 0x36 | 0x37 | 0x40 | 0x41 | 0x4e | 0x4f | 0x56 | 0x57 | 0x60 | 0x61 | 0x6e | 0x6f | 0x76 | 0x77 | 0x81 | 0x83 | 0x91 | 0x93 | 0xa1 | 0xa3 | 0xc1 | 0xce | 0xcf | 0xd6 | 0xd7 | 0xe1 | 0xee | 0xef | 0xf6 | 0xf7 => 6,
        0x00 | 0x1b | 0x1e | 0x1f | 0x3b | 0x3e | 0x3f | 0x5b | 0x5e | 0x5f | 0x7b | 0x7e | 0x7f | 0xdb | 0xde | 0xdf | 0xfb | 0xfe | 0xff => 7,
        _ => 8,
    }
}

/// The three-letter mnemonic of each opcode.
pub open spec fn mnemonic_spec(op: u8) -> Seq<char> {
    match op {
        0x4b => "ALR"@,
        0x6b => "ARR"@,
        0xcb => "AXS"@,
        0x90 => "BCC"@,
        0xb0 => "BCS"@,
        0xf0 => "BEQ"@,
        0x30 => "BMI"@,
        0xd0 => "BNE"@,
        0x10 => "BPL"@,
        0x00 => "BRK"@,
        0x50 => "BVC"@,
        0x70 => "BVS"@,
        0x18 => "CLC"@,
        0xd8 => "CLD"@,
        0x58 => "CLI"@,
        0xb8 => "CLV"@,
        0xca => "DEX"@,
        0x88 => "DEY"@,
        0xe8 => "INX"@,
        0xc8 => "INY"@,
        0x20 => "JSR"@,
        0xbb => "LAS"@,
        0xab => "LXA"@,
        0x48 => "PHA"@,
        0x08 => "PHP"@,
        0x68 => "PLA"@,
        0x28 => "PLP"@,
        0x40 => "RTI"@,
        0x60 => "RTS"@,
        0x38 => "SEC"@,
        0xf8 => "SED"@,
        0x78 => "SEI"@,
        0x9e => "SHX"@,
        0x9c => "SHY"@,
        0x9b => "TAS"@,
        0xaa => "TAX"@,
        0xa8 => "TAY"@,
        0xba => "TSX"@,
        0x8a => "TXA"@,
        0x9a => "TXS"@,
        0x98 => "TYA"@,
        0x8b => "XAA"@,
        0x93 | 0x9f => "AHX"@,
        0x0b | 0x2b => "ANC"@,
        0x24 | 0x2c => "BIT"@,
        0x4c | 0x6c => "JMP"@,
        0xe0 | 0xe4 | 0xec => "CPX"@,
        0xc0 | 0xc4 | 0xcc => "CPY"@,
        0x86 | 0x8e | 0x96 => "STX"@,
        0x84 | 0x8c | 0x94 => "STY"@,
        0xc6 | 0xce | 0xd6 | 0xde => "DEC"@,
        0xe6 | 0xee | 0xf6 | 0xfe => "INC"@,
        0x83 | 0x87 | 0x8f | 0x97 => "SAX"@,
        0x06 | 0x0a | 0x0e | 0x16 | 0x1e => "ASL"@,
        0xa2 | 0xa6 | 0xae | 0xb6 | 0xbe => "LDX"@,
        0xa0 | 0xa4 | 0xac | 0xb4 | 0xbc => "LDY"@,
        0x46 | 0x4a | 0x4e | 0x56 | 0x5e => "LSR"@,
        0x26 | 0x2a | 0x2e | 0x36 | 0x3e => "ROL"@,
        0x66 | 0x6a | 0x6e | 0x76 | 0x7e => "ROR"@,
        0xa3 | 0xa7 | 0xaf | 0xb3 | 0xb7 | 0xbf => "LAX"@,
        0xc3 | 0xc7 | 0xcf | 0xd3 | 0xd7 | 0xdb | 0xdf => "DCP"@,
        0xe3 | 0xe7 | 0xef | 0xf3 | 0xf7 | 0xfb | 0xff => "ISB"@,
        0x23 | 0x27 | 0x2f | 0x33 | 0x37 | 0x3b | 0x3f => "RLA"@,
        0x63 | 0x67 | 0x6f | 0x73 | 0x77 | 0x7b | 0x7f => "RRA"@,
        0x03 | 0x07 | 0x0f | 0x13 | 0x17 | 0x1b | 0x1f => "SLO"@,
        0x43 | 0x47 | 0x4f | 0x53 | 0x57 | 0x5b | 0x5f => "SRE"@,
        0x81 | 0x85 | 0x8d | 0x91 | 0x95 | 0x99 | 0x9d => "STA"@,
        0x61 | 0x65 | 0x69 | 0x6d | 0x71 | 0x75 | 0x79 | 0x7d => "ADC"@,
        0x21 | 0x25 | 0x29 | 0x2d | 0x31 | 0x35 | 0x39 | 0x3d => "AND"@,
        0xc1 | 0xc5 | 0xc9 | 0xcd | 0xd1 | 0xd5 | 0xd9 | 0xdd => "CMP"@,
        0x41 | 0x45 | 0x49 | 0x4d | 0x51 | 0x55 | 0x59 | 0x5d => "EOR"@,
        0xa1 | 0xa5 | 0xa9 | 0xad | 0xb1 | 0xb5 | 0xb9 | 0xbd => "LDA"@,
        0x01 | 0x05 | 0x09 | 0x0d | 0x11 | 0x15 | 0x19 | 0x1d => "ORA"@,
        0xe1 | 0xe5 | 0xe9 | 0xeb | 0xed | 0xf1 | 0xf5 | 0xf9 | 0xfd => "SBC"@,
        _ => "NOP"@,
    }
}

/// The addressing mode of an opcode.
pub fn mode_of(op: u8) -> (m: AddressingMode)
    ensures
        m == mode_spec(op),
{
    match op {
        0x09 | 0x0b | 0x29 | 0x2b | 0x49 | 0x4b | 0x69 | 0x6b | 0x80 | 0x82 | 0x89 | 0x8b | 0xa0 | 0xa2 | 0xa9 | 0xab | 0xc0 | 0xc2 | 0xc9 | 0xcb | 0xe0 | 0xe2 | 0xe9 | 0xeb => AddressingMode::Immediate,
        0x04 | 0x05 | 0x06 | 0x07 | 0x24 | 0x25 | 0x26 | 0x27 | 0x44 | 0x45 | 0x46 | 0x47 | 0x64 | 0x65 | 0x66 | 0x67 | 0x84 | 0x85 | 0x86 | 0x87 | 0xa4 | 0xa5 | 0xa6 | 0xa7 | 0xc4 | 0xc5 | 0xc6 | 0xc7 | 0xe4 | 0xe5 | 0xe6 | 0xe7 => AddressingMode::ZeroPage,
        0x14 | 0x15 | 0x16 | 0x17 | 0x34 | 0x35 | 0x36 | 0x37 | 0x54 | 0x55 | 0x56 | 0x57 | 0x74 | 0x75 | 0x76 | 0x77 | 0x94 | 0x95 | 0xb4 | 0xb5 | 0xd4 | 0xd5 | 0xd6 | 0xd7 | 0xf4 | 0xf5 | 0xf6 | 0xf7 => AddressingMode::ZeroPageX,
        0x96 | 0x97 | 0xb6 | 0xb7 => AddressingMode::ZeroPageY,
        0x0c | 0x0d | 0x0e | 0x0f | 0x20 | 0x2c | 0x2d | 0x2e | 0x2f | 0x4c | 0x4d | 0x4e | 0x4f | 0x6c | 0x6d | 0x6e | 0x6f | 0x8c | 0x8d | 0x8e | 0x8f | 0xac | 0xad | 0xae | 0xaf | 0xcc | 0xcd | 0xce | 0xcf | 0xec | 0xed | 0xee | 0xef => AddressingMode::Absolute,
        0x1c | 0x1d | 0x1e | 0x1f | 0x3c | 0x3d | 0x3e | 0x3f | 0x5c | 0x5d | 0x5e | 0x5f | 0x7c | 0x7d | 0x7e | 0x7f | 0x9c | 0x9d | 0xbc | 0xbd | 0xdc | 0xdd | 0xde | 0xdf | 0xfc | 0xfd | 0xfe | 0xff => AddressingMode::AbsoluteX,
        0x19 | 0x1b | 0x39 | 0x3b | 0x59 | 0x5b | 0x79 | 0x7b | 0x99 | 0x9b | 0x9e | 0x9f | 0xb9 | 0xbb | 0xbe | 0xbf | 0xd9 | 0xdb | 0xf9 | 0xfb => AddressingMode::AbsoluteY,
        0x01 | 0x03 | 0x21 | 0x23 | 0x41 | 0x43 | 0x61 | 0x63 | 0x81 | 0x83 | 0xa1 | 0xa3 | 0xc1 | 0xc3 | 0xe1 | 0xe3 => AddressingMode::IndirectX,
        0x11 | 0x13 | 0x31 | 0x33 | 0x51 | 0x53 | 0x71 | 0x73 | 0x91 | 0x93 | 0xb1 | 0xb3 | 0xd1 | 0xd3 | 0xf1 | 0xf3 => AddressingMode::IndirectY,
        0x10 | 0x30 | 0x50 | 0x70 | 0x90 | 0xb0 | 0xd0 | 0xf0 => AddressingMode::Relative,
        _ => AddressingMode::Implied,
    }
}

/// The number of bytes an instruction with the given mode occupies.
pub fn len_of_mode(m: AddressingMode) -> (l: u8)
    ensures
        l == mode_len_spec(m),
{
    match m {
        AddressingMode::Implied => 1,
        AddressingMode::Absolute => 3,
        AddressingMode::AbsoluteX => 3,
        AddressingMode::AbsoluteY => 3,
        _ => 2,
    }
}

/// The base cycle count of an opcode.
pub fn cycles_of(op: u8) -> (c: u8)
    ensures
        c == cycles_spec(op),
{
    match op {
        0x02 | 0x09 | 0x0a | 0x0b | 0x10 | 0x12 | 0x18 | 0x1a | 0x22 | 0x29 | 0x2a | 0x2b | 0x30 | 0x32 | 0x38 | 0x3a | 0x42 | 0x49 | 0x4a | 0x4b | 0x50 | 0x52 | 0x58 | 0x5a | 0x62 | 0x69 | 0x6a | 0x6b | 0x70 | 0x72 | 0x78 | 0x7a | 0x80 | 0x82 | 0x88 | 0x89 | 0x8a | 0x8b | 0x90 | 0x92 | 0x98 | 0x9a | 0xa0 | 0xa2 | 0xa8 | 0xa9 | 0xaa | 0xab | 0xb0 | 0xb2 | 0xb8 | 0xba | 0xc0 | 0xc2 | 0xc8 | 0xc9 | 0xca | 0xcb | 0xd0 | 0xd2 | 0xd8 | 0xda | 0xe0 | 0xe2 | 0xe8 | 0xe9 | 0xea | 0xeb | 0xf0 | 0xf2 | 0xf8 | 0xfa => 2,
        0x04 | 0x05 | 0x08 | 0x24 | 0x25 | 0x44 | 0x45 | 0x48 | 0x4c | 0x64 | 0x65 | 0x84 | 0x85 | 0x86 | 0x87 | 0xa4 | 0xa5 | 0xa6 | 0xa7 | 0xc4 | 0xc5 | 0xe4 | 0xe5 => 3,
        0x0c | 0x0d | 0x14 | 0x15 | 0x19 | 0x1c | 0x1d | 0x28 | 0x2c | 0x2d | 0x34 | 0x35 | 0x39 | 0x3c | 0x3d | 0x4d | 0x54 | 0x55 | 0x59 | 0x5c | 0x5d | 0x68 | 0x6d | 0x74 | 0x75 | 0x79 | 0x7c | 0x7d | 0x8c | 0x8d | 0x8e | 0x8f | 0x94 | 0x95 | 0x96 | 0x97 | 0xac | 0xad | 0xae | 0xaf | 0xb4 | 0xb5 | 0xb6 | 0xb7 | 0xb9 | 0xbb | 0xbc | 0xbd | 0xbe | 0xbf | 0xcc | 0xcd | 0xd4 | 0xd5 | 0xd9 | 0xdc | 0xdd | 0xec | 0xed | 0xf4 | 0xf5 | 0xf9 | 0xfc | 0xfd => 4,
        0x06 | 0x07 | 0x11 | 0x26 | 0x27 | 0x31 | 0x46 | 0x47 | 0x51 | 0x66 | 0x67 | 0x6c | 0x71 | 0x99 | 0x9b | 0x9c | 0x9d | 0x9e | 0x9f | 0xb1 | 0xb3 | 0xc6 | 0xc7 | 0xd1 | 0xe6 | 0xe7 | 0xf1 => 5,
        0x01 | 0x0e | 0x0f | 0x16 | 0x17 | 0x20 | 0x21 | 0x2e | 0x2f | 0x36 | 0x37 | 0x40 | 0x41 | 0x4e | 0x4f | 0x56 | 0x57 | 0x60 | 0x61 | 0x6e | 0x6f | 0x76 | 0x77 | 0x81 | 0x83 | 0x91 | 0x93 | 0xa1 | 0xa3 | 0xc1 | 0xce | 0xcf | 0xd6 | 0xd7 | 0xe1 | 0xee | 0xef | 0xf6 | 0xf7 => 6,
        0x00 | 0x1b | 0x1e | 0x1f | 0x3b | 0x3e | 0x3f | 0x5b | 0x5e | 0x5f | 0x7b | 0x7e | 0x7f | 0xdb | 0xde | 0xdf | 0xfb | 0xfe | 0xff => 7,
        _ => 8,
    }
}

/// The three-letter mnemonic of an opcode.
pub fn mnemonic_of(op: u8) -> (s: &'static str)
    ensures
        s@ == mnemonic_spec(op),
{
    match op {
        0x4b => "ALR",
        0x6b => "ARR",
        0xcb => "AXS",
        0x90 => "BCC",
        0xb0 => "BCS",
        0xf0 => "BEQ",
        0x30 => "BMI",
        0xd0 => "BNE",
        0x10 => "BPL",
        0x00 => "BRK",
        0x50 => "BVC",
        0x70 => "BVS",
        0x18 => "CLC",
        0xd8 => "CLD",
        0x58 => "CLI",
        0xb8 => "CLV",
        0xca => "DEX",
        0x88 => "DEY",
        0xe8 => "INX",
        0xc8 => "INY",
        0x20 => "JSR",
        0xbb => "LAS",
        0xab => "LXA",
        0x48 => "PHA",
        0x08 => "PHP",
        0x68 => "PLA",
        0x28 => "PLP",
        0x40 => "RTI",
        0x60 => "RTS",
        0x38 => "SEC",
        0xf8 => "SED",
        0x78 => "SEI",
        0x9e => "SHX",
        0x9c => "SHY",
        0x9b => "TAS",
        0xaa => "TAX",
        0xa8 => "TAY",
        0xba => "TSX",
        0x8a => "TXA",
        0x9a => "TXS",
        0x98 => "TYA",
        0x8b => "XAA",
        0x93 | 0x9f => "AHX",
        0x0b | 0x2b => "ANC",
        0x24 | 0x2c => "BIT",
        0x4c | 0x6c => "JMP",
        0xe0 | 0xe4 | 0xec => "CPX",
        0xc0 | 0xc4 | 0xcc => "CPY",
        0x86 | 0x8e | 0x96 => "STX",
        0x84 | 0x8c | 0x94 => "STY",
        0xc6 | 0xce | 0xd6 | 0xde => "DEC",
        0xe6 | 0xee | 0xf6 | 0xfe => "INC",
        0x83 | 0x87 | 0x8f | 0x97 => "SAX",
        0x06 | 0x0a | 0x0e | 0x16 | 0x1e => "ASL",
        0xa2 | 0xa6 | 0xae | 0xb6 | 0xbe => "LDX",
        0xa0 | 0xa4 | 0xac | 0xb4 | 0xbc => "LDY",
        0x46 | 0x4a | 0x4e | 0x56 | 0x5e => "LSR",
        0x26 | 0x2a | 0x2e | 0x36 | 0x3e => "ROL",
        0x66 | 0x6a | 0x6e | 0x76 | 0x7e => "ROR",
        0xa3 | 0xa7 | 0xaf | 0xb3 | 0xb7 | 0xbf => "LAX",
        0xc3 | 0xc7 | 0xcf | 0xd3 | 0xd7 | 0xdb | 0xdf => "DCP",
        0xe3 | 0xe7 | 0xef | 0xf3 | 0xf7 | 0xfb | 0xff => "ISB",
        0x23 | 0x27 | 0x2f | 0x33 | 0x37 | 0x3b | 0x3f => "RLA",
        0x63 | 0x67 | 0x6f | 0x73 | 0x77 | 0x7b | 0x7f => "RRA",
        0x03 | 0x07 | 0x0f | 0x13 | 0x17 | 0x1b | 0x1f => "SLO",
        0x43 | 0x47 | 0x4f | 0x53 | 0x57 | 0x5b | 0x5f => "SRE",
        0x81 | 0x85 | 0x8d | 0x91 | 0x95 | 0x99 | 0x9d => "STA",
        0x61 | 0x65 | 0x69 | 0x6d | 0x71 | 0x75 | 0x79 | 0x7d => "ADC",
        0x21 | 0x25 | 0x29 | 0x2d | 0x31 | 0x35 | 0x39 | 0x3d => "AND",
        0xc1 | 0xc5 | 0xc9 | 0xcd | 0xd1 | 0xd5 | 0xd9 | 0xdd => "CMP",
        0x41 | 0x45 | 0x49 | 0x4d | 0x51 | 0x55 | 0x59 | 0x5d => "EOR",
        0xa1 | 0xa5 | 0xa9 | 0xad | 0xb1 | 0xb5 | 0xb9 | 0xbd => "LDA",
        0x01 | 0x05 | 0x09 | 0x0d | 0x11 | 0x15 | 0x19 | 0x1d => "ORA",
        0xe1 | 0xe5 | 0xe9 | 0xeb | 0xed | 0xf1 | 0xf5 | 0xf9 | 0xfd => "SBC",
        _ => "NOP",
    }
}

/// Look an opcode up in the table. Every opcode byte is recognized:
/// the documented set, and the undocumented forms with their commonly
/// cited behaviour.
pub fn lookup(op: u8) -> (r: Instruction)
    ensures
        r.opcode == op,
        r.mode == mode_spec(op),
        r.cycles == cycles_spec(op),
        r.len == mode_len_spec(mode_spec(op)),
        r.mnemonic@ == mnemonic_spec(op),
{
    let mode = mode_of(op);
    let len = len_of_mode(mode);
    Instruction::new(op, mnemonic_of(op), len, cycles_of(op), mode)
}

/// The three ASCII codes of an opcode's mnemonic.
pub open spec fn mnemonic_code_spec(op: u8) -> (u8, u8, u8) {
    match op {
        0x00 => (0x42, 0x52, 0x4b),  // BRK
        0x08 => (0x50, 0x48, 0x50),  // PHP
        0x10 => (0x42, 0x50, 0x4c),  // BPL
        0x18 => (0x43, 0x4c, 0x43),  // CLC
        0x20 => (0x4a, 0x53, 0x52),  // JSR
        0x28 => (0x50, 0x4c, 0x50),  // PLP
        0x30 => (0x42, 0x4d, 0x49),  // BMI
        0x38 => (0x53, 0x45, 0x43),  // SEC
        0x40 => (0x52, 0x54, 0x49),  // RTI
        0x48 => (0x50, 0x48, 0x41),  // PHA
        0x4b => (0x41, 0x4c, 0x52),  // ALR
        0x50 => (0x42, 0x56, 0x43),  // BVC
        0x58 => (0x43, 0x4c, 0x49),  // CLI
        0x60 => (0x52, 0x54, 0x53),  // RTS
        0x68 => (0x50, 0x4c, 0x41),  // PLA
        0x6b => (0x41, 0x52, 0x52),  // ARR
        0x70 => (0x42, 0x56, 0x53),  // BVS
        0x78 => (0x53, 0x45, 0x49),  // SEI
        0x88 => (0x44, 0x45, 0x59),  // DEY
        0x8a => (0x54, 0x58, 0x41),  // TXA
        0x8b => (0x58, 0x41, 0x41),  // XAA
        0x90 => (0x42, 0x43, 0x43),  // BCC
        0x98 => (0x54, 0x59, 0x41),  // TYA
        0x9a => (0x54, 0x58, 0x53),  // TXS
        0x9b => (0x54, 0x41, 0x53),  // TAS
        0x9c => (0x53, 0x48, 0x59),  // SHY
        0x9e => (0x53, 0x48, 0x58),  // SHX
        0xa8 => (0x54, 0x41, 0x59),  // TAY
        0xaa => (0x54, 0x41, 0x58),  // TAX
        0xab => (0x4c, 0x58, 0x41),  // LXA
        0xb0 => (0x42, 0x43, 0x53),  // BCS
        0xb8 => (0x43, 0x4c, 0x56),  // CLV
        0xba => (0x54, 0x53, 0x58),  // TSX
        0xbb => (0x4c, 0x41, 0x53),  // LAS
        0xc8 => (0x49, 0x4e, 0x59),  // INY
        0xca => (0x44, 0x45, 0x58),  // DEX
        0xcb => (0x41, 0x58, 0x53),  // AXS
        0xd0 => (0x42, 0x4e, 0x45),  // BNE
        0xd8 => (0x43, 0x4c, 0x44),  // CLD
        0xe8 => (0x49, 0x4e, 0x58),  // INX
        0xf0 => (0x42, 0x45, 0x51),  // BEQ
        0xf8 => (0x53, 0x45, 0x44),  // SED
        0x0b | 0x2b => (0x41, 0x4e, 0x43),  // ANC
        0x24 | 0x2c => (0x42, 0x49, 0x54),  // BIT
        0x4c | 0x6c => (0x4a, 0x4d, 0x50),  // JMP
        0x93 | 0x9f => (0x41, 0x48, 0x58),  // AHX
        0x84 | 0x8c | 0x94 => (0x53, 0x54, 0x59),  // STY
        0x86 | 0x8e | 0x96 => (0x53, 0x54, 0x58),  // STX
        0xc0 | 0xc4 | 0xcc => (0x43, 0x50, 0x59),  // CPY
        0xe0 | 0xe4 | 0xec => (0x43, 0x50, 0x58),  // CPX
        0x83 | 0x87 | 0x8f | 0x97 => (0x53, 0x41, 0x58),  // SAX
        0xc6 | 0xce | 0xd6 | 0xde => (0x44, 0x45, 0x43),  // DEC
        0xe6 | 0xee | 0xf6 | 0xfe => (0x49, 0x4e, 0x43),  // INC
        0x06 | 0x0a | 0x0e | 0x16 | 0x1e => (0x41, 0x53, 0x4c),  // ASL
        0x26 | 0x2a | 0x2e | 0x36 | 0x3e => (0x52, 0x4f, 0x4c),  // ROL
        0x46 | 0x4a | 0x4e | 0x56 | 0x5e => (0x4c, 0x53, 0x52),  // LSR
        0x66 | 0x6a | 0x6e | 0x76 | 0x7e => (0x52, 0x4f, 0x52),  // ROR
        0xa0 | 0xa4 | 0xac | 0xb4 | 0xbc => (0x4c, 0x44, 0x59),  // LDY
        0xa2 | 0xa6 | 0xae | 0xb6 | 0xbe => (0x4c, 0x44, 0x58),  // LDX
        0xa3 | 0xa7 | 0xaf | 0xb3 | 0xb7 | 0xbf => (0x4c, 0x41, 0x58),  // LAX
        0x03 | 0x07 | 0x0f | 0x13 | 0x17 | 0x1b | 0x1f => (0x53, 0x4c, 0x4f),  // SLO
        0x23 | 0x27 | 0x2f | 0x33 | 0x37 | 0x3b | 0x3f => (0x52, 0x4c, 0x41),  // RLA
        0x43 | 0x47 | 0x4f | 0x53 | 0x57 | 0x5b | 0x5f => (0x53, 0x52, 0x45),  // SRE
        0x63 | 0x67 | 0x6f | 0x73 | 0x77 | 0x7b | 0x7f => (0x52, 0x52, 0x41),  // RRA
        0x81 | 0x85 | 0x8d | 0x91 | 0x95 | 0x99 | 0x9d => (0x53, 0x54, 0x41),  // STA
        0xc3 | 0xc7 | 0xcf | 0xd3 | 0xd7 | 0xdb | 0xdf => (0x44, 0x43, 0x50),  // DCP
        0xe3 | 0xe7 | 0xef | 0xf3 | 0xf7 | 0xfb | 0xff => (0x49, 0x53, 0x42),  // ISB
        0x01 | 0x05 | 0x09 | 0x0d | 0x11 | 0x15 | 0x19 | 0x1d => (0x4f, 0x52, 0x41),  // ORA
        0x21 | 0x25 | 0x29 | 0x2d | 0x31 | 0x35 | 0x39 | 0x3d => (0x41, 0x4e, 0x44),  // AND
        0x41 | 0x45 | 0x49 | 0x4d | 0x51 | 0x55 | 0x59 | 0x5d => (0x45, 0x4f, 0x52),  // EOR
        0x61 | 0x65 | 0x69 | 0x6d | 0x71 | 0x75 | 0x79 | 0x7d => (0x41, 0x44, 0x43),  // ADC
        0xa1 | 0xa5 | 0xa9 | 0xad | 0xb1 | 0xb5 | 0xb9 | 0xbd => (0x4c, 0x44, 0x41),  // LDA
        0xc1 | 0xc5 | 0xc9 | 0xcd | 0xd1 | 0xd5 | 0xd9 | 0xdd => (0x43, 0x4d, 0x50),  // CMP
        0xe1 | 0xe5 | 0xe9 | 0xeb | 0xed | 0xf1 | 0xf5 | 0xf9 | 0xfd => (0x53, 0x42, 0x43),  // SBC
        _ => (0x4e, 0x4f, 0x50),  // NOP
    }
}

/// The three ASCII codes of an opcode's mnemonic.
pub fn mnemonic_code(op: u8) -> (r: (u8, u8, u8))
    ensures
        r == mnemonic_code_spec(op),
{
    match op {
        0x00 => (0x42, 0x52, 0x4b),  // BRK
        0x08 => (0x50, 0x48, 0x50),  // PHP
        0x10 => (0x42, 0x50, 0x4c),  // BPL
        0x18 => (0x43, 0x4c, 0x43),  // CLC
        0x20 => (0x4a, 0x53, 0x52),  // JSR
        0x28 => (0x50, 0x4c, 0x50),  // PLP
        0x30 => (0x42, 0x4d, 0x49),  // BMI
        0x38 => (0x53, 0x45, 0x43),  // SEC
        0x40 => (0x52, 0x54, 0x49),  // RTI
        0x48 => (0x50, 0x48, 0x41),  // PHA
        0x4b => (0x41, 0x4c, 0x52),  // ALR
        0x50 => (0x42, 0x56, 0x43),  // BVC
        0x58 => (0x43, 0x4c, 0x49),  // CLI
        0x60 => (0x52, 0x54, 0x53),  // RTS
        0x68 => (0x50, 0x4c, 0x41),  // PLA
        0x6b => (0x41, 0x52, 0x52),  // ARR
        0x70 => (0x42, 0x56, 0x53),  // BVS
        0x78 => (0x53, 0x45, 0x49),  // SEI
        0x88 => (0x44, 0x45, 0x59),  // DEY
        0x8a => (0x54, 0x58, 0x41),  // TXA
        0x8b => (0x58, 0x41, 0x41),  // XAA
        0x90 => (0x42, 0x43, 0x43),  // BCC
        0x98 => (0x54, 0x59, 0x41),  // TYA
        0x9a => (0x54, 0x58, 0x53),  // TXS
        0x9b => (0x54, 0x41, 0x53),  // TAS
        0x9c => (0x53, 0x48, 0x59),  // SHY
        0x9e => (0x53, 0x48, 0x58),  // SHX
        0xa8 => (0x54, 0x41, 0x59),  // TAY
        0xaa => (0x54, 0x41, 0x58),  // TAX
        0xab => (0x4c, 0x58, 0x41),  // LXA
        0xb0 => (0x42, 0x43, 0x53),  // BCS
        0xb8 => (0x43, 0x4c, 0x56),  // CLV
        0xba => (0x54, 0x53, 0x58),  // TSX
        0xbb => (0x4c, 0x41, 0x53),  // LAS
        0xc8 => (0x49, 0x4e, 0x59),  // INY
        0xca => (0x44, 0x45, 0x58),  // DEX
        0xcb => (0x41, 0x58, 0x53),  // AXS
        0xd0 => (0x42, 0x4e, 0x45),  // BNE
        0xd8 => (0x43, 0x4c, 0x44),  // CLD
        0xe8 => (0x49, 0x4e, 0x58),  // INX
        0xf0 => (0x42, 0x45, 0x51),  // BEQ
        0xf8 => (0x53, 0x45, 0x44),  // SED
        0x0b | 0x2b => (0x41, 0x4e, 0x43),  // ANC
        0x24 | 0x2c => (0x42, 0x49, 0x54),  // BIT
        0x4c | 0x6c => (0x4a, 0x4d, 0x50),  // JMP
        0x93 | 0x9f => (0x41, 0x48, 0x58),  // AHX
        0x84 | 0x8c | 0x94 => (0x53, 0x54, 0x59),  // STY
        0x86 | 0x8e | 0x96 => (0x53, 0x54, 0x58),  // STX
        0xc0 | 0xc4 | 0xcc => (0x43, 0x50, 0x59),  // CPY
        0xe0 | 0xe4 | 0xec => (0x43, 0x50, 0x58),  // CPX
        0x83 | 0x87 | 0x8f | 0x97 => (0x53, 0x41, 0x58),  // SAX
        0xc6 | 0xce | 0xd6 | 0xde => (0x44, 0x45, 0x43),  // DEC
        0xe6 | 0xee | 0xf6 | 0xfe => (0x49, 0x4e, 0x43),  // INC
        0x06 | 0x0a | 0x0e | 0x16 | 0x1e => (0x41, 0x53, 0x4c),  // ASL
        0x26 | 0x2a | 0x2e | 0x36 | 0x3e => (0x52, 0x4f, 0x4c),  // ROL
        0x46 | 0x4a | 0x4e | 0x56 | 0x5e => (0x4c, 0x53, 0x52),  // LSR
        0x66 | 0x6a | 0x6e | 0x76 | 0x7e => (0x52, 0x4f, 0x52),  // ROR
        0xa0 | 0xa4 | 0xac | 0xb4 | 0xbc => (0x4c, 0x44, 0x59),  // LDY
        0xa2 | 0xa6 | 0xae | 0xb6 | 0xbe => (0x4c, 0x44, 0x58),  // LDX
        0xa3 | 0xa7 | 0xaf | 0xb3 | 0xb7 | 0xbf => (0x4c, 0x41, 0x58),  // LAX
        0x03 | 0x07 | 0x0f | 0x13 | 0x17 | 0x1b | 0x1f => (0x53, 0x4c, 0x4f),  // SLO
        0x23 | 0x27 | 0x2f | 0x33 | 0x37 | 0x3b | 0x3f => (0x52, 0x4c, 0x41),  // RLA
        0x43 | 0x47 | 0x4f | 0x53 | 0x57 | 0x5b | 0x5f => (0x53, 0x52, 0x45),  // SRE
        0x63 | 0x67 | 0x6f | 0x73 | 0x77 | 0x7b | 0x7f => (0x52, 0x52, 0x41),  // RRA
        0x81 | 0x85 | 0x8d | 0x91 | 0x95 | 0x99 | 0x9d => (0x53, 0x54, 0x41),  // STA
        0xc3 | 0xc7 | 0xcf | 0xd3 | 0xd7 | 0xdb | 0xdf => (0x44, 0x43, 0x50),  // DCP
        0xe3 | 0xe7 | 0xef | 0xf3 | 0xf7 | 0xfb | 0xff => (0x49, 0x53, 0x42),  // ISB
        0x01 | 0x05 | 0x09 | 0x0d | 0x11 | 0x15 | 0x19 | 0x1d => (0x4f, 0x52, 0x41),  // ORA
        0x21 | 0x25 | 0x29 | 0x2d | 0x31 | 0x35 | 0x39 | 0x3d => (0x41, 0x4e, 0x44),  // AND
        0x41 | 0x45 | 0x49 | 0x4d | 0x51 | 0x55 | 0x59 | 0x5d => (0x45, 0x4f, 0x52),  // EOR
        0x61 | 0x65 | 0x69 | 0x6d | 0x71 | 0x75 | 0x79 | 0x7d => (0x41, 0x44, 0x43),  // ADC
        0xa1 | 0xa5 | 0xa9 | 0xad | 0xb1 | 0xb5 | 0xb9 | 0xbd => (0x4c, 0x44, 0x41),  // LDA
        0xc1 | 0xc5 | 0xc9 | 0xcd | 0xd1 | 0xd5 | 0xd9 | 0xdd => (0x43, 0x4d, 0x50),  // CMP
        0xe1 | 0xe5 | 0xe9 | 0xeb | 0xed | 0xf1 | 0xf5 | 0xf9 | 0xfd => (0x53, 0x42, 0x43),  // SBC
        _ => (0x4e, 0x4f, 0x50),  // NOP
    }
}

} // verus!

