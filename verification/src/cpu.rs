//! The processor: registers, status flags, stack, the addressing-mode
//! decoder, the opcode dispatcher and the interrupt machinery.

use vstd::prelude::*;

use crate::errors::EmuError;
use crate::memory::Bus;
use crate::ppu::Ppu;
use crate::memory::Mem;
use crate::memory::bus_peek_spec;
use crate::memory::bus_peek16_spec;
use crate::memory::bus_read_post_spec;
use crate::memory::bus_read_result_spec;
use crate::memory::bus_write_rel;
use crate::ppu::clock_of;
use crate::ppu::clock_tick_spec;
use crate::ppu::tick_rel;
use crate::instructions::mode_spec;
use crate::instructions::cycles_spec;
use crate::instructions::mode_len_spec;

verus! {

// Status flag bits, `NV ss DIZC`.
pub const FLAG_CARRY: u8 = 0b0000_0001;
pub const FLAG_ZERO: u8 = 0b0000_0010;
pub const FLAG_INTERRUPT_DISABLE: u8 = 0b0000_0100;
pub const FLAG_DECIMAL: u8 = 0b0000_1000;
pub const FLAG_BREAK: u8 = 0b0001_0000;
pub const FLAG_BREAK2: u8 = 0b0010_0000;
pub const FLAG_OVERFLOW: u8 = 0b0100_0000;
pub const FLAG_NEGATIVE: u8 = 0b1000_0000;

/// The processor status byte: Negative, Overflow, the two break marks,
/// Decimal (stored but without arithmetic effect), Interrupt-Disable,
/// Zero and Carry.
#[derive(Debug, Clone, Copy)]
pub struct StatFlags {
    pub bits: u8,
}

impl StatFlags {
    pub fn from_bits_truncate(bits: u8) -> (r: StatFlags)
        ensures
            r.bits == bits,
    {
        StatFlags { bits }
    }

    pub fn bits(&self) -> (r: u8)
        ensures
            r == self.bits,
    {
        self.bits
    }

    /// Whether the flag named by the single-bit `mask` is set.
    pub fn contains(&self, mask: u8) -> (r: bool)
        ensures
            r == (self.bits & mask != 0),
    {
        self.bits & mask != 0
    }

    pub fn insert(&mut self, mask: u8)
        ensures
            final(self).bits == old(self).bits | mask,
    {
        self.bits = self.bits | mask;
    }

    pub fn remove(&mut self, mask: u8)
        ensures
            final(self).bits == old(self).bits & !mask,
    {
        self.bits = self.bits & !mask;
    }

    pub fn set(&mut self, mask: u8, on: bool)
        ensures
            final(self).bits == (if on {
                old(self).bits | mask
            } else {
                old(self).bits & !mask
            }),
    {
        if on {
            self.insert(mask);
        } else {
            self.remove(mask);
        }
    }
}

/// How an instruction derives the address of its operand.
#[derive(Debug, Clone, Copy)]
pub enum AddressingMode {
    Immediate,
    ZeroPage,
    ZeroPageX,
    ZeroPageY,
    Absolute,
    AbsoluteX,
    AbsoluteY,
    IndirectX,
    IndirectY,
    Relative,
    Implied,
}

/// The interrupts the core services between instructions.
#[derive(Debug, PartialEq, Eq, Structural, Clone, Copy)]
pub enum InterruptType {
    Nmi,
}

pub const STACK_BASE: u16 = 0x0100;
pub const STACK_RESET: u8 = 0xfd;

/// The processor: registers, flags and the bus it owns.
pub struct Cpu {
    pub pc: u16,
    pub sp: u8,
    pub a: u8,
    pub x: u8,
    pub y: u8,
    pub stat: StatFlags,
    pub bus: Bus,
}

/// The status byte with Zero and Negative set from `result`, as every
/// instruction that updates them does: Zero exactly when the result is
/// zero, Negative exactly its top bit.
pub open spec fn zn_spec(b: u8, result: u8) -> u8 {
    let b1 = if result == 0 {
        b | FLAG_ZERO
    } else {
        b & !FLAG_ZERO
    };
    if result & 0x80 != 0 {
        b1 | FLAG_NEGATIVE
    } else {
        b1 & !FLAG_NEGATIVE
    }
}

/// The Zero and Negative bits of `zn_spec` mean what they say, and the
/// other six bits (mask `0x7d`) keep their values.
pub proof fn lemma_zn_flags(b: u8, result: u8)
    ensures
        (zn_spec(b, result) & FLAG_ZERO != 0) == (result == 0),
        (zn_spec(b, result) & FLAG_NEGATIVE != 0) == (result & 0x80 != 0),
        zn_spec(b, result) & 0x7d == b & 0x7d,
{
    assert({
        let b1 = if result == 0 {
            b | 0x02u8
        } else {
            b & !0x02u8
        };
        let z = if result & 0x80u8 != 0 {
            b1 | 0x80u8
        } else {
            b1 & !0x80u8
        };
        ((z & 0x02u8 != 0) == (result == 0)) && ((z & 0x80u8 != 0) == (result & 0x80u8 != 0)) && (z
            & 0x7du8 == b & 0x7du8)
    }) by (bit_vector);
}

// Add-with-carry, the one arithmetic primitive: addition in nine bits,
// carry out of bit 8, signed overflow when both addends agree in sign
// and the result does not.
pub open spec fn adc_sum_spec(a: u8, m: u8, c: bool) -> int {
    a + m + if c {
        1int
    } else {
        0int
    }
}

pub open spec fn adc_result_spec(a: u8, m: u8, c: bool) -> u8 {
    (adc_sum_spec(a, m, c) % 0x100) as u8
}

pub open spec fn adc_carry_spec(a: u8, m: u8, c: bool) -> bool {
    adc_sum_spec(a, m, c) > 0xff
}

pub open spec fn adc_overflow_spec(a: u8, m: u8, c: bool) -> bool {
    (m ^ adc_result_spec(a, m, c)) & (adc_result_spec(a, m, c) ^ a) & 0x80 != 0
}

/// The status byte after add-with-carry: Carry, Overflow, Zero and
/// Negative all set from the nine-bit sum.
pub open spec fn adc_flags_spec(b: u8, a: u8, m: u8, c: bool) -> u8 {
    let b1 = if adc_carry_spec(a, m, c) {
        b | FLAG_CARRY
    } else {
        b & !FLAG_CARRY
    };
    let b2 = if adc_overflow_spec(a, m, c) {
        b1 | FLAG_OVERFLOW
    } else {
        b1 & !FLAG_OVERFLOW
    };
    zn_spec(b2, adc_result_spec(a, m, c))
}

/// The eight-bit difference a compare instruction computes.
pub open spec fn sub_result_spec(reg: u8, m: u8) -> u8 {
    ((reg + 0x100 - m) % 0x100) as u8
}

/// The status byte after a compare: Carry when the register is at least
/// the operand (unsigned), Zero and Negative from the difference.
pub open spec fn compare_flags_spec(b: u8, reg: u8, m: u8) -> u8 {
    let b1 = if reg >= m {
        b | FLAG_CARRY
    } else {
        b & !FLAG_CARRY
    };
    zn_spec(b1, sub_result_spec(reg, m))
}

/// A compare sets Carry exactly when the register is at least the
/// operand, Zero exactly on equality.
pub proof fn lemma_compare_flags(b: u8, reg: u8, m: u8)
    ensures
        (compare_flags_spec(b, reg, m) & FLAG_CARRY != 0) == (reg >= m),
        (compare_flags_spec(b, reg, m) & FLAG_ZERO != 0) == (reg == m),
        (compare_flags_spec(b, reg, m) & FLAG_NEGATIVE != 0) == (sub_result_spec(reg, m) & 0x80
            != 0),
{
    let b1 = if reg >= m {
        b | FLAG_CARRY
    } else {
        b & !FLAG_CARRY
    };
    let d = sub_result_spec(reg, m);
    let z = zn_spec(b1, d);
    lemma_zn_flags(b1, d);
    assert(z & 0x7d == b1 & 0x7d ==> (z & 0x01u8 == b1 & 0x01u8)) by (bit_vector);
    assert((b | 0x01u8) & 0x01u8 != 0 && (b & !0x01u8) & 0x01u8 == 0) by (bit_vector);
    assert(d == 0 <==> reg == m);
}

/// One byte pushed: it lands at the stack cursor in page 1, and the
/// cursor steps down, wrapping within the page.
pub open spec fn stack_push_spec(ram: Seq<u8>, sp: u8, v: u8) -> (Seq<u8>, u8) {
    (ram.update(0x100 + sp as int, v), ((sp + 0xff) % 0x100) as u8)
}

/// One byte popped: the cursor steps up first, then the byte above it is
/// read.
pub open spec fn stack_pop_spec(ram: Seq<u8>, sp: u8) -> (u8, u8) {
    let sp1 = ((sp + 1) % 0x100) as u8;
    (ram[0x100 + sp1 as int], sp1)
}

/// A push followed by a pop returns the pushed byte and restores the
/// stack cursor.
pub proof fn lemma_stack_round_trip(ram: Seq<u8>, sp: u8, v: u8)
    requires
        ram.len() == 0x800,
    ensures
        ({
            let (ram1, sp1) = stack_push_spec(ram, sp, v);
            stack_pop_spec(ram1, sp1) == (v, sp)
        }),
{
}

/// The status byte as the push-status instruction stores it: both break
/// marks forced on in the pushed copy.
pub open spec fn php_byte_spec(b: u8) -> u8 {
    b | FLAG_BREAK | FLAG_BREAK2
}

/// The status byte as the pop-status instruction restores it: the break
/// mark forced off, its companion forced on.
pub open spec fn plp_byte_spec(popped: u8) -> u8 {
    (popped & !FLAG_BREAK) | FLAG_BREAK2
}

/// Pushing the status and popping it back restores it, except that the
/// break mark is forced off and its companion on.
pub proof fn lemma_status_stack_round_trip(b: u8)
    ensures
        plp_byte_spec(php_byte_spec(b)) == (b & !FLAG_BREAK) | FLAG_BREAK2,
{
    assert((((b | 0x10u8) | 0x20u8) & !0x10u8) | 0x20u8 == (b & !0x10u8) | 0x20u8) by (bit_vector);
}

/// The sign-extended value of a relative branch offset.
pub open spec fn sign_extend_spec(b: u8) -> int {
    if b < 0x80 {
        b as int
    } else {
        b - 0x100
    }
}

/// Where an instruction's operand lives, for each addressing mode, given
/// the program counter already past the opcode byte.
pub open spec fn operand_addr_spec(c: Cpu, mode: AddressingMode) -> u16 {
    match mode {
        AddressingMode::Immediate => c.pc,
        AddressingMode::ZeroPage => bus_peek_spec(c.bus, c.pc) as u16,
        AddressingMode::Absolute => bus_peek16_spec(c.bus, c.pc),
        AddressingMode::ZeroPageX => ((bus_peek_spec(c.bus, c.pc) + c.x) % 0x100) as u16,
        AddressingMode::ZeroPageY => ((bus_peek_spec(c.bus, c.pc) + c.y) % 0x100) as u16,
        AddressingMode::AbsoluteX => ((bus_peek16_spec(c.bus, c.pc) + c.x) % 0x10000) as u16,
        AddressingMode::AbsoluteY => ((bus_peek16_spec(c.bus, c.pc) + c.y) % 0x10000) as u16,
        AddressingMode::IndirectX => {
            let ptr = ((bus_peek_spec(c.bus, c.pc) + c.x) % 0x100) as u16;
            (bus_peek_spec(c.bus, ((ptr + 1) % 0x100) as u16) as int * 0x100 + bus_peek_spec(
                c.bus,
                ptr,
            )) as u16
        },
        AddressingMode::IndirectY => {
            let base = bus_peek_spec(c.bus, c.pc);
            let lo = bus_peek_spec(c.bus, base as u16);
            let hi = bus_peek_spec(c.bus, ((base + 1) % 0x100) as u16);
            ((hi as int * 0x100 + lo + c.y) % 0x10000) as u16
        },
        AddressingMode::Relative => c.pc,
        AddressingMode::Implied => c.pc,
    }
}

impl Cpu {
    /// Structural soundness of the machine the processor drives.
    pub open spec fn wf(&self) -> bool {
        self.bus.wf()
    }

    pub fn new(bus: Bus) -> (r: Cpu)
        ensures
            r.pc == 0,
            r.sp == STACK_RESET,
            r.a == 0 && r.x == 0 && r.y == 0,
            r.stat.bits == 0b10_0100,
            r.bus == bus,
    {
        Cpu {
            pc: 0,
            sp: STACK_RESET,
            a: 0,
            x: 0,
            y: 0,
            stat: StatFlags::from_bits_truncate(0b10_0100),
            bus,
        }
    }

    /// The reset interrupt: clear the registers, restore the stack
    /// cursor, mask interrupts, and fetch the program counter from the
    /// reset vector.
    pub fn reset(&mut self)
        requires
            old(self).wf(),
        ensures
            final(self).wf(),
            *final(self) == reset_post(*old(self)),
    {
        self.a = 0;
        self.x = 0;
        self.y = 0;
        self.stat = StatFlags::from_bits_truncate(0b10_0100);
        self.pc = self.bus.mem_peek_u16(0xFFFC);
        self.sp = STACK_RESET;
    }

    /// Place a program image at the start of program ROM.
    pub fn load(&mut self, program: Vec<u8>)
        requires
            old(self).wf(),
            program@.len() <= old(self).bus.prg_rom@.len(),
        ensures
            final(self).wf(),
            final(self).bus.prg_rom@.len() == old(self).bus.prg_rom@.len(),
            forall|i: int|
                0 <= i < program@.len() ==> final(self).bus.prg_rom@[i] == program@[i],
            forall|i: int|
                program@.len() <= i < old(self).bus.prg_rom@.len() ==> final(self).bus.prg_rom@[i] == old(self).bus.prg_rom@[i],
            *final(self) == (Cpu {
                bus: Bus { prg_rom: final(self).bus.prg_rom, ..old(self).bus },
                ..*old(self)
            }),
            load_rel(*old(self), *final(self), program@),
    {
        let mut i: usize = 0;
        while i < program.len()
            invariant
                0 <= i <= program@.len() <= self.bus.prg_rom@.len(),
                self.bus.prg_rom@.len() == old(self).bus.prg_rom@.len(),
                forall|j: int| 0 <= j < i ==> self.bus.prg_rom@[j] == program@[j],
                forall|j: int|
                    i <= j < self.bus.prg_rom@.len() ==> self.bus.prg_rom@[j] == old(self).bus.prg_rom@[j],
                *self == (Cpu {
                    bus: Bus { prg_rom: self.bus.prg_rom, ..old(self).bus },
                    ..*old(self)
                }),
            decreases program@.len() - i,
        {
            self.bus.prg_rom[i] = program[i];
            i = i + 1;
        }
    }

    /// Derive the operand address for the given mode, reading the operand
    /// bytes at the program counter. The no-operand modes have no address
    /// to derive.
    #[verifier::rlimit(100)]
    #[verifier::spinoff_prover]
    pub fn get_operand_address(&mut self, mode: &AddressingMode) -> (r: u16)
        requires
            old(self).wf(),
            !(mode is Implied),
            !(mode is Relative),
        ensures
            *final(self) == *old(self),
            r == operand_addr_spec(*old(self), *mode),
    {
        match *mode {
            AddressingMode::Immediate => self.pc,
            AddressingMode::ZeroPage => self.bus.mem_peek(self.pc) as u16,
            AddressingMode::Absolute => self.bus.mem_peek_u16(self.pc),
            AddressingMode::ZeroPageX => {
                let base = self.bus.mem_peek(self.pc);
                base.wrapping_add(self.x) as u16
            },
            AddressingMode::ZeroPageY => {
                let base = self.bus.mem_peek(self.pc);
                base.wrapping_add(self.y) as u16
            },
            AddressingMode::AbsoluteX => {
                let base = self.bus.mem_peek_u16(self.pc);
                base.wrapping_add(self.x as u16)
            },
            AddressingMode::AbsoluteY => {
                let base = self.bus.mem_peek_u16(self.pc);
                base.wrapping_add(self.y as u16)
            },
            AddressingMode::IndirectX => {
                let base = self.bus.mem_peek(self.pc);
                let ptr = base.wrapping_add(self.x);
                let low = self.bus.mem_peek(ptr as u16);
                let high = self.bus.mem_peek(ptr.wrapping_add(1) as u16);
                high as u16 * 0x100 + low as u16
            },
            AddressingMode::IndirectY => {
                let base = self.bus.mem_peek(self.pc);
                let low = self.bus.mem_peek(base as u16);
                let high = self.bus.mem_peek(base.wrapping_add(1) as u16);
                let deref = high as u16 * 0x100 + low as u16;
                deref.wrapping_add(self.y as u16)
            },
            AddressingMode::Implied | AddressingMode::Relative => 0,
        }
    }

    /// Zero becomes exactly `result == 0` and Negative exactly bit 7 of
    /// `result`; nothing else changes, the other six status bits
    /// included.
    fn update_zero_and_negative_flags(&mut self, result: u8)
        ensures
            *final(self) == (Cpu {
                stat: StatFlags { bits: zn_spec(old(self).stat.bits, result) },
                ..*old(self)
            }),
            (final(self).stat.bits & FLAG_ZERO != 0) == (result == 0),
            (final(self).stat.bits & FLAG_NEGATIVE != 0) == (result & 0x80 != 0),
            final(self).stat.bits & 0x7d == old(self).stat.bits & 0x7d,
    {
        proof {
            lemma_zn_flags(old(self).stat.bits, result);
        }
        if result == 0 {
            self.set_zero();
        } else {
            self.clear_zero();
        }
        if result & 0b1000_0000 != 0 {
            self.stat.insert(FLAG_NEGATIVE);
        } else {
            self.stat.remove(FLAG_NEGATIVE);
        }
    }

    fn set_zero(&mut self)
        ensures
            *final(self) == (Cpu {
                stat: StatFlags { bits: old(self).stat.bits | FLAG_ZERO },
                ..*old(self)
            }),
    {
        self.stat.insert(FLAG_ZERO);
    }

    fn clear_zero(&mut self)
        ensures
            *final(self) == (Cpu {
                stat: StatFlags { bits: old(self).stat.bits & !FLAG_ZERO },
                ..*old(self)
            }),
    {
        self.stat.remove(FLAG_ZERO);
    }

    fn set_carry(&mut self)
        ensures
            *final(self) == (Cpu {
                stat: StatFlags { bits: old(self).stat.bits | FLAG_CARRY },
                ..*old(self)
            }),
    {
        self.stat.insert(FLAG_CARRY);
    }

    fn clear_carry(&mut self)
        ensures
            *final(self) == (Cpu {
                stat: StatFlags { bits: old(self).stat.bits & !FLAG_CARRY },
                ..*old(self)
            }),
    {
        self.stat.remove(FLAG_CARRY);
    }

    fn set_overflow(&mut self)
        ensures
            *final(self) == (Cpu {
                stat: StatFlags { bits: old(self).stat.bits | FLAG_OVERFLOW },
                ..*old(self)
            }),
    {
        self.stat.insert(FLAG_OVERFLOW);
    }

    fn clear_overflow(&mut self)
        ensures
            *final(self) == (Cpu {
                stat: StatFlags { bits: old(self).stat.bits & !FLAG_OVERFLOW },
                ..*old(self)
            }),
    {
        self.stat.remove(FLAG_OVERFLOW);
    }

    fn stack_push(&mut self, data: u8)
        requires
            old(self).wf(),
        ensures
            final(self).wf(),
            ({
                let (ram1, sp1) = stack_push_spec(old(self).bus.cpu_vram@, old(self).sp, data);
                final(self).bus.cpu_vram@ == ram1 && *final(self) == (Cpu {
                    sp: sp1,
                    bus: Bus { cpu_vram: final(self).bus.cpu_vram, ..old(self).bus },
                    ..*old(self)
                })
            }),
    {
        let addr = STACK_BASE + self.sp as u16;
        let _ = self.bus.mem_write(addr, data);
        self.sp = self.sp.wrapping_sub(1);
    }

    fn stack_pop(&mut self) -> (r: u8)
        requires
            old(self).wf(),
        ensures
            final(self).wf(),
            ({
                let (v, sp1) = stack_pop_spec(old(self).bus.cpu_vram@, old(self).sp);
                r == v && *final(self) == (Cpu { sp: sp1, ..*old(self) })
            }),
    {
        self.sp = self.sp.wrapping_add(1);
        self.bus.mem_peek(STACK_BASE + self.sp as u16)
    }

    fn stack_push_u16(&mut self, data: u16)
        requires
            old(self).wf(),
        ensures
            final(self).wf(),
            ({
                let (ram1, sp1) = stack_push_spec(
                    old(self).bus.cpu_vram@,
                    old(self).sp,
                    (data / 0x100) as u8,
                );
                let (ram2, sp2) = stack_push_spec(ram1, sp1, (data % 0x100) as u8);
                final(self).bus.cpu_vram@ == ram2 && *final(self) == (Cpu {
                    sp: sp2,
                    bus: Bus { cpu_vram: final(self).bus.cpu_vram, ..old(self).bus },
                    ..*old(self)
                })
            }),
    {
        let high = (data / 0x100) as u8;
        let low = (data % 0x100) as u8;
        self.stack_push(high);
        self.stack_push(low);
    }

    fn stack_pop_u16(&mut self) -> (r: u16)
        requires
            old(self).wf(),
        ensures
            final(self).wf(),
            ({
                let (lo, sp1) = stack_pop_spec(old(self).bus.cpu_vram@, old(self).sp);
                let (hi, sp2) = stack_pop_spec(old(self).bus.cpu_vram@, sp1);
                r == hi as int * 0x100 + lo && *final(self) == (Cpu { sp: sp2, ..*old(self) })
            }),
    {
        let low = self.stack_pop() as u16;
        let high = self.stack_pop() as u16;
        high * 0x100 + low
    }
}

// Shift and rotate results and their carry-out.
pub open spec fn asl_result_spec(v: u8) -> u8 {
    v << 1
}

pub open spec fn lsr_result_spec(v: u8) -> u8 {
    v >> 1
}

pub open spec fn rol_result_spec(v: u8, c: bool) -> u8 {
    if c {
        (v << 1) | 1
    } else {
        v << 1
    }
}

pub open spec fn ror_result_spec(v: u8, c: bool) -> u8 {
    if c {
        (v >> 1) | 0x80
    } else {
        v >> 1
    }
}

/// The status byte after a shift or rotate: Carry from the bit shifted
/// out, Zero and Negative from the result.
pub open spec fn shift_flags_spec(b: u8, carry_out: bool, result: u8) -> u8 {
    let b1 = if carry_out {
        b | FLAG_CARRY
    } else {
        b & !FLAG_CARRY
    };
    zn_spec(b1, result)
}

/// The status byte after a bit test: Zero from the masked accumulator,
/// Negative and Overflow copied from bits 7 and 6 of the operand.
pub open spec fn bit_flags_spec(b: u8, a: u8, v: u8) -> u8 {
    let b1 = if a & v == 0 {
        b | FLAG_ZERO
    } else {
        b & !FLAG_ZERO
    };
    let b2 = if v & 0x80 != 0 {
        b1 | FLAG_NEGATIVE
    } else {
        b1 & !FLAG_NEGATIVE
    };
    if v & 0x40 != 0 {
        b2 | FLAG_OVERFLOW
    } else {
        b2 & !FLAG_OVERFLOW
    }
}

/// Where a taken branch lands: the signed offset at the program counter,
/// added to the address just past it.
pub open spec fn branch_target_spec(c: Cpu) -> u16 {
    ((c.pc + 1 + sign_extend_spec(bus_peek_spec(c.bus, c.pc)) + 0x10000) % 0x10000) as u16
}


// What each instruction does, named so the dispatcher's contract can
// state the whole per-opcode transition. A `..._rel` relates the states
// before and after an instruction that writes memory; a `..._post` is
// the full image of one that does not.

/// A load into the accumulator: the operand value, with Zero/Negative.
pub open spec fn lda_rel(pre: Cpu, post: Cpu, mode: AddressingMode, r: Result<(), EmuError>) -> bool {
    let addr = operand_addr_spec(pre, mode);
    match bus_read_result_spec(pre.bus, addr) {
        Ok(v) => r is Ok && post == (Cpu {
            a: v,
            stat: StatFlags { bits: zn_spec(pre.stat.bits, v) },
            bus: bus_read_post_spec(pre.bus, addr),
            ..pre
        }),
        Err(e) => r == Err::<(), EmuError>(e) && post == pre,
    }
}

/// A load into the X register.
pub open spec fn ldx_rel(pre: Cpu, post: Cpu, mode: AddressingMode, r: Result<(), EmuError>) -> bool {
    let addr = operand_addr_spec(pre, mode);
    match bus_read_result_spec(pre.bus, addr) {
        Ok(v) => r is Ok && post == (Cpu {
            x: v,
            stat: StatFlags { bits: zn_spec(pre.stat.bits, v) },
            bus: bus_read_post_spec(pre.bus, addr),
            ..pre
        }),
        Err(e) => r == Err::<(), EmuError>(e) && post == pre,
    }
}

/// A load into the Y register.
pub open spec fn ldy_rel(pre: Cpu, post: Cpu, mode: AddressingMode, r: Result<(), EmuError>) -> bool {
    let addr = operand_addr_spec(pre, mode);
    match bus_read_result_spec(pre.bus, addr) {
        Ok(v) => r is Ok && post == (Cpu {
            y: v,
            stat: StatFlags { bits: zn_spec(pre.stat.bits, v) },
            bus: bus_read_post_spec(pre.bus, addr),
            ..pre
        }),
        Err(e) => r == Err::<(), EmuError>(e) && post == pre,
    }
}

/// A store of `data` at the operand address, registers untouched.
pub open spec fn store_rel(pre: Cpu, post: Cpu, mode: AddressingMode, data: u8, r: Result<(), EmuError>) -> bool {
    let addr = operand_addr_spec(pre, mode);
    bus_write_rel(pre.bus, post.bus, addr, data, r) && post == (Cpu { bus: post.bus, ..pre })
}

/// Add-with-carry of the operand into the accumulator.
pub open spec fn adc_rel(pre: Cpu, post: Cpu, mode: AddressingMode, r: Result<(), EmuError>) -> bool {
    let addr = operand_addr_spec(pre, mode);
    let c = pre.stat.bits & FLAG_CARRY != 0;
    match bus_read_result_spec(pre.bus, addr) {
        Ok(v) => r is Ok && post == (Cpu {
            a: adc_result_spec(pre.a, v, c),
            stat: StatFlags { bits: adc_flags_spec(pre.stat.bits, pre.a, v, c) },
            bus: bus_read_post_spec(pre.bus, addr),
            ..pre
        }),
        Err(e) => r == Err::<(), EmuError>(e) && post == pre,
    }
}

/// Subtract-with-borrow: add-with-carry of the operand's complement.
pub open spec fn sbc_rel(pre: Cpu, post: Cpu, mode: AddressingMode, r: Result<(), EmuError>) -> bool {
    let addr = operand_addr_spec(pre, mode);
    let c = pre.stat.bits & FLAG_CARRY != 0;
    match bus_read_result_spec(pre.bus, addr) {
        Ok(v) => r is Ok && post == (Cpu {
            a: adc_result_spec(pre.a, !v, c),
            stat: StatFlags { bits: adc_flags_spec(pre.stat.bits, pre.a, !v, c) },
            bus: bus_read_post_spec(pre.bus, addr),
            ..pre
        }),
        Err(e) => r == Err::<(), EmuError>(e) && post == pre,
    }
}

/// AND of the operand into the accumulator.
pub open spec fn and_rel(pre: Cpu, post: Cpu, mode: AddressingMode, r: Result<(), EmuError>) -> bool {
    let addr = operand_addr_spec(pre, mode);
    match bus_read_result_spec(pre.bus, addr) {
        Ok(v) => r is Ok && post == (Cpu {
            a: pre.a & v,
            stat: StatFlags { bits: zn_spec(pre.stat.bits, pre.a & v) },
            bus: bus_read_post_spec(pre.bus, addr),
            ..pre
        }),
        Err(e) => r == Err::<(), EmuError>(e) && post == pre,
    }
}

/// OR of the operand into the accumulator.
pub open spec fn ora_rel(pre: Cpu, post: Cpu, mode: AddressingMode, r: Result<(), EmuError>) -> bool {
    let addr = operand_addr_spec(pre, mode);
    match bus_read_result_spec(pre.bus, addr) {
        Ok(v) => r is Ok && post == (Cpu {
            a: pre.a | v,
            stat: StatFlags { bits: zn_spec(pre.stat.bits, pre.a | v) },
            bus: bus_read_post_spec(pre.bus, addr),
            ..pre
        }),
        Err(e) => r == Err::<(), EmuError>(e) && post == pre,
    }
}

/// Exclusive-OR of the operand into the accumulator.
pub open spec fn eor_rel(pre: Cpu, post: Cpu, mode: AddressingMode, r: Result<(), EmuError>) -> bool {
    let addr = operand_addr_spec(pre, mode);
    match bus_read_result_spec(pre.bus, addr) {
        Ok(v) => r is Ok && post == (Cpu {
            a: pre.a ^ v,
            stat: StatFlags { bits: zn_spec(pre.stat.bits, pre.a ^ v) },
            bus: bus_read_post_spec(pre.bus, addr),
            ..pre
        }),
        Err(e) => r == Err::<(), EmuError>(e) && post == pre,
    }
}

/// The bit test: flags from the operand, accumulator untouched.
pub open spec fn bit_op_rel(pre: Cpu, post: Cpu, mode: AddressingMode, r: Result<(), EmuError>) -> bool {
    let addr = operand_addr_spec(pre, mode);
    match bus_read_result_spec(pre.bus, addr) {
        Ok(v) => r is Ok && post == (Cpu {
            stat: StatFlags { bits: bit_flags_spec(pre.stat.bits, pre.a, v) },
            bus: bus_read_post_spec(pre.bus, addr),
            ..pre
        }),
        Err(e) => r == Err::<(), EmuError>(e) && post == pre,
    }
}

/// A compare of `with` against the operand: flags only.
pub open spec fn compare_rel(pre: Cpu, post: Cpu, mode: AddressingMode, with: u8, r: Result<(), EmuError>) -> bool {
    let addr = operand_addr_spec(pre, mode);
    match bus_read_result_spec(pre.bus, addr) {
        Ok(v) => r is Ok && post == (Cpu {
            stat: StatFlags { bits: compare_flags_spec(pre.stat.bits, with, v) },
            bus: bus_read_post_spec(pre.bus, addr),
            ..pre
        }),
        Err(e) => r == Err::<(), EmuError>(e) && post == pre,
    }
}

/// A read-modify-write instruction: the operand byte becomes `nv` with
/// the status byte `flags`, the carried result is the written byte.
pub open spec fn rmw_rel(pre: Cpu, post: Cpu, mode: AddressingMode, nv: u8, flags: u8, r: Result<u8, EmuError>) -> bool {
    let addr = operand_addr_spec(pre, mode);
    let mid = bus_read_post_spec(pre.bus, addr);
    let wr: Result<(), EmuError> = if r is Ok {
        Ok(())
    } else {
        Err(r->Err_0)
    };
    bus_write_rel(mid, post.bus, addr, nv, wr) && (r is Ok ==> r->Ok_0 == nv && post == (Cpu {
        stat: StatFlags { bits: flags },
        bus: post.bus,
        ..pre
    })) && (r is Err ==> post == (Cpu { bus: post.bus, ..pre }))
}

/// An arithmetic shift left of the operand byte in memory.
pub open spec fn asl_mem_rel(pre: Cpu, post: Cpu, mode: AddressingMode, r: Result<u8, EmuError>) -> bool {
    let addr = operand_addr_spec(pre, mode);
    match bus_read_result_spec(pre.bus, addr) {
        Ok(v) => rmw_rel(pre, post, mode, asl_result_spec(v), shift_flags_spec(pre.stat.bits, v & 0x80 != 0, asl_result_spec(v)), r),
        Err(e) => r == Err::<u8, EmuError>(e) && post == pre,
    }
}

/// A logical shift right of the operand byte in memory.
pub open spec fn lsr_mem_rel(pre: Cpu, post: Cpu, mode: AddressingMode, r: Result<u8, EmuError>) -> bool {
    let addr = operand_addr_spec(pre, mode);
    match bus_read_result_spec(pre.bus, addr) {
        Ok(v) => rmw_rel(pre, post, mode, lsr_result_spec(v), shift_flags_spec(pre.stat.bits, v & 1 != 0, lsr_result_spec(v)), r),
        Err(e) => r == Err::<u8, EmuError>(e) && post == pre,
    }
}

/// A rotate left through carry of the operand byte in memory.
pub open spec fn rol_mem_rel(pre: Cpu, post: Cpu, mode: AddressingMode, r: Result<u8, EmuError>) -> bool {
    let addr = operand_addr_spec(pre, mode);
    let c = pre.stat.bits & FLAG_CARRY != 0;
    match bus_read_result_spec(pre.bus, addr) {
        Ok(v) => rmw_rel(pre, post, mode, rol_result_spec(v, c), shift_flags_spec(pre.stat.bits, v & 0x80 != 0, rol_result_spec(v, c)), r),
        Err(e) => r == Err::<u8, EmuError>(e) && post == pre,
    }
}

/// A rotate right through carry of the operand byte in memory.
pub open spec fn ror_mem_rel(pre: Cpu, post: Cpu, mode: AddressingMode, r: Result<u8, EmuError>) -> bool {
    let addr = operand_addr_spec(pre, mode);
    let c = pre.stat.bits & FLAG_CARRY != 0;
    match bus_read_result_spec(pre.bus, addr) {
        Ok(v) => rmw_rel(pre, post, mode, ror_result_spec(v, c), shift_flags_spec(pre.stat.bits, v & 1 != 0, ror_result_spec(v, c)), r),
        Err(e) => r == Err::<u8, EmuError>(e) && post == pre,
    }
}

/// An increment of the operand byte in memory.
pub open spec fn inc_mem_rel(pre: Cpu, post: Cpu, mode: AddressingMode, r: Result<u8, EmuError>) -> bool {
    let addr = operand_addr_spec(pre, mode);
    match bus_read_result_spec(pre.bus, addr) {
        Ok(v) => rmw_rel(pre, post, mode, ((v + 1) % 0x100) as u8, zn_spec(pre.stat.bits, ((v + 1) % 0x100) as u8), r),
        Err(e) => r == Err::<u8, EmuError>(e) && post == pre,
    }
}

/// A decrement of the operand byte in memory.
pub open spec fn dec_mem_rel(pre: Cpu, post: Cpu, mode: AddressingMode, r: Result<u8, EmuError>) -> bool {
    let addr = operand_addr_spec(pre, mode);
    match bus_read_result_spec(pre.bus, addr) {
        Ok(v) => rmw_rel(pre, post, mode, sub_result_spec(v, 1), zn_spec(pre.stat.bits, sub_result_spec(v, 1)), r),
        Err(e) => r == Err::<u8, EmuError>(e) && post == pre,
    }
}

/// A register transfer with Zero/Negative from the moved value.
pub open spec fn transfer_post(pre: Cpu, a: u8, x: u8, y: u8, sp: u8, moved: u8) -> Cpu {
    Cpu { a, x, y, sp, stat: StatFlags { bits: zn_spec(pre.stat.bits, moved) }, ..pre }
}

/// Add-with-carry of `data` into the accumulator, no memory involved.
pub open spec fn add_to_a_post(pre: Cpu, data: u8) -> Cpu {
    let c = pre.stat.bits & FLAG_CARRY != 0;
    Cpu {
        a: adc_result_spec(pre.a, data, c),
        stat: StatFlags { bits: adc_flags_spec(pre.stat.bits, pre.a, data, c) },
        ..pre
    }
}

/// An accumulator shift or rotate.
pub open spec fn acc_shift_post(pre: Cpu, nv: u8, carry_out: bool) -> Cpu {
    Cpu { a: nv, stat: StatFlags { bits: shift_flags_spec(pre.stat.bits, carry_out, nv) }, ..pre }
}

/// One byte pushed onto the stack, the rest of the processor untouched.
pub open spec fn push_rel(pre: Cpu, post: Cpu, v: u8) -> bool {
    let (ram1, sp1) = stack_push_spec(pre.bus.cpu_vram@, pre.sp, v);
    post.bus.cpu_vram@ == ram1 && post == (Cpu {
        sp: sp1,
        bus: Bus { cpu_vram: post.bus.cpu_vram, ..pre.bus },
        ..pre
    })
}

/// The accumulator popped from the stack (no flag update).
pub open spec fn pla_post(pre: Cpu) -> Cpu {
    let (v, sp1) = stack_pop_spec(pre.bus.cpu_vram@, pre.sp);
    Cpu { a: v, sp: sp1, ..pre }
}

/// The status popped from the stack, break marks forced.
pub open spec fn plp_post(pre: Cpu) -> Cpu {
    let (v, sp1) = stack_pop_spec(pre.bus.cpu_vram@, pre.sp);
    Cpu { sp: sp1, stat: StatFlags { bits: plp_byte_spec(v) }, ..pre }
}

/// Return from interrupt: status popped (break marks forced), then the
/// program counter.
pub open spec fn rti_post(pre: Cpu) -> Cpu {
    let (v, sp1) = stack_pop_spec(pre.bus.cpu_vram@, pre.sp);
    let (lo, sp2) = stack_pop_spec(pre.bus.cpu_vram@, sp1);
    let (hi, sp3) = stack_pop_spec(pre.bus.cpu_vram@, sp2);
    Cpu {
        sp: sp3,
        stat: StatFlags { bits: plp_byte_spec(v) },
        pc: (hi as int * 0x100 + lo) as u16,
        ..pre
    }
}

/// Return from subroutine: the popped address plus one.
pub open spec fn rts_post(pre: Cpu) -> Cpu {
    let (lo, sp1) = stack_pop_spec(pre.bus.cpu_vram@, pre.sp);
    let (hi, sp2) = stack_pop_spec(pre.bus.cpu_vram@, sp1);
    Cpu { sp: sp2, pc: (((hi as int * 0x100 + lo) + 1) % 0x10000) as u16, ..pre }
}

/// Jump to the absolute operand.
pub open spec fn jmp_abs_post(pre: Cpu) -> Cpu {
    Cpu { pc: bus_peek16_spec(pre.bus, pre.pc), ..pre }
}

/// Jump through the operand pointer, with the page-wrap quirk on a
/// pointer whose low byte is 0xff.
pub open spec fn jmp_ind_post(pre: Cpu) -> Cpu {
    let addr = bus_peek16_spec(pre.bus, pre.pc);
    let target = if addr % 0x100 == 0xff {
        (bus_peek_spec(pre.bus, (addr - 0xff) as u16) as int * 0x100 + bus_peek_spec(
            pre.bus,
            addr,
        )) as u16
    } else {
        bus_peek16_spec(pre.bus, addr)
    };
    Cpu { pc: target, ..pre }
}

/// Jump to subroutine: the address of the last operand byte is pushed,
/// high byte first, and the target becomes the program counter.
pub open spec fn jsr_rel(pre: Cpu, post: Cpu) -> bool {
    let ret = ((pre.pc + 1) % 0x10000) as u16;
    let (ram1, sp1) = stack_push_spec(pre.bus.cpu_vram@, pre.sp, (ret / 0x100) as u8);
    let (ram2, sp2) = stack_push_spec(ram1, sp1, (ret % 0x100) as u8);
    post.bus.cpu_vram@ == ram2 && post == (Cpu {
        sp: sp2,
        pc: bus_peek16_spec(post.bus, pre.pc),
        bus: Bus { cpu_vram: post.bus.cpu_vram, ..pre.bus },
        ..pre
    })
}

/// A conditional branch.
pub open spec fn branch_post(pre: Cpu, cond: bool) -> Cpu {
    Cpu {
        pc: if cond {
            branch_target_spec(pre)
        } else {
            pre.pc
        },
        ..pre
    }
}

/// A single status bit written.
pub open spec fn flag_post(pre: Cpu, mask: u8, on: bool) -> Cpu {
    Cpu {
        stat: StatFlags {
            bits: if on {
                pre.stat.bits | mask
            } else {
                pre.stat.bits & !mask
            },
        },
        ..pre
    }
}


/// What dispatching one already-fetched opcode does: the whole
/// per-opcode transition, phrased over the named instruction relations
/// and layered as the dispatcher is. `pre` is the state with the program
/// counter just past the opcode byte.
pub open spec fn execute_rel(pre: Cpu, post: Cpu, op: u8, r: Result<(), EmuError>) -> bool {
    let ms = mode_spec(op);
    let addr = operand_addr_spec(pre, ms);
    match op {

        0x00 => r is Ok && post == pre,
        // Transfers: TAX, TXA, TAY, TYA, TSX, TXS.
        0xaa => r is Ok && post == transfer_post(pre, pre.a, pre.a, pre.y, pre.sp, pre.a),
        0x8a => r is Ok && post == transfer_post(pre, pre.x, pre.x, pre.y, pre.sp, pre.x),
        0xa8 => r is Ok && post == transfer_post(pre, pre.a, pre.x, pre.a, pre.sp, pre.a),
        0x98 => r is Ok && post == transfer_post(pre, pre.y, pre.x, pre.y, pre.sp, pre.y),
        0xba => r is Ok && post == transfer_post(pre, pre.a, pre.sp, pre.y, pre.sp, pre.sp),
        0x9a => r is Ok && post == transfer_post(pre, pre.a, pre.x, pre.y, pre.x, pre.x),
        // Loads and stores.
        0xa9 | 0xa5 | 0xb5 | 0xad | 0xbd | 0xb9 | 0xa1 | 0xb1 => lda_rel(pre, post, ms, r),
        0xa2 | 0xa6 | 0xb6 | 0xae | 0xbe => ldx_rel(pre, post, ms, r),
        0xa0 | 0xa4 | 0xb4 | 0xac | 0xbc => ldy_rel(pre, post, ms, r),
        0x85 | 0x95 | 0x8d | 0x9d | 0x99 | 0x81 | 0x91 => store_rel(pre, post, ms, pre.a, r),
        0x86 | 0x96 | 0x8e => store_rel(pre, post, ms, pre.x, r),
        0x84 | 0x94 | 0x8c => store_rel(pre, post, ms, pre.y, r),
        _ => execute_arith_rel(pre, post, op, r),
    }
}

/// The arithmetic and logic layer of `execute_rel`.
pub open spec fn execute_arith_rel(pre: Cpu, post: Cpu, op: u8, r: Result<(), EmuError>) -> bool {
    let ms = mode_spec(op);
    let addr = operand_addr_spec(pre, ms);
    match op {
        0x69 | 0x65 | 0x75 | 0x6d | 0x7d | 0x79 | 0x61 | 0x71 => adc_rel(pre, post, ms, r),
        0x29 | 0x25 | 0x35 | 0x2d | 0x3d | 0x39 | 0x21 | 0x31 => and_rel(pre, post, ms, r),
        0x09 | 0x05 | 0x15 | 0x0d | 0x1d | 0x19 | 0x01 | 0x11 => ora_rel(pre, post, ms, r),
        _ => execute_rmw_rel(pre, post, op, r),
    }
}

/// The shift, rotate, increment, decrement, compare and bit-test
/// layer of `execute_rel`.
pub open spec fn execute_rmw_rel(pre: Cpu, post: Cpu, op: u8, r: Result<(), EmuError>) -> bool {
    let ms = mode_spec(op);
    let addr = operand_addr_spec(pre, ms);
    match op {
        // Shifts and rotates.
        0x0a => r is Ok && post == acc_shift_post(pre, asl_result_spec(pre.a), pre.a & 0x80 != 0),
        0x4a => r is Ok && post == acc_shift_post(pre, lsr_result_spec(pre.a), pre.a & 1 != 0),
        0x2a => r is Ok && post == acc_shift_post(
            pre,
            rol_result_spec(pre.a, pre.stat.bits & FLAG_CARRY != 0),
            pre.a & 0x80 != 0,
        ),
        0x6a => r is Ok && post == acc_shift_post(
            pre,
            ror_result_spec(pre.a, pre.stat.bits & FLAG_CARRY != 0),
            pre.a & 1 != 0,
        ),
        0x06 | 0x16 | 0x0e | 0x1e => match r {
            Ok(u) => exists|v: u8| asl_mem_rel(pre, post, ms, Ok(v)),
            Err(e) => asl_mem_rel(pre, post, ms, Err(e)),
        },
        0x46 | 0x56 | 0x4e | 0x5e => match r {
            Ok(u) => exists|v: u8| lsr_mem_rel(pre, post, ms, Ok(v)),
            Err(e) => lsr_mem_rel(pre, post, ms, Err(e)),
        },
        0x26 | 0x36 | 0x2e | 0x3e => match r {
            Ok(u) => exists|v: u8| rol_mem_rel(pre, post, ms, Ok(v)),
            Err(e) => rol_mem_rel(pre, post, ms, Err(e)),
        },
        0x66 | 0x76 | 0x6e | 0x7e => match r {
            Ok(u) => exists|v: u8| ror_mem_rel(pre, post, ms, Ok(v)),
            Err(e) => ror_mem_rel(pre, post, ms, Err(e)),
        },
        // Increments and decrements.
        0xe6 | 0xf6 | 0xee | 0xfe => match r {
            Ok(u) => exists|v: u8| inc_mem_rel(pre, post, ms, Ok(v)),
            Err(e) => inc_mem_rel(pre, post, ms, Err(e)),
        },
        0xc6 | 0xd6 | 0xce | 0xde => match r {
            Ok(u) => exists|v: u8| dec_mem_rel(pre, post, ms, Ok(v)),
            Err(e) => dec_mem_rel(pre, post, ms, Err(e)),
        },
        0xe8 => r is Ok && post == transfer_post(
            pre,
            pre.a,
            ((pre.x + 1) % 0x100) as u8,
            pre.y,
            pre.sp,
            ((pre.x + 1) % 0x100) as u8,
        ),
        0xc8 => r is Ok && post == transfer_post(
            pre,
            pre.a,
            pre.x,
            ((pre.y + 1) % 0x100) as u8,
            pre.sp,
            ((pre.y + 1) % 0x100) as u8,
        ),
        0xca => r is Ok && post == transfer_post(
            pre,
            pre.a,
            sub_result_spec(pre.x, 1),
            pre.y,
            pre.sp,
            sub_result_spec(pre.x, 1),
        ),
        0x88 => r is Ok && post == transfer_post(
            pre,
            pre.a,
            pre.x,
            sub_result_spec(pre.y, 1),
            pre.sp,
            sub_result_spec(pre.y, 1),
        ),
        // Arithmetic and logic.
        0xe9 | 0xe5 | 0xf5 | 0xed | 0xfd | 0xf9 | 0xe1 | 0xf1 => sbc_rel(pre, post, ms, r),
        0x49 | 0x45 | 0x55 | 0x4d | 0x5d | 0x59 | 0x41 | 0x51 => eor_rel(pre, post, ms, r),
        0x24 | 0x2c => bit_op_rel(pre, post, ms, r),
        0xc9 | 0xc5 | 0xd5 | 0xcd | 0xdd | 0xd9 | 0xc1 | 0xd1 => compare_rel(pre, post, ms, pre.a, r),
        0xe0 | 0xe4 | 0xec => compare_rel(pre, post, ms, pre.x, r),
        0xc0 | 0xc4 | 0xcc => compare_rel(pre, post, ms, pre.y, r),
        _ => execute_control_rel(pre, post, op, r),
    }
}

/// The stack and control-transfer layer of `execute_rel`.
pub open spec fn execute_control_rel(pre: Cpu, post: Cpu, op: u8, r: Result<(), EmuError>) -> bool {
    let ms = mode_spec(op);
    let addr = operand_addr_spec(pre, ms);
    match op {
        // Stack and control transfers.
        0x48 => r is Ok && push_rel(pre, post, pre.a),
        0x68 => r is Ok && post == pla_post(pre),
        0x08 => r is Ok && push_rel(pre, post, php_byte_spec(pre.stat.bits)),
        0x28 => r is Ok && post == plp_post(pre),
        0x40 => r is Ok && post == rti_post(pre),
        0x60 => r is Ok && post == rts_post(pre),
        0x4c => r is Ok && post == jmp_abs_post(pre),
        0x6c => r is Ok && post == jmp_ind_post(pre),
        0x20 => r is Ok && jsr_rel(pre, post),
        _ => execute_branch_flags_rel(pre, post, op, r),
    }
}

/// The branch and flag-write layer of `execute_rel`.
pub open spec fn execute_branch_flags_rel(pre: Cpu, post: Cpu, op: u8, r: Result<(), EmuError>) -> bool {
    let ms = mode_spec(op);
    let addr = operand_addr_spec(pre, ms);
    match op {
        // Branches.
        0x90 => r is Ok && post == branch_post(pre, pre.stat.bits & FLAG_CARRY == 0),
        0xb0 => r is Ok && post == branch_post(pre, pre.stat.bits & FLAG_CARRY != 0),
        0xf0 => r is Ok && post == branch_post(pre, pre.stat.bits & FLAG_ZERO != 0),
        0xd0 => r is Ok && post == branch_post(pre, pre.stat.bits & FLAG_ZERO == 0),
        0x10 => r is Ok && post == branch_post(pre, pre.stat.bits & FLAG_NEGATIVE == 0),
        0x30 => r is Ok && post == branch_post(pre, pre.stat.bits & FLAG_NEGATIVE != 0),
        0x50 => r is Ok && post == branch_post(pre, pre.stat.bits & FLAG_OVERFLOW == 0),
        0x70 => r is Ok && post == branch_post(pre, pre.stat.bits & FLAG_OVERFLOW != 0),
        // Flag writes.
        0x18 => r is Ok && post == flag_post(pre, FLAG_CARRY, false),
        0x38 => r is Ok && post == flag_post(pre, FLAG_CARRY, true),
        0x58 => r is Ok && post == flag_post(pre, FLAG_INTERRUPT_DISABLE, false),
        0x78 => r is Ok && post == flag_post(pre, FLAG_INTERRUPT_DISABLE, true),
        0xb8 => r is Ok && post == flag_post(pre, FLAG_OVERFLOW, false),
        0xd8 => r is Ok && post == flag_post(pre, FLAG_DECIMAL, false),
        0xf8 => r is Ok && post == flag_post(pre, FLAG_DECIMAL, true),
        // NOP does nothing; the step still ticks and advances.
        0xea => r is Ok && post == pre,
        _ => execute_undoc_rel(pre, post, op, r),
    }
}


/// DCP: the operand byte is decremented in memory, then compared with
/// the accumulator.
pub open spec fn dcp_rel(pre: Cpu, post: Cpu, mode: AddressingMode, r: Result<(), EmuError>) -> bool {
    let addr = operand_addr_spec(pre, mode);
    match bus_read_result_spec(pre.bus, addr) {
        Ok(v) => {
            let nv = sub_result_spec(v, 1);
            let midb = bus_read_post_spec(pre.bus, addr);
            match r {
                Ok(u) => bus_write_rel(midb, post.bus, addr, nv, Ok(())) && post == (Cpu {
                    stat: StatFlags { bits: compare_flags_spec(pre.stat.bits, pre.a, nv) },
                    bus: post.bus,
                    ..pre
                }),
                Err(e) => bus_write_rel(midb, post.bus, addr, nv, Err(e)) && post == (Cpu {
                    bus: post.bus,
                    ..pre
                }),
            }
        },
        Err(e) => r == Err::<(), EmuError>(e) && post == pre,
    }
}

/// The store phase of DCP: the operand byte decremented in place, the
/// registers and flags untouched.
pub open spec fn dcp_store_rel(pre: Cpu, post: Cpu, mode: AddressingMode, r: Result<u8, EmuError>) -> bool {
    let addr = operand_addr_spec(pre, mode);
    match bus_read_result_spec(pre.bus, addr) {
        Ok(v) => {
            let nv = sub_result_spec(v, 1);
            let midb = bus_read_post_spec(pre.bus, addr);
            let wr: Result<(), EmuError> = if r is Ok {
                Ok(())
            } else {
                Err(r->Err_0)
            };
            bus_write_rel(midb, post.bus, addr, nv, wr) && (r is Ok ==> r->Ok_0 == nv) && post
                == (Cpu { bus: post.bus, ..pre })
        },
        Err(e) => r == Err::<u8, EmuError>(e) && post == pre,
    }
}

/// AXS: X becomes (A AND X) minus the operand, with compare flags.
pub open spec fn axs_rel(pre: Cpu, post: Cpu, mode: AddressingMode, r: Result<(), EmuError>) -> bool {
    let addr = operand_addr_spec(pre, mode);
    match bus_read_result_spec(pre.bus, addr) {
        Ok(v) => r is Ok && post == (Cpu {
            x: sub_result_spec(pre.x & pre.a, v),
            stat: StatFlags { bits: compare_flags_spec(pre.stat.bits, pre.x & pre.a, v) },
            bus: bus_read_post_spec(pre.bus, addr),
            ..pre
        }),
        Err(e) => r == Err::<(), EmuError>(e) && post == pre,
    }
}

/// ARR: AND, rotate right, carry from bit 6, overflow from bits 5 and
/// 6, Zero/Negative from the result.
pub open spec fn arr_rel(pre: Cpu, post: Cpu, mode: AddressingMode, r: Result<(), EmuError>) -> bool {
    let addr = operand_addr_spec(pre, mode);
    match bus_read_result_spec(pre.bus, addr) {
        Ok(v) => {
            let a1 = (pre.a & v) as u8;
            let a2 = ror_result_spec(a1, pre.stat.bits & FLAG_CARRY != 0);
            let b1 = shift_flags_spec(pre.stat.bits, a1 & 1 != 0, a2);
            let b2 = if (a2 >> 6) & 1 == 1 {
                b1 | FLAG_CARRY
            } else {
                b1 & !FLAG_CARRY
            };
            let b3 = if ((a2 >> 5) & 1) ^ ((a2 >> 6) & 1) == 1 {
                b2 | FLAG_OVERFLOW
            } else {
                b2 & !FLAG_OVERFLOW
            };
            r is Ok && post == (Cpu {
                a: a2,
                stat: StatFlags { bits: zn_spec(b3, a2) },
                bus: bus_read_post_spec(pre.bus, addr),
                ..pre
            })
        },
        Err(e) => r == Err::<(), EmuError>(e) && post == pre,
    }
}

/// ANC: AND, then copy Negative into Carry.
pub open spec fn anc_rel(pre: Cpu, post: Cpu, mode: AddressingMode, r: Result<(), EmuError>) -> bool {
    let addr = operand_addr_spec(pre, mode);
    match bus_read_result_spec(pre.bus, addr) {
        Ok(v) => {
            let b1 = zn_spec(pre.stat.bits, pre.a & v);
            let b2 = if b1 & FLAG_NEGATIVE != 0 {
                b1 | FLAG_CARRY
            } else {
                b1 & !FLAG_CARRY
            };
            r is Ok && post == (Cpu {
                a: pre.a & v,
                stat: StatFlags { bits: b2 },
                bus: bus_read_post_spec(pre.bus, addr),
                ..pre
            })
        },
        Err(e) => r == Err::<(), EmuError>(e) && post == pre,
    }
}

/// ALR: AND, then shift the accumulator right.
pub open spec fn alr_rel(pre: Cpu, post: Cpu, mode: AddressingMode, r: Result<(), EmuError>) -> bool {
    let addr = operand_addr_spec(pre, mode);
    match bus_read_result_spec(pre.bus, addr) {
        Ok(v) => {
            let a1 = (pre.a & v) as u8;
            r is Ok && post == (Cpu {
                a: lsr_result_spec(a1),
                stat: StatFlags {
                    bits: shift_flags_spec(pre.stat.bits, a1 & 1 != 0, lsr_result_spec(a1)),
                },
                bus: bus_read_post_spec(pre.bus, addr),
                ..pre
            })
        },
        Err(e) => r == Err::<(), EmuError>(e) && post == pre,
    }
}

/// A NOP that performs its operand read and discards the byte.
pub open spec fn nop_read_rel(pre: Cpu, post: Cpu, mode: AddressingMode, r: Result<(), EmuError>) -> bool {
    let addr = operand_addr_spec(pre, mode);
    match bus_read_result_spec(pre.bus, addr) {
        Ok(v) => r is Ok && post == (Cpu { bus: bus_read_post_spec(pre.bus, addr), ..pre }),
        Err(e) => r == Err::<(), EmuError>(e) && post == pre,
    }
}

/// LAX: the operand loads the accumulator and X together.
pub open spec fn lax_rel(pre: Cpu, post: Cpu, mode: AddressingMode, r: Result<(), EmuError>) -> bool {
    let addr = operand_addr_spec(pre, mode);
    match bus_read_result_spec(pre.bus, addr) {
        Ok(v) => r is Ok && post == (Cpu {
            a: v,
            x: v,
            stat: StatFlags { bits: zn_spec(pre.stat.bits, v) },
            bus: bus_read_post_spec(pre.bus, addr),
            ..pre
        }),
        Err(e) => r == Err::<(), EmuError>(e) && post == pre,
    }
}

/// XAA: X moves to A with flags, then the operand is ANDed in.
pub open spec fn xaa_rel(pre: Cpu, post: Cpu, mode: AddressingMode, r: Result<(), EmuError>) -> bool {
    let addr = operand_addr_spec(pre, mode);
    match bus_read_result_spec(pre.bus, addr) {
        Ok(v) => r is Ok && post == (Cpu {
            a: pre.x & v,
            stat: StatFlags { bits: zn_spec(pre.stat.bits, pre.x) },
            bus: bus_read_post_spec(pre.bus, addr),
            ..pre
        }),
        Err(e) => r == Err::<(), EmuError>(e) && post == pre,
    }
}

/// LAS: the operand AND the stack cursor lands in A, X and the cursor.
pub open spec fn las_rel(pre: Cpu, post: Cpu, mode: AddressingMode, r: Result<(), EmuError>) -> bool {
    let addr = operand_addr_spec(pre, mode);
    match bus_read_result_spec(pre.bus, addr) {
        Ok(v) => r is Ok && post == (Cpu {
            a: v & pre.sp,
            x: v & pre.sp,
            sp: v & pre.sp,
            stat: StatFlags { bits: zn_spec(pre.stat.bits, v & pre.sp) },
            bus: bus_read_post_spec(pre.bus, addr),
            ..pre
        }),
        Err(e) => r == Err::<(), EmuError>(e) && post == pre,
    }
}

/// TAS: A AND X into the stack cursor, then the high-address store.
pub open spec fn tas_rel(pre: Cpu, post: Cpu, r: Result<(), EmuError>) -> bool {
    let mem = ((bus_peek16_spec(pre.bus, pre.pc) + pre.y) % 0x10000) as u16;
    let data = ((((mem as int / 0x100) + 1) % 0x100) as u8) & (pre.a & pre.x);
    bus_write_rel(pre.bus, post.bus, mem, data, r) && post == (Cpu {
        sp: pre.a & pre.x,
        bus: post.bus,
        ..pre
    })
}

/// AHX through a zero-page pointer: A AND X AND the high address byte.
pub open spec fn ahx_ind_rel(pre: Cpu, post: Cpu, r: Result<(), EmuError>) -> bool {
    let pos = bus_peek_spec(pre.bus, pre.pc);
    let mem = ((bus_peek16_spec(pre.bus, pos as u16) + pre.y) % 0x10000) as u16;
    let data = pre.a & pre.x & ((mem as int / 0x100) as u8);
    bus_write_rel(pre.bus, post.bus, mem, data, r) && post == (Cpu { bus: post.bus, ..pre })
}

/// AHX absolute-indexed.
pub open spec fn ahx_abs_rel(pre: Cpu, post: Cpu, r: Result<(), EmuError>) -> bool {
    let mem = ((bus_peek16_spec(pre.bus, pre.pc) + pre.y) % 0x10000) as u16;
    let data = pre.a & pre.x & ((mem as int / 0x100) as u8);
    bus_write_rel(pre.bus, post.bus, mem, data, r) && post == (Cpu { bus: post.bus, ..pre })
}

/// SHX: X AND the high address byte plus one.
pub open spec fn shx_rel(pre: Cpu, post: Cpu, r: Result<(), EmuError>) -> bool {
    let mem = ((bus_peek16_spec(pre.bus, pre.pc) + pre.y) % 0x10000) as u16;
    let data = pre.x & ((((mem as int / 0x100) + 1) % 0x100) as u8);
    bus_write_rel(pre.bus, post.bus, mem, data, r) && post == (Cpu { bus: post.bus, ..pre })
}

/// SHY: Y AND the high address byte plus one.
pub open spec fn shy_rel(pre: Cpu, post: Cpu, r: Result<(), EmuError>) -> bool {
    let mem = ((bus_peek16_spec(pre.bus, pre.pc) + pre.x) % 0x10000) as u16;
    let data = pre.y & ((((mem as int / 0x100) + 1) % 0x100) as u8);
    bus_write_rel(pre.bus, post.bus, mem, data, r) && post == (Cpu { bus: post.bus, ..pre })
}

/// The undocumented read-modify-write layer of `execute_rel`.
pub open spec fn execute_undoc_rel(pre: Cpu, post: Cpu, op: u8, r: Result<(), EmuError>) -> bool {
    let ms = mode_spec(op);
    match op {
        0xc7 | 0xd7 | 0xcf | 0xdf | 0xdb | 0xd3 | 0xc3 => dcp_rel(pre, post, ms, r),
        0x27 | 0x37 | 0x2f | 0x3f | 0x3b | 0x33 | 0x23 => match r {
            Ok(u) => exists|mid: Cpu, v: u8|
                rol_mem_rel(pre, mid, ms, Ok(v)) && post == (Cpu { a: mid.a & v, ..mid }),
            Err(e) => rol_mem_rel(pre, post, ms, Err(e)),
        },
        0x07 | 0x17 | 0x0f | 0x1f | 0x1b | 0x03 | 0x13 => match r {
            Ok(u) => exists|mid: Cpu, v: u8|
                asl_mem_rel(pre, mid, ms, Ok(v)) && post == (Cpu { a: mid.a | v, ..mid }),
            Err(e) => asl_mem_rel(pre, post, ms, Err(e)),
        },
        0x47 | 0x57 | 0x4f | 0x5f | 0x5b | 0x43 | 0x53 => match r {
            Ok(u) => exists|mid: Cpu, v: u8|
                lsr_mem_rel(pre, mid, ms, Ok(v)) && post == (Cpu { a: mid.a ^ v, ..mid }),
            Err(e) => lsr_mem_rel(pre, post, ms, Err(e)),
        },
        _ => execute_undoc_imm_rel(pre, post, op, r),
    }
}

/// The undocumented immediate layer of `execute_rel`, with the halt
/// forms and implied NOPs.
pub open spec fn execute_undoc_imm_rel(pre: Cpu, post: Cpu, op: u8, r: Result<(), EmuError>) -> bool {
    let ms = mode_spec(op);
    match op {
        0x80 | 0x82 | 0x89 | 0xc2 | 0xe2 => r is Ok && post == pre,
        0x02 | 0x12 | 0x22 | 0x32 | 0x42 | 0x52 | 0x62 | 0x72 | 0x92 | 0xb2 | 0xd2 | 0xf2 => r
            is Ok && post == pre,
        0x1a | 0x3a | 0x5a | 0x7a | 0xda | 0xfa => r is Ok && post == pre,
        0xeb => sbc_rel(pre, post, ms, r),
        0xcb => axs_rel(pre, post, ms, r),
        0x6b => arr_rel(pre, post, ms, r),
        0x0b | 0x2b => anc_rel(pre, post, ms, r),
        0x4b => alr_rel(pre, post, ms, r),
        _ => execute_undoc_load_rel(pre, post, op, r),
    }
}

/// The undocumented reading and folding layer of `execute_rel`.
pub open spec fn execute_undoc_load_rel(pre: Cpu, post: Cpu, op: u8, r: Result<(), EmuError>) -> bool {
    let ms = mode_spec(op);
    match op {
        0x04 | 0x44 | 0x64 | 0x14 | 0x34 | 0x54 | 0x74 | 0xd4 | 0xf4 | 0x0c | 0x1c | 0x3c | 0x5c
            | 0x7c | 0xdc | 0xfc => nop_read_rel(pre, post, ms, r),
        0x67 | 0x77 | 0x6f | 0x7f | 0x7b | 0x63 | 0x73 => match r {
            Ok(u) => exists|mid: Cpu, v: u8|
                ror_mem_rel(pre, mid, ms, Ok(v)) && post == add_to_a_post(mid, v),
            Err(e) => ror_mem_rel(pre, post, ms, Err(e)),
        },
        0xe7 | 0xf7 | 0xef | 0xff | 0xfb | 0xe3 | 0xf3 => match r {
            Ok(u) => exists|mid: Cpu, v: u8|
                inc_mem_rel(pre, mid, ms, Ok(v)) && post == add_to_a_post(mid, !v),
            Err(e) => inc_mem_rel(pre, post, ms, Err(e)),
        },
        0xa7 | 0xb7 | 0xaf | 0xbf | 0xa3 | 0xb3 => lax_rel(pre, post, ms, r),
        0x87 | 0x97 | 0x8f | 0x83 => store_rel(pre, post, ms, pre.a & pre.x, r),
        0xab => match r {
            Ok(u) => exists|mid: Cpu|
                lda_rel(pre, mid, ms, Ok(())) && post == transfer_post(
                    mid,
                    mid.a,
                    mid.a,
                    mid.y,
                    mid.sp,
                    mid.a,
                ),
            Err(e) => lda_rel(pre, post, ms, Err(e)),
        },
        0x8b => xaa_rel(pre, post, ms, r),
        0xbb => las_rel(pre, post, ms, r),
        _ => execute_undoc_store_rel(pre, post, op, r),
    }
}

/// The unstable high-address store layer of `execute_rel`; every opcode
/// byte is covered by one of the layers.
pub open spec fn execute_undoc_store_rel(pre: Cpu, post: Cpu, op: u8, r: Result<(), EmuError>) -> bool {
    match op {
        0x9b => tas_rel(pre, post, r),
        0x93 => ahx_ind_rel(pre, post, r),
        0x9f => ahx_abs_rel(pre, post, r),
        0x9e => shx_rel(pre, post, r),
        0x9c => shy_rel(pre, post, r),
        _ => r is Ok && post == pre,
    }
}


/// The fetch-independent tail of a step: the instruction's declared
/// cycles reported to the bus (three picture-processor cycles each), and
/// the advance past the operand bytes when the handler left the program
/// counter at its post-fetch value.
pub open spec fn tick_advance_rel(mid: Cpu, post: Cpu, op: u8, fetched_pc: u16) -> bool {
    let cycles = cycles_spec(op);
    let len = mode_len_spec(mode_spec(op));
    let signal = clock_tick_spec(clock_of(mid.bus.ppu), (cycles * 3) as u8).1;
    &&& tick_rel(mid.bus.ppu, post.bus.ppu, (cycles * 3) as u8, signal)
    &&& post.bus.frame_complete == (mid.bus.frame_complete || signal)
    &&& post.bus.cpu_vram@ == mid.bus.cpu_vram@
    &&& post.bus.prg_rom@ == mid.bus.prg_rom@
    &&& (mid.bus.cycles + cycles <= usize::MAX ==> post.bus.cycles == mid.bus.cycles + cycles)
    &&& post.pc == (if mid.pc == fetched_pc {
        ((mid.pc + len - 1) % 0x10000) as u16
    } else {
        mid.pc
    })
    &&& post.a == mid.a && post.x == mid.x && post.y == mid.y && post.sp == mid.sp && post.stat
        == mid.stat
}

/// What one whole step does: the opcode fetched at the program counter,
/// the per-opcode transition of `execute_rel`, then the cycle report and
/// operand advance; a zero opcode (BRK) stops the core right after its
/// fetch, and a faulting instruction reports its fault with no cycle
/// charged.
pub open spec fn step_rel(pre: Cpu, post: Cpu, r: Result<bool, EmuError>) -> bool {
    let op = bus_peek_spec(pre.bus, pre.pc);
    let fetched = Cpu { pc: ((pre.pc + 1) % 0x10000) as u16, ..pre };
    if op == 0 {
        r == Ok::<bool, EmuError>(false) && post == fetched
    } else {
        match r {
            Ok(cont) => cont == true && exists|mid: Cpu|
                #[trigger] execute_rel(fetched, mid, op, Ok::<(), EmuError>(()))
                    && tick_advance_rel(mid, post, op, fetched.pc),
            Err(e) => execute_rel(fetched, post, op, Err::<(), EmuError>(e)),
        }
    }
}

/// What servicing the interrupt does: the program counter and the status
/// (break mark clear, its companion set) pushed, interrupts masked, two
/// cycles spent, and the vector at `0xFFFA` entered.
pub open spec fn interrupt_rel(pre: Cpu, post: Cpu) -> bool {
    let pc = pre.pc;
    let (ram1, sp1) = stack_push_spec(pre.bus.cpu_vram@, pre.sp, (pc / 0x100) as u8);
    let (ram2, sp2) = stack_push_spec(ram1, sp1, (pc % 0x100) as u8);
    let (ram3, sp3) = stack_push_spec(ram2, sp2, (pre.stat.bits & !FLAG_BREAK) | FLAG_BREAK2);
    &&& post.bus.cpu_vram@ == ram3
    &&& post.sp == sp3
    &&& post.stat.bits == pre.stat.bits | FLAG_INTERRUPT_DISABLE
    &&& post.pc == bus_peek16_spec(pre.bus, 0xFFFA)
    &&& post.a == pre.a && post.x == pre.x && post.y == pre.y
    &&& tick_rel(pre.bus.ppu, post.bus.ppu, 6, clock_tick_spec(clock_of(pre.bus.ppu), 6).1)
    &&& post.bus.prg_rom@ == pre.bus.prg_rom@
}

/// The interrupt poll at the top of each loop iteration: the pending
/// interrupt, if any, is taken and serviced.
pub open spec fn nmi_service_rel(pre: Cpu, post: Cpu) -> bool {
    if pre.bus.ppu.nmi_interrupt is Some {
        interrupt_rel(
            Cpu {
                bus: Bus { ppu: Ppu { nmi_interrupt: None, ..pre.bus.ppu }, ..pre.bus },
                ..pre
            },
            post,
        )
    } else {
        post == pre
    }
}

/// One continuing iteration of the run loop: the interrupt poll, then a
/// step that did not stop.
#[verifier::opaque]
pub open spec fn run_iter_rel(pre: Cpu, post: Cpu) -> bool {
    exists|mid: Cpu|
        #[trigger] nmi_service_rel(pre, mid) && step_rel(mid, post, Ok::<bool, EmuError>(true))
}

/// `n` continuing iterations of the run loop.
pub open spec fn run_prefix_rel(pre: Cpu, post: Cpu, n: nat) -> bool
    decreases n,
{
    if n == 0 {
        post == pre
    } else {
        exists|mid: Cpu|
            #[trigger] run_iter_rel(pre, mid) && run_prefix_rel(mid, post, (n - 1) as nat)
    }
}

/// The stopping iteration of the run loop: the interrupt poll, then the
/// step that fetched a BRK.
pub open spec fn run_stop_rel(pre: Cpu, post: Cpu) -> bool {
    exists|mid: Cpu|
        #[trigger] nmi_service_rel(pre, mid) && step_rel(mid, post, Ok::<bool, EmuError>(false))
}

/// The image of the reset interrupt: registers cleared, the stack cursor
/// restored, interrupts masked, the program counter from the reset
/// vector, the bus untouched.
pub open spec fn reset_post(pre: Cpu) -> Cpu {
    Cpu {
        pc: bus_peek16_spec(pre.bus, 0xFFFC),
        sp: STACK_RESET,
        a: 0,
        x: 0,
        y: 0,
        stat: StatFlags { bits: 0b10_0100 },
        bus: pre.bus,
    }
}

/// What placing a program image does: the front of program ROM becomes
/// the image, the rest of the machine is untouched.
pub open spec fn load_rel(pre: Cpu, post: Cpu, program: Seq<u8>) -> bool {
    &&& post.bus.prg_rom@.len() == pre.bus.prg_rom@.len()
    &&& forall|i: int| 0 <= i < program.len() ==> post.bus.prg_rom@[i] == program[i]
    &&& forall|i: int|
        program.len() <= i < pre.bus.prg_rom@.len() ==> post.bus.prg_rom@[i]
            == pre.bus.prg_rom@[i]
    &&& post == (Cpu { bus: Bus { prg_rom: post.bus.prg_rom, ..pre.bus }, ..pre })
}


/// An interrupt poll followed by a continuing step forms one loop
/// iteration.
proof fn lemma_run_iter(pre: Cpu, mid: Cpu, post: Cpu)
    requires
        nmi_service_rel(pre, mid),
        step_rel(mid, post, Ok::<bool, EmuError>(true)),
    ensures
        run_iter_rel(pre, post),
{
    reveal(run_iter_rel);
}

/// One more iteration extends a prefix of the run.
#[verifier::rlimit(100)]
#[verifier::spinoff_prover]
proof fn lemma_prefix_extend(start: Cpu, cur: Cpu, post: Cpu, n: nat)
    requires
        run_prefix_rel(start, cur, n),
        run_iter_rel(cur, post),
    ensures
        run_prefix_rel(start, post, (n + 1) as nat),
    decreases n,
{
    assert(((((n + 1) as nat) - 1) as nat) == n);
    if n == 0 {
        assert(run_prefix_rel(post, post, ((((n + 1) as nat) - 1) as nat)));
        assert(run_iter_rel(start, post) && run_prefix_rel(
            post,
            post,
            ((((n + 1) as nat) - 1) as nat),
        ));
    } else {
        let mid0 = choose|m: Cpu|
            #[trigger] run_iter_rel(start, m) && run_prefix_rel(m, cur, (n - 1) as nat);
        assert(run_iter_rel(start, mid0) && run_prefix_rel(mid0, cur, (n - 1) as nat));
        lemma_prefix_extend(mid0, cur, post, (n - 1) as nat);
        assert((((n - 1) as nat + 1) as nat) == n);
        assert(run_iter_rel(start, mid0) && run_prefix_rel(
            mid0,
            post,
            ((((n + 1) as nat) - 1) as nat),
        ));
    }
}

/// An interrupt poll followed by a stopping step forms the final
/// iteration, and leaves the program counter one past the BRK byte.
proof fn lemma_run_stop(pre: Cpu, mid: Cpu, post: Cpu)
    requires
        nmi_service_rel(pre, mid),
        step_rel(mid, post, Ok::<bool, EmuError>(false)),
    ensures
        run_stop_rel(pre, post),
        bus_peek_spec(post.bus, ((post.pc + 0xffff) % 0x10000) as u16) == 0,
{
    assert(bus_peek_spec(post.bus, ((post.pc + 0xffff) % 0x10000) as u16) == bus_peek_spec(
        mid.bus,
        mid.pc,
    ));
}

impl Cpu {
    /// Fetch the operand for `mode` through the bus, with the data-port
    /// side effects of a routed load.
    fn read_operand(&mut self, mode: &AddressingMode) -> (r: Result<u8, EmuError>)
        requires
            old(self).wf(),
            !(mode is Implied),
            !(mode is Relative),
        ensures
            final(self).wf(),
            ({
                let addr = operand_addr_spec(*old(self), *mode);
                r == bus_read_result_spec(old(self).bus, addr) && *final(self) == (Cpu {
                    bus: bus_read_post_spec(old(self).bus, addr),
                    ..*old(self)
                })
            }),
    {
        let addr = self.get_operand_address(mode);
        self.bus.mem_read(addr)
    }

    fn lda(&mut self, mode: &AddressingMode) -> (r: Result<(), EmuError>)
        requires
            old(self).wf(),
            !(mode is Implied),
            !(mode is Relative),
        ensures
            final(self).wf(),
            ({
                let addr = operand_addr_spec(*old(self), *mode);
                match bus_read_result_spec(old(self).bus, addr) {
                    Ok(v) => r is Ok && *final(self) == (Cpu {
                        a: v,
                        stat: StatFlags { bits: zn_spec(old(self).stat.bits, v) },
                        bus: bus_read_post_spec(old(self).bus, addr),
                        ..*old(self)
                    }),
                    Err(e) => r == Err::<(), EmuError>(e) && *final(self) == *old(self),
                }
            }),
    {
        let v = match self.read_operand(mode) {
            Ok(v) => v,
            Err(e) => {
                return Err(e);
            },
        };
        self.a = v;
        self.update_zero_and_negative_flags(v);
        Ok(())
    }

    fn ldx(&mut self, mode: &AddressingMode) -> (r: Result<(), EmuError>)
        requires
            old(self).wf(),
            !(mode is Implied),
            !(mode is Relative),
        ensures
            final(self).wf(),
            ({
                let addr = operand_addr_spec(*old(self), *mode);
                match bus_read_result_spec(old(self).bus, addr) {
                    Ok(v) => r is Ok && *final(self) == (Cpu {
                        x: v,
                        stat: StatFlags { bits: zn_spec(old(self).stat.bits, v) },
                        bus: bus_read_post_spec(old(self).bus, addr),
                        ..*old(self)
                    }),
                    Err(e) => r == Err::<(), EmuError>(e) && *final(self) == *old(self),
                }
            }),
    {
        let v = match self.read_operand(mode) {
            Ok(v) => v,
            Err(e) => {
                return Err(e);
            },
        };
        self.x = v;
        self.update_zero_and_negative_flags(v);
        Ok(())
    }

    fn ldy(&mut self, mode: &AddressingMode) -> (r: Result<(), EmuError>)
        requires
            old(self).wf(),
            !(mode is Implied),
            !(mode is Relative),
        ensures
            final(self).wf(),
            ({
                let addr = operand_addr_spec(*old(self), *mode);
                match bus_read_result_spec(old(self).bus, addr) {
                    Ok(v) => r is Ok && *final(self) == (Cpu {
                        y: v,
                        stat: StatFlags { bits: zn_spec(old(self).stat.bits, v) },
                        bus: bus_read_post_spec(old(self).bus, addr),
                        ..*old(self)
                    }),
                    Err(e) => r == Err::<(), EmuError>(e) && *final(self) == *old(self),
                }
            }),
    {
        let v = match self.read_operand(mode) {
            Ok(v) => v,
            Err(e) => {
                return Err(e);
            },
        };
        self.y = v;
        self.update_zero_and_negative_flags(v);
        Ok(())
    }

    fn sta(&mut self, mode: &AddressingMode) -> (r: Result<(), EmuError>)
        requires
            old(self).wf(),
            !(mode is Implied),
            !(mode is Relative),
        ensures
            final(self).wf(),
            ({
                let addr = operand_addr_spec(*old(self), *mode);
                bus_write_rel(old(self).bus, final(self).bus, addr, old(self).a, r) && *final(self)
                    == (Cpu { bus: final(self).bus, ..*old(self) })
            }),
    {
        let addr = self.get_operand_address(mode);
        self.bus.mem_write(addr, self.a)
    }

    fn stx(&mut self, mode: &AddressingMode) -> (r: Result<(), EmuError>)
        requires
            old(self).wf(),
            !(mode is Implied),
            !(mode is Relative),
        ensures
            final(self).wf(),
            ({
                let addr = operand_addr_spec(*old(self), *mode);
                bus_write_rel(old(self).bus, final(self).bus, addr, old(self).x, r) && *final(self)
                    == (Cpu { bus: final(self).bus, ..*old(self) })
            }),
    {
        let addr = self.get_operand_address(mode);
        self.bus.mem_write(addr, self.x)
    }

    fn sty(&mut self, mode: &AddressingMode) -> (r: Result<(), EmuError>)
        requires
            old(self).wf(),
            !(mode is Implied),
            !(mode is Relative),
        ensures
            final(self).wf(),
            ({
                let addr = operand_addr_spec(*old(self), *mode);
                bus_write_rel(old(self).bus, final(self).bus, addr, old(self).y, r) && *final(self)
                    == (Cpu { bus: final(self).bus, ..*old(self) })
            }),
    {
        let addr = self.get_operand_address(mode);
        self.bus.mem_write(addr, self.y)
    }

    /// Add the operand and the carry into the accumulator: nine-bit sum,
    /// Carry from bit 8, signed Overflow, Zero and Negative from the
    /// eight-bit result.
    fn add_to_a(&mut self, data: u8)
        ensures
            ({
                let c = old(self).stat.bits & FLAG_CARRY != 0;
                *final(self) == (Cpu {
                    a: adc_result_spec(old(self).a, data, c),
                    stat: StatFlags { bits: adc_flags_spec(old(self).stat.bits, old(self).a, data, c) },
                    ..*old(self)
                })
            }),
    {
        let carry_in: u16 = if self.stat.contains(FLAG_CARRY) {
            1
        } else {
            0
        };
        let sum: u16 = self.a as u16 + data as u16 + carry_in;
        let res = (sum % 0x100) as u8;
        if sum > 0xff {
            self.set_carry();
        } else {
            self.clear_carry();
        }
        if (data ^ res) & (res ^ self.a) & 0x80 != 0 {
            self.set_overflow();
        } else {
            self.clear_overflow();
        }
        self.update_zero_and_negative_flags(res);
        self.a = res;
    }

    /// Subtract by adding the operand's complement, as the hardware does.
    fn sub_from_a(&mut self, data: u8)
        ensures
            ({
                let c = old(self).stat.bits & FLAG_CARRY != 0;
                *final(self) == (Cpu {
                    a: adc_result_spec(old(self).a, !data, c),
                    stat: StatFlags {
                        bits: adc_flags_spec(old(self).stat.bits, old(self).a, !data, c),
                    },
                    ..*old(self)
                })
            }),
    {
        self.add_to_a(!data);
    }

    fn adc(&mut self, mode: &AddressingMode) -> (r: Result<(), EmuError>)
        requires
            old(self).wf(),
            !(mode is Implied),
            !(mode is Relative),
        ensures
            final(self).wf(),
            ({
                let addr = operand_addr_spec(*old(self), *mode);
                let c = old(self).stat.bits & FLAG_CARRY != 0;
                match bus_read_result_spec(old(self).bus, addr) {
                    Ok(v) => r is Ok && *final(self) == (Cpu {
                        a: adc_result_spec(old(self).a, v, c),
                        stat: StatFlags { bits: adc_flags_spec(old(self).stat.bits, old(self).a, v, c) },
                        bus: bus_read_post_spec(old(self).bus, addr),
                        ..*old(self)
                    }),
                    Err(e) => r == Err::<(), EmuError>(e) && *final(self) == *old(self),
                }
            }),
    {
        let v = match self.read_operand(mode) {
            Ok(v) => v,
            Err(e) => {
                return Err(e);
            },
        };
        self.add_to_a(v);
        Ok(())
    }

    fn sbc(&mut self, mode: &AddressingMode) -> (r: Result<(), EmuError>)
        requires
            old(self).wf(),
            !(mode is Implied),
            !(mode is Relative),
        ensures
            final(self).wf(),
            ({
                let addr = operand_addr_spec(*old(self), *mode);
                let c = old(self).stat.bits & FLAG_CARRY != 0;
                match bus_read_result_spec(old(self).bus, addr) {
                    Ok(v) => r is Ok && *final(self) == (Cpu {
                        a: adc_result_spec(old(self).a, !v, c),
                        stat: StatFlags {
                            bits: adc_flags_spec(old(self).stat.bits, old(self).a, !v, c),
                        },
                        bus: bus_read_post_spec(old(self).bus, addr),
                        ..*old(self)
                    }),
                    Err(e) => r == Err::<(), EmuError>(e) && *final(self) == *old(self),
                }
            }),
    {
        let v = match self.read_operand(mode) {
            Ok(v) => v,
            Err(e) => {
                return Err(e);
            },
        };
        self.sub_from_a(v);
        Ok(())
    }

    fn and(&mut self, mode: &AddressingMode) -> (r: Result<(), EmuError>)
        requires
            old(self).wf(),
            !(mode is Implied),
            !(mode is Relative),
        ensures
            final(self).wf(),
            ({
                let addr = operand_addr_spec(*old(self), *mode);
                match bus_read_result_spec(old(self).bus, addr) {
                    Ok(v) => r is Ok && *final(self) == (Cpu {
                        a: old(self).a & v,
                        stat: StatFlags { bits: zn_spec(old(self).stat.bits, old(self).a & v) },
                        bus: bus_read_post_spec(old(self).bus, addr),
                        ..*old(self)
                    }),
                    Err(e) => r == Err::<(), EmuError>(e) && *final(self) == *old(self),
                }
            }),
    {
        let v = match self.read_operand(mode) {
            Ok(v) => v,
            Err(e) => {
                return Err(e);
            },
        };
        self.a = self.a & v;
        self.update_zero_and_negative_flags(self.a);
        Ok(())
    }

    fn ora(&mut self, mode: &AddressingMode) -> (r: Result<(), EmuError>)
        requires
            old(self).wf(),
            !(mode is Implied),
            !(mode is Relative),
        ensures
            final(self).wf(),
            ({
                let addr = operand_addr_spec(*old(self), *mode);
                match bus_read_result_spec(old(self).bus, addr) {
                    Ok(v) => r is Ok && *final(self) == (Cpu {
                        a: old(self).a | v,
                        stat: StatFlags { bits: zn_spec(old(self).stat.bits, old(self).a | v) },
                        bus: bus_read_post_spec(old(self).bus, addr),
                        ..*old(self)
                    }),
                    Err(e) => r == Err::<(), EmuError>(e) && *final(self) == *old(self),
                }
            }),
    {
        let v = match self.read_operand(mode) {
            Ok(v) => v,
            Err(e) => {
                return Err(e);
            },
        };
        self.a = self.a | v;
        self.update_zero_and_negative_flags(self.a);
        Ok(())
    }

    fn eor(&mut self, mode: &AddressingMode) -> (r: Result<(), EmuError>)
        requires
            old(self).wf(),
            !(mode is Implied),
            !(mode is Relative),
        ensures
            final(self).wf(),
            ({
                let addr = operand_addr_spec(*old(self), *mode);
                match bus_read_result_spec(old(self).bus, addr) {
                    Ok(v) => r is Ok && *final(self) == (Cpu {
                        a: old(self).a ^ v,
                        stat: StatFlags { bits: zn_spec(old(self).stat.bits, old(self).a ^ v) },
                        bus: bus_read_post_spec(old(self).bus, addr),
                        ..*old(self)
                    }),
                    Err(e) => r == Err::<(), EmuError>(e) && *final(self) == *old(self),
                }
            }),
    {
        let v = match self.read_operand(mode) {
            Ok(v) => v,
            Err(e) => {
                return Err(e);
            },
        };
        self.a = self.a ^ v;
        self.update_zero_and_negative_flags(self.a);
        Ok(())
    }

    fn tax(&mut self)
        ensures
            *final(self) == (Cpu {
                x: old(self).a,
                stat: StatFlags { bits: zn_spec(old(self).stat.bits, old(self).a) },
                ..*old(self)
            }),
    {
        self.x = self.a;
        self.update_zero_and_negative_flags(self.x);
    }

    fn bit(&mut self, mode: &AddressingMode) -> (r: Result<(), EmuError>)
        requires
            old(self).wf(),
            !(mode is Implied),
            !(mode is Relative),
        ensures
            final(self).wf(),
            ({
                let addr = operand_addr_spec(*old(self), *mode);
                match bus_read_result_spec(old(self).bus, addr) {
                    Ok(v) => r is Ok && *final(self) == (Cpu {
                        stat: StatFlags { bits: bit_flags_spec(old(self).stat.bits, old(self).a, v) },
                        bus: bus_read_post_spec(old(self).bus, addr),
                        ..*old(self)
                    }),
                    Err(e) => r == Err::<(), EmuError>(e) && *final(self) == *old(self),
                }
            }),
    {
        let v = match self.read_operand(mode) {
            Ok(v) => v,
            Err(e) => {
                return Err(e);
            },
        };
        let and = self.a & v;
        if and == 0 {
            self.set_zero();
        } else {
            self.clear_zero();
        }
        self.stat.set(FLAG_NEGATIVE, v & 0x80 != 0);
        self.stat.set(FLAG_OVERFLOW, v & 0x40 != 0);
        Ok(())
    }

    /// Compare a register with the operand: Carry when the register is at
    /// least the operand, Zero on equality, Negative from the difference.
    /// The register itself is unchanged.
    fn compare(&mut self, mode: &AddressingMode, with: u8) -> (r: Result<(), EmuError>)
        requires
            old(self).wf(),
            !(mode is Implied),
            !(mode is Relative),
        ensures
            final(self).wf(),
            ({
                let addr = operand_addr_spec(*old(self), *mode);
                match bus_read_result_spec(old(self).bus, addr) {
                    Ok(v) => r is Ok && *final(self) == (Cpu {
                        stat: StatFlags { bits: compare_flags_spec(old(self).stat.bits, with, v) },
                        bus: bus_read_post_spec(old(self).bus, addr),
                        ..*old(self)
                    }),
                    Err(e) => r == Err::<(), EmuError>(e) && *final(self) == *old(self),
                }
            }),
    {
        let v = match self.read_operand(mode) {
            Ok(v) => v,
            Err(e) => {
                return Err(e);
            },
        };
        if with >= v {
            self.set_carry();
        } else {
            self.clear_carry();
        }
        self.update_zero_and_negative_flags(with.wrapping_sub(v));
        Ok(())
    }

    fn dex(&mut self)
        ensures
            *final(self) == (Cpu {
                x: sub_result_spec(old(self).x, 1),
                stat: StatFlags { bits: zn_spec(old(self).stat.bits, sub_result_spec(old(self).x, 1)) },
                ..*old(self)
            }),
    {
        self.x = self.x.wrapping_sub(1);
        self.update_zero_and_negative_flags(self.x);
    }

    fn dey(&mut self)
        ensures
            *final(self) == (Cpu {
                y: sub_result_spec(old(self).y, 1),
                stat: StatFlags { bits: zn_spec(old(self).stat.bits, sub_result_spec(old(self).y, 1)) },
                ..*old(self)
            }),
    {
        self.y = self.y.wrapping_sub(1);
        self.update_zero_and_negative_flags(self.y);
    }

    fn inx(&mut self)
        ensures
            *final(self) == (Cpu {
                x: ((old(self).x + 1) % 0x100) as u8,
                stat: StatFlags {
                    bits: zn_spec(old(self).stat.bits, ((old(self).x + 1) % 0x100) as u8),
                },
                ..*old(self)
            }),
    {
        self.x = self.x.wrapping_add(1);
        self.update_zero_and_negative_flags(self.x);
    }

    fn iny(&mut self)
        ensures
            *final(self) == (Cpu {
                y: ((old(self).y + 1) % 0x100) as u8,
                stat: StatFlags {
                    bits: zn_spec(old(self).stat.bits, ((old(self).y + 1) % 0x100) as u8),
                },
                ..*old(self)
            }),
    {
        self.y = self.y.wrapping_add(1);
        self.update_zero_and_negative_flags(self.y);
    }

    /// Take a branch when the condition holds: the signed offset at the
    /// program counter is added to the address just past it.
    fn branch(&mut self, cond: bool)
        requires
            old(self).wf(),
        ensures
            final(self).wf(),
            *final(self) == (Cpu {
                pc: if cond {
                    branch_target_spec(*old(self))
                } else {
                    old(self).pc
                },
                ..*old(self)
            }),
    {
        if cond {
            let rel = self.bus.mem_peek(self.pc);
            let ext: u16 = if rel < 0x80 {
                rel as u16
            } else {
                proof {
                    assert(0xff00u16 | (rel as u16) == 0xff00 + rel) by (bit_vector)
                        requires
                            rel >= 0x80,
                    ;
                }
                0xff00 | rel as u16
            };
            self.pc = self.pc.wrapping_add(1).wrapping_add(ext);
        }
    }

    fn and_with_a(&mut self, data: u8)
        ensures
            *final(self) == (Cpu { a: old(self).a & data, ..*old(self) }),
    {
        self.a = self.a & data;
    }

    fn xor_with_a(&mut self, data: u8)
        ensures
            *final(self) == (Cpu { a: old(self).a ^ data, ..*old(self) }),
    {
        self.a = self.a ^ data;
    }

    fn or_with_a(&mut self, data: u8)
        ensures
            *final(self) == (Cpu { a: old(self).a | data, ..*old(self) }),
    {
        self.a = self.a | data;
    }

    fn asl_accumulator(&mut self)
        ensures
            *final(self) == (Cpu {
                a: asl_result_spec(old(self).a),
                stat: StatFlags {
                    bits: shift_flags_spec(
                        old(self).stat.bits,
                        old(self).a & 0x80 != 0,
                        asl_result_spec(old(self).a),
                    ),
                },
                ..*old(self)
            }),
    {
        let data = self.a;
        if data & 0x80 != 0 {
            self.set_carry();
        } else {
            self.clear_carry();
        }
        self.a = data << 1;
        self.update_zero_and_negative_flags(self.a);
    }

    fn lsr_accumulator(&mut self)
        ensures
            *final(self) == (Cpu {
                a: lsr_result_spec(old(self).a),
                stat: StatFlags {
                    bits: shift_flags_spec(
                        old(self).stat.bits,
                        old(self).a & 1 != 0,
                        lsr_result_spec(old(self).a),
                    ),
                },
                ..*old(self)
            }),
    {
        let data = self.a;
        if data & 1 != 0 {
            self.set_carry();
        } else {
            self.clear_carry();
        }
        self.a = data >> 1;
        self.update_zero_and_negative_flags(self.a);
    }

    fn rol_accumulator(&mut self)
        ensures
            ({
                let c = old(self).stat.bits & FLAG_CARRY != 0;
                *final(self) == (Cpu {
                    a: rol_result_spec(old(self).a, c),
                    stat: StatFlags {
                        bits: shift_flags_spec(
                            old(self).stat.bits,
                            old(self).a & 0x80 != 0,
                            rol_result_spec(old(self).a, c),
                        ),
                    },
                    ..*old(self)
                })
            }),
    {
        let data = self.a;
        let tmp_carry = self.stat.contains(FLAG_CARRY);
        if data & 0x80 != 0 {
            self.set_carry();
        } else {
            self.clear_carry();
        }
        let mut shifted = data << 1;
        if tmp_carry {
            shifted = shifted | 1;
        }
        self.a = shifted;
        self.update_zero_and_negative_flags(shifted);
    }

    fn ror_accumulator(&mut self)
        ensures
            ({
                let c = old(self).stat.bits & FLAG_CARRY != 0;
                *final(self) == (Cpu {
                    a: ror_result_spec(old(self).a, c),
                    stat: StatFlags {
                        bits: shift_flags_spec(
                            old(self).stat.bits,
                            old(self).a & 1 != 0,
                            ror_result_spec(old(self).a, c),
                        ),
                    },
                    ..*old(self)
                })
            }),
    {
        let data = self.a;
        let tmp_carry = self.stat.contains(FLAG_CARRY);
        if data & 1 != 0 {
            self.set_carry();
        } else {
            self.clear_carry();
        }
        let mut shifted = data >> 1;
        if tmp_carry {
            shifted = shifted | 0x80;
        }
        self.a = shifted;
        self.update_zero_and_negative_flags(shifted);
    }

    fn asl(&mut self, mode: &AddressingMode) -> (r: Result<u8, EmuError>)
        requires
            old(self).wf(),
            !(mode is Implied),
            !(mode is Relative),
        ensures
            final(self).wf(),
            ({
                let addr = operand_addr_spec(*old(self), *mode);
                match bus_read_result_spec(old(self).bus, addr) {
                    Ok(v) => {
                        let nv = asl_result_spec(v);
                        let mid = bus_read_post_spec(old(self).bus, addr);
                        let wr: Result<(), EmuError> = if r is Ok {
                            Ok(())
                        } else {
                            Err(r->Err_0)
                        };
                        bus_write_rel(mid, final(self).bus, addr, nv, wr) && (r is Ok ==> r->Ok_0
                            == nv && *final(self) == (Cpu {
                            stat: StatFlags {
                                bits: shift_flags_spec(old(self).stat.bits, v & 0x80 != 0, nv),
                            },
                            bus: final(self).bus,
                            ..*old(self)
                        })) && (r is Err ==> *final(self) == (Cpu {
                            bus: final(self).bus,
                            ..*old(self)
                        }))
                    },
                    Err(e) => r == Err::<u8, EmuError>(e) && *final(self) == *old(self),
                }
            }),
    {
        let addr = self.get_operand_address(mode);
        let v = match self.bus.mem_read(addr) {
            Ok(v) => v,
            Err(e) => {
                return Err(e);
            },
        };
        let nv = v << 1;
        match self.bus.mem_write(addr, nv) {
            Ok(()) => (),
            Err(e) => {
                return Err(e);
            },
        }
        if v & 0x80 != 0 {
            self.set_carry();
        } else {
            self.clear_carry();
        }
        self.update_zero_and_negative_flags(nv);
        Ok(nv)
    }

    fn lsr(&mut self, mode: &AddressingMode) -> (r: Result<u8, EmuError>)
        requires
            old(self).wf(),
            !(mode is Implied),
            !(mode is Relative),
        ensures
            final(self).wf(),
            ({
                let addr = operand_addr_spec(*old(self), *mode);
                match bus_read_result_spec(old(self).bus, addr) {
                    Ok(v) => {
                        let nv = lsr_result_spec(v);
                        let mid = bus_read_post_spec(old(self).bus, addr);
                        let wr: Result<(), EmuError> = if r is Ok {
                            Ok(())
                        } else {
                            Err(r->Err_0)
                        };
                        bus_write_rel(mid, final(self).bus, addr, nv, wr) && (r is Ok ==> r->Ok_0
                            == nv && *final(self) == (Cpu {
                            stat: StatFlags {
                                bits: shift_flags_spec(old(self).stat.bits, v & 1 != 0, nv),
                            },
                            bus: final(self).bus,
                            ..*old(self)
                        })) && (r is Err ==> *final(self) == (Cpu {
                            bus: final(self).bus,
                            ..*old(self)
                        }))
                    },
                    Err(e) => r == Err::<u8, EmuError>(e) && *final(self) == *old(self),
                }
            }),
    {
        let addr = self.get_operand_address(mode);
        let v = match self.bus.mem_read(addr) {
            Ok(v) => v,
            Err(e) => {
                return Err(e);
            },
        };
        let nv = v >> 1;
        match self.bus.mem_write(addr, nv) {
            Ok(()) => (),
            Err(e) => {
                return Err(e);
            },
        }
        if v & 1 != 0 {
            self.set_carry();
        } else {
            self.clear_carry();
        }
        self.update_zero_and_negative_flags(nv);
        Ok(nv)
    }

    fn rol(&mut self, mode: &AddressingMode) -> (r: Result<u8, EmuError>)
        requires
            old(self).wf(),
            !(mode is Implied),
            !(mode is Relative),
        ensures
            final(self).wf(),
            ({
                let addr = operand_addr_spec(*old(self), *mode);
                let c = old(self).stat.bits & FLAG_CARRY != 0;
                match bus_read_result_spec(old(self).bus, addr) {
                    Ok(v) => {
                        let nv = rol_result_spec(v, c);
                        let mid = bus_read_post_spec(old(self).bus, addr);
                        let wr: Result<(), EmuError> = if r is Ok {
                            Ok(())
                        } else {
                            Err(r->Err_0)
                        };
                        bus_write_rel(mid, final(self).bus, addr, nv, wr) && (r is Ok ==> r->Ok_0
                            == nv && *final(self) == (Cpu {
                            stat: StatFlags {
                                bits: shift_flags_spec(old(self).stat.bits, v & 0x80 != 0, nv),
                            },
                            bus: final(self).bus,
                            ..*old(self)
                        })) && (r is Err ==> *final(self) == (Cpu {
                            bus: final(self).bus,
                            ..*old(self)
                        }))
                    },
                    Err(e) => r == Err::<u8, EmuError>(e) && *final(self) == *old(self),
                }
            }),
    {
        let addr = self.get_operand_address(mode);
        let v = match self.bus.mem_read(addr) {
            Ok(v) => v,
            Err(e) => {
                return Err(e);
            },
        };
        let tmp_carry = self.stat.contains(FLAG_CARRY);
        let mut nv = v << 1;
        if tmp_carry {
            nv = nv | 1;
        }
        match self.bus.mem_write(addr, nv) {
            Ok(()) => (),
            Err(e) => {
                return Err(e);
            },
        }
        if v & 0x80 != 0 {
            self.set_carry();
        } else {
            self.clear_carry();
        }
        self.update_zero_and_negative_flags(nv);
        Ok(nv)
    }

    fn ror(&mut self, mode: &AddressingMode) -> (r: Result<u8, EmuError>)
        requires
            old(self).wf(),
            !(mode is Implied),
            !(mode is Relative),
        ensures
            final(self).wf(),
            ({
                let addr = operand_addr_spec(*old(self), *mode);
                let c = old(self).stat.bits & FLAG_CARRY != 0;
                match bus_read_result_spec(old(self).bus, addr) {
                    Ok(v) => {
                        let nv = ror_result_spec(v, c);
                        let mid = bus_read_post_spec(old(self).bus, addr);
                        let wr: Result<(), EmuError> = if r is Ok {
                            Ok(())
                        } else {
                            Err(r->Err_0)
                        };
                        bus_write_rel(mid, final(self).bus, addr, nv, wr) && (r is Ok ==> r->Ok_0
                            == nv && *final(self) == (Cpu {
                            stat: StatFlags {
                                bits: shift_flags_spec(old(self).stat.bits, v & 1 != 0, nv),
                            },
                            bus: final(self).bus,
                            ..*old(self)
                        })) && (r is Err ==> *final(self) == (Cpu {
                            bus: final(self).bus,
                            ..*old(self)
                        }))
                    },
                    Err(e) => r == Err::<u8, EmuError>(e) && *final(self) == *old(self),
                }
            }),
    {
        let addr = self.get_operand_address(mode);
        let v = match self.bus.mem_read(addr) {
            Ok(v) => v,
            Err(e) => {
                return Err(e);
            },
        };
        let tmp_carry = self.stat.contains(FLAG_CARRY);
        let mut nv = v >> 1;
        if tmp_carry {
            nv = nv | 0x80;
        }
        match self.bus.mem_write(addr, nv) {
            Ok(()) => (),
            Err(e) => {
                return Err(e);
            },
        }
        if v & 1 != 0 {
            self.set_carry();
        } else {
            self.clear_carry();
        }
        self.update_zero_and_negative_flags(nv);
        Ok(nv)
    }

    #[verifier::rlimit(100)]
    #[verifier::spinoff_prover]
    fn inc(&mut self, mode: &AddressingMode) -> (r: Result<u8, EmuError>)
        requires
            old(self).wf(),
            !(mode is Implied),
            !(mode is Relative),
        ensures
            final(self).wf(),
            ({
                let addr = operand_addr_spec(*old(self), *mode);
                match bus_read_result_spec(old(self).bus, addr) {
                    Ok(v) => {
                        let nv = ((v + 1) % 0x100) as u8;
                        let mid = bus_read_post_spec(old(self).bus, addr);
                        let wr: Result<(), EmuError> = if r is Ok {
                            Ok(())
                        } else {
                            Err(r->Err_0)
                        };
                        bus_write_rel(mid, final(self).bus, addr, nv, wr) && (r is Ok ==> r->Ok_0
                            == nv && *final(self) == (Cpu {
                            stat: StatFlags { bits: zn_spec(old(self).stat.bits, nv) },
                            bus: final(self).bus,
                            ..*old(self)
                        })) && (r is Err ==> *final(self) == (Cpu {
                            bus: final(self).bus,
                            ..*old(self)
                        }))
                    },
                    Err(e) => r == Err::<u8, EmuError>(e) && *final(self) == *old(self),
                }
            }),
    {
        let addr = self.get_operand_address(mode);
        let v = match self.bus.mem_read(addr) {
            Ok(v) => v,
            Err(e) => {
                return Err(e);
            },
        };
        let nv = v.wrapping_add(1);
        proof {
            assert(nv == ((v + 1) % 0x100) as u8);
            assert(addr == operand_addr_spec(*old(self), *mode));
        }
        match self.bus.mem_write(addr, nv) {
            Ok(()) => (),
            Err(e) => {
                return Err(e);
            },
        }
        self.update_zero_and_negative_flags(nv);
        Ok(nv)
    }

    #[verifier::rlimit(100)]
    #[verifier::spinoff_prover]
    fn dec(&mut self, mode: &AddressingMode) -> (r: Result<u8, EmuError>)
        requires
            old(self).wf(),
            !(mode is Implied),
            !(mode is Relative),
        ensures
            final(self).wf(),
            ({
                let addr = operand_addr_spec(*old(self), *mode);
                match bus_read_result_spec(old(self).bus, addr) {
                    Ok(v) => {
                        let nv = sub_result_spec(v, 1);
                        let mid = bus_read_post_spec(old(self).bus, addr);
                        let wr: Result<(), EmuError> = if r is Ok {
                            Ok(())
                        } else {
                            Err(r->Err_0)
                        };
                        bus_write_rel(mid, final(self).bus, addr, nv, wr) && (r is Ok ==> r->Ok_0
                            == nv && *final(self) == (Cpu {
                            stat: StatFlags { bits: zn_spec(old(self).stat.bits, nv) },
                            bus: final(self).bus,
                            ..*old(self)
                        })) && (r is Err ==> *final(self) == (Cpu {
                            bus: final(self).bus,
                            ..*old(self)
                        }))
                    },
                    Err(e) => r == Err::<u8, EmuError>(e) && *final(self) == *old(self),
                }
            }),
    {
        let addr = self.get_operand_address(mode);
        let v = match self.bus.mem_read(addr) {
            Ok(v) => v,
            Err(e) => {
                return Err(e);
            },
        };
        let nv = v.wrapping_sub(1);
        proof {
            assert(nv == sub_result_spec(v, 1));
            assert(addr == operand_addr_spec(*old(self), *mode));
        }
        match self.bus.mem_write(addr, nv) {
            Ok(()) => (),
            Err(e) => {
                return Err(e);
            },
        }
        self.update_zero_and_negative_flags(nv);
        Ok(nv)
    }

    fn php(&mut self)
        requires
            old(self).wf(),
        ensures
            final(self).wf(),
            ({
                let (ram1, sp1) = stack_push_spec(
                    old(self).bus.cpu_vram@,
                    old(self).sp,
                    php_byte_spec(old(self).stat.bits),
                );
                final(self).bus.cpu_vram@ == ram1 && *final(self) == (Cpu {
                    sp: sp1,
                    bus: Bus { cpu_vram: final(self).bus.cpu_vram, ..old(self).bus },
                    ..*old(self)
                })
            }),
    {
        let mut pushed = self.stat;
        pushed.insert(FLAG_BREAK);
        pushed.insert(FLAG_BREAK2);
        self.stack_push(pushed.bits());
    }

    fn plp(&mut self)
        requires
            old(self).wf(),
        ensures
            final(self).wf(),
            ({
                let (v, sp1) = stack_pop_spec(old(self).bus.cpu_vram@, old(self).sp);
                *final(self) == (Cpu {
                    sp: sp1,
                    stat: StatFlags { bits: plp_byte_spec(v) },
                    ..*old(self)
                })
            }),
    {
        let popped = self.stack_pop();
        self.stat = StatFlags::from_bits_truncate((popped & !FLAG_BREAK) | FLAG_BREAK2);
    }
}

/// Adding an operand into the accumulator with the carry set, then
/// subtracting the same operand with the carry propagated, restores the
/// accumulator and leaves the final carry set; the subtraction reports a
/// signed overflow exactly when the addition did. The round trip needs
/// the addition not to carry out of eight bits, and the carry set going
/// in, as the architecture's subtract convention has it.
pub proof fn lemma_adc_sbc_round_trip(a: u8, m: u8)
    requires
        a + m + 1 <= 0xff,
    ensures
        ({
            let a1 = adc_result_spec(a, m, true);
            let c1 = adc_carry_spec(a, m, true);
            adc_result_spec(a1, !m, c1) == a && adc_carry_spec(a1, !m, c1) == true
                && adc_overflow_spec(a1, !m, c1) == adc_overflow_spec(a, m, true)
        }),
{
    let a1 = adc_result_spec(a, m, true);
    assert(a1 == a + m + 1);
    assert(m + !m == 255) by (bit_vector);
    assert(((m ^ a1) & (a1 ^ a) & 0x80 != 0) == ((!m ^ a) & (a ^ a1) & 0x80 != 0)) by (bit_vector);
}

impl Cpu {
    /// Service an interrupt: push the program counter and the status
    /// (break mark clear, its companion set), mask further interrupts,
    /// spend the interrupt's two cycles, and vector through `0xFFFA`.
    pub fn interrupt(&mut self, _it: InterruptType)
        requires
            old(self).wf(),
        ensures
            final(self).wf(),
            interrupt_rel(*old(self), *final(self)),
    {
        let pc = self.pc;
        self.stack_push_u16(pc);
        let mut pushed = self.stat;
        pushed.remove(FLAG_BREAK);
        pushed.insert(FLAG_BREAK2);
        self.stack_push(pushed.bits());
        self.stat.insert(FLAG_INTERRUPT_DISABLE);
        self.bus.tick(2);
        self.pc = self.bus.mem_peek_u16(0xFFFA);
    }

    /// Execute one instruction: fetch the opcode, dispatch on it, report
    /// the instruction's cycles to the bus, and step past the operand
    /// bytes unless the instruction wrote the program counter itself.
    /// Returns whether execution continues: the BRK opcode stops the
    /// core.
    #[verifier::rlimit(100)]
    #[verifier::spinoff_prover]
    pub fn step(&mut self) -> (r: Result<bool, EmuError>)
        requires
            old(self).wf(),
        ensures
            final(self).wf(),
            step_rel(*old(self), *final(self), r),
    {
        let opcode = self.bus.mem_peek(self.pc);
        self.pc = self.pc.wrapping_add(1);
        if opcode == 0x00 {
            // BRK stops the core at the top level.
            return Ok(false);
        }
        let pc_to_operand = self.pc;
        let ghost fetched = *self;
        let cur_inst = crate::instructions::lookup(opcode);
        match self.execute(opcode, &cur_inst) {
            Ok(()) => (),
            Err(e) => {
                return Err(e);
            },
        }
        let ghost mid = *self;
        self.step_tail(opcode, &cur_inst, pc_to_operand);
        proof {
            assert(execute_rel(fetched, mid, opcode, Ok::<(), EmuError>(())));
        }
        Ok(true)
    }

    /// Report the instruction's cycles and advance past its operand
    /// bytes when the handler left the program counter alone.
    #[verifier::rlimit(100)]
    #[verifier::spinoff_prover]
    fn step_tail(&mut self, opcode: u8, cur_inst: &crate::instructions::Instruction, pc_to_operand: u16)
        requires
            old(self).wf(),
            cur_inst.cycles == cycles_spec(opcode),
            cur_inst.cycles <= 85,
            cur_inst.len == mode_len_spec(mode_spec(opcode)),
        ensures
            final(self).wf(),
            tick_advance_rel(*old(self), *final(self), opcode, pc_to_operand),
    {
        self.bus.tick(cur_inst.cycles);
        if pc_to_operand == self.pc {
            self.pc = self.pc.wrapping_add((cur_inst.len - 1) as u16);
        }
    }

    /// Dispatch one already-fetched opcode to its behaviour. The BRK
    /// opcode is handled by the caller; here it does nothing.
    #[verifier::rlimit(100)]
    #[verifier::spinoff_prover]
    fn execute(&mut self, opcode: u8, cur_inst: &crate::instructions::Instruction) -> (r: Result<
        (),
        EmuError,
    >)
        requires
            old(self).wf(),
            cur_inst.mode == mode_spec(opcode),
        ensures
            final(self).wf(),
            execute_rel(*old(self), *final(self), opcode, r),
    {
        match opcode {
            0x00 => (),
            // TAX
            0xaa => self.tax(),
            // TXA
            0x8a => {
                self.a = self.x;
                let v = self.a;
                self.update_zero_and_negative_flags(v);
            },
            // TAY
            0xa8 => {
                self.y = self.a;
                let v = self.y;
                self.update_zero_and_negative_flags(v);
            },
            // TYA
            0x98 => {
                self.a = self.y;
                let v = self.a;
                self.update_zero_and_negative_flags(v);
            },
            // TSX
            0xba => {
                self.x = self.sp;
                let v = self.x;
                self.update_zero_and_negative_flags(v);
            },
            // TXS
            0x9a => {
                self.sp = self.x;
                let v = self.sp;
                self.update_zero_and_negative_flags(v);
            },
            // LDA
            0xa9 | 0xa5 | 0xb5 | 0xad | 0xbd | 0xb9 | 0xa1 | 0xb1 => {
                match self.lda(&cur_inst.mode) {
                    Ok(()) => (),
                    Err(e) => {
                        return Err(e);
                    },
                }
            },
            // LDX
            0xa2 | 0xa6 | 0xb6 | 0xae | 0xbe => {
                match self.ldx(&cur_inst.mode) {
                    Ok(()) => (),
                    Err(e) => {
                        return Err(e);
                    },
                }
            },
            // LDY
            0xa0 | 0xa4 | 0xb4 | 0xac | 0xbc => {
                match self.ldy(&cur_inst.mode) {
                    Ok(()) => (),
                    Err(e) => {
                        return Err(e);
                    },
                }
            },
            // STA
            0x85 | 0x95 | 0x8d | 0x9d | 0x99 | 0x81 | 0x91 => {
                match self.sta(&cur_inst.mode) {
                    Ok(()) => (),
                    Err(e) => {
                        return Err(e);
                    },
                }
            },
            // STX
            0x86 | 0x96 | 0x8e => {
                match self.stx(&cur_inst.mode) {
                    Ok(()) => (),
                    Err(e) => {
                        return Err(e);
                    },
                }
            },
            // STY
            0x84 | 0x94 | 0x8c => {
                match self.sty(&cur_inst.mode) {
                    Ok(()) => (),
                    Err(e) => {
                        return Err(e);
                    },
                }
            },
            _ => {
                return self.execute_arith(opcode, cur_inst);
            },
        }
        Ok(())
    }

    /// Dispatch the arithmetic, logic, compare and bit-test opcodes.
    #[verifier::rlimit(100)]
    #[verifier::spinoff_prover]
    fn execute_arith(
        &mut self,
        opcode: u8,
        cur_inst: &crate::instructions::Instruction,
    ) -> (r: Result<(), EmuError>)
        requires
            old(self).wf(),
            cur_inst.mode == mode_spec(opcode),
        ensures
            final(self).wf(),
            execute_arith_rel(*old(self), *final(self), opcode, r),
    {
        match opcode {
            // ADC
            0x69 | 0x65 | 0x75 | 0x6d | 0x7d | 0x79 | 0x61 | 0x71 => {
                match self.adc(&cur_inst.mode) {
                    Ok(()) => (),
                    Err(e) => {
                        return Err(e);
                    },
                }
            },
            // AND
            0x29 | 0x25 | 0x35 | 0x2d | 0x3d | 0x39 | 0x21 | 0x31 => {
                match self.and(&cur_inst.mode) {
                    Ok(()) => (),
                    Err(e) => {
                        return Err(e);
                    },
                }
            },
            // ORA
            0x09 | 0x05 | 0x15 | 0x0d | 0x1d | 0x19 | 0x01 | 0x11 => {
                match self.ora(&cur_inst.mode) {
                    Ok(()) => (),
                    Err(e) => {
                        return Err(e);
                    },
                }
            },
            _ => {
                return self.execute_rmw(opcode, cur_inst);
            },
        }
        Ok(())
    }

    /// Dispatch the shift, rotate, increment and decrement opcodes.
    #[verifier::rlimit(100)]
    #[verifier::spinoff_prover]
    fn execute_rmw(
        &mut self,
        opcode: u8,
        cur_inst: &crate::instructions::Instruction,
    ) -> (r: Result<(), EmuError>)
        requires
            old(self).wf(),
            cur_inst.mode == mode_spec(opcode),
        ensures
            final(self).wf(),
            execute_rmw_rel(*old(self), *final(self), opcode, r),
    {
        match opcode {
            // ASL accumulator
            0x0a => self.asl_accumulator(),
            // ASL
            0x06 | 0x16 | 0x0e | 0x1e => {
                match self.asl(&cur_inst.mode) {
                    Ok(v) => {
                        proof {
                            assert(asl_mem_rel(
                                *old(self),
                                *self,
                                mode_spec(opcode),
                                Ok::<u8, EmuError>(v),
                            ));
                        }
                    },
                    Err(e) => {
                        return Err(e);
                    },
                }
            },
            // LSR accumulator
            0x4a => self.lsr_accumulator(),
            // LSR
            0x46 | 0x56 | 0x4e | 0x5e => {
                match self.lsr(&cur_inst.mode) {
                    Ok(v) => {
                        proof {
                            assert(lsr_mem_rel(
                                *old(self),
                                *self,
                                mode_spec(opcode),
                                Ok::<u8, EmuError>(v),
                            ));
                        }
                    },
                    Err(e) => {
                        return Err(e);
                    },
                }
            },
            // ROL accumulator
            0x2a => self.rol_accumulator(),
            // ROL
            0x26 | 0x36 | 0x2e | 0x3e => {
                match self.rol(&cur_inst.mode) {
                    Ok(v) => {
                        proof {
                            assert(rol_mem_rel(
                                *old(self),
                                *self,
                                mode_spec(opcode),
                                Ok::<u8, EmuError>(v),
                            ));
                        }
                    },
                    Err(e) => {
                        return Err(e);
                    },
                }
            },
            // ROR accumulator
            0x6a => self.ror_accumulator(),
            // ROR
            0x66 | 0x76 | 0x6e | 0x7e => {
                match self.ror(&cur_inst.mode) {
                    Ok(v) => {
                        proof {
                            assert(ror_mem_rel(
                                *old(self),
                                *self,
                                mode_spec(opcode),
                                Ok::<u8, EmuError>(v),
                            ));
                        }
                    },
                    Err(e) => {
                        return Err(e);
                    },
                }
            },
            // BIT
            0x24 | 0x2c => {
                match self.bit(&cur_inst.mode) {
                    Ok(()) => (),
                    Err(e) => {
                        return Err(e);
                    },
                }
            },
            // CMP
            0xc9 | 0xc5 | 0xd5 | 0xcd | 0xdd | 0xd9 | 0xc1 | 0xd1 => {
                let reg = self.a;
                match self.compare(&cur_inst.mode, reg) {
                    Ok(()) => (),
                    Err(e) => {
                        return Err(e);
                    },
                }
            },
            // CPX
            0xe0 | 0xe4 | 0xec => {
                let reg = self.x;
                match self.compare(&cur_inst.mode, reg) {
                    Ok(()) => (),
                    Err(e) => {
                        return Err(e);
                    },
                }
            },
            // CPY
            0xc0 | 0xc4 | 0xcc => {
                let reg = self.y;
                match self.compare(&cur_inst.mode, reg) {
                    Ok(()) => (),
                    Err(e) => {
                        return Err(e);
                    },
                }
            },
            // DEC
            0xc6 | 0xd6 | 0xce | 0xde => {
                match self.dec(&cur_inst.mode) {
                    Ok(v) => {
                        proof {
                            assert(dec_mem_rel(
                                *old(self),
                                *self,
                                mode_spec(opcode),
                                Ok::<u8, EmuError>(v),
                            ));
                        }
                    },
                    Err(e) => {
                        return Err(e);
                    },
                }
            },
            // DEX
            0xca => self.dex(),
            // DEY
            0x88 => self.dey(),
            // INC
            0xe6 | 0xf6 | 0xee | 0xfe => {
                match self.inc(&cur_inst.mode) {
                    Ok(v) => {
                        proof {
                            assert(inc_mem_rel(
                                *old(self),
                                *self,
                                mode_spec(opcode),
                                Ok::<u8, EmuError>(v),
                            ));
                        }
                    },
                    Err(e) => {
                        return Err(e);
                    },
                }
            },
            // INX
            0xe8 => self.inx(),
            // INY
            0xc8 => self.iny(),
            // EOR
            0x49 | 0x45 | 0x55 | 0x4d | 0x5d | 0x59 | 0x41 | 0x51 => {
                match self.eor(&cur_inst.mode) {
                    Ok(()) => (),
                    Err(e) => {
                        return Err(e);
                    },
                }
            },
            // SBC
            0xe9 | 0xe5 | 0xf5 | 0xed | 0xfd | 0xf9 | 0xe1 | 0xf1 => {
                match self.sbc(&cur_inst.mode) {
                    Ok(()) => (),
                    Err(e) => {
                        return Err(e);
                    },
                }
            },
            _ => {
                return self.execute_control(opcode, cur_inst);
            },
        }
        Ok(())
    }

    /// Dispatch the stack, control-transfer and flag opcodes.
    #[verifier::rlimit(100)]
    #[verifier::spinoff_prover]
    fn execute_control(
        &mut self,
        opcode: u8,
        cur_inst: &crate::instructions::Instruction,
    ) -> (r: Result<(), EmuError>)
        requires
            old(self).wf(),
            cur_inst.mode == mode_spec(opcode),
        ensures
            final(self).wf(),
            execute_control_rel(*old(self), *final(self), opcode, r),
    {
        match opcode {
            // PHA
            0x48 => {
                let v = self.a;
                self.stack_push(v);
            },
            // PLA
            0x68 => {
                self.a = self.stack_pop();
            },
            // PHP
            0x08 => self.php(),
            // PLP
            0x28 => self.plp(),
            // RTI
            0x40 => {
                let popped = self.stack_pop();
                self.stat = StatFlags::from_bits_truncate((popped & !FLAG_BREAK) | FLAG_BREAK2);
                self.pc = self.stack_pop_u16();
            },
            // RTS
            0x60 => {
                self.pc = self.stack_pop_u16().wrapping_add(1);
            },
            // JMP absolute
            0x4c => {
                let addr = self.bus.mem_peek_u16(self.pc);
                self.pc = addr;
            },
            // JMP indirect, with the page-wrap quirk on a pointer whose
            // low byte is 0xff
            0x6c => {
                let addr = self.bus.mem_peek_u16(self.pc);
                let indirect_ref = if addr % 0x100 == 0xff {
                    let low = self.bus.mem_peek(addr);
                    let high = self.bus.mem_peek(addr - 0xff);
                    high as u16 * 0x100 + low as u16
                } else {
                    self.bus.mem_peek_u16(addr)
                };
                self.pc = indirect_ref;
            },
            // JSR
            0x20 => {
                let ret = self.pc.wrapping_add(1);
                self.stack_push_u16(ret);
                let addr = self.bus.mem_peek_u16(self.pc);
                self.pc = addr;
            },
            _ => {
                return self.execute_branch_flags(opcode, cur_inst);
            },
        }
        Ok(())
    }

    /// Dispatch the branch and flag-write opcodes.
    #[verifier::rlimit(100)]
    #[verifier::spinoff_prover]
    fn execute_branch_flags(
        &mut self,
        opcode: u8,
        cur_inst: &crate::instructions::Instruction,
    ) -> (r: Result<(), EmuError>)
        requires
            old(self).wf(),
            cur_inst.mode == mode_spec(opcode),
        ensures
            final(self).wf(),
            execute_branch_flags_rel(*old(self), *final(self), opcode, r),
    {
        match opcode {
            // BCC
            0x90 => {
                let c = self.stat.contains(FLAG_CARRY);
                self.branch(!c);
            },
            // BCS
            0xb0 => {
                let c = self.stat.contains(FLAG_CARRY);
                self.branch(c);
            },
            // BEQ
            0xf0 => {
                let c = self.stat.contains(FLAG_ZERO);
                self.branch(c);
            },
            // BNE
            0xd0 => {
                let c = self.stat.contains(FLAG_ZERO);
                self.branch(!c);
            },
            // BPL
            0x10 => {
                let c = self.stat.contains(FLAG_NEGATIVE);
                self.branch(!c);
            },
            // BMI
            0x30 => {
                let c = self.stat.contains(FLAG_NEGATIVE);
                self.branch(c);
            },
            // BVC
            0x50 => {
                let c = self.stat.contains(FLAG_OVERFLOW);
                self.branch(!c);
            },
            // BVS
            0x70 => {
                let c = self.stat.contains(FLAG_OVERFLOW);
                self.branch(c);
            },
            // CLC
            0x18 => self.clear_carry(),
            // SEC
            0x38 => self.set_carry(),
            // CLI
            0x58 => self.stat.remove(FLAG_INTERRUPT_DISABLE),
            // SEI
            0x78 => self.stat.insert(FLAG_INTERRUPT_DISABLE),
            // CLV
            0xb8 => self.clear_overflow(),
            // CLD
            0xd8 => self.stat.remove(FLAG_DECIMAL),
            // SED
            0xf8 => self.stat.insert(FLAG_DECIMAL),
            // NOP
            0xea => (),
            _ => {
                return self.execute_undocumented(opcode, cur_inst);
            },
        }
        Ok(())
    }



    #[verifier::rlimit(100)]
    #[verifier::spinoff_prover]
    fn dcp_store(&mut self, mode: &AddressingMode) -> (r: Result<u8, EmuError>)
        requires
            old(self).wf(),
            !(mode is Implied),
            !(mode is Relative),
        ensures
            final(self).wf(),
            dcp_store_rel(*old(self), *final(self), *mode, r),
    {
        let addr = self.get_operand_address(mode);
        let data = match self.bus.mem_read(addr) {
            Ok(v) => v,
            Err(e) => {
                return Err(e);
            },
        };
        let nv = data.wrapping_sub(1);
        proof {
            assert(nv == sub_result_spec(data, 1));
        }
        match self.bus.mem_write(addr, nv) {
            Ok(()) => Ok(nv),
            Err(e) => Err(e),
        }
    }

    #[verifier::rlimit(100)]
    #[verifier::spinoff_prover]
    fn dcp(&mut self, mode: &AddressingMode) -> (r: Result<(), EmuError>)
        requires
            old(self).wf(),
            !(mode is Implied),
            !(mode is Relative),
        ensures
            final(self).wf(),
            dcp_rel(*old(self), *final(self), *mode, r),
    {
        let nv = match self.dcp_store(mode) {
            Ok(v) => v,
            Err(e) => {
                return Err(e);
            },
        };
        if self.a >= nv {
            self.set_carry();
        } else {
            self.clear_carry();
        }
        let d = self.a.wrapping_sub(nv);
        proof {
            assert(d == sub_result_spec(old(self).a, nv));
        }
        self.update_zero_and_negative_flags(d);
        Ok(())
    }

    #[verifier::rlimit(100)]
    #[verifier::spinoff_prover]
    fn axs(&mut self, mode: &AddressingMode) -> (r: Result<(), EmuError>)
        requires
            old(self).wf(),
            !(mode is Implied),
            !(mode is Relative),
        ensures
            final(self).wf(),
            axs_rel(*old(self), *final(self), *mode, r),
    {
        let data = match self.read_operand(mode) {
            Ok(v) => v,
            Err(e) => {
                return Err(e);
            },
        };
        let and = self.x & self.a;
        let res = and.wrapping_sub(data);
        if and >= data {
            self.set_carry();
        } else {
            self.clear_carry();
        }
        self.update_zero_and_negative_flags(res);
        self.x = res;
        Ok(())
    }

    #[verifier::rlimit(100)]
    #[verifier::spinoff_prover]
    fn arr(&mut self, mode: &AddressingMode) -> (r: Result<(), EmuError>)
        requires
            old(self).wf(),
            !(mode is Implied),
            !(mode is Relative),
        ensures
            final(self).wf(),
            arr_rel(*old(self), *final(self), *mode, r),
    {
        let data = match self.read_operand(mode) {
            Ok(v) => v,
            Err(e) => {
                return Err(e);
            },
        };
        self.and_with_a(data);
        self.ror_accumulator();
        let res = self.a;
        let bit_5 = (res >> 5) & 1;
        let bit_6 = (res >> 6) & 1;
        if bit_6 == 1 {
            self.set_carry();
        } else {
            self.clear_carry();
        }
        if bit_5 ^ bit_6 == 1 {
            self.set_overflow();
        } else {
            self.clear_overflow();
        }
        self.update_zero_and_negative_flags(res);
        Ok(())
    }

    #[verifier::rlimit(100)]
    #[verifier::spinoff_prover]
    fn anc(&mut self, mode: &AddressingMode) -> (r: Result<(), EmuError>)
        requires
            old(self).wf(),
            !(mode is Implied),
            !(mode is Relative),
        ensures
            final(self).wf(),
            anc_rel(*old(self), *final(self), *mode, r),
    {
        let data = match self.read_operand(mode) {
            Ok(v) => v,
            Err(e) => {
                return Err(e);
            },
        };
        self.and_with_a(data);
        let v = self.a;
        self.update_zero_and_negative_flags(v);
        if self.stat.contains(FLAG_NEGATIVE) {
            self.set_carry();
        } else {
            self.clear_carry();
        }
        Ok(())
    }

    #[verifier::rlimit(100)]
    #[verifier::spinoff_prover]
    fn alr(&mut self, mode: &AddressingMode) -> (r: Result<(), EmuError>)
        requires
            old(self).wf(),
            !(mode is Implied),
            !(mode is Relative),
        ensures
            final(self).wf(),
            alr_rel(*old(self), *final(self), *mode, r),
    {
        let data = match self.read_operand(mode) {
            Ok(v) => v,
            Err(e) => {
                return Err(e);
            },
        };
        self.and_with_a(data);
        self.lsr_accumulator();
        Ok(())
    }

    #[verifier::rlimit(100)]
    #[verifier::spinoff_prover]
    fn nop_read(&mut self, mode: &AddressingMode) -> (r: Result<(), EmuError>)
        requires
            old(self).wf(),
            !(mode is Implied),
            !(mode is Relative),
        ensures
            final(self).wf(),
            nop_read_rel(*old(self), *final(self), *mode, r),
    {
        match self.read_operand(mode) {
            Ok(_) => Ok(()),
            Err(e) => Err(e),
        }
    }

    #[verifier::rlimit(100)]
    #[verifier::spinoff_prover]
    fn lax(&mut self, mode: &AddressingMode) -> (r: Result<(), EmuError>)
        requires
            old(self).wf(),
            !(mode is Implied),
            !(mode is Relative),
        ensures
            final(self).wf(),
            lax_rel(*old(self), *final(self), *mode, r),
    {
        let data = match self.read_operand(mode) {
            Ok(v) => v,
            Err(e) => {
                return Err(e);
            },
        };
        self.a = data;
        self.x = data;
        self.update_zero_and_negative_flags(data);
        Ok(())
    }

    #[verifier::rlimit(100)]
    #[verifier::spinoff_prover]
    fn xaa(&mut self, mode: &AddressingMode) -> (r: Result<(), EmuError>)
        requires
            old(self).wf(),
            !(mode is Implied),
            !(mode is Relative),
        ensures
            final(self).wf(),
            xaa_rel(*old(self), *final(self), *mode, r),
    {
        let data = match self.read_operand(mode) {
            Ok(v) => v,
            Err(e) => {
                return Err(e);
            },
        };
        self.a = self.x;
        let v = self.a;
        self.update_zero_and_negative_flags(v);
        self.and_with_a(data);
        Ok(())
    }

    #[verifier::rlimit(100)]
    #[verifier::spinoff_prover]
    fn las(&mut self, mode: &AddressingMode) -> (r: Result<(), EmuError>)
        requires
            old(self).wf(),
            !(mode is Implied),
            !(mode is Relative),
        ensures
            final(self).wf(),
            las_rel(*old(self), *final(self), *mode, r),
    {
        let data = match self.read_operand(mode) {
            Ok(v) => v,
            Err(e) => {
                return Err(e);
            },
        };
        let data = data & self.sp;
        self.a = data;
        self.x = data;
        self.sp = data;
        self.update_zero_and_negative_flags(data);
        Ok(())
    }

    #[verifier::rlimit(100)]
    #[verifier::spinoff_prover]
    fn store_value(&mut self, mode: &AddressingMode, data: u8) -> (r: Result<(), EmuError>)
        requires
            old(self).wf(),
            !(mode is Implied),
            !(mode is Relative),
        ensures
            final(self).wf(),
            store_rel(*old(self), *final(self), *mode, data, r),
    {
        let addr = self.get_operand_address(mode);
        self.bus.mem_write(addr, data)
    }

    #[verifier::rlimit(100)]
    #[verifier::spinoff_prover]
    fn tas(&mut self) -> (r: Result<(), EmuError>)
        requires
            old(self).wf(),
        ensures
            final(self).wf(),
            tas_rel(*old(self), *final(self), r),
    {
        let data = self.a & self.x;
        self.sp = data;
        let mem_address = self.bus.mem_peek_u16(self.pc).wrapping_add(self.y as u16);
        let data = ((mem_address >> 8) as u8).wrapping_add(1) & self.sp;
        proof {
            let m = mem_address;
            assert((m >> 8) as u8 == (m as int / 0x100) as u8) by (bit_vector);
        }
        self.bus.mem_write(mem_address, data)
    }

    #[verifier::rlimit(100)]
    #[verifier::spinoff_prover]
    fn ahx_ind(&mut self) -> (r: Result<(), EmuError>)
        requires
            old(self).wf(),
        ensures
            final(self).wf(),
            ahx_ind_rel(*old(self), *final(self), r),
    {
        let pos = self.bus.mem_peek(self.pc);
        let mem_address = self.bus.mem_peek_u16(pos as u16).wrapping_add(self.y as u16);
        let data = self.a & self.x & (mem_address >> 8) as u8;
        proof {
            let m = mem_address;
            assert((m >> 8) as u8 == (m as int / 0x100) as u8) by (bit_vector);
        }
        self.bus.mem_write(mem_address, data)
    }

    #[verifier::rlimit(100)]
    #[verifier::spinoff_prover]
    fn ahx_abs(&mut self) -> (r: Result<(), EmuError>)
        requires
            old(self).wf(),
        ensures
            final(self).wf(),
            ahx_abs_rel(*old(self), *final(self), r),
    {
        let mem_address = self.bus.mem_peek_u16(self.pc).wrapping_add(self.y as u16);
        let data = self.a & self.x & (mem_address >> 8) as u8;
        proof {
            let m = mem_address;
            assert((m >> 8) as u8 == (m as int / 0x100) as u8) by (bit_vector);
        }
        self.bus.mem_write(mem_address, data)
    }

    #[verifier::rlimit(100)]
    #[verifier::spinoff_prover]
    fn shx(&mut self) -> (r: Result<(), EmuError>)
        requires
            old(self).wf(),
        ensures
            final(self).wf(),
            shx_rel(*old(self), *final(self), r),
    {
        let mem_address = self.bus.mem_peek_u16(self.pc).wrapping_add(self.y as u16);
        let data = self.x & ((mem_address >> 8) as u8).wrapping_add(1);
        proof {
            let m = mem_address;
            assert((m >> 8) as u8 == (m as int / 0x100) as u8) by (bit_vector);
        }
        self.bus.mem_write(mem_address, data)
    }

    #[verifier::rlimit(100)]
    #[verifier::spinoff_prover]
    fn shy(&mut self) -> (r: Result<(), EmuError>)
        requires
            old(self).wf(),
        ensures
            final(self).wf(),
            shy_rel(*old(self), *final(self), r),
    {
        let mem_address = self.bus.mem_peek_u16(self.pc).wrapping_add(self.x as u16);
        let data = self.y & ((mem_address >> 8) as u8).wrapping_add(1);
        proof {
            let m = mem_address;
            assert((m >> 8) as u8 == (m as int / 0x100) as u8) by (bit_vector);
        }
        self.bus.mem_write(mem_address, data)
    }

    /// Dispatch the undocumented read-modify-write opcodes.
    #[verifier::rlimit(100)]
    #[verifier::spinoff_prover]
    fn execute_undocumented(
        &mut self,
        opcode: u8,
        cur_inst: &crate::instructions::Instruction,
    ) -> (r: Result<(), EmuError>)
        requires
            old(self).wf(),
            cur_inst.mode == mode_spec(opcode),
        ensures
            final(self).wf(),
            execute_undoc_rel(*old(self), *final(self), opcode, r),
    {
        match opcode {
            // DCP: decrement memory, then compare it with the accumulator
            0xc7 | 0xd7 | 0xcf | 0xdf | 0xdb | 0xd3 | 0xc3 => {
                match self.dcp(&cur_inst.mode) {
                    Ok(()) => (),
                    Err(e) => {
                        return Err(e);
                    },
                }
            },
            // RLA: rotate memory left, then AND it into the accumulator
            0x27 | 0x37 | 0x2f | 0x3f | 0x3b | 0x33 | 0x23 => {
                let data = match self.rol(&cur_inst.mode) {
                    Ok(v) => v,
                    Err(e) => {
                        return Err(e);
                    },
                };
                let ghost mid = *self;
                self.and_with_a(data);
                proof {
                    assert(rol_mem_rel(*old(self), mid, mode_spec(opcode), Ok::<u8, EmuError>(data))
                        && *self == (Cpu { a: mid.a & data, ..mid }));
                }
            },
            // SLO: shift memory left, then OR it into the accumulator
            0x07 | 0x17 | 0x0f | 0x1f | 0x1b | 0x03 | 0x13 => {
                let data = match self.asl(&cur_inst.mode) {
                    Ok(v) => v,
                    Err(e) => {
                        return Err(e);
                    },
                };
                let ghost mid = *self;
                self.or_with_a(data);
                proof {
                    assert(asl_mem_rel(*old(self), mid, mode_spec(opcode), Ok::<u8, EmuError>(data))
                        && *self == (Cpu { a: mid.a | data, ..mid }));
                }
            },
            // SRE: shift memory right, then EOR it into the accumulator
            0x47 | 0x57 | 0x4f | 0x5f | 0x5b | 0x43 | 0x53 => {
                let data = match self.lsr(&cur_inst.mode) {
                    Ok(v) => v,
                    Err(e) => {
                        return Err(e);
                    },
                };
                let ghost mid = *self;
                self.xor_with_a(data);
                proof {
                    assert(lsr_mem_rel(*old(self), mid, mode_spec(opcode), Ok::<u8, EmuError>(data))
                        && *self == (Cpu { a: mid.a ^ data, ..mid }));
                }
            },
            _ => {
                return self.execute_undocumented_b(opcode, cur_inst);
            },
        }
        Ok(())
    }

    /// Dispatch the undocumented immediate opcodes and the do-nothing
    /// forms.
    #[verifier::rlimit(100)]
    #[verifier::spinoff_prover]
    fn execute_undocumented_b(
        &mut self,
        opcode: u8,
        cur_inst: &crate::instructions::Instruction,
    ) -> (r: Result<(), EmuError>)
        requires
            old(self).wf(),
            cur_inst.mode == mode_spec(opcode),
        ensures
            final(self).wf(),
            execute_undoc_imm_rel(*old(self), *final(self), opcode, r),
    {
        match opcode {
            // Immediate NOPs, the halt forms and the implied NOPs.
            0x80 | 0x82 | 0x89 | 0xc2 | 0xe2 => (),
            0x02 | 0x12 | 0x22 | 0x32 | 0x42 | 0x52 | 0x62 | 0x72 | 0x92 | 0xb2 | 0xd2 | 0xf2 => (),
            0x1a | 0x3a | 0x5a | 0x7a | 0xda | 0xfa => (),
            // The undocumented immediate SBC
            0xeb => {
                match self.sbc(&cur_inst.mode) {
                    Ok(()) => (),
                    Err(e) => {
                        return Err(e);
                    },
                }
            },
            // AXS
            0xcb => {
                match self.axs(&cur_inst.mode) {
                    Ok(()) => (),
                    Err(e) => {
                        return Err(e);
                    },
                }
            },
            // ARR
            0x6b => {
                match self.arr(&cur_inst.mode) {
                    Ok(()) => (),
                    Err(e) => {
                        return Err(e);
                    },
                }
            },
            // ANC
            0x0b | 0x2b => {
                match self.anc(&cur_inst.mode) {
                    Ok(()) => (),
                    Err(e) => {
                        return Err(e);
                    },
                }
            },
            // ALR
            0x4b => {
                match self.alr(&cur_inst.mode) {
                    Ok(()) => (),
                    Err(e) => {
                        return Err(e);
                    },
                }
            },
            _ => {
                return self.execute_undocumented_c(opcode, cur_inst);
            },
        }
        Ok(())
    }

    /// Dispatch the undocumented reading and folding opcodes.
    #[verifier::rlimit(100)]
    #[verifier::spinoff_prover]
    fn execute_undocumented_c(
        &mut self,
        opcode: u8,
        cur_inst: &crate::instructions::Instruction,
    ) -> (r: Result<(), EmuError>)
        requires
            old(self).wf(),
            cur_inst.mode == mode_spec(opcode),
        ensures
            final(self).wf(),
            execute_undoc_load_rel(*old(self), *final(self), opcode, r),
    {
        match opcode {
            // NOPs that perform the operand read
            0x04 | 0x44 | 0x64 | 0x14 | 0x34 | 0x54 | 0x74 | 0xd4 | 0xf4 | 0x0c | 0x1c | 0x3c
                | 0x5c | 0x7c | 0xdc | 0xfc => {
                match self.nop_read(&cur_inst.mode) {
                    Ok(()) => (),
                    Err(e) => {
                        return Err(e);
                    },
                }
            },
            // RRA: rotate memory right, then add it with carry
            0x67 | 0x77 | 0x6f | 0x7f | 0x7b | 0x63 | 0x73 => {
                let data = match self.ror(&cur_inst.mode) {
                    Ok(v) => v,
                    Err(e) => {
                        return Err(e);
                    },
                };
                let ghost mid = *self;
                self.add_to_a(data);
                proof {
                    assert(ror_mem_rel(*old(self), mid, mode_spec(opcode), Ok::<u8, EmuError>(data))
                        && *self == add_to_a_post(mid, data));
                }
            },
            // ISB: increment memory, then subtract it with borrow
            0xe7 | 0xf7 | 0xef | 0xff | 0xfb | 0xe3 | 0xf3 => {
                let data = match self.inc(&cur_inst.mode) {
                    Ok(v) => v,
                    Err(e) => {
                        return Err(e);
                    },
                };
                let ghost mid = *self;
                self.sub_from_a(data);
                proof {
                    assert(inc_mem_rel(*old(self), mid, mode_spec(opcode), Ok::<u8, EmuError>(data))
                        && *self == add_to_a_post(mid, !data));
                }
            },
            // LAX
            0xa7 | 0xb7 | 0xaf | 0xbf | 0xa3 | 0xb3 => {
                match self.lax(&cur_inst.mode) {
                    Ok(()) => (),
                    Err(e) => {
                        return Err(e);
                    },
                }
            },
            // SAX: store A AND X, no flags
            0x87 | 0x97 | 0x8f | 0x83 => {
                let data = self.a & self.x;
                match self.store_value(&cur_inst.mode, data) {
                    Ok(()) => (),
                    Err(e) => {
                        return Err(e);
                    },
                }
            },
            // LXA: load, then transfer to X
            0xab => {
                match self.lda(&cur_inst.mode) {
                    Ok(()) => (),
                    Err(e) => {
                        return Err(e);
                    },
                }
                let ghost mid = *self;
                self.tax();
                proof {
                    assert(lda_rel(*old(self), mid, mode_spec(opcode), Ok::<(), EmuError>(())));
                }
            },
            // XAA
            0x8b => {
                match self.xaa(&cur_inst.mode) {
                    Ok(()) => (),
                    Err(e) => {
                        return Err(e);
                    },
                }
            },
            // LAS
            0xbb => {
                match self.las(&cur_inst.mode) {
                    Ok(()) => (),
                    Err(e) => {
                        return Err(e);
                    },
                }
            },
            _ => {
                return self.execute_undocumented_d(opcode, cur_inst);
            },
        }
        Ok(())
    }

    /// Dispatch the unstable high-address store opcodes.
    #[verifier::rlimit(100)]
    #[verifier::spinoff_prover]
    fn execute_undocumented_d(
        &mut self,
        opcode: u8,
        cur_inst: &crate::instructions::Instruction,
    ) -> (r: Result<(), EmuError>)
        requires
            old(self).wf(),
            cur_inst.mode == mode_spec(opcode),
        ensures
            final(self).wf(),
            execute_undoc_store_rel(*old(self), *final(self), opcode, r),
    {
        match opcode {
            0x9b => self.tas(),
            0x93 => self.ahx_ind(),
            0x9f => self.ahx_abs(),
            0x9e => self.shx(),
            0x9c => self.shy(),
            _ => Ok(()),
        }
    }

    /// Run until a BRK opcode or a fault, servicing pending interrupts
    /// between instructions. The loop is bounded by a 64-bit step
    /// counter that no real program exhausts.
    #[verifier::rlimit(100)]
    #[verifier::spinoff_prover]
    pub fn run(&mut self) -> (r: Result<(), EmuError>)
        requires
            old(self).wf(),
        ensures
            final(self).wf(),
            r is Ok ==> exists|n: nat, last: Cpu|
                #[trigger] run_prefix_rel(*old(self), last, n) && run_stop_rel(
                    last,
                    *final(self),
                ),
            r is Ok ==> bus_peek_spec(
                final(self).bus,
                ((final(self).pc + 0xffff) % 0x10000) as u16,
            ) == 0,
    {
        let ghost mut steps: nat = 0nat;
        let mut fuel: u64 = u64::MAX;
        loop
            invariant
                self.wf(),
                run_prefix_rel(*old(self), *self, steps),
            decreases fuel,
        {
            if fuel == 0 {
                return Err(EmuError::StepLimit);
            }
            fuel = fuel - 1;
            let ghost pre_iter = *self;
            if self.bus.poll_nmi_status().is_some() {
                self.interrupt(InterruptType::Nmi);
            }
            let ghost mid = *self;
            proof {
                assert(nmi_service_rel(pre_iter, mid));
            }
            match self.step() {
                Ok(true) => {
                    proof {
                        lemma_run_iter(pre_iter, mid, *self);
                        lemma_prefix_extend(*old(self), pre_iter, *self, steps);
                        steps = (steps + 1) as nat;
                    }
                },
                Ok(false) => {
                    proof {
                        lemma_run_stop(pre_iter, mid, *self);
                        assert(run_prefix_rel(*old(self), pre_iter, steps));
                        assert(exists|n: nat, last: Cpu|
                            #[trigger] run_prefix_rel(*old(self), last, n) && run_stop_rel(
                                last,
                                *self,
                            ));
                    }
                    return Ok(());
                },
                Err(e) => {
                    return Err(e);
                },
            }
        }
    }

    /// Run until a BRK opcode or a fault, invoking the tracing callback
    /// with the processor state before each instruction.
    #[verifier::rlimit(100)]
    #[verifier::spinoff_prover]
    pub fn run_with_callback<F: Fn(&Cpu)>(&mut self, callback: F) -> (r: Result<(), EmuError>)
        requires
            old(self).wf(),
            forall|c: &Cpu| #[trigger] callback.requires((c,)),
        ensures
            final(self).wf(),
            r is Ok ==> exists|n: nat, last: Cpu|
                #[trigger] run_prefix_rel(*old(self), last, n) && run_stop_rel(
                    last,
                    *final(self),
                ),
            r is Ok ==> bus_peek_spec(
                final(self).bus,
                ((final(self).pc + 0xffff) % 0x10000) as u16,
            ) == 0,
    {
        let ghost mut steps: nat = 0nat;
        let mut fuel: u64 = u64::MAX;
        loop
            invariant
                self.wf(),
                run_prefix_rel(*old(self), *self, steps),
                forall|c: &Cpu| #[trigger] callback.requires((c,)),
            decreases fuel,
        {
            if fuel == 0 {
                return Err(EmuError::StepLimit);
            }
            fuel = fuel - 1;
            let ghost pre_iter = *self;
            if self.bus.poll_nmi_status().is_some() {
                self.interrupt(InterruptType::Nmi);
            }
            let ghost mid = *self;
            proof {
                assert(nmi_service_rel(pre_iter, mid));
            }
            callback(&*self);
            match self.step() {
                Ok(true) => {
                    proof {
                        lemma_run_iter(pre_iter, mid, *self);
                        lemma_prefix_extend(*old(self), pre_iter, *self, steps);
                        steps = (steps + 1) as nat;
                    }
                },
                Ok(false) => {
                    proof {
                        lemma_run_stop(pre_iter, mid, *self);
                        assert(run_prefix_rel(*old(self), pre_iter, steps));
                        assert(exists|n: nat, last: Cpu|
                            #[trigger] run_prefix_rel(*old(self), last, n) && run_stop_rel(
                                last,
                                *self,
                            ));
                    }
                    return Ok(());
                },
                Err(e) => {
                    return Err(e);
                },
            }
        }
    }

    /// Place a program image in program ROM, apply the reset interrupt,
    /// and run to a BRK opcode or a fault.
    pub fn load_and_run(&mut self, program: Vec<u8>) -> (r: Result<(), EmuError>)
        requires
            old(self).wf(),
            program@.len() <= old(self).bus.prg_rom@.len(),
        ensures
            final(self).wf(),
            r is Ok ==> exists|loaded: Cpu|
                #[trigger] load_rel(*old(self), loaded, program@) && exists|n: nat, last: Cpu|
                    #[trigger] run_prefix_rel(reset_post(loaded), last, n) && run_stop_rel(
                        last,
                        *final(self),
                    ),
    {
        self.load(program);
        let ghost loaded = *self;
        self.reset();
        let ghost rst = *self;
        let r = self.run();
        proof {
            assert(rst == reset_post(loaded));
        }
        r
    }
}

impl Mem for Cpu {
    open spec fn mem_wf(&self) -> bool {
        self.wf()
    }

    fn mem_read(&mut self, addr: u16) -> (r: Result<u8, EmuError>)
        ensures
            r == bus_read_result_spec(old(self).bus, addr),
            *final(self) == (Cpu { bus: bus_read_post_spec(old(self).bus, addr), ..*old(self) }),
    {
        self.bus.mem_read(addr)
    }

    fn mem_read_u16(&mut self, pos: u16) -> (r: Result<u16, EmuError>) {
        Mem::mem_read_u16(&mut self.bus, pos)
    }

    fn mem_write(&mut self, addr: u16, data: u8) -> (r: Result<(), EmuError>)
        ensures
            bus_write_rel(old(self).bus, final(self).bus, addr, data, r),
            *final(self) == (Cpu { bus: final(self).bus, ..*old(self) }),
    {
        self.bus.mem_write(addr, data)
    }

    fn mem_write_u16(&mut self, addr: u16, data: u16) -> (r: Result<(), EmuError>) {
        Mem::mem_write_u16(&mut self.bus, addr, data)
    }

    fn read_prg_rom(&self, addr: u16) -> (r: u8) {
        self.bus.read_prg_rom(addr)
    }
}

} // verus!
