//! The instruction tracer: formats one line per instruction with the
//! pre-step processor state, in the canonical layout
//! `PPPP  BB BB BB  MNE OPERAND  A:AA X:XX Y:YY P:PP SP:SS`.
//! Tracing reads memory without side effects, so registers whose reads
//! would perturb the machine show as zero.

use vstd::prelude::*;

use crate::cpu::AddressingMode;
use crate::cpu::Cpu;
use crate::cpu::operand_addr_spec;
use crate::cpu::sign_extend_spec;
use crate::instructions::lookup;
use crate::instructions::mnemonic_code;
use crate::instructions::mnemonic_code_spec;
use crate::instructions::mode_len_spec;
use crate::instructions::mode_spec;
use crate::memory::bus_peek_spec;
use crate::memory::bus_peek16_spec;

verus! {

// The ASCII codes the line format uses.
pub const A_SPACE: u8 = 0x20;
pub const A_HASH: u8 = 0x23;
pub const A_DOLLAR: u8 = 0x24;
pub const A_LPAREN: u8 = 0x28;
pub const A_RPAREN: u8 = 0x29;
pub const A_COMMA: u8 = 0x2c;
pub const A_EQUALS: u8 = 0x3d;
pub const A_AT: u8 = 0x40;
pub const A_COLON: u8 = 0x3a;
pub const A_UPPER_A: u8 = 0x41;
pub const A_UPPER_P: u8 = 0x50;
pub const A_UPPER_S: u8 = 0x53;
pub const A_UPPER_X: u8 = 0x58;
pub const A_UPPER_Y: u8 = 0x59;

/// The uppercase hexadecimal digit for a value below sixteen.
pub open spec fn hex_digit_spec(n: u8) -> u8 {
    if n < 10 {
        (0x30 + n) as u8
    } else {
        (0x37 + n) as u8
    }
}

/// Two uppercase hexadecimal digits of a byte.
pub open spec fn hex2_spec(b: u8) -> Seq<u8> {
    seq![hex_digit_spec(b / 16), hex_digit_spec(b % 16)]
}

/// Four uppercase hexadecimal digits of a word.
pub open spec fn hex4_spec(w: u16) -> Seq<u8> {
    hex2_spec((w / 0x100) as u8) + hex2_spec((w % 0x100) as u8)
}

pub open spec fn spaces_spec(n: int) -> Seq<u8> {
    Seq::new(n as nat, |i: int| A_SPACE)
}

/// The sequence with its trailing spaces removed.
pub open spec fn rtrim_spec(s: Seq<u8>) -> Seq<u8>
    decreases s.len(),
{
    if s.len() > 0 && s[s.len() - 1] == A_SPACE {
        rtrim_spec(s.drop_last())
    } else {
        s
    }
}

/// The sequence padded with spaces to at least `n` bytes.
pub open spec fn pad_right_spec(s: Seq<u8>, n: int) -> Seq<u8> {
    if s.len() >= n {
        s
    } else {
        s + spaces_spec(n - s.len())
    }
}

/// Every byte is plain ASCII.
pub open spec fn ascii_seq(s: Seq<u8>) -> bool {
    forall|i: int| 0 <= i < s.len() ==> s[i] < 0x80
}

/// The pre-indexed indirect operand text: the operand byte, the derived
/// zero-page pointer, the dereferenced address, and the byte there.
pub open spec fn operand_ix_spec(b1: u8, ptr: u8, mem_addr: u16, stored: u8) -> Seq<u8> {
    ((((((seq![A_LPAREN, A_DOLLAR] + hex2_spec(b1)) + seq![
        A_COMMA,
        A_UPPER_X,
        A_RPAREN,
        A_SPACE,
        A_AT,
        A_SPACE,
    ]) + hex2_spec(ptr)) + seq![A_SPACE, A_EQUALS, A_SPACE]) + hex4_spec(mem_addr)) + seq![
        A_SPACE,
        A_EQUALS,
        A_SPACE,
    ]) + hex2_spec(stored)
}

/// The post-indexed indirect operand text: the operand byte, the address
/// before indexing, the indexed address, and the byte there.
pub open spec fn operand_iy_spec(b1: u8, behind: u16, mem_addr: u16, stored: u8) -> Seq<u8> {
    ((((((seq![A_LPAREN, A_DOLLAR] + hex2_spec(b1)) + seq![
        A_RPAREN,
        A_COMMA,
        A_UPPER_Y,
        A_SPACE,
        A_EQUALS,
        A_SPACE,
    ]) + hex4_spec(behind)) + seq![A_SPACE, A_AT, A_SPACE]) + hex4_spec(mem_addr)) + seq![
        A_SPACE,
        A_EQUALS,
        A_SPACE,
    ]) + hex2_spec(stored)
}

/// The operand portion of a trace line: immediate values, zero-page and
/// absolute operands with the byte they address, indexed and indirect
/// forms with every intermediate address, and pre-computed branch and
/// jump targets.
pub open spec fn trace_operand_spec(c: Cpu, op: u8) -> Seq<u8> {
    let mode = mode_spec(op);
    let len = mode_len_spec(mode);
    let pc1 = ((c.pc + 1) % 0x10000) as u16;
    let b1 = bus_peek_spec(c.bus, pc1);
    let addr16 = bus_peek16_spec(c.bus, pc1);
    let mem_addr = operand_addr_spec(Cpu { pc: pc1, ..c }, mode);
    let stored = bus_peek_spec(c.bus, mem_addr);
    if op == 0x4c || op == 0x20 {
        seq![A_DOLLAR] + hex4_spec(addr16)
    } else if op == 0x6c {
        let jmp = if addr16 % 0x100 == 0xff {
            ((bus_peek_spec(c.bus, (addr16 - 0xff) as u16) as int) * 0x100 + bus_peek_spec(
                c.bus,
                addr16,
            )) as u16
        } else {
            bus_peek16_spec(c.bus, addr16)
        };
        ((seq![A_LPAREN, A_DOLLAR] + hex4_spec(addr16)) + seq![
            A_RPAREN,
            A_SPACE,
            A_EQUALS,
            A_SPACE,
        ]) + hex4_spec(jmp)
    } else if len == 1 {
        if op == 0x0a || op == 0x4a || op == 0x2a || op == 0x6a {
            seq![A_UPPER_A, A_SPACE]
        } else {
            Seq::empty()
        }
    } else if len == 2 {
        match mode {
            AddressingMode::Immediate => seq![A_HASH, A_DOLLAR] + hex2_spec(b1),
            AddressingMode::ZeroPage => ((seq![A_DOLLAR] + hex2_spec((mem_addr % 0x100) as u8))
                + seq![A_SPACE, A_EQUALS, A_SPACE]) + hex2_spec(stored),
            AddressingMode::ZeroPageX => ((((seq![A_DOLLAR] + hex2_spec(b1)) + seq![
                A_COMMA,
                A_UPPER_X,
                A_SPACE,
                A_AT,
                A_SPACE,
            ]) + hex2_spec((mem_addr % 0x100) as u8)) + seq![A_SPACE, A_EQUALS, A_SPACE])
                + hex2_spec(stored),
            AddressingMode::ZeroPageY => ((((seq![A_DOLLAR] + hex2_spec(b1)) + seq![
                A_COMMA,
                A_UPPER_Y,
                A_SPACE,
                A_AT,
                A_SPACE,
            ]) + hex2_spec((mem_addr % 0x100) as u8)) + seq![A_SPACE, A_EQUALS, A_SPACE])
                + hex2_spec(stored),
            AddressingMode::IndirectX => operand_ix_spec(
                b1,
                ((b1 + c.x) % 0x100) as u8,
                mem_addr,
                stored,
            ),
            AddressingMode::IndirectY => operand_iy_spec(
                b1,
                ((mem_addr + 0x10000 - c.y) % 0x10000) as u16,
                mem_addr,
                stored,
            ),
            AddressingMode::Relative => seq![A_DOLLAR] + hex4_spec(
                ((c.pc + 2 + sign_extend_spec(b1) + 0x10000) % 0x10000) as u16,
            ),
            _ => Seq::empty(),
        }
    } else {
        match mode {
            AddressingMode::Absolute => ((seq![A_DOLLAR] + hex4_spec(mem_addr)) + seq![
                A_SPACE,
                A_EQUALS,
                A_SPACE,
            ]) + hex2_spec(stored),
            AddressingMode::AbsoluteX => ((((seq![A_DOLLAR] + hex4_spec(addr16)) + seq![
                A_COMMA,
                A_UPPER_X,
                A_SPACE,
                A_AT,
                A_SPACE,
            ]) + hex4_spec(mem_addr)) + seq![A_SPACE, A_EQUALS, A_SPACE]) + hex2_spec(stored),
            AddressingMode::AbsoluteY => ((((seq![A_DOLLAR] + hex4_spec(addr16)) + seq![
                A_COMMA,
                A_UPPER_Y,
                A_SPACE,
                A_AT,
                A_SPACE,
            ]) + hex4_spec(mem_addr)) + seq![A_SPACE, A_EQUALS, A_SPACE]) + hex2_spec(stored),
            _ => Seq::empty(),
        }
    }
}

/// The text portion of a trace line, before right-trimming: address,
/// raw bytes, mnemonic and operand.
pub open spec fn trace_text_spec(c: Cpu) -> Seq<u8> {
    let op = bus_peek_spec(c.bus, c.pc);
    let len = mode_len_spec(mode_spec(op));
    let b1 = bus_peek_spec(c.bus, ((c.pc + 1) % 0x10000) as u16);
    let b2 = bus_peek_spec(c.bus, ((c.pc + 2) % 0x10000) as u16);
    let mn = mnemonic_code_spec(op);
    let t1 = hex4_spec(c.pc) + seq![A_SPACE, A_SPACE];
    let t2 = t1 + hex2_spec(op);
    let dump = if len == 1 {
        t2 + spaces_spec(6)
    } else if len == 2 {
        ((t2 + seq![A_SPACE]) + hex2_spec(b1)) + spaces_spec(3)
    } else {
        (((t2 + seq![A_SPACE]) + hex2_spec(b1)) + seq![A_SPACE]) + hex2_spec(b2)
    };
    (((dump + seq![A_SPACE, A_SPACE]) + seq![mn.0, mn.1, mn.2]) + seq![A_SPACE])
        + trace_operand_spec(c, op)
}

/// The register fields at the end of a trace line.
pub open spec fn trace_registers_spec(c: Cpu) -> Seq<u8> {
    ((((((((seq![A_SPACE, A_UPPER_A, A_COLON] + hex2_spec(c.a)) + seq![
        A_SPACE,
        A_UPPER_X,
        A_COLON,
    ]) + hex2_spec(c.x)) + seq![A_SPACE, A_UPPER_Y, A_COLON]) + hex2_spec(c.y)) + seq![
        A_SPACE,
        A_UPPER_P,
        A_COLON,
    ]) + hex2_spec(c.stat.bits)) + seq![A_SPACE, A_UPPER_S, A_UPPER_P, A_COLON]) + hex2_spec(c.sp)
}

/// The whole trace line for the instruction at the program counter: the
/// right-trimmed text padded to the register column, then the registers.
pub open spec fn trace_bytes_spec(c: Cpu) -> Seq<u8> {
    pad_right_spec(rtrim_spec(trace_text_spec(c)), 47) + trace_registers_spec(c)
}

/// The trace line as text.
pub open spec fn trace_chars_spec(c: Cpu) -> Seq<char> {
    trace_bytes_spec(c).map(|i: int, b: u8| b as char)
}

/// The uppercase hexadecimal digit for a value below sixteen.
fn hex_digit(n: u8) -> (r: u8)
    requires
        n < 16,
    ensures
        r == hex_digit_spec(n),
        r < 0x80,
{
    if n < 10 {
        0x30 + n
    } else {
        0x37 + n
    }
}

fn push_hex2(out: &mut Vec<u8>, b: u8)
    ensures
        final(out)@ == old(out)@ + hex2_spec(b),
        ascii_seq(old(out)@) ==> ascii_seq(final(out)@),
{
    let d1 = hex_digit(b / 16);
    let d2 = hex_digit(b % 16);
    out.push(d1);
    out.push(d2);
    proof {
        assert(final(out)@ =~= old(out)@ + hex2_spec(b));
    }
}

fn push_hex4(out: &mut Vec<u8>, w: u16)
    ensures
        final(out)@ == old(out)@ + hex4_spec(w),
        ascii_seq(old(out)@) ==> ascii_seq(final(out)@),
{
    push_hex2(out, (w / 0x100) as u8);
    push_hex2(out, (w % 0x100) as u8);
    proof {
        assert(final(out)@ =~= old(out)@ + hex4_spec(w));
    }
}

fn push1(out: &mut Vec<u8>, a: u8)
    requires
        a < 0x80,
    ensures
        final(out)@ == old(out)@ + seq![a],
        ascii_seq(old(out)@) ==> ascii_seq(final(out)@),
{
    out.push(a);
    proof {
        assert(final(out)@ =~= old(out)@ + seq![a]);
    }
}

fn push2(out: &mut Vec<u8>, a: u8, b: u8)
    requires
        a < 0x80,
        b < 0x80,
    ensures
        final(out)@ == old(out)@ + seq![a, b],
        ascii_seq(old(out)@) ==> ascii_seq(final(out)@),
{
    out.push(a);
    out.push(b);
    proof {
        assert(final(out)@ =~= old(out)@ + seq![a, b]);
    }
}

fn push3(out: &mut Vec<u8>, a: u8, b: u8, c: u8)
    requires
        a < 0x80,
        b < 0x80,
        c < 0x80,
    ensures
        final(out)@ == old(out)@ + seq![a, b, c],
        ascii_seq(old(out)@) ==> ascii_seq(final(out)@),
{
    out.push(a);
    out.push(b);
    out.push(c);
    proof {
        assert(final(out)@ =~= old(out)@ + seq![a, b, c]);
    }
}

fn push4(out: &mut Vec<u8>, a: u8, b: u8, c: u8, d: u8)
    requires
        a < 0x80,
        b < 0x80,
        c < 0x80,
        d < 0x80,
    ensures
        final(out)@ == old(out)@ + seq![a, b, c, d],
        ascii_seq(old(out)@) ==> ascii_seq(final(out)@),
{
    out.push(a);
    out.push(b);
    out.push(c);
    out.push(d);
    proof {
        assert(final(out)@ =~= old(out)@ + seq![a, b, c, d]);
    }
}

fn push5(out: &mut Vec<u8>, a: u8, b: u8, c: u8, d: u8, e: u8)
    requires
        a < 0x80,
        b < 0x80,
        c < 0x80,
        d < 0x80,
        e < 0x80,
    ensures
        final(out)@ == old(out)@ + seq![a, b, c, d, e],
        ascii_seq(old(out)@) ==> ascii_seq(final(out)@),
{
    out.push(a);
    out.push(b);
    out.push(c);
    out.push(d);
    out.push(e);
    proof {
        assert(final(out)@ =~= old(out)@ + seq![a, b, c, d, e]);
    }
}

fn push6(out: &mut Vec<u8>, a: u8, b: u8, c: u8, d: u8, e: u8, f: u8)
    requires
        a < 0x80,
        b < 0x80,
        c < 0x80,
        d < 0x80,
        e < 0x80,
        f < 0x80,
    ensures
        final(out)@ == old(out)@ + seq![a, b, c, d, e, f],
        ascii_seq(old(out)@) ==> ascii_seq(final(out)@),
{
    out.push(a);
    out.push(b);
    out.push(c);
    out.push(d);
    out.push(e);
    out.push(f);
    proof {
        assert(final(out)@ =~= old(out)@ + seq![a, b, c, d, e, f]);
    }
}

fn push_spaces(out: &mut Vec<u8>, n: usize)
    ensures
        final(out)@ == old(out)@ + spaces_spec(n as int),
        ascii_seq(old(out)@) ==> ascii_seq(final(out)@),
{
    let mut k: usize = 0;
    while k < n
        invariant
            k <= n,
            out@ == old(out)@ + spaces_spec(k as int),
            ascii_seq(old(out)@) ==> ascii_seq(out@),
        decreases n - k,
    {
        out.push(A_SPACE);
        k = k + 1;
        proof {
            assert(out@ =~= old(out)@ + spaces_spec(k as int));
        }
    }
}

/// Derive the operand address as the tracer needs it, without touching
/// the machine: operand bytes are read past the program counter.
#[verifier::rlimit(100)]
#[verifier::spinoff_prover]
fn peek_operand_address(cpu: &Cpu, mode: &AddressingMode) -> (r: u16)
    requires
        cpu.wf(),
    ensures
        r == operand_addr_spec(Cpu { pc: ((cpu.pc + 1) % 0x10000) as u16, ..*cpu }, *mode),
{
    let pc1 = cpu.pc.wrapping_add(1);
    match *mode {
        AddressingMode::Immediate => pc1,
        AddressingMode::ZeroPage => cpu.bus.mem_peek(pc1) as u16,
        AddressingMode::Absolute => cpu.bus.mem_peek_u16(pc1),
        AddressingMode::ZeroPageX => {
            let base = cpu.bus.mem_peek(pc1);
            base.wrapping_add(cpu.x) as u16
        },
        AddressingMode::ZeroPageY => {
            let base = cpu.bus.mem_peek(pc1);
            base.wrapping_add(cpu.y) as u16
        },
        AddressingMode::AbsoluteX => {
            let base = cpu.bus.mem_peek_u16(pc1);
            base.wrapping_add(cpu.x as u16)
        },
        AddressingMode::AbsoluteY => {
            let base = cpu.bus.mem_peek_u16(pc1);
            base.wrapping_add(cpu.y as u16)
        },
        AddressingMode::IndirectX => {
            let base = cpu.bus.mem_peek(pc1);
            let ptr = base.wrapping_add(cpu.x);
            let low = cpu.bus.mem_peek(ptr as u16);
            let high = cpu.bus.mem_peek(ptr.wrapping_add(1) as u16);
            high as u16 * 0x100 + low as u16
        },
        AddressingMode::IndirectY => {
            let base = cpu.bus.mem_peek(pc1);
            let low = cpu.bus.mem_peek(base as u16);
            let high = cpu.bus.mem_peek(base.wrapping_add(1) as u16);
            let deref = high as u16 * 0x100 + low as u16;
            deref.wrapping_add(cpu.y as u16)
        },
        AddressingMode::Implied | AddressingMode::Relative => pc1,
    }
}

/// Relies on `String::from_utf8`: bytes below `0x80` decode one-to-one
/// to the characters with the same code.
#[verifier::external_body]
fn ascii_to_string(bytes: Vec<u8>) -> (r: String)
    requires
        ascii_seq(bytes@),
    ensures
        r@ == bytes@.map(|i: int, b: u8| b as char),
{
    match String::from_utf8(bytes) {
        Ok(s) => s,
        Err(_) => String::new(),
    }
}

/// Append the operand portion of the line.
#[verifier::rlimit(100)]
#[verifier::spinoff_prover]
fn push_operand(out: &mut Vec<u8>, cpu: &Cpu, op: u8)
    requires
        cpu.wf(),
    ensures
        final(out)@ == old(out)@ + trace_operand_spec(*cpu, op),
        ascii_seq(old(out)@) ==> ascii_seq(final(out)@),
{
    let cur_inst = lookup(op);
    let pc1 = cpu.pc.wrapping_add(1);
    let b1 = cpu.bus.mem_peek(pc1);
    let addr16 = cpu.bus.mem_peek_u16(pc1);
    let mem_addr = peek_operand_address(cpu, &cur_inst.mode);
    let stored = cpu.bus.mem_peek(mem_addr);
    if op == 0x4c || op == 0x20 {
        push1(out, A_DOLLAR);
        push_hex4(out, addr16);
    } else if op == 0x6c {
        let jmp = if addr16 % 0x100 == 0xff {
            let low = cpu.bus.mem_peek(addr16);
            let high = cpu.bus.mem_peek(addr16 - 0xff);
            high as u16 * 0x100 + low as u16
        } else {
            cpu.bus.mem_peek_u16(addr16)
        };
        push2(out, A_LPAREN, A_DOLLAR);
        push_hex4(out, addr16);
        push4(out, A_RPAREN, A_SPACE, A_EQUALS, A_SPACE);
        push_hex4(out, jmp);
    } else if cur_inst.len == 1 {
        if op == 0x0a || op == 0x4a || op == 0x2a || op == 0x6a {
            push2(out, A_UPPER_A, A_SPACE);
        }
    } else if cur_inst.len == 2 {
        push_operand_len2(out, cpu, op);
    } else {
        push_operand_len3(out, cpu, op);
    }
}

/// Append the operand portion for the two-byte forms.
#[verifier::rlimit(100)]
#[verifier::spinoff_prover]
fn push_operand_len2(out: &mut Vec<u8>, cpu: &Cpu, op: u8)
    requires
        cpu.wf(),
        op != 0x4c && op != 0x20 && op != 0x6c,
        mode_len_spec(mode_spec(op)) == 2,
    ensures
        final(out)@ == old(out)@ + trace_operand_spec(*cpu, op),
        ascii_seq(old(out)@) ==> ascii_seq(final(out)@),
{
    let cur_inst = lookup(op);
    let pc1 = cpu.pc.wrapping_add(1);
    let b1 = cpu.bus.mem_peek(pc1);
    let mem_addr = peek_operand_address(cpu, &cur_inst.mode);
    let stored = cpu.bus.mem_peek(mem_addr);
    match cur_inst.mode {
            AddressingMode::Immediate => {
                push2(out, A_HASH, A_DOLLAR);
                push_hex2(out, b1);
            },
            AddressingMode::ZeroPage => {
                push1(out, A_DOLLAR);
                push_hex2(out, (mem_addr % 0x100) as u8);
                push3(out, A_SPACE, A_EQUALS, A_SPACE);
                push_hex2(out, stored);
            },
            AddressingMode::ZeroPageX => {
                push1(out, A_DOLLAR);
                push_hex2(out, b1);
                push5(out, A_COMMA, A_UPPER_X, A_SPACE, A_AT, A_SPACE);
                push_hex2(out, (mem_addr % 0x100) as u8);
                push3(out, A_SPACE, A_EQUALS, A_SPACE);
                push_hex2(out, stored);
            },
            AddressingMode::ZeroPageY => {
                push1(out, A_DOLLAR);
                push_hex2(out, b1);
                push5(out, A_COMMA, A_UPPER_Y, A_SPACE, A_AT, A_SPACE);
                push_hex2(out, (mem_addr % 0x100) as u8);
                push3(out, A_SPACE, A_EQUALS, A_SPACE);
                push_hex2(out, stored);
            },
            _ => {
                push_operand_len2_indirect(out, cpu, op);
            },
    }
}

/// Append the operand portion for the two-byte indirect and relative
/// forms.
#[verifier::rlimit(100)]
#[verifier::spinoff_prover]
fn push_operand_len2_indirect(out: &mut Vec<u8>, cpu: &Cpu, op: u8)
    requires
        cpu.wf(),
        op != 0x4c && op != 0x20 && op != 0x6c,
        mode_len_spec(mode_spec(op)) == 2,
        mode_spec(op) is IndirectX || mode_spec(op) is IndirectY || mode_spec(op) is Relative,
    ensures
        final(out)@ == old(out)@ + trace_operand_spec(*cpu, op),
        ascii_seq(old(out)@) ==> ascii_seq(final(out)@),
{
    let cur_inst = lookup(op);
    let pc1 = cpu.pc.wrapping_add(1);
    let b1 = cpu.bus.mem_peek(pc1);
    let mem_addr = peek_operand_address(cpu, &cur_inst.mode);
    let stored = cpu.bus.mem_peek(mem_addr);
    match cur_inst.mode {
            AddressingMode::IndirectX => {
                let ptr = b1.wrapping_add(cpu.x);
                push2(out, A_LPAREN, A_DOLLAR);
                push_hex2(out, b1);
                push6(out, A_COMMA, A_UPPER_X, A_RPAREN, A_SPACE, A_AT, A_SPACE);
                push_hex2(out, ptr);
                push3(out, A_SPACE, A_EQUALS, A_SPACE);
                push_hex4(out, mem_addr);
                push3(out, A_SPACE, A_EQUALS, A_SPACE);
                push_hex2(out, stored);
                proof {
                    assert(out@ == old(out)@ + operand_ix_spec(b1, ptr, mem_addr, stored));
                }
            },
            AddressingMode::IndirectY => {
                push_operand_iy(out, cpu, op);
            },
            _ => {
                push_operand_rel(out, cpu, op);
            },
    }
}

/// Append the operand portion for the post-indexed indirect form.
#[verifier::rlimit(100)]
#[verifier::spinoff_prover]
fn push_operand_iy(out: &mut Vec<u8>, cpu: &Cpu, op: u8)
    requires
        cpu.wf(),
        op != 0x4c && op != 0x20 && op != 0x6c,
        mode_len_spec(mode_spec(op)) == 2,
        mode_spec(op) is IndirectY,
    ensures
        final(out)@ == old(out)@ + trace_operand_spec(*cpu, op),
        ascii_seq(old(out)@) ==> ascii_seq(final(out)@),
{
    let cur_inst = lookup(op);
    let pc1 = cpu.pc.wrapping_add(1);
    let b1 = cpu.bus.mem_peek(pc1);
    let mem_addr = peek_operand_address(cpu, &cur_inst.mode);
    let stored = cpu.bus.mem_peek(mem_addr);
    match cur_inst.mode {
            AddressingMode::IndirectY => {
                let behind = mem_addr.wrapping_sub(cpu.y as u16);
                push2(out, A_LPAREN, A_DOLLAR);
                push_hex2(out, b1);
                push6(out, A_RPAREN, A_COMMA, A_UPPER_Y, A_SPACE, A_EQUALS, A_SPACE);
                push_hex4(out, behind);
                push3(out, A_SPACE, A_AT, A_SPACE);
                push_hex4(out, mem_addr);
                push3(out, A_SPACE, A_EQUALS, A_SPACE);
                push_hex2(out, stored);
                proof {
                    let c = *cpu;
                    let pc1g = ((c.pc + 1) % 0x10000) as u16;
                    let mem_addr_g = operand_addr_spec(Cpu { pc: pc1g, ..c }, mode_spec(op));
                    assert(out@ == old(out)@ + operand_iy_spec(b1, behind, mem_addr, stored));
                    assert(mem_addr == mem_addr_g);
                    assert(b1 == bus_peek_spec(c.bus, pc1g));
                    assert(stored == bus_peek_spec(c.bus, mem_addr_g));
                    assert(behind == ((mem_addr_g + 0x10000 - c.y) % 0x10000) as u16);
                    assert(trace_operand_spec(c, op) == operand_iy_spec(b1, behind, mem_addr, stored));
                }
            },
            _ => {
                proof {
                    assert(false);
                }
            },
    }
}

/// Append the operand portion for the relative (branch) forms: the
/// pre-computed branch target.
#[verifier::rlimit(100)]
#[verifier::spinoff_prover]
fn push_operand_rel(out: &mut Vec<u8>, cpu: &Cpu, op: u8)
    requires
        cpu.wf(),
        op != 0x4c && op != 0x20 && op != 0x6c,
        mode_spec(op) is Relative,
    ensures
        final(out)@ == old(out)@ + trace_operand_spec(*cpu, op),
        ascii_seq(old(out)@) ==> ascii_seq(final(out)@),
{
    let b1 = cpu.bus.mem_peek(cpu.pc.wrapping_add(1));
    let ext: u16 = if b1 < 0x80 {
        b1 as u16
    } else {
        proof {
            assert(0xff00u16 | (b1 as u16) == 0xff00 + b1) by (bit_vector)
                requires
                    b1 >= 0x80,
            ;
        }
        0xff00 | b1 as u16
    };
    let target = cpu.pc.wrapping_add(2).wrapping_add(ext);
    push1(out, A_DOLLAR);
    push_hex4(out, target);
}

/// Append the operand portion for the three-byte forms.
#[verifier::rlimit(100)]
#[verifier::spinoff_prover]
fn push_operand_len3(out: &mut Vec<u8>, cpu: &Cpu, op: u8)
    requires
        cpu.wf(),
        op != 0x4c && op != 0x20 && op != 0x6c,
        mode_len_spec(mode_spec(op)) == 3,
    ensures
        final(out)@ == old(out)@ + trace_operand_spec(*cpu, op),
        ascii_seq(old(out)@) ==> ascii_seq(final(out)@),
{
    let cur_inst = lookup(op);
    let pc1 = cpu.pc.wrapping_add(1);
    let addr16 = cpu.bus.mem_peek_u16(pc1);
    let mem_addr = peek_operand_address(cpu, &cur_inst.mode);
    let stored = cpu.bus.mem_peek(mem_addr);
    match cur_inst.mode {
            AddressingMode::Absolute => {
                push1(out, A_DOLLAR);
                push_hex4(out, mem_addr);
                push3(out, A_SPACE, A_EQUALS, A_SPACE);
                push_hex2(out, stored);
            },
            AddressingMode::AbsoluteX => {
                push1(out, A_DOLLAR);
                push_hex4(out, addr16);
                push5(out, A_COMMA, A_UPPER_X, A_SPACE, A_AT, A_SPACE);
                push_hex4(out, mem_addr);
                push3(out, A_SPACE, A_EQUALS, A_SPACE);
                push_hex2(out, stored);
            },
            AddressingMode::AbsoluteY => {
                push1(out, A_DOLLAR);
                push_hex4(out, addr16);
                push5(out, A_COMMA, A_UPPER_Y, A_SPACE, A_AT, A_SPACE);
                push_hex4(out, mem_addr);
                push3(out, A_SPACE, A_EQUALS, A_SPACE);
                push_hex2(out, stored);
            },
            _ => (),
    }
}

/// Build the text portion of the line.
#[verifier::rlimit(100)]
#[verifier::spinoff_prover]
fn build_text(cpu: &Cpu) -> (out: Vec<u8>)
    requires
        cpu.wf(),
    ensures
        out@ == trace_text_spec(*cpu),
        ascii_seq(out@),
{
    let op = cpu.bus.mem_peek(cpu.pc);
    let cur_inst = lookup(op);
    let mn = mnemonic_code(op);
    let b1 = cpu.bus.mem_peek(cpu.pc.wrapping_add(1));
    let b2 = cpu.bus.mem_peek(cpu.pc.wrapping_add(2));
    let mut out: Vec<u8> = Vec::new();
    push_hex4(&mut out, cpu.pc);
    push2(&mut out, A_SPACE, A_SPACE);
    push_hex2(&mut out, op);
    if cur_inst.len == 1 {
        push_spaces(&mut out, 6);
    } else if cur_inst.len == 2 {
        push1(&mut out, A_SPACE);
        push_hex2(&mut out, b1);
        push_spaces(&mut out, 3);
    } else {
        push1(&mut out, A_SPACE);
        push_hex2(&mut out, b1);
        push1(&mut out, A_SPACE);
        push_hex2(&mut out, b2);
    }
    push2(&mut out, A_SPACE, A_SPACE);
    push3(&mut out, mn.0, mn.1, mn.2);
    push1(&mut out, A_SPACE);
    push_operand(&mut out, cpu, op);
    out
}

/// Format the trace line for the instruction at the program counter,
/// with the processor state as the line's register fields.
pub fn trace(cpu: &Cpu) -> (r: String)
    requires
        cpu.wf(),
    ensures
        r@ == trace_chars_spec(*cpu),
{
    let mut out = build_text(cpu);
    let ghost text = out@;
    // Strip trailing spaces, then pad the text to the register column.
    while out.len() > 0 && out[out.len() - 1] == A_SPACE
        invariant
            rtrim_spec(out@) == rtrim_spec(text),
            ascii_seq(text) ==> ascii_seq(out@),
        decreases out.len(),
    {
        out.pop();
        proof {
            assert(ascii_seq(text) ==> ascii_seq(out@));
        }
    }
    proof {
        assert(out@ == rtrim_spec(text));
    }
    let ghost trimmed = out@;
    while out.len() < 47
        invariant
            trimmed == rtrim_spec(text),
            out@.len() >= trimmed.len(),
            out@.len() <= 47 || out@.len() == trimmed.len(),
            out@ == trimmed + spaces_spec(out@.len() - trimmed.len()),
            ascii_seq(trimmed) ==> ascii_seq(out@),
        decreases 47 - out.len(),
    {
        out.push(A_SPACE);
        proof {
            assert(out@ =~= trimmed + spaces_spec(out@.len() - trimmed.len()));
        }
    }
    proof {
        assert(out@ =~= pad_right_spec(trimmed, 47));
    }
    push3(&mut out, A_SPACE, A_UPPER_A, A_COLON);
    push_hex2(&mut out, cpu.a);
    push3(&mut out, A_SPACE, A_UPPER_X, A_COLON);
    push_hex2(&mut out, cpu.x);
    push3(&mut out, A_SPACE, A_UPPER_Y, A_COLON);
    push_hex2(&mut out, cpu.y);
    push3(&mut out, A_SPACE, A_UPPER_P, A_COLON);
    push_hex2(&mut out, cpu.stat.bits());
    push4(&mut out, A_SPACE, A_UPPER_S, A_UPPER_P, A_COLON);
    push_hex2(&mut out, cpu.sp);
    proof {
        assert(out@ =~= trace_bytes_spec(*cpu));
        assert(ascii_seq(out@));
    }
    let r = ascii_to_string(out);
    proof {
        assert(r@ =~= trace_chars_spec(*cpu));
    }
    r
}

} // verus!
