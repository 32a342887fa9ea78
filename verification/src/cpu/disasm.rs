//! One-line disassembly of the instruction at an address.

use vstd::prelude::*;
use crate::bus::{Bus, mem_at};
use crate::chars::push_char;
use super::addressing::AddrMode;
use super::opcodes::{opcode_info, opcode_table, mnemonic_letters, mnemonic_name};
use super::semantics::signed8;

verus! {

/// Upper-case hex digit of `d` (0 to 15).
pub open spec fn hex_digit(d: int) -> char {
    if d < 10 { (48 + d) as char } else { (55 + d) as char }
}

/// Two hex digits of a byte.
pub open spec fn hex2(b: int) -> Seq<char> {
    seq![hex_digit(b / 16), hex_digit(b % 16)]
}

/// Four hex digits of a word.
pub open spec fn hex4(w: int) -> Seq<char> {
    hex2(w / 256) + hex2(w % 256)
}

/// Target of a branch at `pc` with offset byte `lo`.
pub open spec fn branch_target(pc: u16, lo: u8) -> int {
    (pc + 2 + signed8(lo)) % 0x10000
}

/// Operand text of an instruction in `mode` with operand bytes `lo`, `hi`
/// at `pc`, in the usual 6502 assembler syntax.
pub open spec fn operand_text(mode: AddrMode, lo: u8, hi: u8, pc: u16) -> Seq<char> {
    let word = hi * 256 + lo;
    match mode {
        AddrMode::Implied => Seq::empty(),
        AddrMode::Accumulator => seq!['A'],
        AddrMode::Immediate => seq!['#', '$'] + hex2(lo as int),
        AddrMode::ZeroPage => seq!['$'] + hex2(lo as int),
        AddrMode::ZeroPageX => seq!['$'] + hex2(lo as int) + seq![',', 'X'],
        AddrMode::ZeroPageY => seq!['$'] + hex2(lo as int) + seq![',', 'Y'],
        AddrMode::Absolute => seq!['$'] + hex4(word),
        AddrMode::AbsoluteX => seq!['$'] + hex4(word) + seq![',', 'X'],
        AddrMode::AbsoluteY => seq!['$'] + hex4(word) + seq![',', 'Y'],
        AddrMode::Indirect => seq!['(', '$'] + hex4(word) + seq![')'],
        AddrMode::IndirectX => seq!['(', '$'] + hex2(lo as int) + seq![',', 'X', ')'],
        AddrMode::IndirectY => seq!['(', '$'] + hex2(lo as int) + seq![')', ',', 'Y'],
        AddrMode::Relative => seq!['$'] + hex4(branch_target(pc, lo)),
    }
}

/// Length in bytes of an instruction in `mode`.
pub open spec fn instr_size(mode: AddrMode) -> u8 {
    match mode {
        AddrMode::Implied | AddrMode::Accumulator => 1,
        AddrMode::Absolute | AddrMode::AbsoluteX | AddrMode::AbsoluteY | AddrMode::Indirect => 3,
        _ => 2,
    }
}

/// Disassembly of opcode `op` with operand bytes `lo`, `hi` at `pc`: the
/// mnemonic, then a space and the operand when there is one; and the
/// instruction's length.
pub open spec fn disasm_line(op: u8, lo: u8, hi: u8, pc: u16) -> (Seq<char>, u8) {
    let info = opcode_table(op);
    let operand = operand_text(info.mode, lo, hi, pc);
    let text = if operand.len() == 0 {
        mnemonic_name(info.mnemonic)
    } else {
        mnemonic_name(info.mnemonic) + seq![' '] + operand
    };
    (text, instr_size(info.mode))
}

fn push_str3(s: &mut String, a: char, b: char, c: char)
    ensures
        final(s)@ == old(s)@ + seq![a, b, c],
{
    push_char(s, a);
    push_char(s, b);
    push_char(s, c);
    assert(s@ =~= old(s)@ + seq![a, b, c]);
}

/// Upper-case hex digit of `d`.
fn hex_char(d: u8) -> (c: char)
    requires
        d < 16,
    ensures
        c == hex_digit(d as int),
{
    match d {
        0 => '0', 1 => '1', 2 => '2', 3 => '3', 4 => '4', 5 => '5', 6 => '6', 7 => '7',
        8 => '8', 9 => '9', 10 => 'A', 11 => 'B', 12 => 'C', 13 => 'D', 14 => 'E', _ => 'F',
    }
}

fn push_hex2(s: &mut String, b: u8)
    ensures
        final(s)@ == old(s)@ + hex2(b as int),
{
    push_char(s, hex_char(b / 16));
    push_char(s, hex_char(b % 16));
    assert(s@ =~= old(s)@ + hex2(b as int));
}

fn push_hex4(s: &mut String, w: u16)
    ensures
        final(s)@ == old(s)@ + hex4(w as int),
{
    push_hex2(s, (w / 256) as u8);
    push_hex2(s, (w % 256) as u8);
    assert(s@ =~= old(s)@ + hex4(w as int));
}

/// Target of a branch at `pc` with offset byte `lo`.
fn branch_target_of(pc: u16, lo: u8) -> (target: u16)
    ensures
        target == branch_target(pc, lo),
{
    let offset: i32 = if lo < 128 { lo as i32 } else { lo as i32 - 256 };
    let t: i32 = pc as i32 + 2 + offset;
    if t < 0 {
        (t + 0x10000) as u16
    } else if t >= 0x10000 {
        (t - 0x10000) as u16
    } else {
        t as u16
    }
}

/// Operand text and instruction length for `mode`.
#[verifier::rlimit(30)]
fn format_operand(mode: AddrMode, lo: u8, hi: u8, pc: u16) -> (r: (String, u8))
    ensures
        r.0@ == operand_text(mode, lo, hi, pc),
        r.1 == instr_size(mode),
{
    let word: u16 = hi as u16 * 256 + lo as u16;
    let mut operand = String::new();
    let size: u8 = match mode {
        AddrMode::Implied => 1,
        AddrMode::Accumulator => {
            push_char(&mut operand, 'A');
            1
        },
        AddrMode::Immediate => {
            push_char(&mut operand, '#');
            push_char(&mut operand, '$');
            push_hex2(&mut operand, lo);
            2
        },
        AddrMode::ZeroPage => {
            push_char(&mut operand, '$');
            push_hex2(&mut operand, lo);
            2
        },
        AddrMode::ZeroPageX => {
            push_char(&mut operand, '$');
            push_hex2(&mut operand, lo);
            push_char(&mut operand, ',');
            push_char(&mut operand, 'X');
            2
        },
        AddrMode::ZeroPageY => {
            push_char(&mut operand, '$');
            push_hex2(&mut operand, lo);
            push_char(&mut operand, ',');
            push_char(&mut operand, 'Y');
            2
        },
        AddrMode::Absolute => {
            push_char(&mut operand, '$');
            push_hex4(&mut operand, word);
            3
        },
        AddrMode::AbsoluteX => {
            push_char(&mut operand, '$');
            push_hex4(&mut operand, word);
            push_char(&mut operand, ',');
            push_char(&mut operand, 'X');
            3
        },
        AddrMode::AbsoluteY => {
            push_char(&mut operand, '$');
            push_hex4(&mut operand, word);
            push_char(&mut operand, ',');
            push_char(&mut operand, 'Y');
            3
        },
        AddrMode::Indirect => {
            push_char(&mut operand, '(');
            push_char(&mut operand, '$');
            push_hex4(&mut operand, word);
            push_char(&mut operand, ')');
            3
        },
        AddrMode::IndirectX => {
            push_char(&mut operand, '(');
            push_char(&mut operand, '$');
            push_hex2(&mut operand, lo);
            push_char(&mut operand, ',');
            push_char(&mut operand, 'X');
            push_char(&mut operand, ')');
            2
        },
        AddrMode::IndirectY => {
            push_char(&mut operand, '(');
            push_char(&mut operand, '$');
            push_hex2(&mut operand, lo);
            push_char(&mut operand, ')');
            push_char(&mut operand, ',');
            push_char(&mut operand, 'Y');
            2
        },
        AddrMode::Relative => {
            let target = branch_target_of(pc, lo);
            push_char(&mut operand, '$');
            push_hex4(&mut operand, target);
            2
        },
    };
    assert(operand@ =~= operand_text(mode, lo, hi, pc));
    (operand, size)
}

/// Disassemble the instruction made of opcode `opcode` and the next two
/// bytes `lo`, `hi` at address `pc`: its text and its length in bytes.
pub fn disasm_bytes(opcode: u8, lo: u8, hi: u8, pc: u16) -> (r: (String, u8))
    ensures
        (r.0@, r.1) == disasm_line(opcode, lo, hi, pc),
{
    let info = opcode_info(opcode);
    let (operand, size) = format_operand(info.mode, lo, hi, pc);
    let (a, b, c) = mnemonic_letters(info.mnemonic);
    let mut line = String::new();
    push_str3(&mut line, a, b, c);
    assert(line@ =~= mnemonic_name(info.mnemonic));
    let n = operand.unicode_len();
    if n > 0 {
        push_char(&mut line, ' ');
        let mut i: usize = 0;
        let ghost head = line@;
        while i < n
            invariant
                n == operand@.len(),
                i <= n,
                line@ == head + operand@.subrange(0, i as int),
            decreases n - i,
        {
            let ch = operand.as_str().get_char(i);
            push_char(&mut line, ch);
            assert(operand@.subrange(0, i + 1) =~= operand@.subrange(0, i as int).push(ch));
            i = i + 1;
        }
        assert(operand@.subrange(0, n as int) =~= operand@);
    }
    (line, size)
}

/// Disassemble the instruction at `pc`, reading memory with `peek` only
/// (no read side effects): its text and its length in bytes.
pub fn disasm<B: Bus>(bus: &B, pc: u16) -> (r: (String, u8))
    ensures
        (r.0@, r.1) == disasm_line(
            bus.peek_spec(pc),
            bus.peek_spec(pc.wrapping_add(1)),
            bus.peek_spec(pc.wrapping_add(2)),
            pc,
        ),
        bus.plain_reads().contains(pc) && bus.plain_reads().contains(pc.wrapping_add(1))
            && bus.plain_reads().contains(pc.wrapping_add(2)) ==> (r.0@, r.1) == disasm_line(
            mem_at(bus.memory(), pc),
            mem_at(bus.memory(), pc.wrapping_add(1)),
            mem_at(bus.memory(), pc.wrapping_add(2)),
            pc,
        ),
{
    let opcode = bus.peek(pc);
    let lo = bus.peek(pc.wrapping_add(1));
    let hi = bus.peek(pc.wrapping_add(2));
    disasm_bytes(opcode, lo, hi, pc)
}

} // verus!
