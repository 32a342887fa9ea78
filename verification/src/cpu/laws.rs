//! Laws of the 6502 semantics: arithmetic, comparison, the stack, and
//! subroutine calls.

use vstd::prelude::*;
use crate::bus::{mem_at, word_at, wrap16, wrap8, page_wrap_next};
use super::Cpu;
use super::opcodes::{opcode_table, OpcodeInfo, Mnemonic};
use super::addressing::AddrMode;
use super::status::{Flag, flag_of, with_flag, with_nz, push_byte, lemma_get_after_set, lemma_set_keeps_other_flags};
use super::semantics::{branch_taken, step_spec, adc_spec, adc_binary_spec, sbc_spec, compare_spec, carry_in, signed8, push_spec, pull_spec, push_word_spec, pull_word_spec, shift_spec, execute_spec, operand_addr, operand_val, resolve_spec, branch_spec, absolute_spec, control_spec};
use super::addressing::{Resolved, Operand};

verus! {

/// Whether `x` is a valid packed BCD byte: both nibbles are digits.
pub open spec fn is_bcd(x: u8) -> bool {
    x / 16 <= 9 && x % 16 <= 9
}

/// The number a packed BCD byte stands for.
pub open spec fn bcd_value(x: u8) -> int {
    (x / 16) * 10 + x % 16
}

/// C, V, N and Z of a status byte built by setting V to `o`, then C to
/// `carry`, then N and Z from `r`.
#[verifier::spinoff_prover]
#[verifier::rlimit(60)]
proof fn lemma_result_flags(p: u8, o: bool, carry: bool, r: u8)
    ensures
        flag_of(with_nz(with_flag(with_flag(p, Flag::V, o), Flag::C, carry), r), Flag::C) == carry,
        flag_of(with_nz(with_flag(with_flag(p, Flag::V, o), Flag::C, carry), r), Flag::V) == o,
        flag_of(with_nz(with_flag(with_flag(p, Flag::V, o), Flag::C, carry), r), Flag::N) == (r >= 0x80),
        flag_of(with_nz(with_flag(with_flag(p, Flag::V, o), Flag::C, carry), r), Flag::Z) == (r == 0),
{
    let p1 = with_flag(p, Flag::V, o);
    let p2 = with_flag(p1, Flag::C, carry);
    let p3 = with_flag(p2, Flag::N, r >= 0x80);
    let p4 = with_flag(p3, Flag::Z, r == 0);
    lemma_get_after_set(p, Flag::V, o);
    lemma_get_after_set(p1, Flag::C, carry);
    lemma_get_after_set(p2, Flag::N, r >= 0x80);
    lemma_get_after_set(p3, Flag::Z, r == 0);
    lemma_set_keeps_other_flags(p1, Flag::C, Flag::V, carry);
    lemma_set_keeps_other_flags(p2, Flag::N, Flag::V, r >= 0x80);
    lemma_set_keeps_other_flags(p2, Flag::N, Flag::C, r >= 0x80);
    lemma_set_keeps_other_flags(p3, Flag::Z, Flag::V, r == 0);
    lemma_set_keeps_other_flags(p3, Flag::Z, Flag::C, r == 0);
    lemma_set_keeps_other_flags(p3, Flag::Z, Flag::N, r == 0);
}

/// Binary ADC adds: the result and the carry out make up A + M + C, and V
/// tells a signed overflow.
#[verifier::spinoff_prover]
#[verifier::rlimit(60)]
pub proof fn lemma_adc_binary_adds(a: u8, p: u8, v: u8)
    ensures
        ({
            let (r, p2) = adc_binary_spec(a, p, v);
            &&& r + 256 * (if flag_of(p2, Flag::C) { 1int } else { 0int }) == a + v + carry_in(p)
            &&& flag_of(p2, Flag::V) == !(-128 <= signed8(a) + signed8(v) + carry_in(p) <= 127)
            &&& flag_of(p2, Flag::Z) == (r == 0)
            &&& flag_of(p2, Flag::N) == (r >= 0x80)
        }),
{
    let sum = a + v + carry_in(p);
    let r = wrap8(sum);
    lemma_result_flags(p, !(-128 <= signed8(a) + signed8(v) + carry_in(p) <= 127), sum > 255, r);
}

/// In binary mode SBC is ADC of the complemented operand: A - M - (1 - C)
/// equals A + (255 - M) + C, with the same flags.
#[verifier::spinoff_prover]
#[verifier::rlimit(60)]
pub proof fn lemma_sbc_is_adc_of_complement(a: u8, p: u8, v: u8)
    requires
        !flag_of(p, Flag::D),
    ensures
        sbc_spec(a, p, v) == adc_spec(a, p, (255 - v) as u8),
{
    let nv = (255 - v) as u8;
    assert(signed8(nv) == -signed8(v) - 1);
    assert(a - v - (1 - carry_in(p)) + 256 == a + nv + carry_in(p));
    assert(wrap8(a - v - (1 - carry_in(p))) == wrap8(a + nv + carry_in(p))) by {
        vstd::arithmetic::div_mod::lemma_mod_add_multiples_vanish(a - v - (1 - carry_in(p)), 256);
    }
}

/// The digit arithmetic of decimal ADC on digits `ah al` + `vh vl` with
/// carry `c`.
#[verifier::spinoff_prover]
#[verifier::rlimit(60)]
proof fn lemma_bcd_add_digits(al: int, ah: int, vl: int, vh: int, c: int)
    requires
        0 <= al <= 9,
        0 <= ah <= 9,
        0 <= vl <= 9,
        0 <= vh <= 9,
        0 <= c <= 1,
    ensures
        ({
            let lo0 = al + vl + c;
            let lo = if lo0 > 9 { lo0 + 6 } else { lo0 };
            let hi0 = ah + vh + (if lo > 15 { 1int } else { 0int });
            let hi = if hi0 > 9 { hi0 + 6 } else { hi0 };
            let r = (hi * 16 + lo % 16) % 256;
            let sum = 10 * (ah + vh) + al + vl + c;
            &&& r == (if hi0 > 9 { hi0 - 10 } else { hi0 }) * 16 + (if lo0 > 9 { lo0 - 10 } else { lo0 })
            &&& (if hi0 > 9 { hi0 - 10 } else { hi0 }) * 10 + (if lo0 > 9 { lo0 - 10 } else { lo0 }) == sum % 100
            &&& (hi > 15) == (sum >= 100)
        }),
{
    let lo0 = al + vl + c;
    let lo = if lo0 > 9 { lo0 + 6 } else { lo0 };
    let hi0 = ah + vh + (if lo > 15 { 1int } else { 0int });
    let hi = if hi0 > 9 { hi0 + 6 } else { hi0 };
    let dl = if lo0 > 9 { lo0 - 10 } else { lo0 };
    let dh = if hi0 > 9 { hi0 - 10 } else { hi0 };
    let sum = 10 * (ah + vh) + al + vl + c;
    assert(lo % 16 == dl) by {
        if lo0 > 9 {
            vstd::arithmetic::div_mod::lemma_fundamental_div_mod_converse(lo, 16, 1, dl);
        } else {
            vstd::arithmetic::div_mod::lemma_fundamental_div_mod_converse(lo, 16, 0, dl);
        }
    }
    assert(sum == 100 * (if hi0 > 9 { 1int } else { 0int }) + dh * 10 + dl);
    assert(sum % 100 == dh * 10 + dl) by {
        vstd::arithmetic::div_mod::lemma_fundamental_div_mod_converse(
            sum,
            100,
            if hi0 > 9 { 1int } else { 0int },
            dh * 10 + dl,
        );
    }
    assert((hi * 16 + dl) % 256 == dh * 16 + dl) by {
        vstd::arithmetic::div_mod::lemma_fundamental_div_mod_converse(
            hi * 16 + dl,
            256,
            if hi0 > 9 { 1int } else { 0int },
            dh * 16 + dl,
        );
    }
}

/// Decimal ADC of valid BCD bytes adds in decimal: the result is the BCD
/// of the sum modulo 100, and the carry tells whether it reached 100.
#[verifier::spinoff_prover]
#[verifier::rlimit(60)]
pub proof fn lemma_adc_decimal_adds(a: u8, p: u8, v: u8)
    requires
        flag_of(p, Flag::D),
        is_bcd(a),
        is_bcd(v),
    ensures
        ({
            let (r, p2) = adc_spec(a, p, v);
            let sum = bcd_value(a) + bcd_value(v) + carry_in(p);
            &&& is_bcd(r)
            &&& bcd_value(r) == sum % 100
            &&& flag_of(p2, Flag::C) == (sum >= 100)
        }),
{
    let c = carry_in(p);
    let lo0 = a % 16 + v % 16 + c;
    let lo = if lo0 > 9 { lo0 + 6 } else { lo0 };
    let hi0 = a / 16 + v / 16 + (if lo > 15 { 1int } else { 0int });
    let hi = if hi0 > 9 { hi0 + 6 } else { hi0 };
    lemma_bcd_add_digits((a % 16) as int, (a / 16) as int, (v % 16) as int, (v / 16) as int, c);
    let dl = if lo0 > 9 { lo0 - 10 } else { lo0 };
    let dh = if hi0 > 9 { hi0 - 10 } else { hi0 };
    let r = wrap8(hi * 16 + lo % 16);
    assert(r == dh * 16 + dl);
    lemma_digits(r, dh, dl);
    let bin = wrap8(a + v + c);
    let inter = wrap8(hi0 * 16 + lo % 16);
    let overflow = (a >= 128) == (v >= 128) && (inter >= 128) != (a >= 128);
    let p1 = with_flag(with_flag(p, Flag::V, overflow), Flag::C, hi > 15);
    lemma_get_after_set(with_flag(p, Flag::V, overflow), Flag::C, hi > 15);
    lemma_set_keeps_other_flags(p1, Flag::N, Flag::C, bin >= 128);
    lemma_set_keeps_other_flags(with_flag(p1, Flag::N, bin >= 128), Flag::Z, Flag::C, bin == 0);
}

/// A byte made of a high digit and a low digit.
#[verifier::spinoff_prover]
#[verifier::rlimit(60)]
proof fn lemma_digits(r: u8, hi: int, lo: int)
    requires
        0 <= hi <= 9,
        0 <= lo <= 9,
        r == hi * 16 + lo,
    ensures
        r / 16 == hi,
        r % 16 == lo,
{
    vstd::arithmetic::div_mod::lemma_fundamental_div_mod_converse(r as int, 16, hi, lo);
}

/// Decimal SBC of valid BCD bytes subtracts in decimal: the result is the
/// BCD of A - M - (1 - C) modulo 100, and the carry is set when no borrow
/// was needed.
#[verifier::spinoff_prover]
#[verifier::rlimit(60)]
pub proof fn lemma_sbc_decimal_subtracts(a: u8, p: u8, v: u8)
    requires
        flag_of(p, Flag::D),
        is_bcd(a),
        is_bcd(v),
    ensures
        ({
            let (r, p2) = sbc_spec(a, p, v);
            let diff = bcd_value(a) - bcd_value(v) - (1 - carry_in(p));
            &&& is_bcd(r)
            &&& bcd_value(r) == (diff + 100) % 100
            &&& flag_of(p2, Flag::C) == (diff >= 0)
        }),
{
    let c = carry_in(p);
    let lo0 = a % 16 - v % 16 + c - 1;
    let lo = if lo0 < 0 { lo0 + 10 } else { lo0 };
    let borrow = if a % 16 + c - 1 < v % 16 { 1int } else { 0int };
    let hi0 = a / 16 - v / 16 - borrow;
    let hi = if hi0 < 0 { hi0 + 10 } else { hi0 };
    assert(0 <= lo <= 9 && 0 <= hi <= 9);
    assert(lo % 16 == lo);
    let r = wrap8(hi * 16 + lo % 16);
    assert(r == hi * 16 + lo);
    lemma_digits(r, hi, lo);
    let diff = a - v - (1 - c);
    assert((a - v - (1 - c) >= 0) == (bcd_value(a) - bcd_value(v) - (1 - c) >= 0));
    let bin = wrap8(diff);
    let overflow = !(-128 <= signed8(a) - signed8(v) - (1 - c) <= 127);
    let p1 = with_flag(with_flag(p, Flag::V, overflow), Flag::C, diff >= 0);
    lemma_get_after_set(with_flag(p, Flag::V, overflow), Flag::C, diff >= 0);
    lemma_set_keeps_other_flags(p1, Flag::N, Flag::C, bin >= 128);
    lemma_set_keeps_other_flags(with_flag(p1, Flag::N, bin >= 128), Flag::Z, Flag::C, bin == 0);
}

/// CMP, CPX and CPY set C when the register is at least the operand, Z
/// when they are equal, N from bit 7 of their difference, and keep V.
#[verifier::spinoff_prover]
#[verifier::rlimit(60)]
pub proof fn lemma_compare_flags(p: u8, reg: u8, v: u8)
    ensures
        flag_of(compare_spec(p, reg, v), Flag::C) == (reg >= v),
        flag_of(compare_spec(p, reg, v), Flag::Z) == (reg == v),
        flag_of(compare_spec(p, reg, v), Flag::N) == (wrap8(reg - v) >= 0x80),
        flag_of(compare_spec(p, reg, v), Flag::V) == flag_of(p, Flag::V),
{
    let d = wrap8(reg - v);
    assert((d == 0) == (reg == v)) by {
        if reg < v {
            vstd::arithmetic::div_mod::lemma_mod_add_multiples_vanish(reg - v, 256);
        }
    }
    let p1 = with_flag(p, Flag::C, reg >= v);
    let p2 = with_flag(p1, Flag::N, d >= 0x80);
    lemma_get_after_set(p, Flag::C, reg >= v);
    lemma_get_after_set(p1, Flag::N, d >= 0x80);
    lemma_get_after_set(p2, Flag::Z, d == 0);
    lemma_set_keeps_other_flags(p1, Flag::N, Flag::C, d >= 0x80);
    lemma_set_keeps_other_flags(p2, Flag::Z, Flag::C, d == 0);
    lemma_set_keeps_other_flags(p2, Flag::Z, Flag::N, d == 0);
    lemma_set_keeps_other_flags(p, Flag::C, Flag::V, reg >= v);
    lemma_set_keeps_other_flags(p1, Flag::N, Flag::V, d >= 0x80);
    lemma_set_keeps_other_flags(p2, Flag::Z, Flag::V, d == 0);
}

/// A pull gives back the byte just pushed and restores SP.
#[verifier::spinoff_prover]
#[verifier::rlimit(60)]
pub proof fn lemma_push_then_pull(c: Cpu, m: Seq<u8>, v: u8)
    requires
        m.len() == 0x10000,
    ensures
        ({
            let (c1, m1) = push_spec(c, m, v);
            let (c2, val) = pull_spec(c1, m1);
            &&& val == v
            &&& c2 == c
            &&& m1.len() == m.len()
        }),
{
    let (c1, m1) = push_spec(c, m, v);
    assert(wrap8(wrap8(c.sp - 1) + 1) == c.sp) by {
        if c.sp == 0 {
            vstd::arithmetic::div_mod::lemma_mod_add_multiples_vanish(-1, 256);
        }
    }
}

/// A word pull gives back the word just pushed and restores SP.
#[verifier::spinoff_prover]
#[verifier::rlimit(60)]
pub proof fn lemma_push_word_then_pull_word(c: Cpu, m: Seq<u8>, w: u16)
    requires
        m.len() == 0x10000,
    ensures
        ({
            let (c1, m1) = push_word_spec(c, m, w);
            let (c2, val) = pull_word_spec(c1, m1);
            &&& val == w
            &&& c2 == c
        }),
{
    let (ca, ma) = push_spec(c, m, (w / 256) as u8);
    let (cb, mb) = push_spec(ca, ma, (w % 256) as u8);
    lemma_push_then_pull(ca, ma, (w % 256) as u8);
    let (cc, lo) = pull_spec(cb, mb);
    assert(cc == ca);
    lemma_push_then_pull(c, m, (w / 256) as u8);
    let (cd, hi) = pull_spec(ca, mb);
    assert(wrap8(c.sp - 1) != c.sp) by {
        if c.sp == 0 {
            vstd::arithmetic::div_mod::lemma_mod_add_multiples_vanish(-1, 256);
        }
    }
    assert(mb[0x100 + wrap8(ca.sp + 1)] == ma[0x100 + wrap8(ca.sp + 1)]);
    assert(hi == (w / 256) as u8);
    assert(cd == c);
}

/// One step at a JSR (absolute) with no interrupt to take.
#[verifier::spinoff_prover]
#[verifier::rlimit(80)]
proof fn lemma_step_jsr(c: Cpu, m: Seq<u8>)
    requires
        !c.nmi_pending,
        !(c.irq_pending && !flag_of(c.p.0, Flag::I)),
        mem_at(m, c.pc) == 0x20,
        c.cycles + 6 <= u64::MAX,
    ensures
        ({
            let ca = Cpu { pc: wrap16(wrap16(c.pc + 1) + 2), ..c };
            let (cb, mb) = push_word_spec(ca, m, wrap16(ca.pc - 1));
            let target = word_at(m, wrap16(c.pc + 1), wrap16(wrap16(c.pc + 1) + 1));
            step_spec(c, m) == (Cpu { pc: target, cycles: (c.cycles + 6) as u64, ..cb }, mb, 6u32)
        }),
{
    reveal(step_spec);
    assert(opcode_table(0x20) == OpcodeInfo { mnemonic: Mnemonic::JSR, mode: AddrMode::Absolute, cycles: 6, page_penalty: false });
    let c1 = Cpu { pc: wrap16(c.pc + 1), ..c };
    let (c2, r) = absolute_spec(c1, m, 0);
    assert(resolve_spec(c1, m, AddrMode::Absolute) == (c2, r));
    assert(execute_spec(c2, m, Mnemonic::JSR, AddrMode::Absolute, r) == (
        control_spec(c2, m, Mnemonic::JSR, r).0,
        control_spec(c2, m, Mnemonic::JSR, r).1,
        0u32,
    ));
}

/// One step at an RTS with no interrupt to take.
#[verifier::spinoff_prover]
#[verifier::rlimit(80)]
proof fn lemma_step_rts(c: Cpu, m: Seq<u8>)
    requires
        !c.nmi_pending,
        !(c.irq_pending && !flag_of(c.p.0, Flag::I)),
        mem_at(m, c.pc) == 0x60,
        c.cycles + 6 <= u64::MAX,
    ensures
        ({
            let (c1, w) = pull_word_spec(Cpu { pc: wrap16(c.pc + 1), ..c }, m);
            step_spec(c, m) == (Cpu { pc: wrap16(w + 1), cycles: (c.cycles + 6) as u64, ..c1 }, m, 6u32)
        }),
{
    reveal(step_spec);
    assert(opcode_table(0x60) == OpcodeInfo { mnemonic: Mnemonic::RTS, mode: AddrMode::Implied, cycles: 6, page_penalty: false });
    let c1 = Cpu { pc: wrap16(c.pc + 1), ..c };
    let r = Resolved { operand: Operand::Empty, page_crossed: false };
    assert(resolve_spec(c1, m, AddrMode::Implied) == (c1, r));
    assert(execute_spec(c1, m, Mnemonic::RTS, AddrMode::Implied, r) == (
        control_spec(c1, m, Mnemonic::RTS, r).0,
        control_spec(c1, m, Mnemonic::RTS, r).1,
        0u32,
    ));
}

/// A subroutine call returns to the instruction after it: when a JSR at PC
/// calls a routine that is a bare RTS, the two steps leave PC three bytes
/// further on, SP where it was, and take 12 cycles; the memory keeps the
/// return address pushed by the JSR.
#[verifier::spinoff_prover]
#[verifier::rlimit(60)]
pub proof fn lemma_jsr_then_rts(c: Cpu, m: Seq<u8>)
    requires
        m.len() == 0x10000,
        !c.nmi_pending,
        !(c.irq_pending && !flag_of(c.p.0, Flag::I)),
        mem_at(m, c.pc) == 0x20,
        c.cycles + 12 <= u64::MAX,
        ({
            let (c1, m1, _) = step_spec(c, m);
            mem_at(m1, c1.pc) == 0x60
        }),
    ensures
        ({
            let (c1, m1, n1) = step_spec(c, m);
            let (c2, m2, n2) = step_spec(c1, m1);
            &&& c2.pc == wrap16(c.pc + 3)
            &&& c2.sp == c.sp
            &&& m2 == m1
            &&& n1 + n2 == 12
            &&& c2.cycles == c.cycles + 12
        }),
{
    lemma_step_jsr(c, m);
    let ca = Cpu { pc: wrap16(wrap16(c.pc + 1) + 2), ..c };
    let ret = wrap16(ca.pc - 1);
    let (cb, mb) = push_word_spec(ca, m, ret);
    let (c1, m1, n1) = step_spec(c, m);
    lemma_step_rts(c1, m1);
    let c1b = Cpu { pc: wrap16(c1.pc + 1), ..c1 };
    lemma_push_word_then_pull_word(ca, m, ret);
    let (cc, w) = pull_word_spec(c1b, m1);
    assert(cc.sp == c.sp);
    assert(w == ret);
    assert(wrap16(ret + 1) == wrap16(c.pc + 3)) by {
        vstd::arithmetic::div_mod::lemma_mod_add_multiples_vanish(c.pc + 3, 0x10000);
    }
}

/// C, N and Z of a status byte built by setting C to `carry`, then N and
/// Z from `r`; V, D and I are kept.
#[verifier::spinoff_prover]
#[verifier::rlimit(60)]
proof fn lemma_carry_nz_flags(p: u8, carry: bool, r: u8)
    ensures
        flag_of(with_nz(with_flag(p, Flag::C, carry), r), Flag::C) == carry,
        flag_of(with_nz(with_flag(p, Flag::C, carry), r), Flag::N) == (r >= 0x80),
        flag_of(with_nz(with_flag(p, Flag::C, carry), r), Flag::Z) == (r == 0),
        flag_of(with_nz(with_flag(p, Flag::C, carry), r), Flag::V) == flag_of(p, Flag::V),
        flag_of(with_nz(with_flag(p, Flag::C, carry), r), Flag::D) == flag_of(p, Flag::D),
        flag_of(with_nz(with_flag(p, Flag::C, carry), r), Flag::I) == flag_of(p, Flag::I),
{
    let p1 = with_flag(p, Flag::C, carry);
    let p2 = with_flag(p1, Flag::N, r >= 0x80);
    lemma_get_after_set(p, Flag::C, carry);
    lemma_get_after_set(p1, Flag::N, r >= 0x80);
    lemma_get_after_set(p2, Flag::Z, r == 0);
    lemma_set_keeps_other_flags(p1, Flag::N, Flag::C, r >= 0x80);
    lemma_set_keeps_other_flags(p2, Flag::Z, Flag::C, r == 0);
    lemma_set_keeps_other_flags(p2, Flag::Z, Flag::N, r == 0);
    assert forall|f: Flag| f == Flag::V || f == Flag::D || f == Flag::I implies
        flag_of(with_nz(p1, r), f) == flag_of(p, f) by {
        lemma_set_keeps_other_flags(p, Flag::C, f, carry);
        lemma_set_keeps_other_flags(p1, Flag::N, f, r >= 0x80);
        lemma_set_keeps_other_flags(p2, Flag::Z, f, r == 0);
    }
}

/// ROL and ROR rotate through the carry: the byte (A, or the operand in
/// memory) is shifted one place with the old carry entering at the other
/// end, the bit shifted out becomes C, N and Z follow the result, which is
/// written back where the byte came from, and V, D, I and the other
/// registers are kept.
#[verifier::spinoff_prover]
#[verifier::rlimit(60)]
pub proof fn lemma_rotate_through_carry(c: Cpu, m: Seq<u8>, mn: Mnemonic, mode: AddrMode, r: Resolved)
    requires
        mn == Mnemonic::ROL || mn == Mnemonic::ROR,
    ensures
        ({
            let v = if mode == AddrMode::Accumulator { c.a } else { mem_at(m, operand_addr(r)) };
            let cin: u8 = if flag_of(c.p.0, Flag::C) { 1 } else { 0 };
            let res: u8 = if mn == Mnemonic::ROL { (v << 1u8) | cin } else { (v >> 1u8) | (cin << 7u8) };
            let (c2, m2) = shift_spec(c, m, mn, mode, r);
            &&& mode == AddrMode::Accumulator ==> c2.a == res && m2 == m
            &&& mode != AddrMode::Accumulator ==> c2.a == c.a && m2 == m.update(operand_addr(r) as int, res)
            &&& flag_of(c2.p.0, Flag::C) == (if mn == Mnemonic::ROL { v & 0x80 != 0 } else { v & 1 != 0 })
            &&& flag_of(c2.p.0, Flag::N) == (res & 0x80 != 0)
            &&& flag_of(c2.p.0, Flag::Z) == (res == 0)
            &&& flag_of(c2.p.0, Flag::V) == flag_of(c.p.0, Flag::V)
            &&& flag_of(c2.p.0, Flag::D) == flag_of(c.p.0, Flag::D)
            &&& flag_of(c2.p.0, Flag::I) == flag_of(c.p.0, Flag::I)
            &&& c2.x == c.x && c2.y == c.y && c2.sp == c.sp && c2.pc == c.pc && c2.cycles == c.cycles
        }),
{
    let v = if mode == AddrMode::Accumulator { c.a } else { mem_at(m, operand_addr(r)) };
    let cin: u8 = if flag_of(c.p.0, Flag::C) { 1 } else { 0 };
    assert(carry_in(c.p.0) == cin as int);
    assert(cin <= 1 ==> wrap8(v * 2 + cin) == (v << 1u8) | cin) by (bit_vector);
    assert(cin <= 1 ==> ((v / 2 + 128 * cin) as u8) == (v >> 1u8) | (cin << 7u8)) by (bit_vector);
    assert((v >= 128) == (v & 0x80 != 0)) by (bit_vector);
    assert((v % 2 == 1) == (v & 1 != 0)) by (bit_vector);
    let res: u8 = if mn == Mnemonic::ROL { (v << 1u8) | cin } else { (v >> 1u8) | (cin << 7u8) };
    assert((res >= 0x80) == (res & 0x80 != 0)) by (bit_vector);
    let carry = if mn == Mnemonic::ROL { v >= 128 } else { v % 2 == 1 };
    lemma_carry_nz_flags(c.p.0, carry, res);
}

/// BIT tests the operand against A: Z tells whether they share no bit, N
/// and V copy bits 7 and 6 of the operand; A, C, D, I and memory are kept.
#[verifier::spinoff_prover]
#[verifier::rlimit(60)]
pub proof fn lemma_bit_flags(c: Cpu, m: Seq<u8>, mode: AddrMode, r: Resolved)
    ensures
        ({
            let v = operand_val(m, r);
            let (c2, m2, x) = execute_spec(c, m, Mnemonic::BIT, mode, r);
            &&& flag_of(c2.p.0, Flag::Z) == (c.a & v == 0)
            &&& flag_of(c2.p.0, Flag::N) == (v & 0x80 != 0)
            &&& flag_of(c2.p.0, Flag::V) == (v & 0x40 != 0)
            &&& flag_of(c2.p.0, Flag::C) == flag_of(c.p.0, Flag::C)
            &&& flag_of(c2.p.0, Flag::D) == flag_of(c.p.0, Flag::D)
            &&& flag_of(c2.p.0, Flag::I) == flag_of(c.p.0, Flag::I)
            &&& c2.a == c.a && c2.x == c.x && c2.y == c.y && c2.sp == c.sp && c2.pc == c.pc
            &&& m2 == m
            &&& x == 0
        }),
{
    let v = operand_val(m, r);
    let p = c.p.0;
    let p1 = with_flag(p, Flag::Z, c.a & v == 0);
    let p2 = with_flag(p1, Flag::N, v >= 128);
    assert((v >= 128) == (v & 0x80 != 0)) by (bit_vector);
    lemma_get_after_set(p, Flag::Z, c.a & v == 0);
    lemma_get_after_set(p1, Flag::N, v >= 128);
    lemma_get_after_set(p2, Flag::V, v & 0x40 != 0);
    lemma_set_keeps_other_flags(p1, Flag::N, Flag::Z, v >= 128);
    lemma_set_keeps_other_flags(p2, Flag::V, Flag::Z, v & 0x40 != 0);
    lemma_set_keeps_other_flags(p2, Flag::V, Flag::N, v & 0x40 != 0);
    assert forall|f: Flag| f == Flag::C || f == Flag::D || f == Flag::I implies
        flag_of(with_flag(p2, Flag::V, v & 0x40 != 0), f) == flag_of(p, f) by {
        lemma_set_keeps_other_flags(p, Flag::Z, f, c.a & v == 0);
        lemma_set_keeps_other_flags(p1, Flag::N, f, v >= 128);
        lemma_set_keeps_other_flags(p2, Flag::V, f, v & 0x40 != 0);
    }
}

/// The stack image after pushing `hi`, `lo` and `st` from `sp` down.
pub open spec fn pushed3(m: Seq<u8>, sp: u8, hi: u8, lo: u8, st: u8) -> Seq<u8> {
    m.update(0x100 + sp, hi).update(0x100 + wrap8(sp - 1), lo).update(0x100 + wrap8(sp - 2), st)
}

#[verifier::spinoff_prover]
#[verifier::rlimit(60)]
proof fn lemma_brk_unfolds(c: Cpu, m: Seq<u8>, mode: AddrMode, r: Resolved)
    ensures
        ({
            let ret = wrap16(c.pc + 1);
            let (c1, m1) = push_word_spec(c, m, ret);
            let (c2, m2) = push_spec(c1, m1, push_byte(c1.p.0, true));
            execute_spec(c, m, Mnemonic::BRK, mode, r) == (Cpu {
                pc: word_at(m2, 0xFFFE, 0xFFFF),
                p: super::status::Status(with_flag(c2.p.0, Flag::I, true)),
                ..c2
            }, m2, 0u32)
        }),
{
}

/// Pushing the word `w` and then the byte `st` writes three stack slots
/// from SP down and moves SP three places.
#[verifier::spinoff_prover]
#[verifier::rlimit(60)]
proof fn lemma_three_pushes(c: Cpu, m: Seq<u8>, w: u16, st: u8)
    requires
        m.len() == 0x10000,
    ensures
        ({
            let (c1, m1) = push_word_spec(c, m, w);
            let (c2, m2) = push_spec(c1, m1, st);
            let m3 = pushed3(m, c.sp, (w / 256) as u8, (w % 256) as u8, st);
            &&& m2 == m3
            &&& c2 == Cpu { sp: wrap8(c.sp - 3), ..c }
            &&& c1.p == c.p
            &&& m3[0x100 + c.sp] == w / 256
            &&& m3[0x100 + wrap8(c.sp - 1)] == w % 256
            &&& m3[0x100 + wrap8(c.sp - 2)] == st
        }),
{
    let sp = c.sp;
    let s1 = wrap8(sp - 1);
    let s2 = wrap8(s1 - 1);
    assert(s2 == wrap8(sp - 2) && wrap8(s2 - 1) == wrap8(sp - 3) && s1 != sp && s2 != sp && s2 != s1) by {
        vstd::arithmetic::div_mod::lemma_mod_add_multiples_vanish(sp - 1, 256);
        vstd::arithmetic::div_mod::lemma_mod_add_multiples_vanish(sp - 2, 256);
        vstd::arithmetic::div_mod::lemma_mod_add_multiples_vanish(sp - 3, 256);
    }
}

/// BRK pushes the address two past its opcode (so the padding byte after
/// it is skipped), high byte first, then the status with B and U set; it
/// then sets I and jumps through the vector at $FFFE.
#[verifier::spinoff_prover]
#[verifier::rlimit(60)]
pub proof fn lemma_brk_pushes_and_vectors(c: Cpu, m: Seq<u8>, mode: AddrMode, r: Resolved)
    requires
        m.len() == 0x10000,
    ensures
        ({
            let ret = wrap16(c.pc + 1);
            let m2 = pushed3(m, c.sp, (ret / 256) as u8, (ret % 256) as u8, c.p.0 | 0x30);
            let (c2, m3, x) = execute_spec(c, m, Mnemonic::BRK, mode, r);
            &&& m3 == m2
            &&& m2[0x100 + c.sp] == ret / 256
            &&& m2[0x100 + wrap8(c.sp - 1)] == ret % 256
            &&& m2[0x100 + wrap8(c.sp - 2)] == c.p.0 | 0x30
            &&& c2.sp == wrap8(c.sp - 3)
            &&& c2.p.0 == c.p.0 | 0x04
            &&& c2.pc == word_at(m2, 0xFFFE, 0xFFFF)
            &&& c2.a == c.a && c2.x == c.x && c2.y == c.y && c2.cycles == c.cycles
            &&& x == 0
        }),
{
    let p = c.p.0;
    assert(with_flag(p, Flag::I, true) == p | 0x04) by {
        assert(p | (1u8 << 2u8) == p | 0x04) by (bit_vector);
    }
    assert(push_byte(p, true) == p | 0x30);
    let ret = wrap16(c.pc + 1);
    lemma_three_pushes(c, m, ret, p | 0x30);
    lemma_brk_unfolds(c, m, mode, r);
}

/// Whether `mn` is a conditional branch.
pub open spec fn branch_mnemonic(mn: Mnemonic) -> bool {
    mn == Mnemonic::BCC || mn == Mnemonic::BCS || mn == Mnemonic::BEQ || mn == Mnemonic::BNE
    || mn == Mnemonic::BMI || mn == Mnemonic::BPL || mn == Mnemonic::BVC || mn == Mnemonic::BVS
}

/// The decoding table charges at most 6 cycles to opcodes with a page
/// penalty, and 2 cycles and no page penalty to branches.
#[verifier::spinoff_prover]
#[verifier::rlimit(60)]
pub proof fn lemma_opcode_table_cycles(op: u8)
    ensures
        2 <= opcode_table(op).cycles <= 8,
        opcode_table(op).page_penalty ==> opcode_table(op).cycles <= 6,
        branch_mnemonic(opcode_table(op).mnemonic) ==> opcode_table(op).cycles == 2 && !opcode_table(op).page_penalty,
{
}

/// Extra cycles of an execution: only a taken branch costs more than the
/// table says, one cycle, or two when it lands on another page.
#[verifier::spinoff_prover]
#[verifier::rlimit(60)]
proof fn lemma_execute_extra(c: Cpu, m: Seq<u8>, mn: Mnemonic, mode: AddrMode, r: Resolved)
    ensures
        execute_spec(c, m, mn, mode, r).2 <= 2,
        execute_spec(c, m, mn, mode, r).2 > 0 ==> branch_mnemonic(mn),
{
    if branch_mnemonic(mn) {
        assert(branch_spec(c, true, r).1 <= 2);
    }
}

/// Cycle accounting of one step: an interrupt entry takes 7 cycles; an
/// instruction takes the table's count, one more when indexing crossed a
/// page on an opcode with that penalty, plus a taken branch's extra; the
/// total lies between 2 and 8 and is added to the cycle counter.
#[verifier::spinoff_prover]
#[verifier::rlimit(60)]
pub proof fn lemma_step_cycles(c: Cpu, m: Seq<u8>)
    requires
        c.cycles + 8 <= u64::MAX,
    ensures
        ({
            let (c3, m3, n) = step_spec(c, m);
            let info = opcode_table(mem_at(m, c.pc));
            let (c2, r) = resolve_spec(Cpu { pc: wrap16(c.pc + 1), ..c }, m, info.mode);
            let extra = execute_spec(c2, m, info.mnemonic, info.mode, r).2;
            &&& 2 <= n <= 8
            &&& c3.cycles == c.cycles + n
            &&& (c.nmi_pending || (c.irq_pending && !flag_of(c.p.0, Flag::I))) ==> n == 7
            &&& !(c.nmi_pending || (c.irq_pending && !flag_of(c.p.0, Flag::I))) ==> {
                &&& n == info.cycles + (if info.page_penalty && r.page_crossed { 1int } else { 0int }) + extra
                &&& extra > 0 ==> branch_mnemonic(info.mnemonic)
            }
        }),
{
    reveal(step_spec);
    let info = opcode_table(mem_at(m, c.pc));
    let (c2, r) = resolve_spec(Cpu { pc: wrap16(c.pc + 1), ..c }, m, info.mode);
    lemma_opcode_table_cycles(mem_at(m, c.pc));
    lemma_execute_extra(c2, m, info.mnemonic, info.mode, r);
}

/// Number of operand bytes that follow the opcode in `mode`.
pub open spec fn operand_len(mode: AddrMode) -> int {
    match mode {
        AddrMode::Implied | AddrMode::Accumulator => 0,
        AddrMode::Absolute | AddrMode::AbsoluteX | AddrMode::AbsoluteY | AddrMode::Indirect => 2,
        _ => 1,
    }
}

/// Operand resolution consumes exactly the operand bytes and changes
/// nothing else in the CPU; an immediate operand is the byte at PC, a
/// relative one the offset byte there; zero-page operands and the pointers
/// of (zp,X) and (zp),Y stay inside page zero; only absolute,X, absolute,Y
/// and (zp),Y can report a page crossing.
#[verifier::spinoff_prover]
#[verifier::rlimit(60)]
pub proof fn lemma_resolve_shape(c: Cpu, m: Seq<u8>, mode: AddrMode)
    ensures
        ({
            let (c2, r) = resolve_spec(c, m, mode);
            &&& c2 == Cpu { pc: wrap16(c.pc + operand_len(mode)), ..c }
            &&& mode == AddrMode::Immediate ==> r.operand == Operand::Address(c.pc)
            &&& mode == AddrMode::Relative ==> r.operand == Operand::Byte(mem_at(m, c.pc))
            &&& (mode == AddrMode::Implied || mode == AddrMode::Accumulator) ==> r.operand == Operand::Empty
            &&& (mode == AddrMode::ZeroPage || mode == AddrMode::ZeroPageX || mode == AddrMode::ZeroPageY) ==> {
                &&& r.operand is Address
                &&& operand_addr(r) < 0x100
            }
            &&& mode == AddrMode::ZeroPageX ==> operand_addr(r) == wrap8(mem_at(m, c.pc) + c.x)
            &&& mode == AddrMode::ZeroPageY ==> operand_addr(r) == wrap8(mem_at(m, c.pc) + c.y)
            &&& mode == AddrMode::IndirectX ==> {
                let ptr = wrap8(mem_at(m, c.pc) + c.x) as u16;
                &&& ptr < 0x100 && page_wrap_next(ptr) < 0x100
                &&& r.operand == Operand::Address(word_at(m, ptr, page_wrap_next(ptr)))
            }
            &&& mode == AddrMode::IndirectY ==> {
                let ptr = mem_at(m, c.pc) as u16;
                &&& ptr < 0x100 && page_wrap_next(ptr) < 0x100
                &&& r.operand == Operand::Address(wrap16(word_at(m, ptr, page_wrap_next(ptr)) + c.y))
            }
            &&& r.page_crossed ==> (mode == AddrMode::AbsoluteX || mode == AddrMode::AbsoluteY
                || mode == AddrMode::IndirectY)
        }),
{
    assert(wrap16(c.pc + 0) == c.pc);
}

/// The flag bits of the status byte, by their masks.
#[verifier::spinoff_prover]
#[verifier::rlimit(60)]
proof fn lemma_flag_masks(p: u8)
    ensures
        flag_of(p, Flag::N) == (p & 0x80 != 0),
        flag_of(p, Flag::V) == (p & 0x40 != 0),
        flag_of(p, Flag::C) == (p & 0x01 != 0),
        flag_of(p, Flag::Z) == (p & 0x02 != 0),
{
    assert(((p >> 7u8) & 1u8 == 1u8) == (p & 0x80 != 0) && ((p >> 6u8) & 1u8 == 1u8) == (p & 0x40 != 0)
        && ((p >> 0u8) & 1u8 == 1u8) == (p & 0x01 != 0) && ((p >> 1u8) & 1u8 == 1u8) == (p & 0x02 != 0))
        by (bit_vector);
}

/// Which status mask each branch tests, and whether it branches on set.
#[verifier::spinoff_prover]
#[verifier::rlimit(60)]
proof fn lemma_branch_taken_masks(p: u8)
    ensures
        branch_taken(Mnemonic::BPL, p) == (p & 0x80 == 0),
        branch_taken(Mnemonic::BMI, p) == (p & 0x80 != 0),
        branch_taken(Mnemonic::BVC, p) == (p & 0x40 == 0),
        branch_taken(Mnemonic::BVS, p) == (p & 0x40 != 0),
        branch_taken(Mnemonic::BCC, p) == (p & 0x01 == 0),
        branch_taken(Mnemonic::BCS, p) == (p & 0x01 != 0),
        branch_taken(Mnemonic::BNE, p) == (p & 0x02 == 0),
        branch_taken(Mnemonic::BEQ, p) == (p & 0x02 != 0),
{
    lemma_flag_masks(p);
}

/// Executing a branch changes only the PC and costs the branch's extra.
#[verifier::spinoff_prover]
#[verifier::rlimit(60)]
proof fn lemma_execute_branch(c: Cpu, m: Seq<u8>, mn: Mnemonic, mode: AddrMode, r: Resolved)
    requires
        branch_mnemonic(mn),
    ensures
        execute_spec(c, m, mn, mode, r) == (
            branch_spec(c, branch_taken(mn, c.p.0), r).0,
            m,
            branch_spec(c, branch_taken(mn, c.p.0), r).1,
        ),
{
}

/// One step at a branch opcode with no interrupt to take.
#[verifier::spinoff_prover]
#[verifier::rlimit(80)]
proof fn lemma_step_branch(c: Cpu, m: Seq<u8>, info: OpcodeInfo)
    requires
        info == opcode_table(mem_at(m, c.pc)),
        branch_mnemonic(info.mnemonic),
        info.mode == AddrMode::Relative,
        info.cycles == 2,
        !info.page_penalty,
        !c.nmi_pending,
        !(c.irq_pending && !flag_of(c.p.0, Flag::I)),
        c.cycles + 8 <= u64::MAX,
    ensures
        ({
            let next = wrap16(c.pc + 2);
            let r = Resolved { operand: Operand::Byte(mem_at(m, wrap16(c.pc + 1))), page_crossed: false };
            let (c3, x) = branch_spec(Cpu { pc: next, ..c }, branch_taken(info.mnemonic, c.p.0), r);
            step_spec(c, m) == (Cpu { cycles: (c3.cycles + 2 + x) as u64, ..c3 }, m, (2 + x) as u32)
        }),
{
    reveal(step_spec);
    let c1 = Cpu { pc: wrap16(c.pc + 1), ..c };
    let r = Resolved { operand: Operand::Byte(mem_at(m, c1.pc)), page_crossed: false };
    assert(wrap16(c1.pc + 1) == wrap16(c.pc + 2)) by {
        vstd::arithmetic::div_mod::lemma_mod_add_multiples_vanish(c.pc + 2, 0x10000);
    }
    let c2 = Cpu { pc: wrap16(c.pc + 2), ..c };
    assert(resolve_spec(c1, m, AddrMode::Relative) == (c2, r));
    lemma_execute_branch(c2, m, info.mnemonic, info.mode, r);
    assert(branch_spec(c2, branch_taken(info.mnemonic, c2.p.0), r).1 <= 2);
}

/// The eight conditional branches test the flag that bits 7 and 6 of the
/// opcode select (N, V, C, Z in turn, at status bits 7, 6, 0, 1) against
/// bit 5 of the opcode (`(op / 32) % 2`): BPL ($10) and BMI ($30) branch on N clear and set,
/// BVC/BVS on V, BCC/BCS on C, BNE/BEQ on Z. A taken branch adds the signed
/// offset byte to the address of the next instruction and costs one cycle
/// more, two when it lands on another page; nothing else changes.
#[verifier::spinoff_prover]
#[verifier::rlimit(80)]
pub proof fn lemma_branch_tests_its_flag(c: Cpu, m: Seq<u8>, op: u8)
    requires
        op == 0x10 || op == 0x30 || op == 0x50 || op == 0x70 || op == 0x90 || op == 0xB0 || op == 0xD0
            || op == 0xF0,
        mem_at(m, c.pc) == op,
        !c.nmi_pending,
        !(c.irq_pending && !flag_of(c.p.0, Flag::I)),
        c.cycles + 8 <= u64::MAX,
    ensures
        ({
            let mask: u8 = if op < 0x40 { 0x80 } else if op < 0x80 { 0x40 } else if op < 0xC0 { 0x01 } else { 0x02 };
            let taken = ((c.p.0 & mask) != 0) == ((op / 32) % 2 == 1);
            let next = wrap16(c.pc + 2);
            let target = wrap16(next + signed8(mem_at(m, wrap16(c.pc + 1))));
            let (c2, m2, n) = step_spec(c, m);
            &&& c2.pc == (if taken { target } else { next })
            &&& m2 == m
            &&& n == (if !taken { 2u32 } else if next / 256 == target / 256 { 3u32 } else { 4u32 })
            &&& c2.a == c.a && c2.x == c.x && c2.y == c.y && c2.sp == c.sp && c2.p == c.p
            &&& c2.cycles == c.cycles + n
        }),
{
    lemma_branch_taken_masks(c.p.0);
    if op == 0x10 {
        assert(opcode_table(op).mnemonic == Mnemonic::BPL);
    } else if op == 0x30 {
        assert(opcode_table(op).mnemonic == Mnemonic::BMI);
    } else if op == 0x50 {
        assert(opcode_table(op).mnemonic == Mnemonic::BVC);
    } else if op == 0x70 {
        assert(opcode_table(op).mnemonic == Mnemonic::BVS);
    } else if op == 0x90 {
        assert(opcode_table(op).mnemonic == Mnemonic::BCC);
    } else if op == 0xB0 {
        assert(opcode_table(op).mnemonic == Mnemonic::BCS);
    } else if op == 0xD0 {
        assert(opcode_table(op).mnemonic == Mnemonic::BNE);
    } else {
        assert(opcode_table(op).mnemonic == Mnemonic::BEQ);
    }
    let info = opcode_table(op);
    assert(info.mode == AddrMode::Relative && info.cycles == 2 && !info.page_penalty);
    lemma_step_branch(c, m, info);
}

/// The decoding of the group-one opcodes (low bits 01): bits 7-5 name the
/// operation (ORA, AND, EOR, ADC, STA, LDA, CMP, SBC) and bits 4-2 the
/// addressing mode ((zp,X), zp, #, abs, (zp),Y, zp,X, abs,Y, abs,X), with
/// the NMOS cycle counts: 6, 3, 2, 4, 5, 4, 4, 4 for reads, one more on a
/// page crossing for (zp),Y, abs,Y and abs,X; stores take 6, 3, 4, 6, 4,
/// 5, 5 and never the penalty. ($89, a store to an immediate, is no such
/// instruction.)
#[verifier::spinoff_prover]
#[verifier::rlimit(60)]
pub proof fn lemma_group_one_opcodes(op: u8)
    requires
        op % 4 == 1,
        op != 0x89,
    ensures
        opcode_table(op).mnemonic == seq![
            Mnemonic::ORA, Mnemonic::AND, Mnemonic::EOR, Mnemonic::ADC,
            Mnemonic::STA, Mnemonic::LDA, Mnemonic::CMP, Mnemonic::SBC,
        ][(op / 32) as int],
        opcode_table(op).mode == seq![
            AddrMode::IndirectX, AddrMode::ZeroPage, AddrMode::Immediate, AddrMode::Absolute,
            AddrMode::IndirectY, AddrMode::ZeroPageX, AddrMode::AbsoluteY, AddrMode::AbsoluteX,
        ][((op / 4) % 8) as int],
        op / 32 != 4 ==> opcode_table(op).cycles == seq![6u32, 3, 2, 4, 5, 4, 4, 4][((op / 4) % 8) as int],
        op / 32 != 4 ==> opcode_table(op).page_penalty == ((op / 4) % 8 == 4 || (op / 4) % 8 >= 6),
        op / 32 == 4 ==> opcode_table(op).cycles == seq![6u32, 3, 2, 4, 6, 4, 5, 5][((op / 4) % 8) as int],
        op / 32 == 4 ==> !opcode_table(op).page_penalty,
{
}

} // verus!
