//! Instruction semantics over any bus: each step of the CPU as a chain of
//! bus states linked by the bus's own read, write and cycle relations, in
//! the order the CPU makes its accesses. On a bus with side effects (soft
//! switches, latches, device registers) these relations say what every
//! access does, and the CPU's registers follow from the values read.

use vstd::prelude::*;
use crate::bus::{Bus, word_rel, wrap16, wrap8, page_wrap_next};
use super::Cpu;
use super::status::{Status, Flag, flag_of, with_flag, with_nz, push_byte, pull_byte};
use super::addressing::{AddrMode, Operand, Resolved};
use super::opcodes::{Mnemonic, opcode_table};
use super::semantics::{
    operand_addr, crosses, shift_val, load_on, store_val, is_load, alu_on, combined_on, shift_mem_on,
    incdec_res, incdec_on, incdec_reg_spec, register_spec, branch_spec, branch_taken, with_p,
};

verus! {

/// Opcode or operand fetch: a read at PC, which then advances.
pub open spec fn fetch_rel<B: Bus>(c: Cpu, b: B, c2: Cpu, b2: B, v: u8) -> bool {
    b.read_rel(b2, c.pc, v) && c2 == Cpu { pc: wrap16(c.pc + 1), ..c }
}

/// Two operand bytes fetched at PC, forming the word `w`.
pub open spec fn fetch_word_rel<B: Bus>(c: Cpu, b: B, c2: Cpu, b2: B, w: u16) -> bool {
    word_rel(b, b2, c.pc, wrap16(c.pc + 1), w) && c2 == Cpu { pc: wrap16(c.pc + 2), ..c }
}

/// A push: `v` written at $0100 + SP, then SP decremented.
pub open spec fn push_rel<B: Bus>(c: Cpu, b: B, c2: Cpu, b2: B, v: u8) -> bool {
    b.write_rel(b2, (0x100 + c.sp) as u16, v) && c2 == Cpu { sp: wrap8(c.sp - 1), ..c }
}

/// A word pushed, high byte first.
pub open spec fn push_word_rel<B: Bus>(c: Cpu, b: B, c2: Cpu, b2: B, w: u16) -> bool {
    exists|c1: Cpu, b1: B|
        #![trigger push_rel(c, b, c1, b1, (w / 256) as u8)]
        push_rel(c, b, c1, b1, (w / 256) as u8) && push_rel(c1, b1, c2, b2, (w % 256) as u8)
}

/// A pull: SP incremented, then the byte at $0100 + SP read.
pub open spec fn pull_rel<B: Bus>(c: Cpu, b: B, c2: Cpu, b2: B, v: u8) -> bool {
    let sp = wrap8(c.sp + 1);
    b.read_rel(b2, (0x100 + sp) as u16, v) && c2 == Cpu { sp, ..c }
}

/// A word pulled, low byte first.
pub open spec fn pull_word_rel<B: Bus>(c: Cpu, b: B, c2: Cpu, b2: B, w: u16) -> bool {
    exists|c1: Cpu, b1: B, lo: u8, hi: u8|
        #![trigger pull_rel(c, b, c1, b1, lo), pull_rel(c1, b1, c2, b2, hi)]
        pull_rel(c, b, c1, b1, lo) && pull_rel(c1, b1, c2, b2, hi) && w == lo + 256 * hi
}

/// Operand resolution in `mode`, with its reads.
pub open spec fn resolve_rel<B: Bus>(c: Cpu, b: B, mode: AddrMode, c2: Cpu, b2: B, r: Resolved) -> bool {
    match mode {
        AddrMode::Implied | AddrMode::Accumulator =>
            c2 == c && b2 == b && r == Resolved { operand: Operand::Empty, page_crossed: false },
        AddrMode::Immediate =>
            c2 == Cpu { pc: wrap16(c.pc + 1), ..c } && b2 == b
                && r == Resolved { operand: Operand::Address(c.pc), page_crossed: false },
        AddrMode::ZeroPage | AddrMode::ZeroPageX | AddrMode::ZeroPageY => {
            let index = if mode == AddrMode::ZeroPageX { c.x } else if mode == AddrMode::ZeroPageY { c.y } else { 0u8 };
            exists|v: u8| #![trigger fetch_rel(c, b, c2, b2, v)]
                fetch_rel(c, b, c2, b2, v)
                    && r == Resolved { operand: Operand::Address(wrap8(v + index) as u16), page_crossed: false }
        },
        AddrMode::Absolute | AddrMode::AbsoluteX | AddrMode::AbsoluteY => {
            let index = if mode == AddrMode::AbsoluteX { c.x } else if mode == AddrMode::AbsoluteY { c.y } else { 0u8 };
            exists|base: u16| #![trigger fetch_word_rel(c, b, c2, b2, base)]
                fetch_word_rel(c, b, c2, b2, base) && r == Resolved {
                    operand: Operand::Address(wrap16(base + index)),
                    page_crossed: crosses(base, wrap16(base + index)),
                }
        },
        AddrMode::Indirect =>
            exists|b1: B, ptr: u16, a: u16|
                #![trigger fetch_word_rel(c, b, c2, b1, ptr), word_rel(b1, b2, ptr, page_wrap_next(ptr), a)]
                fetch_word_rel(c, b, c2, b1, ptr) && word_rel(b1, b2, ptr, page_wrap_next(ptr), a)
                    && r == Resolved { operand: Operand::Address(a), page_crossed: false },
        AddrMode::IndirectX =>
            exists|b1: B, v: u8, a: u16|
                #![trigger fetch_rel(c, b, c2, b1, v), word_rel(b1, b2, wrap8(v + c.x) as u16, page_wrap_next(wrap8(v + c.x) as u16), a)]
                fetch_rel(c, b, c2, b1, v)
                    && word_rel(b1, b2, wrap8(v + c.x) as u16, page_wrap_next(wrap8(v + c.x) as u16), a)
                    && r == Resolved { operand: Operand::Address(a), page_crossed: false },
        AddrMode::IndirectY =>
            exists|b1: B, v: u8, base: u16|
                #![trigger fetch_rel(c, b, c2, b1, v), word_rel(b1, b2, v as u16, page_wrap_next(v as u16), base)]
                fetch_rel(c, b, c2, b1, v) && word_rel(b1, b2, v as u16, page_wrap_next(v as u16), base)
                    && r == Resolved {
                        operand: Operand::Address(wrap16(base + c.y)),
                        page_crossed: crosses(base, wrap16(base + c.y)),
                    },
        AddrMode::Relative =>
            exists|v: u8| #![trigger fetch_rel(c, b, c2, b2, v)]
                fetch_rel(c, b, c2, b2, v) && r == Resolved { operand: Operand::Byte(v), page_crossed: false },
    }
}

/// The read of a resolved operand: made only when it has an address; 0
/// otherwise.
pub open spec fn operand_rel<B: Bus>(b: B, b2: B, r: Resolved, v: u8) -> bool {
    match r.operand {
        Operand::Address(a) => b.read_rel(b2, a, v),
        _ => b2 == b && v == 0,
    }
}

/// A read-modify-write of the byte at `addr`: read `v`, write `res(v)`.
pub open spec fn rmw_rel<B: Bus>(b: B, b2: B, addr: u16, v: u8, w: u8) -> bool {
    exists|b1: B| #![trigger b.read_rel(b1, addr, v)]
        b.read_rel(b1, addr, v) && b1.write_rel(b2, addr, w)
}

/// Stack, jump, call, return and BRK instructions, with their accesses.
pub open spec fn control_rel<B: Bus>(c: Cpu, b: B, mn: Mnemonic, r: Resolved, c2: Cpu, b2: B) -> bool {
    match mn {
        Mnemonic::PHA => push_rel(c, b, c2, b2, c.a),
        Mnemonic::PHP => push_rel(c, b, c2, b2, push_byte(c.p.0, true)),
        Mnemonic::PLA => exists|c1: Cpu, v: u8| #![trigger pull_rel(c, b, c1, b2, v)]
            pull_rel(c, b, c1, b2, v) && c2 == Cpu { a: v, p: Status(with_nz(c1.p.0, v)), ..c1 },
        Mnemonic::PLP => exists|c1: Cpu, v: u8| #![trigger pull_rel(c, b, c1, b2, v)]
            pull_rel(c, b, c1, b2, v) && c2 == with_p(c1, pull_byte(v)),
        Mnemonic::JMP => b2 == b && c2 == Cpu { pc: operand_addr(r), ..c },
        Mnemonic::JSR => exists|c1: Cpu| #![trigger push_word_rel(c, b, c1, b2, wrap16(c.pc - 1))]
            push_word_rel(c, b, c1, b2, wrap16(c.pc - 1)) && c2 == Cpu { pc: operand_addr(r), ..c1 },
        Mnemonic::RTS => exists|c1: Cpu, w: u16| #![trigger pull_word_rel(c, b, c1, b2, w)]
            pull_word_rel(c, b, c1, b2, w) && c2 == Cpu { pc: wrap16(w + 1), ..c1 },
        Mnemonic::RTI => exists|c1: Cpu, b1: B, v: u8, c3: Cpu, w: u16|
            #![trigger pull_rel(c, b, c1, b1, v), pull_word_rel(with_p(c1, pull_byte(v)), b1, c3, b2, w)]
            pull_rel(c, b, c1, b1, v) && pull_word_rel(with_p(c1, pull_byte(v)), b1, c3, b2, w)
                && c2 == Cpu { pc: w, ..c3 },
        _ => exists|c1: Cpu, b1: B, c3: Cpu, b3: B, w: u16|
            #![trigger push_word_rel(c, b, c1, b1, wrap16(c.pc + 1)), push_rel(c1, b1, c3, b3, push_byte(c1.p.0, true)), word_rel(b3, b2, 0xFFFE, 0xFFFF, w)]
            push_word_rel(c, b, c1, b1, wrap16(c.pc + 1)) && push_rel(c1, b1, c3, b3, push_byte(c1.p.0, true))
                && word_rel(b3, b2, 0xFFFE, 0xFFFF, w)
                && c2 == Cpu { pc: w, p: Status(with_flag(c3.p.0, Flag::I, true)), ..c3 },
    }
}

/// Executing `mn` on the resolved operand `r`: the accesses, the new CPU
/// state and the extra cycles beyond the table's count.
pub open spec fn execute_rel<B: Bus>(
    c: Cpu,
    b: B,
    mn: Mnemonic,
    mode: AddrMode,
    r: Resolved,
    c2: Cpu,
    b2: B,
    x: u32,
) -> bool {
    match mn {
        Mnemonic::LDA | Mnemonic::LDX | Mnemonic::LDY | Mnemonic::LAX =>
            x == 0 && exists|v: u8| #![trigger operand_rel(b, b2, r, v)]
                operand_rel(b, b2, r, v) && c2 == load_on(c, mn, v),
        Mnemonic::STA | Mnemonic::STX | Mnemonic::STY | Mnemonic::SAX =>
            x == 0 && c2 == c && b.write_rel(b2, operand_addr(r), store_val(c, mn)),
        Mnemonic::ADC | Mnemonic::SBC | Mnemonic::CMP | Mnemonic::CPX | Mnemonic::CPY
        | Mnemonic::AND | Mnemonic::ORA | Mnemonic::EOR | Mnemonic::BIT =>
            x == 0 && exists|v: u8| #![trigger operand_rel(b, b2, r, v)]
                operand_rel(b, b2, r, v) && c2 == alu_on(c, mn, v),
        Mnemonic::ASL | Mnemonic::LSR | Mnemonic::ROL | Mnemonic::ROR =>
            x == 0 && if mode == AddrMode::Accumulator {
                let (res, carry) = shift_val(mn, c.p.0, c.a);
                b2 == b && c2 == Cpu { a: res, p: Status(with_nz(with_flag(c.p.0, Flag::C, carry), res)), ..c }
            } else {
                exists|v: u8| #![trigger rmw_rel(b, b2, operand_addr(r), v, shift_val(mn, c.p.0, v).0)]
                    rmw_rel(b, b2, operand_addr(r), v, shift_val(mn, c.p.0, v).0) && c2 == shift_mem_on(c, mn, v)
            },
        Mnemonic::SLO | Mnemonic::RLA | Mnemonic::SRE | Mnemonic::RRA =>
            x == 0 && exists|v: u8| #![trigger rmw_rel(b, b2, operand_addr(r), v, shift_val(mn, c.p.0, v).0)]
                rmw_rel(b, b2, operand_addr(r), v, shift_val(mn, c.p.0, v).0) && c2 == combined_on(c, mn, v),
        Mnemonic::INC | Mnemonic::DEC | Mnemonic::DCP | Mnemonic::ISC =>
            x == 0 && exists|v: u8| #![trigger rmw_rel(b, b2, operand_addr(r), v, incdec_res(mn, v))]
                rmw_rel(b, b2, operand_addr(r), v, incdec_res(mn, v)) && c2 == incdec_on(c, mn, v),
        Mnemonic::INX | Mnemonic::DEX | Mnemonic::INY | Mnemonic::DEY =>
            x == 0 && b2 == b && c2 == incdec_reg_spec(c, mn),
        Mnemonic::BCC | Mnemonic::BCS | Mnemonic::BEQ | Mnemonic::BNE
        | Mnemonic::BMI | Mnemonic::BPL | Mnemonic::BVC | Mnemonic::BVS =>
            b2 == b && (c2, x) == branch_spec(c, branch_taken(mn, c.p.0), r),
        Mnemonic::PHA | Mnemonic::PHP | Mnemonic::PLA | Mnemonic::PLP | Mnemonic::JMP
        | Mnemonic::JSR | Mnemonic::RTS | Mnemonic::RTI | Mnemonic::BRK =>
            x == 0 && control_rel(c, b, mn, r, c2, b2),
        _ => x == 0 && b2 == b && c2 == register_spec(c, mn),
    }
}

/// Interrupt entry: PC and status (B clear) pushed, I set, PC loaded from
/// `vector`; 7 cycles.
pub open spec fn interrupt_rel<B: Bus>(c: Cpu, b: B, vector: u16, c2: Cpu, b2: B) -> bool {
    exists|c1: Cpu, b1: B, c3: Cpu, b3: B, w: u16|
        #![trigger push_word_rel(c, b, c1, b1, c.pc), push_rel(c1, b1, c3, b3, push_byte(c1.p.0, false)), word_rel(b3, b2, vector, wrap16(vector + 1), w)]
        push_word_rel(c, b, c1, b1, c.pc) && push_rel(c1, b1, c3, b3, push_byte(c1.p.0, false))
            && word_rel(b3, b2, vector, wrap16(vector + 1), w)
            && c2 == Cpu { pc: w, p: Status(with_flag(c3.p.0, Flag::I, true)), cycles: (c3.cycles + 7) as u64, ..c3 }
}

/// An instruction fetched at PC from bus `b`: opcode fetch, operand
/// resolution and execution, `n` cycles in all, added to the counter.
pub open spec fn instruction_rel<B: Bus>(c: Cpu, b: B, c2: Cpu, b2: B, n: u32) -> bool {
    exists|c1: Cpu, b1: B, op: u8, c3: Cpu, b3: B, r: Resolved, c4: Cpu, x: u32|
        #![trigger fetch_rel(c, b, c1, b1, op), resolve_rel(c1, b1, opcode_table(op).mode, c3, b3, r), execute_rel(c3, b3, opcode_table(op).mnemonic, opcode_table(op).mode, r, c4, b2, x)]
        fetch_rel(c, b, c1, b1, op) && resolve_rel(c1, b1, opcode_table(op).mode, c3, b3, r)
            && execute_rel(c3, b3, opcode_table(op).mnemonic, opcode_table(op).mode, r, c4, b2, x)
            && n == opcode_table(op).cycles + (if opcode_table(op).page_penalty && r.page_crossed { 1u32 } else { 0u32 }) + x
            && c2 == Cpu { cycles: (c4.cycles + n) as u64, ..c4 }
}

/// One step of the CPU from `c` on bus `b` to `c2` on `b2` in `n` cycles:
/// the bus is told the cycle count, then a pending NMI, else an IRQ when I
/// is clear, else the instruction at PC.
#[verifier::opaque]
pub open spec fn step_rel<B: Bus>(c: Cpu, b: B, c2: Cpu, b2: B, n: u32) -> bool {
    exists|b0: B| #![trigger b.cycle_rel(b0, c.cycles)]
        b.cycle_rel(b0, c.cycles) && if c.nmi_pending {
            n == 7 && interrupt_rel(Cpu { nmi_pending: false, ..c }, b0, 0xFFFA, c2, b2)
        } else if c.irq_pending && !flag_of(c.p.0, Flag::I) {
            n == 7 && interrupt_rel(c, b0, 0xFFFE, c2, b2)
        } else {
            instruction_rel(c, b0, c2, b2, n)
        }
}

/// `k` steps lead from `c` on `b` to `c2` on `b2`, each starting below
/// `limit` cycles and, when `stop` is given, away from that PC.
#[verifier::opaque]
pub open spec fn steps_rel<B: Bus>(c: Cpu, b: B, k: nat, limit: int, stop: Option<u16>, c2: Cpu, b2: B) -> bool
    decreases k,
{
    if k == 0 {
        c2 == c && b2 == b
    } else {
        exists|c1: Cpu, b1: B, n: u32|
            #![trigger step_rel(c1, b1, c2, b2, n)]
            steps_rel(c, b, (k - 1) as nat, limit, stop, c1, b1) && c1.cycles < limit
                && (stop matches Some(s) ==> c1.pc != s) && step_rel(c1, b1, c2, b2, n)
    }
}

/// No step leads from a state to itself.
pub proof fn lemma_steps_zero<B: Bus>(c: Cpu, b: B, limit: int, stop: Option<u16>)
    ensures
        steps_rel(c, b, 0, limit, stop, c, b),
{
    reveal(steps_rel);
}

/// A run of `k - 1` steps extends to `k` by one more step that starts
/// below the limit and away from the stop PC.
pub proof fn lemma_steps_extend<B: Bus>(
    c: Cpu,
    b: B,
    k: nat,
    limit: int,
    stop: Option<u16>,
    c1: Cpu,
    b1: B,
    c2: Cpu,
    b2: B,
    n: u32,
)
    requires
        k >= 1,
        steps_rel(c, b, (k - 1) as nat, limit, stop, c1, b1),
        c1.cycles < limit,
        stop matches Some(s) ==> c1.pc != s,
        step_rel(c1, b1, c2, b2, n),
    ensures
        steps_rel(c, b, k, limit, stop, c2, b2),
{
    reveal(steps_rel);
}

} // verus!
