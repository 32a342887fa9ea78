//! Instruction-level semantics of the NMOS 6502, as spec functions over a
//! CPU state and a 64K memory image. These are what the executable CPU is
//! proved against whenever the accesses it makes are plain on its bus;
//! `trace` states the same steps over any bus.

use vstd::prelude::*;
use crate::bus::{mem_at, word_at, wrap16, wrap8, page_wrap_next};
use super::Cpu;
use super::status::{Status, Flag, flag_of, with_flag, with_nz, push_byte, pull_byte};
use super::addressing::{AddrMode, Operand, Resolved};
use super::opcodes::{Mnemonic, opcode_table};

verus! {

/// Two's-complement value of a byte.
pub open spec fn signed8(x: u8) -> int {
    if x < 128 { x as int } else { x as int - 256 }
}

/// The carry flag of `p` as 0 or 1.
pub open spec fn carry_in(p: u8) -> int {
    if flag_of(p, Flag::C) { 1 } else { 0 }
}

/// `c` with a new status byte.
pub open spec fn with_p(c: Cpu, p: u8) -> Cpu {
    Cpu { p: Status(p), ..c }
}

// ---------------------------------------------------------------- ALU

/// Binary ADC: A + M + C. Result and new status byte.
pub open spec fn adc_binary_spec(a: u8, p: u8, v: u8) -> (u8, u8) {
    let sum = a + v + carry_in(p);
    let res = wrap8(sum);
    let overflow = !(-128 <= signed8(a) + signed8(v) + carry_in(p) <= 127);
    (res, with_nz(with_flag(with_flag(p, Flag::V, overflow), Flag::C, sum > 255), res))
}

/// Decimal ADC with NMOS behaviour: V from the intermediate result after
/// the low-nibble fix-up, N and Z from the binary sum.
pub open spec fn adc_bcd_spec(a: u8, p: u8, v: u8) -> (u8, u8) {
    let c = carry_in(p);
    let lo0 = a % 16 + v % 16 + c;
    let lo = if lo0 > 9 { lo0 + 6 } else { lo0 };
    let hi0 = a / 16 + v / 16 + (if lo > 15 { 1int } else { 0int });
    let inter = wrap8(hi0 * 16 + lo % 16);
    let overflow = (a >= 128) == (v >= 128) && (inter >= 128) != (a >= 128);
    let hi = if hi0 > 9 { hi0 + 6 } else { hi0 };
    let res = wrap8(hi * 16 + lo % 16);
    let bin = wrap8(a + v + c);
    let p1 = with_flag(with_flag(p, Flag::V, overflow), Flag::C, hi > 15);
    (res, with_flag(with_flag(p1, Flag::N, bin >= 128), Flag::Z, bin == 0))
}

/// ADC: decimal when D is set, binary otherwise.
pub open spec fn adc_spec(a: u8, p: u8, v: u8) -> (u8, u8) {
    if flag_of(p, Flag::D) { adc_bcd_spec(a, p, v) } else { adc_binary_spec(a, p, v) }
}

/// Binary SBC: A - M - (1 - C).
pub open spec fn sbc_binary_spec(a: u8, p: u8, v: u8) -> (u8, u8) {
    let diff = a - v - (1 - carry_in(p));
    let res = wrap8(diff);
    let overflow = !(-128 <= signed8(a) - signed8(v) - (1 - carry_in(p)) <= 127);
    (res, with_nz(with_flag(with_flag(p, Flag::V, overflow), Flag::C, diff >= 0), res))
}

/// Accumulator after a decimal SBC with borrow-in `1 - c` (NMOS nibble rules).
pub open spec fn sbc_bcd_result(a: u8, v: u8, c: int) -> u8 {
    let lo0 = a % 16 - v % 16 + c - 1;
    let lo = if lo0 < 0 { lo0 + 10 } else { lo0 };
    let borrow = if a % 16 + c - 1 < v % 16 { 1int } else { 0int };
    let hi0 = a / 16 - v / 16 - borrow;
    let hi = if hi0 < 0 { hi0 + 10 } else { hi0 };
    wrap8(hi * 16 + lo % 16)
}

/// Decimal SBC with NMOS behaviour: C, V, N, Z from the binary difference.
pub open spec fn sbc_bcd_spec(a: u8, p: u8, v: u8) -> (u8, u8) {
    let c = carry_in(p);
    let diff = a - v - (1 - c);
    let bin = wrap8(diff);
    let overflow = !(-128 <= signed8(a) - signed8(v) - (1 - c) <= 127);
    let p1 = with_flag(with_flag(p, Flag::V, overflow), Flag::C, diff >= 0);
    (sbc_bcd_result(a, v, c), with_flag(with_flag(p1, Flag::N, bin >= 128), Flag::Z, bin == 0))
}

/// SBC: decimal when D is set, binary otherwise.
pub open spec fn sbc_spec(a: u8, p: u8, v: u8) -> (u8, u8) {
    if flag_of(p, Flag::D) { sbc_bcd_spec(a, p, v) } else { sbc_binary_spec(a, p, v) }
}

/// CMP/CPX/CPY: C = reg >= M, N and Z from reg - M.
pub open spec fn compare_spec(p: u8, reg: u8, v: u8) -> u8 {
    with_nz(with_flag(p, Flag::C, reg >= v), wrap8(reg - v))
}

/// ASL of a byte: result and carry out.
pub open spec fn asl_val(v: u8) -> (u8, bool) {
    (wrap8(v * 2), v >= 128)
}

/// LSR of a byte: result and carry out.
pub open spec fn lsr_val(v: u8) -> (u8, bool) {
    ((v / 2) as u8, v % 2 == 1)
}

/// ROL of a byte through carry `cin` (0 or 1): result and carry out.
pub open spec fn rol_val(v: u8, cin: int) -> (u8, bool) {
    (wrap8(v * 2 + cin), v >= 128)
}

/// ROR of a byte through carry `cin` (0 or 1): result and carry out.
pub open spec fn ror_val(v: u8, cin: int) -> (u8, bool) {
    ((v / 2 + 128 * cin) as u8, v % 2 == 1)
}

/// The shift or rotate named by `mn` applied to `v` under status `p`.
pub open spec fn shift_val(mn: Mnemonic, p: u8, v: u8) -> (u8, bool) {
    match mn {
        Mnemonic::ASL | Mnemonic::SLO => asl_val(v),
        Mnemonic::LSR | Mnemonic::SRE => lsr_val(v),
        Mnemonic::ROL | Mnemonic::RLA => rol_val(v, carry_in(p)),
        _ => ror_val(v, carry_in(p)),
    }
}

// ---------------------------------------------------------------- stack

/// Push a byte: stored at $0100 + SP, then SP decremented.
pub open spec fn push_spec(c: Cpu, m: Seq<u8>, v: u8) -> (Cpu, Seq<u8>) {
    (Cpu { sp: wrap8(c.sp - 1), ..c }, m.update(0x100 + c.sp, v))
}

/// Push a word: high byte first.
pub open spec fn push_word_spec(c: Cpu, m: Seq<u8>, w: u16) -> (Cpu, Seq<u8>) {
    let (c1, m1) = push_spec(c, m, (w / 256) as u8);
    push_spec(c1, m1, (w % 256) as u8)
}

/// Pull a byte: SP incremented, then the byte at $0100 + SP read.
pub open spec fn pull_spec(c: Cpu, m: Seq<u8>) -> (Cpu, u8) {
    let sp = wrap8(c.sp + 1);
    (Cpu { sp, ..c }, m[0x100 + sp])
}

/// Pull a word: low byte first.
pub open spec fn pull_word_spec(c: Cpu, m: Seq<u8>) -> (Cpu, u16) {
    let (c1, lo) = pull_spec(c, m);
    let (c2, hi) = pull_spec(c1, m);
    (c2, (lo + 256 * hi) as u16)
}

// ---------------------------------------------------------------- addressing

/// The effective address of a resolved operand (0 when it has none).
pub open spec fn operand_addr(r: Resolved) -> u16 {
    match r.operand {
        Operand::Address(addr) => addr,
        _ => 0,
    }
}

/// The byte a resolved operand designates (0 when it has no address).
pub open spec fn operand_val(m: Seq<u8>, r: Resolved) -> u8 {
    match r.operand {
        Operand::Address(addr) => mem_at(m, addr),
        _ => 0,
    }
}

/// Whether two addresses lie in different 256-byte pages.
pub open spec fn crosses(a: u16, b: u16) -> bool {
    a / 256 != b / 256
}

/// Zero-page operand indexed by `index` (0 for plain zero page).
pub open spec fn zero_page_spec(c: Cpu, m: Seq<u8>, index: u8) -> (Cpu, Resolved) {
    let addr = wrap8(mem_at(m, c.pc) + index) as u16;
    (Cpu { pc: wrap16(c.pc + 1), ..c }, Resolved { operand: Operand::Address(addr), page_crossed: false })
}

/// Absolute operand indexed by `index` (0 for plain absolute); crossing a
/// page while indexing is reported.
pub open spec fn absolute_spec(c: Cpu, m: Seq<u8>, index: u8) -> (Cpu, Resolved) {
    let base = word_at(m, c.pc, wrap16(c.pc + 1));
    let addr = wrap16(base + index);
    (Cpu { pc: wrap16(c.pc + 2), ..c }, Resolved { operand: Operand::Address(addr), page_crossed: crosses(base, addr) })
}

/// JMP (ind): the pointer's high byte is read with the page-wrap bug.
pub open spec fn indirect_spec(c: Cpu, m: Seq<u8>) -> (Cpu, Resolved) {
    let ptr = word_at(m, c.pc, wrap16(c.pc + 1));
    (Cpu { pc: wrap16(c.pc + 2), ..c }, Resolved { operand: Operand::Address(word_at(m, ptr, page_wrap_next(ptr))), page_crossed: false })
}

/// (zp,X): pointer in zero page at operand + X.
pub open spec fn indirect_x_spec(c: Cpu, m: Seq<u8>) -> (Cpu, Resolved) {
    let ptr = wrap8(mem_at(m, c.pc) + c.x) as u16;
    (Cpu { pc: wrap16(c.pc + 1), ..c }, Resolved { operand: Operand::Address(word_at(m, ptr, page_wrap_next(ptr))), page_crossed: false })
}

/// (zp),Y: pointer in zero page, then indexed by Y.
pub open spec fn indirect_y_spec(c: Cpu, m: Seq<u8>) -> (Cpu, Resolved) {
    let ptr = mem_at(m, c.pc) as u16;
    let base = word_at(m, ptr, page_wrap_next(ptr));
    let addr = wrap16(base + c.y);
    (Cpu { pc: wrap16(c.pc + 1), ..c }, Resolved { operand: Operand::Address(addr), page_crossed: crosses(base, addr) })
}

/// Operand resolution: consumes the operand bytes after the opcode.
pub open spec fn resolve_spec(c: Cpu, m: Seq<u8>, mode: AddrMode) -> (Cpu, Resolved) {
    match mode {
        AddrMode::Implied | AddrMode::Accumulator =>
            (c, Resolved { operand: Operand::Empty, page_crossed: false }),
        AddrMode::Immediate =>
            (Cpu { pc: wrap16(c.pc + 1), ..c }, Resolved { operand: Operand::Address(c.pc), page_crossed: false }),
        AddrMode::ZeroPage => zero_page_spec(c, m, 0),
        AddrMode::ZeroPageX => zero_page_spec(c, m, c.x),
        AddrMode::ZeroPageY => zero_page_spec(c, m, c.y),
        AddrMode::Absolute => absolute_spec(c, m, 0),
        AddrMode::AbsoluteX => absolute_spec(c, m, c.x),
        AddrMode::AbsoluteY => absolute_spec(c, m, c.y),
        AddrMode::Indirect => indirect_spec(c, m),
        AddrMode::IndirectX => indirect_x_spec(c, m),
        AddrMode::IndirectY => indirect_y_spec(c, m),
        AddrMode::Relative =>
            (Cpu { pc: wrap16(c.pc + 1), ..c }, Resolved { operand: Operand::Byte(mem_at(m, c.pc)), page_crossed: false }),
    }
}

// ---------------------------------------------------------------- execution

/// Whether the branch mnemonic `mn` is taken under status `p`.
pub open spec fn branch_taken(mn: Mnemonic, p: u8) -> bool {
    match mn {
        Mnemonic::BCC => !flag_of(p, Flag::C),
        Mnemonic::BCS => flag_of(p, Flag::C),
        Mnemonic::BEQ => flag_of(p, Flag::Z),
        Mnemonic::BNE => !flag_of(p, Flag::Z),
        Mnemonic::BMI => flag_of(p, Flag::N),
        Mnemonic::BPL => !flag_of(p, Flag::N),
        Mnemonic::BVC => !flag_of(p, Flag::V),
        _ => flag_of(p, Flag::V),
    }
}

/// Branch: a taken branch adds the signed offset to PC and costs one extra
/// cycle, two when the target is on another page.
pub open spec fn branch_spec(c: Cpu, taken: bool, r: Resolved) -> (Cpu, u32) {
    if !taken {
        (c, 0)
    } else {
        match r.operand {
            Operand::Byte(b) => {
                let target = wrap16(c.pc + signed8(b));
                (Cpu { pc: target, ..c }, if crosses(c.pc, target) { 2 } else { 1 })
            },
            _ => (c, 0),
        }
    }
}

/// Result of a read-modify-write shift/rotate (`mn` is ASL, LSR, ROL or ROR).
pub open spec fn shift_spec(c: Cpu, m: Seq<u8>, mn: Mnemonic, mode: AddrMode, r: Resolved) -> (Cpu, Seq<u8>) {
    if mode == AddrMode::Accumulator {
        let (res, carry) = shift_val(mn, c.p.0, c.a);
        (Cpu { a: res, p: Status(with_nz(with_flag(c.p.0, Flag::C, carry), res)), ..c }, m)
    } else {
        let addr = operand_addr(r);
        let (res, carry) = shift_val(mn, c.p.0, mem_at(m, addr));
        (with_p(c, with_nz(with_flag(c.p.0, Flag::C, carry), res)), m.update(addr as int, res))
    }
}

/// Combined undocumented read-modify-write instructions: SLO (ASL then
/// ORA), RLA (ROL then AND), SRE (LSR then EOR), RRA (ROR then ADC).
pub open spec fn combined_spec(c: Cpu, m: Seq<u8>, mn: Mnemonic, r: Resolved) -> (Cpu, Seq<u8>) {
    let addr = operand_addr(r);
    let v = mem_at(m, addr);
    (combined_on(c, mn, v), m.update(addr as int, shift_val(mn, c.p.0, v).0))
}

/// The CPU after a combined read-modify-write instruction whose operand
/// byte was `v`.
pub open spec fn combined_on(c: Cpu, mn: Mnemonic, v: u8) -> Cpu {
    let (res, carry) = shift_val(mn, c.p.0, v);
    let p1 = with_flag(c.p.0, Flag::C, carry);
    match mn {
        Mnemonic::SLO => Cpu { a: c.a | res, p: Status(with_nz(p1, c.a | res)), ..c },
        Mnemonic::RLA => Cpu { a: c.a & res, p: Status(with_nz(p1, c.a & res)), ..c },
        Mnemonic::SRE => Cpu { a: c.a ^ res, p: Status(with_nz(p1, c.a ^ res)), ..c },
        _ => {
            let (a2, p2) = adc_spec(c.a, p1, res);
            Cpu { a: a2, p: Status(p2), ..c }
        },
    }
}

/// The CPU after a shift or rotate of a memory byte `v`.
pub open spec fn shift_mem_on(c: Cpu, mn: Mnemonic, v: u8) -> Cpu {
    let (res, carry) = shift_val(mn, c.p.0, v);
    with_p(c, with_nz(with_flag(c.p.0, Flag::C, carry), res))
}

/// The CPU after a load of `v` (LDA, LDX, LDY, LAX).
pub open spec fn load_on(c: Cpu, mn: Mnemonic, v: u8) -> Cpu {
    match mn {
        Mnemonic::LDA => Cpu { a: v, p: Status(with_nz(c.p.0, v)), ..c },
        Mnemonic::LDX => Cpu { x: v, p: Status(with_nz(c.p.0, v)), ..c },
        Mnemonic::LDY => Cpu { y: v, p: Status(with_nz(c.p.0, v)), ..c },
        _ => Cpu { a: v, x: v, p: Status(with_nz(c.p.0, v)), ..c },
    }
}

/// The byte a store (STA, STX, STY, SAX) writes.
pub open spec fn store_val(c: Cpu, mn: Mnemonic) -> u8 {
    match mn {
        Mnemonic::STA => c.a,
        Mnemonic::STX => c.x,
        Mnemonic::STY => c.y,
        _ => c.a & c.x,
    }
}

/// Whether `mn` is a load (as opposed to a store).
pub open spec fn is_load(mn: Mnemonic) -> bool {
    mn == Mnemonic::LDA || mn == Mnemonic::LDX || mn == Mnemonic::LDY || mn == Mnemonic::LAX
}

/// The byte an increment or decrement of memory writes back.
pub open spec fn incdec_res(mn: Mnemonic, v: u8) -> u8 {
    if mn == Mnemonic::INC || mn == Mnemonic::ISC { wrap8(v + 1) } else { wrap8(v - 1) }
}

/// The CPU after a memory increment or decrement of the byte `v`.
pub open spec fn incdec_on(c: Cpu, mn: Mnemonic, v: u8) -> Cpu {
    let p = c.p.0;
    let w = incdec_res(mn, v);
    match mn {
        Mnemonic::INC | Mnemonic::DEC => with_p(c, with_nz(p, w)),
        Mnemonic::DCP => with_p(c, compare_spec(p, c.a, w)),
        _ => {
            let (a, p2) = sbc_spec(c.a, p, w);
            Cpu { a, p: Status(p2), ..c }
        },
    }
}

/// Load/store instructions and their undocumented relatives LAX and SAX.
pub open spec fn load_store_spec(c: Cpu, m: Seq<u8>, mn: Mnemonic, r: Resolved) -> (Cpu, Seq<u8>) {
    let v = operand_val(m, r);
    let addr = operand_addr(r) as int;
    match mn {
        Mnemonic::LDA => (Cpu { a: v, p: Status(with_nz(c.p.0, v)), ..c }, m),
        Mnemonic::LDX => (Cpu { x: v, p: Status(with_nz(c.p.0, v)), ..c }, m),
        Mnemonic::LDY => (Cpu { y: v, p: Status(with_nz(c.p.0, v)), ..c }, m),
        Mnemonic::LAX => (Cpu { a: v, x: v, p: Status(with_nz(c.p.0, v)), ..c }, m),
        Mnemonic::STA => (c, m.update(addr, c.a)),
        Mnemonic::STX => (c, m.update(addr, c.x)),
        Mnemonic::STY => (c, m.update(addr, c.y)),
        _ => (c, m.update(addr, c.a & c.x)),
    }
}

/// Arithmetic, logic and compare instructions reading one operand byte.
pub open spec fn alu_spec(c: Cpu, m: Seq<u8>, mn: Mnemonic, r: Resolved) -> Cpu {
    alu_on(c, mn, operand_val(m, r))
}

/// The CPU after an arithmetic, logic or compare instruction on `v`.
pub open spec fn alu_on(c: Cpu, mn: Mnemonic, v: u8) -> Cpu {
    let p = c.p.0;
    match mn {
        Mnemonic::ADC => { let (a, p2) = adc_spec(c.a, p, v); Cpu { a, p: Status(p2), ..c } },
        Mnemonic::SBC => { let (a, p2) = sbc_spec(c.a, p, v); Cpu { a, p: Status(p2), ..c } },
        Mnemonic::CMP => with_p(c, compare_spec(p, c.a, v)),
        Mnemonic::CPX => with_p(c, compare_spec(p, c.x, v)),
        Mnemonic::CPY => with_p(c, compare_spec(p, c.y, v)),
        Mnemonic::AND => Cpu { a: c.a & v, p: Status(with_nz(p, c.a & v)), ..c },
        Mnemonic::ORA => Cpu { a: c.a | v, p: Status(with_nz(p, c.a | v)), ..c },
        Mnemonic::EOR => Cpu { a: c.a ^ v, p: Status(with_nz(p, c.a ^ v)), ..c },
        _ => with_p(c, with_flag(with_flag(with_flag(p, Flag::Z, c.a & v == 0), Flag::N, v >= 128), Flag::V, v & 0x40 != 0)),
    }
}

/// Memory increments and decrements, with DCP (DEC then CMP) and ISC (INC then SBC).
pub open spec fn incdec_mem_spec(c: Cpu, m: Seq<u8>, mn: Mnemonic, r: Resolved) -> (Cpu, Seq<u8>) {
    let addr = operand_addr(r);
    let v = mem_at(m, addr);
    let p = c.p.0;
    match mn {
        Mnemonic::INC => (with_p(c, with_nz(p, wrap8(v + 1))), m.update(addr as int, wrap8(v + 1))),
        Mnemonic::DEC => (with_p(c, with_nz(p, wrap8(v - 1))), m.update(addr as int, wrap8(v - 1))),
        Mnemonic::DCP => (with_p(c, compare_spec(p, c.a, wrap8(v - 1))), m.update(addr as int, wrap8(v - 1))),
        _ => {
            let (a, p2) = sbc_spec(c.a, p, wrap8(v + 1));
            (Cpu { a, p: Status(p2), ..c }, m.update(addr as int, wrap8(v + 1)))
        },
    }
}

/// Register increments and decrements.
pub open spec fn incdec_reg_spec(c: Cpu, mn: Mnemonic) -> Cpu {
    let p = c.p.0;
    match mn {
        Mnemonic::INX => Cpu { x: wrap8(c.x + 1), p: Status(with_nz(p, wrap8(c.x + 1))), ..c },
        Mnemonic::DEX => Cpu { x: wrap8(c.x - 1), p: Status(with_nz(p, wrap8(c.x - 1))), ..c },
        Mnemonic::INY => Cpu { y: wrap8(c.y + 1), p: Status(with_nz(p, wrap8(c.y + 1))), ..c },
        _ => Cpu { y: wrap8(c.y - 1), p: Status(with_nz(p, wrap8(c.y - 1))), ..c },
    }
}

/// Register transfers, flag instructions and no-ops.
pub open spec fn register_spec(c: Cpu, mn: Mnemonic) -> Cpu {
    let p = c.p.0;
    match mn {
        Mnemonic::TAX => Cpu { x: c.a, p: Status(with_nz(p, c.a)), ..c },
        Mnemonic::TAY => Cpu { y: c.a, p: Status(with_nz(p, c.a)), ..c },
        Mnemonic::TXA => Cpu { a: c.x, p: Status(with_nz(p, c.x)), ..c },
        Mnemonic::TYA => Cpu { a: c.y, p: Status(with_nz(p, c.y)), ..c },
        Mnemonic::TSX => Cpu { x: c.sp, p: Status(with_nz(p, c.sp)), ..c },
        Mnemonic::TXS => Cpu { sp: c.x, ..c },
        Mnemonic::CLC => with_p(c, with_flag(p, Flag::C, false)),
        Mnemonic::SEC => with_p(c, with_flag(p, Flag::C, true)),
        Mnemonic::CLD => with_p(c, with_flag(p, Flag::D, false)),
        Mnemonic::SED => with_p(c, with_flag(p, Flag::D, true)),
        Mnemonic::CLI => with_p(c, with_flag(p, Flag::I, false)),
        Mnemonic::SEI => with_p(c, with_flag(p, Flag::I, true)),
        Mnemonic::CLV => with_p(c, with_flag(p, Flag::V, false)),
        _ => c,
    }
}

/// Stack, jump, call, return and BRK instructions.
pub open spec fn control_spec(c: Cpu, m: Seq<u8>, mn: Mnemonic, r: Resolved) -> (Cpu, Seq<u8>) {
    match mn {
        Mnemonic::PHA => push_spec(c, m, c.a),
        Mnemonic::PHP => push_spec(c, m, push_byte(c.p.0, true)),
        Mnemonic::PLA => {
            let (c1, v) = pull_spec(c, m);
            (Cpu { a: v, p: Status(with_nz(c1.p.0, v)), ..c1 }, m)
        },
        Mnemonic::PLP => {
            let (c1, v) = pull_spec(c, m);
            (with_p(c1, pull_byte(v)), m)
        },
        Mnemonic::JMP => (Cpu { pc: operand_addr(r), ..c }, m),
        Mnemonic::JSR => {
            let (c1, m1) = push_word_spec(c, m, wrap16(c.pc - 1));
            (Cpu { pc: operand_addr(r), ..c1 }, m1)
        },
        Mnemonic::RTS => {
            let (c1, w) = pull_word_spec(c, m);
            (Cpu { pc: wrap16(w + 1), ..c1 }, m)
        },
        Mnemonic::RTI => {
            let (c1, v) = pull_spec(c, m);
            let (c2, w) = pull_word_spec(with_p(c1, pull_byte(v)), m);
            (Cpu { pc: w, ..c2 }, m)
        },
        _ => {
            let (c1, m1) = push_word_spec(c, m, wrap16(c.pc + 1));
            let (c2, m2) = push_spec(c1, m1, push_byte(c1.p.0, true));
            let c3 = with_p(c2, with_flag(c2.p.0, Flag::I, true));
            (Cpu { pc: word_at(m2, 0xFFFE, 0xFFFF), ..c3 }, m2)
        },
    }
}

/// Effect of executing mnemonic `mn` with resolved operand `r`: the new CPU
/// state, the new memory and the extra cycles beyond the table's count.
pub open spec fn execute_spec(c: Cpu, m: Seq<u8>, mn: Mnemonic, mode: AddrMode, r: Resolved) -> (Cpu, Seq<u8>, u32) {
    match mn {
        Mnemonic::LDA | Mnemonic::LDX | Mnemonic::LDY | Mnemonic::LAX
        | Mnemonic::STA | Mnemonic::STX | Mnemonic::STY | Mnemonic::SAX => {
            let (c1, m1) = load_store_spec(c, m, mn, r);
            (c1, m1, 0)
        },
        Mnemonic::ADC | Mnemonic::SBC | Mnemonic::CMP | Mnemonic::CPX | Mnemonic::CPY
        | Mnemonic::AND | Mnemonic::ORA | Mnemonic::EOR | Mnemonic::BIT =>
            (alu_spec(c, m, mn, r), m, 0),
        Mnemonic::ASL | Mnemonic::LSR | Mnemonic::ROL | Mnemonic::ROR => {
            let (c1, m1) = shift_spec(c, m, mn, mode, r);
            (c1, m1, 0)
        },
        Mnemonic::SLO | Mnemonic::RLA | Mnemonic::SRE | Mnemonic::RRA => {
            let (c1, m1) = combined_spec(c, m, mn, r);
            (c1, m1, 0)
        },
        Mnemonic::INC | Mnemonic::DEC | Mnemonic::DCP | Mnemonic::ISC => {
            let (c1, m1) = incdec_mem_spec(c, m, mn, r);
            (c1, m1, 0)
        },
        Mnemonic::INX | Mnemonic::DEX | Mnemonic::INY | Mnemonic::DEY => (incdec_reg_spec(c, mn), m, 0),
        Mnemonic::BCC | Mnemonic::BCS | Mnemonic::BEQ | Mnemonic::BNE
        | Mnemonic::BMI | Mnemonic::BPL | Mnemonic::BVC | Mnemonic::BVS => {
            let (c1, x) = branch_spec(c, branch_taken(mn, c.p.0), r);
            (c1, m, x)
        },
        Mnemonic::PHA | Mnemonic::PHP | Mnemonic::PLA | Mnemonic::PLP | Mnemonic::JMP
        | Mnemonic::JSR | Mnemonic::RTS | Mnemonic::RTI | Mnemonic::BRK => {
            let (c1, m1) = control_spec(c, m, mn, r);
            (c1, m1, 0)
        },
        _ => (register_spec(c, mn), m, 0),
    }
}

/// Interrupt entry: push PC and status (B clear), set I, jump through `vector`.
pub open spec fn interrupt_spec(c: Cpu, m: Seq<u8>, vector: u16) -> (Cpu, Seq<u8>, u32) {
    let (c1, m1) = push_word_spec(c, m, c.pc);
    let (c2, m2) = push_spec(c1, m1, push_byte(c1.p.0, false));
    let c3 = with_p(c2, with_flag(c2.p.0, Flag::I, true));
    (Cpu { pc: word_at(m2, vector, wrap16(vector + 1)), cycles: (c3.cycles + 7) as u64, ..c3 }, m2, 7)
}

/// One step of the CPU: a pending NMI, else an IRQ when I is clear, else
/// the instruction at PC. Returns the new state, the new memory and the
/// cycles consumed (which are also added to the cycle counter).
#[verifier::opaque]
pub open spec fn step_spec(c: Cpu, m: Seq<u8>) -> (Cpu, Seq<u8>, u32) {
    if c.nmi_pending {
        interrupt_spec(Cpu { nmi_pending: false, ..c }, m, 0xFFFA)
    } else if c.irq_pending && !flag_of(c.p.0, Flag::I) {
        interrupt_spec(c, m, 0xFFFE)
    } else {
        let info = opcode_table(mem_at(m, c.pc));
        let (c2, r) = resolve_spec(Cpu { pc: wrap16(c.pc + 1), ..c }, m, info.mode);
        let base = info.cycles + (if info.page_penalty && r.page_crossed { 1u32 } else { 0u32 });
        let (c3, m3, extra) = execute_spec(c2, m, info.mnemonic, info.mode, r);
        let total = base + extra;
        (Cpu { cycles: (c3.cycles + total) as u64, ..c3 }, m3, total as u32)
    }
}

} // verus!
