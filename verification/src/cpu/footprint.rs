//! The bus accesses of an instruction: predicates saying that every address
//! it reads lies in a set `rd` and every address it writes in a set `wr`.
//! Over a bus whose accesses at those addresses are plain, the CPU follows
//! the semantics of `semantics` exactly.

use vstd::prelude::*;
use crate::bus::{mem_at, word_at, wrap16, wrap8, page_wrap_next};
use super::Cpu;
use super::status::{Flag, flag_of};
use super::addressing::{AddrMode, Resolved};
use super::opcodes::{Mnemonic, opcode_table};
use super::semantics::{operand_addr, resolve_spec};

verus! {

/// Address of stack slot `sp` in page one.
pub open spec fn stack_addr(sp: u8) -> u16 {
    (0x100 + sp) as u16
}

/// Zero-page operand: one operand byte at PC.
pub open spec fn zero_page_fits(rd: Set<u16>, c: Cpu) -> bool {
    rd.contains(c.pc)
}

/// Absolute operand: two operand bytes at PC.
pub open spec fn absolute_fits(rd: Set<u16>, c: Cpu) -> bool {
    rd.contains(c.pc) && rd.contains(wrap16(c.pc + 1))
}

/// JMP (ind): two operand bytes, then the two pointer bytes.
pub open spec fn indirect_fits(rd: Set<u16>, c: Cpu, m: Seq<u8>) -> bool {
    let ptr = word_at(m, c.pc, wrap16(c.pc + 1));
    absolute_fits(rd, c) && rd.contains(ptr) && rd.contains(page_wrap_next(ptr))
}

/// (zp,X): one operand byte, then the two pointer bytes at operand + X.
pub open spec fn indirect_x_fits(rd: Set<u16>, c: Cpu, m: Seq<u8>) -> bool {
    let ptr = wrap8(mem_at(m, c.pc) + c.x) as u16;
    rd.contains(c.pc) && rd.contains(ptr) && rd.contains(page_wrap_next(ptr))
}

/// (zp),Y: one operand byte, then the two pointer bytes at the operand.
pub open spec fn indirect_y_fits(rd: Set<u16>, c: Cpu, m: Seq<u8>) -> bool {
    let ptr = mem_at(m, c.pc) as u16;
    rd.contains(c.pc) && rd.contains(ptr) && rd.contains(page_wrap_next(ptr))
}

/// The reads that resolving an operand in `mode` makes.
pub open spec fn resolve_fits(rd: Set<u16>, c: Cpu, m: Seq<u8>, mode: AddrMode) -> bool {
    match mode {
        AddrMode::Implied | AddrMode::Accumulator | AddrMode::Immediate => true,
        AddrMode::ZeroPage | AddrMode::ZeroPageX | AddrMode::ZeroPageY | AddrMode::Relative =>
            zero_page_fits(rd, c),
        AddrMode::Absolute | AddrMode::AbsoluteX | AddrMode::AbsoluteY => absolute_fits(rd, c),
        AddrMode::Indirect => indirect_fits(rd, c, m),
        AddrMode::IndirectX => indirect_x_fits(rd, c, m),
        AddrMode::IndirectY => indirect_y_fits(rd, c, m),
    }
}

/// The read of a resolved operand (made only when it has an address).
pub open spec fn operand_fits(rd: Set<u16>, r: Resolved) -> bool {
    r.operand is Address ==> rd.contains(operand_addr(r))
}

/// A read-modify-write of the operand's address.
pub open spec fn rmw_fits(rd: Set<u16>, wr: Set<u16>, r: Resolved) -> bool {
    rd.contains(operand_addr(r)) && wr.contains(operand_addr(r))
}

/// Loads read the operand; stores write its address.
pub open spec fn load_store_fits(rd: Set<u16>, wr: Set<u16>, mn: Mnemonic, r: Resolved) -> bool {
    match mn {
        Mnemonic::LDA | Mnemonic::LDX | Mnemonic::LDY | Mnemonic::LAX => operand_fits(rd, r),
        _ => wr.contains(operand_addr(r)),
    }
}

/// Pushes of `n` bytes write the stack slots from SP down.
pub open spec fn pushes_fit(wr: Set<u16>, sp: u8, n: int) -> bool {
    &&& n >= 1 ==> wr.contains(stack_addr(sp))
    &&& n >= 2 ==> wr.contains(stack_addr(wrap8(sp - 1)))
    &&& n >= 3 ==> wr.contains(stack_addr(wrap8(sp - 2)))
}

/// Pulls of `n` bytes read the stack slots above SP.
pub open spec fn pulls_fit(rd: Set<u16>, sp: u8, n: int) -> bool {
    &&& n >= 1 ==> rd.contains(stack_addr(wrap8(sp + 1)))
    &&& n >= 2 ==> rd.contains(stack_addr(wrap8(sp + 2)))
    &&& n >= 3 ==> rd.contains(stack_addr(wrap8(sp + 3)))
}

/// Stack, jump, call, return and BRK instructions.
pub open spec fn control_fits(rd: Set<u16>, wr: Set<u16>, c: Cpu, mn: Mnemonic) -> bool {
    match mn {
        Mnemonic::PHA | Mnemonic::PHP => pushes_fit(wr, c.sp, 1),
        Mnemonic::PLA | Mnemonic::PLP => pulls_fit(rd, c.sp, 1),
        Mnemonic::JMP => true,
        Mnemonic::JSR => pushes_fit(wr, c.sp, 2),
        Mnemonic::RTS => pulls_fit(rd, c.sp, 2),
        Mnemonic::RTI => pulls_fit(rd, c.sp, 3),
        _ => pushes_fit(wr, c.sp, 3) && rd.contains(0xFFFE) && rd.contains(0xFFFF),
    }
}

/// The accesses of executing `mn` on the resolved operand `r`.
pub open spec fn execute_fits(rd: Set<u16>, wr: Set<u16>, c: Cpu, mn: Mnemonic, mode: AddrMode, r: Resolved) -> bool {
    match mn {
        Mnemonic::LDA | Mnemonic::LDX | Mnemonic::LDY | Mnemonic::LAX
        | Mnemonic::STA | Mnemonic::STX | Mnemonic::STY | Mnemonic::SAX => load_store_fits(rd, wr, mn, r),
        Mnemonic::ADC | Mnemonic::SBC | Mnemonic::CMP | Mnemonic::CPX | Mnemonic::CPY
        | Mnemonic::AND | Mnemonic::ORA | Mnemonic::EOR | Mnemonic::BIT => operand_fits(rd, r),
        Mnemonic::ASL | Mnemonic::LSR | Mnemonic::ROL | Mnemonic::ROR =>
            mode != AddrMode::Accumulator ==> rmw_fits(rd, wr, r),
        Mnemonic::SLO | Mnemonic::RLA | Mnemonic::SRE | Mnemonic::RRA
        | Mnemonic::INC | Mnemonic::DEC | Mnemonic::DCP | Mnemonic::ISC => rmw_fits(rd, wr, r),
        Mnemonic::PHA | Mnemonic::PHP | Mnemonic::PLA | Mnemonic::PLP | Mnemonic::JMP
        | Mnemonic::JSR | Mnemonic::RTS | Mnemonic::RTI | Mnemonic::BRK => control_fits(rd, wr, c, mn),
        _ => true,
    }
}

/// Interrupt entry: three pushes, then the vector.
pub open spec fn interrupt_fits(rd: Set<u16>, wr: Set<u16>, c: Cpu, vector: u16) -> bool {
    pushes_fit(wr, c.sp, 3) && rd.contains(vector) && rd.contains(wrap16(vector + 1))
}

/// The accesses of one step from `c` over memory `m`: an interrupt entry,
/// or the opcode fetch, the operand's resolution and the execution.
pub open spec fn step_fits(rd: Set<u16>, wr: Set<u16>, c: Cpu, m: Seq<u8>) -> bool {
    if c.nmi_pending {
        interrupt_fits(rd, wr, c, 0xFFFA)
    } else if c.irq_pending && !flag_of(c.p.0, Flag::I) {
        interrupt_fits(rd, wr, c, 0xFFFE)
    } else {
        let info = opcode_table(mem_at(m, c.pc));
        let c1 = Cpu { pc: wrap16(c.pc + 1), ..c };
        let (c2, r) = resolve_spec(c1, m, info.mode);
        &&& rd.contains(c.pc)
        &&& resolve_fits(rd, c1, m, info.mode)
        &&& execute_fits(rd, wr, c2, info.mnemonic, info.mode, r)
    }
}

} // verus!
