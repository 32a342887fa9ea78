//! Opcode decoding table: mnemonic, addressing mode and base cycle count
//! of each of the 256 opcodes.

use vstd::prelude::*;
use super::addressing::AddrMode;

verus! {

/// Instruction mnemonics, documented NMOS 6502 ones first, then the
/// stable undocumented ones (LAX, SAX, DCP, ISC, SLO, RLA, SRE, RRA);
/// `ILL` stands for every other undocumented opcode (executed as a NOP).
#[derive(Clone, Copy, Debug, PartialEq, Eq, Structural)]
pub enum Mnemonic {
    ADC, AND, ASL, BCC, BCS, BEQ, BIT, BMI,
    BNE, BPL, BRK, BVC, BVS, CLC, CLD, CLI,
    CLV, CMP, CPX, CPY, DEC, DEX, DEY, EOR,
    INC, INX, INY, JMP, JSR, LDA, LDX, LDY,
    LSR, NOP, ORA, PHA, PHP, PLA, PLP, ROL,
    ROR, RTI, RTS, SBC, SEC, SED, SEI, STA,
    STX, STY, TAX, TAY, TSX, TXA, TXS, TYA,
    LAX, SAX, DCP, ISC, SLO, RLA, SRE, RRA,
    ILL,
}

/// Decoding of one opcode.
#[derive(Clone, Copy, Debug)]
pub struct OpcodeInfo {
    pub mnemonic: Mnemonic,
    pub mode: AddrMode,
    pub cycles: u32,
    /// One extra cycle when indexing crosses a page.
    pub page_penalty: bool,
}

/// Build an opcode table entry.
pub fn op(mnemonic: Mnemonic, mode: AddrMode, cycles: u32, page_penalty: bool) -> (info: OpcodeInfo)
    ensures
        info == (OpcodeInfo { mnemonic, mode, cycles, page_penalty }),
{
    OpcodeInfo { mnemonic, mode, cycles, page_penalty }
}

/// Table entry of an opcode that is not decoded: a 2-cycle implied NOP.
pub fn ill() -> (info: OpcodeInfo)
    ensures
        info == (OpcodeInfo { mnemonic: Mnemonic::ILL, mode: AddrMode::Implied, cycles: 2, page_penalty: false }),
{
    op(Mnemonic::ILL, AddrMode::Implied, 2, false)
}

/// The decoding table.
pub open spec fn opcode_table(opcode: u8) -> OpcodeInfo {
    match opcode {
        0x00 => OpcodeInfo { mnemonic: Mnemonic::BRK, mode: AddrMode::Implied, cycles: 7, page_penalty: false },
        0x01 => OpcodeInfo { mnemonic: Mnemonic::ORA, mode: AddrMode::IndirectX, cycles: 6, page_penalty: false },
        0x03 => OpcodeInfo { mnemonic: Mnemonic::SLO, mode: AddrMode::IndirectX, cycles: 8, page_penalty: false },
        0x05 => OpcodeInfo { mnemonic: Mnemonic::ORA, mode: AddrMode::ZeroPage, cycles: 3, page_penalty: false },
        0x06 => OpcodeInfo { mnemonic: Mnemonic::ASL, mode: AddrMode::ZeroPage, cycles: 5, page_penalty: false },
        0x07 => OpcodeInfo { mnemonic: Mnemonic::SLO, mode: AddrMode::ZeroPage, cycles: 5, page_penalty: false },
        0x08 => OpcodeInfo { mnemonic: Mnemonic::PHP, mode: AddrMode::Implied, cycles: 3, page_penalty: false },
        0x09 => OpcodeInfo { mnemonic: Mnemonic::ORA, mode: AddrMode::Immediate, cycles: 2, page_penalty: false },
        0x0A => OpcodeInfo { mnemonic: Mnemonic::ASL, mode: AddrMode::Accumulator, cycles: 2, page_penalty: false },
        0x0D => OpcodeInfo { mnemonic: Mnemonic::ORA, mode: AddrMode::Absolute, cycles: 4, page_penalty: false },
        0x0E => OpcodeInfo { mnemonic: Mnemonic::ASL, mode: AddrMode::Absolute, cycles: 6, page_penalty: false },
        0x0F => OpcodeInfo { mnemonic: Mnemonic::SLO, mode: AddrMode::Absolute, cycles: 6, page_penalty: false },
        0x10 => OpcodeInfo { mnemonic: Mnemonic::BPL, mode: AddrMode::Relative, cycles: 2, page_penalty: false },
        0x11 => OpcodeInfo { mnemonic: Mnemonic::ORA, mode: AddrMode::IndirectY, cycles: 5, page_penalty: true },
        0x13 => OpcodeInfo { mnemonic: Mnemonic::SLO, mode: AddrMode::IndirectY, cycles: 8, page_penalty: false },
        0x15 => OpcodeInfo { mnemonic: Mnemonic::ORA, mode: AddrMode::ZeroPageX, cycles: 4, page_penalty: false },
        0x16 => OpcodeInfo { mnemonic: Mnemonic::ASL, mode: AddrMode::ZeroPageX, cycles: 6, page_penalty: false },
        0x17 => OpcodeInfo { mnemonic: Mnemonic::SLO, mode: AddrMode::ZeroPageX, cycles: 6, page_penalty: false },
        0x18 => OpcodeInfo { mnemonic: Mnemonic::CLC, mode: AddrMode::Implied, cycles: 2, page_penalty: false },
        0x19 => OpcodeInfo { mnemonic: Mnemonic::ORA, mode: AddrMode::AbsoluteY, cycles: 4, page_penalty: true },
        0x1B => OpcodeInfo { mnemonic: Mnemonic::SLO, mode: AddrMode::AbsoluteY, cycles: 7, page_penalty: false },
        0x1D => OpcodeInfo { mnemonic: Mnemonic::ORA, mode: AddrMode::AbsoluteX, cycles: 4, page_penalty: true },
        0x1E => OpcodeInfo { mnemonic: Mnemonic::ASL, mode: AddrMode::AbsoluteX, cycles: 7, page_penalty: false },
        0x1F => OpcodeInfo { mnemonic: Mnemonic::SLO, mode: AddrMode::AbsoluteX, cycles: 7, page_penalty: false },
        0x20 => OpcodeInfo { mnemonic: Mnemonic::JSR, mode: AddrMode::Absolute, cycles: 6, page_penalty: false },
        0x21 => OpcodeInfo { mnemonic: Mnemonic::AND, mode: AddrMode::IndirectX, cycles: 6, page_penalty: false },
        0x23 => OpcodeInfo { mnemonic: Mnemonic::RLA, mode: AddrMode::IndirectX, cycles: 8, page_penalty: false },
        0x24 => OpcodeInfo { mnemonic: Mnemonic::BIT, mode: AddrMode::ZeroPage, cycles: 3, page_penalty: false },
        0x25 => OpcodeInfo { mnemonic: Mnemonic::AND, mode: AddrMode::ZeroPage, cycles: 3, page_penalty: false },
        0x26 => OpcodeInfo { mnemonic: Mnemonic::ROL, mode: AddrMode::ZeroPage, cycles: 5, page_penalty: false },
        0x27 => OpcodeInfo { mnemonic: Mnemonic::RLA, mode: AddrMode::ZeroPage, cycles: 5, page_penalty: false },
        0x28 => OpcodeInfo { mnemonic: Mnemonic::PLP, mode: AddrMode::Implied, cycles: 4, page_penalty: false },
        0x29 => OpcodeInfo { mnemonic: Mnemonic::AND, mode: AddrMode::Immediate, cycles: 2, page_penalty: false },
        0x2A => OpcodeInfo { mnemonic: Mnemonic::ROL, mode: AddrMode::Accumulator, cycles: 2, page_penalty: false },
        0x2C => OpcodeInfo { mnemonic: Mnemonic::BIT, mode: AddrMode::Absolute, cycles: 4, page_penalty: false },
        0x2D => OpcodeInfo { mnemonic: Mnemonic::AND, mode: AddrMode::Absolute, cycles: 4, page_penalty: false },
        0x2E => OpcodeInfo { mnemonic: Mnemonic::ROL, mode: AddrMode::Absolute, cycles: 6, page_penalty: false },
        0x2F => OpcodeInfo { mnemonic: Mnemonic::RLA, mode: AddrMode::Absolute, cycles: 6, page_penalty: false },
        0x30 => OpcodeInfo { mnemonic: Mnemonic::BMI, mode: AddrMode::Relative, cycles: 2, page_penalty: false },
        0x31 => OpcodeInfo { mnemonic: Mnemonic::AND, mode: AddrMode::IndirectY, cycles: 5, page_penalty: true },
        0x33 => OpcodeInfo { mnemonic: Mnemonic::RLA, mode: AddrMode::IndirectY, cycles: 8, page_penalty: false },
        0x35 => OpcodeInfo { mnemonic: Mnemonic::AND, mode: AddrMode::ZeroPageX, cycles: 4, page_penalty: false },
        0x36 => OpcodeInfo { mnemonic: Mnemonic::ROL, mode: AddrMode::ZeroPageX, cycles: 6, page_penalty: false },
        0x37 => OpcodeInfo { mnemonic: Mnemonic::RLA, mode: AddrMode::ZeroPageX, cycles: 6, page_penalty: false },
        0x38 => OpcodeInfo { mnemonic: Mnemonic::SEC, mode: AddrMode::Implied, cycles: 2, page_penalty: false },
        0x39 => OpcodeInfo { mnemonic: Mnemonic::AND, mode: AddrMode::AbsoluteY, cycles: 4, page_penalty: true },
        0x3B => OpcodeInfo { mnemonic: Mnemonic::RLA, mode: AddrMode::AbsoluteY, cycles: 7, page_penalty: false },
        0x3D => OpcodeInfo { mnemonic: Mnemonic::AND, mode: AddrMode::AbsoluteX, cycles: 4, page_penalty: true },
        0x3E => OpcodeInfo { mnemonic: Mnemonic::ROL, mode: AddrMode::AbsoluteX, cycles: 7, page_penalty: false },
        0x3F => OpcodeInfo { mnemonic: Mnemonic::RLA, mode: AddrMode::AbsoluteX, cycles: 7, page_penalty: false },
        0x40 => OpcodeInfo { mnemonic: Mnemonic::RTI, mode: AddrMode::Implied, cycles: 6, page_penalty: false },
        0x41 => OpcodeInfo { mnemonic: Mnemonic::EOR, mode: AddrMode::IndirectX, cycles: 6, page_penalty: false },
        0x43 => OpcodeInfo { mnemonic: Mnemonic::SRE, mode: AddrMode::IndirectX, cycles: 8, page_penalty: false },
        0x45 => OpcodeInfo { mnemonic: Mnemonic::EOR, mode: AddrMode::ZeroPage, cycles: 3, page_penalty: false },
        0x46 => OpcodeInfo { mnemonic: Mnemonic::LSR, mode: AddrMode::ZeroPage, cycles: 5, page_penalty: false },
        0x47 => OpcodeInfo { mnemonic: Mnemonic::SRE, mode: AddrMode::ZeroPage, cycles: 5, page_penalty: false },
        0x48 => OpcodeInfo { mnemonic: Mnemonic::PHA, mode: AddrMode::Implied, cycles: 3, page_penalty: false },
        0x49 => OpcodeInfo { mnemonic: Mnemonic::EOR, mode: AddrMode::Immediate, cycles: 2, page_penalty: false },
        0x4A => OpcodeInfo { mnemonic: Mnemonic::LSR, mode: AddrMode::Accumulator, cycles: 2, page_penalty: false },
        0x4C => OpcodeInfo { mnemonic: Mnemonic::JMP, mode: AddrMode::Absolute, cycles: 3, page_penalty: false },
        0x4D => OpcodeInfo { mnemonic: Mnemonic::EOR, mode: AddrMode::Absolute, cycles: 4, page_penalty: false },
        0x4E => OpcodeInfo { mnemonic: Mnemonic::LSR, mode: AddrMode::Absolute, cycles: 6, page_penalty: false },
        0x4F => OpcodeInfo { mnemonic: Mnemonic::SRE, mode: AddrMode::Absolute, cycles: 6, page_penalty: false },
        0x50 => OpcodeInfo { mnemonic: Mnemonic::BVC, mode: AddrMode::Relative, cycles: 2, page_penalty: false },
        0x51 => OpcodeInfo { mnemonic: Mnemonic::EOR, mode: AddrMode::IndirectY, cycles: 5, page_penalty: true },
        0x53 => OpcodeInfo { mnemonic: Mnemonic::SRE, mode: AddrMode::IndirectY, cycles: 8, page_penalty: false },
        0x55 => OpcodeInfo { mnemonic: Mnemonic::EOR, mode: AddrMode::ZeroPageX, cycles: 4, page_penalty: false },
        0x56 => OpcodeInfo { mnemonic: Mnemonic::LSR, mode: AddrMode::ZeroPageX, cycles: 6, page_penalty: false },
        0x57 => OpcodeInfo { mnemonic: Mnemonic::SRE, mode: AddrMode::ZeroPageX, cycles: 6, page_penalty: false },
        0x58 => OpcodeInfo { mnemonic: Mnemonic::CLI, mode: AddrMode::Implied, cycles: 2, page_penalty: false },
        0x59 => OpcodeInfo { mnemonic: Mnemonic::EOR, mode: AddrMode::AbsoluteY, cycles: 4, page_penalty: true },
        0x5B => OpcodeInfo { mnemonic: Mnemonic::SRE, mode: AddrMode::AbsoluteY, cycles: 7, page_penalty: false },
        0x5D => OpcodeInfo { mnemonic: Mnemonic::EOR, mode: AddrMode::AbsoluteX, cycles: 4, page_penalty: true },
        0x5E => OpcodeInfo { mnemonic: Mnemonic::LSR, mode: AddrMode::AbsoluteX, cycles: 7, page_penalty: false },
        0x5F => OpcodeInfo { mnemonic: Mnemonic::SRE, mode: AddrMode::AbsoluteX, cycles: 7, page_penalty: false },
        0x60 => OpcodeInfo { mnemonic: Mnemonic::RTS, mode: AddrMode::Implied, cycles: 6, page_penalty: false },
        0x61 => OpcodeInfo { mnemonic: Mnemonic::ADC, mode: AddrMode::IndirectX, cycles: 6, page_penalty: false },
        0x63 => OpcodeInfo { mnemonic: Mnemonic::RRA, mode: AddrMode::IndirectX, cycles: 8, page_penalty: false },
        0x65 => OpcodeInfo { mnemonic: Mnemonic::ADC, mode: AddrMode::ZeroPage, cycles: 3, page_penalty: false },
        0x66 => OpcodeInfo { mnemonic: Mnemonic::ROR, mode: AddrMode::ZeroPage, cycles: 5, page_penalty: false },
        0x67 => OpcodeInfo { mnemonic: Mnemonic::RRA, mode: AddrMode::ZeroPage, cycles: 5, page_penalty: false },
        0x68 => OpcodeInfo { mnemonic: Mnemonic::PLA, mode: AddrMode::Implied, cycles: 4, page_penalty: false },
        0x69 => OpcodeInfo { mnemonic: Mnemonic::ADC, mode: AddrMode::Immediate, cycles: 2, page_penalty: false },
        0x6A => OpcodeInfo { mnemonic: Mnemonic::ROR, mode: AddrMode::Accumulator, cycles: 2, page_penalty: false },
        0x6C => OpcodeInfo { mnemonic: Mnemonic::JMP, mode: AddrMode::Indirect, cycles: 5, page_penalty: false },
        0x6D => OpcodeInfo { mnemonic: Mnemonic::ADC, mode: AddrMode::Absolute, cycles: 4, page_penalty: false },
        0x6E => OpcodeInfo { mnemonic: Mnemonic::ROR, mode: AddrMode::Absolute, cycles: 6, page_penalty: false },
        0x6F => OpcodeInfo { mnemonic: Mnemonic::RRA, mode: AddrMode::Absolute, cycles: 6, page_penalty: false },
        0x70 => OpcodeInfo { mnemonic: Mnemonic::BVS, mode: AddrMode::Relative, cycles: 2, page_penalty: false },
        0x71 => OpcodeInfo { mnemonic: Mnemonic::ADC, mode: AddrMode::IndirectY, cycles: 5, page_penalty: true },
        0x73 => OpcodeInfo { mnemonic: Mnemonic::RRA, mode: AddrMode::IndirectY, cycles: 8, page_penalty: false },
        0x75 => OpcodeInfo { mnemonic: Mnemonic::ADC, mode: AddrMode::ZeroPageX, cycles: 4, page_penalty: false },
        0x76 => OpcodeInfo { mnemonic: Mnemonic::ROR, mode: AddrMode::ZeroPageX, cycles: 6, page_penalty: false },
        0x77 => OpcodeInfo { mnemonic: Mnemonic::RRA, mode: AddrMode::ZeroPageX, cycles: 6, page_penalty: false },
        0x78 => OpcodeInfo { mnemonic: Mnemonic::SEI, mode: AddrMode::Implied, cycles: 2, page_penalty: false },
        0x79 => OpcodeInfo { mnemonic: Mnemonic::ADC, mode: AddrMode::AbsoluteY, cycles: 4, page_penalty: true },
        0x7B => OpcodeInfo { mnemonic: Mnemonic::RRA, mode: AddrMode::AbsoluteY, cycles: 7, page_penalty: false },
        0x7D => OpcodeInfo { mnemonic: Mnemonic::ADC, mode: AddrMode::AbsoluteX, cycles: 4, page_penalty: true },
        0x7E => OpcodeInfo { mnemonic: Mnemonic::ROR, mode: AddrMode::AbsoluteX, cycles: 7, page_penalty: false },
        0x7F => OpcodeInfo { mnemonic: Mnemonic::RRA, mode: AddrMode::AbsoluteX, cycles: 7, page_penalty: false },
        0x81 => OpcodeInfo { mnemonic: Mnemonic::STA, mode: AddrMode::IndirectX, cycles: 6, page_penalty: false },
        0x83 => OpcodeInfo { mnemonic: Mnemonic::SAX, mode: AddrMode::IndirectX, cycles: 6, page_penalty: false },
        0x84 => OpcodeInfo { mnemonic: Mnemonic::STY, mode: AddrMode::ZeroPage, cycles: 3, page_penalty: false },
        0x85 => OpcodeInfo { mnemonic: Mnemonic::STA, mode: AddrMode::ZeroPage, cycles: 3, page_penalty: false },
        0x86 => OpcodeInfo { mnemonic: Mnemonic::STX, mode: AddrMode::ZeroPage, cycles: 3, page_penalty: false },
        0x87 => OpcodeInfo { mnemonic: Mnemonic::SAX, mode: AddrMode::ZeroPage, cycles: 3, page_penalty: false },
        0x88 => OpcodeInfo { mnemonic: Mnemonic::DEY, mode: AddrMode::Implied, cycles: 2, page_penalty: false },
        0x8A => OpcodeInfo { mnemonic: Mnemonic::TXA, mode: AddrMode::Implied, cycles: 2, page_penalty: false },
        0x8C => OpcodeInfo { mnemonic: Mnemonic::STY, mode: AddrMode::Absolute, cycles: 4, page_penalty: false },
        0x8D => OpcodeInfo { mnemonic: Mnemonic::STA, mode: AddrMode::Absolute, cycles: 4, page_penalty: false },
        0x8E => OpcodeInfo { mnemonic: Mnemonic::STX, mode: AddrMode::Absolute, cycles: 4, page_penalty: false },
        0x8F => OpcodeInfo { mnemonic: Mnemonic::SAX, mode: AddrMode::Absolute, cycles: 4, page_penalty: false },
        0x90 => OpcodeInfo { mnemonic: Mnemonic::BCC, mode: AddrMode::Relative, cycles: 2, page_penalty: false },
        0x91 => OpcodeInfo { mnemonic: Mnemonic::STA, mode: AddrMode::IndirectY, cycles: 6, page_penalty: false },
        0x94 => OpcodeInfo { mnemonic: Mnemonic::STY, mode: AddrMode::ZeroPageX, cycles: 4, page_penalty: false },
        0x95 => OpcodeInfo { mnemonic: Mnemonic::STA, mode: AddrMode::ZeroPageX, cycles: 4, page_penalty: false },
        0x96 => OpcodeInfo { mnemonic: Mnemonic::STX, mode: AddrMode::ZeroPageY, cycles: 4, page_penalty: false },
        0x97 => OpcodeInfo { mnemonic: Mnemonic::SAX, mode: AddrMode::ZeroPageY, cycles: 4, page_penalty: false },
        0x98 => OpcodeInfo { mnemonic: Mnemonic::TYA, mode: AddrMode::Implied, cycles: 2, page_penalty: false },
        0x99 => OpcodeInfo { mnemonic: Mnemonic::STA, mode: AddrMode::AbsoluteY, cycles: 5, page_penalty: false },
        0x9A => OpcodeInfo { mnemonic: Mnemonic::TXS, mode: AddrMode::Implied, cycles: 2, page_penalty: false },
        0x9D => OpcodeInfo { mnemonic: Mnemonic::STA, mode: AddrMode::AbsoluteX, cycles: 5, page_penalty: false },
        0xA0 => OpcodeInfo { mnemonic: Mnemonic::LDY, mode: AddrMode::Immediate, cycles: 2, page_penalty: false },
        0xA1 => OpcodeInfo { mnemonic: Mnemonic::LDA, mode: AddrMode::IndirectX, cycles: 6, page_penalty: false },
        0xA2 => OpcodeInfo { mnemonic: Mnemonic::LDX, mode: AddrMode::Immediate, cycles: 2, page_penalty: false },
        0xA3 => OpcodeInfo { mnemonic: Mnemonic::LAX, mode: AddrMode::IndirectX, cycles: 6, page_penalty: false },
        0xA4 => OpcodeInfo { mnemonic: Mnemonic::LDY, mode: AddrMode::ZeroPage, cycles: 3, page_penalty: false },
        0xA5 => OpcodeInfo { mnemonic: Mnemonic::LDA, mode: AddrMode::ZeroPage, cycles: 3, page_penalty: false },
        0xA6 => OpcodeInfo { mnemonic: Mnemonic::LDX, mode: AddrMode::ZeroPage, cycles: 3, page_penalty: false },
        0xA7 => OpcodeInfo { mnemonic: Mnemonic::LAX, mode: AddrMode::ZeroPage, cycles: 3, page_penalty: false },
        0xA8 => OpcodeInfo { mnemonic: Mnemonic::TAY, mode: AddrMode::Implied, cycles: 2, page_penalty: false },
        0xA9 => OpcodeInfo { mnemonic: Mnemonic::LDA, mode: AddrMode::Immediate, cycles: 2, page_penalty: false },
        0xAA => OpcodeInfo { mnemonic: Mnemonic::TAX, mode: AddrMode::Implied, cycles: 2, page_penalty: false },
        0xAC => OpcodeInfo { mnemonic: Mnemonic::LDY, mode: AddrMode::Absolute, cycles: 4, page_penalty: false },
        0xAD => OpcodeInfo { mnemonic: Mnemonic::LDA, mode: AddrMode::Absolute, cycles: 4, page_penalty: false },
        0xAE => OpcodeInfo { mnemonic: Mnemonic::LDX, mode: AddrMode::Absolute, cycles: 4, page_penalty: false },
        0xAF => OpcodeInfo { mnemonic: Mnemonic::LAX, mode: AddrMode::Absolute, cycles: 4, page_penalty: false },
        0xB0 => OpcodeInfo { mnemonic: Mnemonic::BCS, mode: AddrMode::Relative, cycles: 2, page_penalty: false },
        0xB1 => OpcodeInfo { mnemonic: Mnemonic::LDA, mode: AddrMode::IndirectY, cycles: 5, page_penalty: true },
        0xB3 => OpcodeInfo { mnemonic: Mnemonic::LAX, mode: AddrMode::IndirectY, cycles: 5, page_penalty: true },
        0xB4 => OpcodeInfo { mnemonic: Mnemonic::LDY, mode: AddrMode::ZeroPageX, cycles: 4, page_penalty: false },
        0xB5 => OpcodeInfo { mnemonic: Mnemonic::LDA, mode: AddrMode::ZeroPageX, cycles: 4, page_penalty: false },
        0xB6 => OpcodeInfo { mnemonic: Mnemonic::LDX, mode: AddrMode::ZeroPageY, cycles: 4, page_penalty: false },
        0xB7 => OpcodeInfo { mnemonic: Mnemonic::LAX, mode: AddrMode::ZeroPageY, cycles: 4, page_penalty: false },
        0xB8 => OpcodeInfo { mnemonic: Mnemonic::CLV, mode: AddrMode::Implied, cycles: 2, page_penalty: false },
        0xB9 => OpcodeInfo { mnemonic: Mnemonic::LDA, mode: AddrMode::AbsoluteY, cycles: 4, page_penalty: true },
        0xBA => OpcodeInfo { mnemonic: Mnemonic::TSX, mode: AddrMode::Implied, cycles: 2, page_penalty: false },
        0xBC => OpcodeInfo { mnemonic: Mnemonic::LDY, mode: AddrMode::AbsoluteX, cycles: 4, page_penalty: true },
        0xBD => OpcodeInfo { mnemonic: Mnemonic::LDA, mode: AddrMode::AbsoluteX, cycles: 4, page_penalty: true },
        0xBE => OpcodeInfo { mnemonic: Mnemonic::LDX, mode: AddrMode::AbsoluteY, cycles: 4, page_penalty: true },
        0xBF => OpcodeInfo { mnemonic: Mnemonic::LAX, mode: AddrMode::AbsoluteY, cycles: 4, page_penalty: true },
        0xC0 => OpcodeInfo { mnemonic: Mnemonic::CPY, mode: AddrMode::Immediate, cycles: 2, page_penalty: false },
        0xC1 => OpcodeInfo { mnemonic: Mnemonic::CMP, mode: AddrMode::IndirectX, cycles: 6, page_penalty: false },
        0xC3 => OpcodeInfo { mnemonic: Mnemonic::DCP, mode: AddrMode::IndirectX, cycles: 8, page_penalty: false },
        0xC4 => OpcodeInfo { mnemonic: Mnemonic::CPY, mode: AddrMode::ZeroPage, cycles: 3, page_penalty: false },
        0xC5 => OpcodeInfo { mnemonic: Mnemonic::CMP, mode: AddrMode::ZeroPage, cycles: 3, page_penalty: false },
        0xC6 => OpcodeInfo { mnemonic: Mnemonic::DEC, mode: AddrMode::ZeroPage, cycles: 5, page_penalty: false },
        0xC7 => OpcodeInfo { mnemonic: Mnemonic::DCP, mode: AddrMode::ZeroPage, cycles: 5, page_penalty: false },
        0xC8 => OpcodeInfo { mnemonic: Mnemonic::INY, mode: AddrMode::Implied, cycles: 2, page_penalty: false },
        0xC9 => OpcodeInfo { mnemonic: Mnemonic::CMP, mode: AddrMode::Immediate, cycles: 2, page_penalty: false },
        0xCA => OpcodeInfo { mnemonic: Mnemonic::DEX, mode: AddrMode::Implied, cycles: 2, page_penalty: false },
        0xCC => OpcodeInfo { mnemonic: Mnemonic::CPY, mode: AddrMode::Absolute, cycles: 4, page_penalty: false },
        0xCD => OpcodeInfo { mnemonic: Mnemonic::CMP, mode: AddrMode::Absolute, cycles: 4, page_penalty: false },
        0xCE => OpcodeInfo { mnemonic: Mnemonic::DEC, mode: AddrMode::Absolute, cycles: 6, page_penalty: false },
        0xCF => OpcodeInfo { mnemonic: Mnemonic::DCP, mode: AddrMode::Absolute, cycles: 6, page_penalty: false },
        0xD0 => OpcodeInfo { mnemonic: Mnemonic::BNE, mode: AddrMode::Relative, cycles: 2, page_penalty: false },
        0xD1 => OpcodeInfo { mnemonic: Mnemonic::CMP, mode: AddrMode::IndirectY, cycles: 5, page_penalty: true },
        0xD3 => OpcodeInfo { mnemonic: Mnemonic::DCP, mode: AddrMode::IndirectY, cycles: 8, page_penalty: false },
        0xD5 => OpcodeInfo { mnemonic: Mnemonic::CMP, mode: AddrMode::ZeroPageX, cycles: 4, page_penalty: false },
        0xD6 => OpcodeInfo { mnemonic: Mnemonic::DEC, mode: AddrMode::ZeroPageX, cycles: 6, page_penalty: false },
        0xD7 => OpcodeInfo { mnemonic: Mnemonic::DCP, mode: AddrMode::ZeroPageX, cycles: 6, page_penalty: false },
        0xD8 => OpcodeInfo { mnemonic: Mnemonic::CLD, mode: AddrMode::Implied, cycles: 2, page_penalty: false },
        0xD9 => OpcodeInfo { mnemonic: Mnemonic::CMP, mode: AddrMode::AbsoluteY, cycles: 4, page_penalty: true },
        0xDB => OpcodeInfo { mnemonic: Mnemonic::DCP, mode: AddrMode::AbsoluteY, cycles: 7, page_penalty: false },
        0xDD => OpcodeInfo { mnemonic: Mnemonic::CMP, mode: AddrMode::AbsoluteX, cycles: 4, page_penalty: true },
        0xDE => OpcodeInfo { mnemonic: Mnemonic::DEC, mode: AddrMode::AbsoluteX, cycles: 7, page_penalty: false },
        0xDF => OpcodeInfo { mnemonic: Mnemonic::DCP, mode: AddrMode::AbsoluteX, cycles: 7, page_penalty: false },
        0xE0 => OpcodeInfo { mnemonic: Mnemonic::CPX, mode: AddrMode::Immediate, cycles: 2, page_penalty: false },
        0xE1 => OpcodeInfo { mnemonic: Mnemonic::SBC, mode: AddrMode::IndirectX, cycles: 6, page_penalty: false },
        0xE3 => OpcodeInfo { mnemonic: Mnemonic::ISC, mode: AddrMode::IndirectX, cycles: 8, page_penalty: false },
        0xE4 => OpcodeInfo { mnemonic: Mnemonic::CPX, mode: AddrMode::ZeroPage, cycles: 3, page_penalty: false },
        0xE5 => OpcodeInfo { mnemonic: Mnemonic::SBC, mode: AddrMode::ZeroPage, cycles: 3, page_penalty: false },
        0xE6 => OpcodeInfo { mnemonic: Mnemonic::INC, mode: AddrMode::ZeroPage, cycles: 5, page_penalty: false },
        0xE7 => OpcodeInfo { mnemonic: Mnemonic::ISC, mode: AddrMode::ZeroPage, cycles: 5, page_penalty: false },
        0xE8 => OpcodeInfo { mnemonic: Mnemonic::INX, mode: AddrMode::Implied, cycles: 2, page_penalty: false },
        0xE9 => OpcodeInfo { mnemonic: Mnemonic::SBC, mode: AddrMode::Immediate, cycles: 2, page_penalty: false },
        0xEA => OpcodeInfo { mnemonic: Mnemonic::NOP, mode: AddrMode::Implied, cycles: 2, page_penalty: false },
        0xEC => OpcodeInfo { mnemonic: Mnemonic::CPX, mode: AddrMode::Absolute, cycles: 4, page_penalty: false },
        0xED => OpcodeInfo { mnemonic: Mnemonic::SBC, mode: AddrMode::Absolute, cycles: 4, page_penalty: false },
        0xEE => OpcodeInfo { mnemonic: Mnemonic::INC, mode: AddrMode::Absolute, cycles: 6, page_penalty: false },
        0xEF => OpcodeInfo { mnemonic: Mnemonic::ISC, mode: AddrMode::Absolute, cycles: 6, page_penalty: false },
        0xF0 => OpcodeInfo { mnemonic: Mnemonic::BEQ, mode: AddrMode::Relative, cycles: 2, page_penalty: false },
        0xF1 => OpcodeInfo { mnemonic: Mnemonic::SBC, mode: AddrMode::IndirectY, cycles: 5, page_penalty: true },
        0xF3 => OpcodeInfo { mnemonic: Mnemonic::ISC, mode: AddrMode::IndirectY, cycles: 8, page_penalty: false },
        0xF5 => OpcodeInfo { mnemonic: Mnemonic::SBC, mode: AddrMode::ZeroPageX, cycles: 4, page_penalty: false },
        0xF6 => OpcodeInfo { mnemonic: Mnemonic::INC, mode: AddrMode::ZeroPageX, cycles: 6, page_penalty: false },
        0xF7 => OpcodeInfo { mnemonic: Mnemonic::ISC, mode: AddrMode::ZeroPageX, cycles: 6, page_penalty: false },
        0xF8 => OpcodeInfo { mnemonic: Mnemonic::SED, mode: AddrMode::Implied, cycles: 2, page_penalty: false },
        0xF9 => OpcodeInfo { mnemonic: Mnemonic::SBC, mode: AddrMode::AbsoluteY, cycles: 4, page_penalty: true },
        0xFB => OpcodeInfo { mnemonic: Mnemonic::ISC, mode: AddrMode::AbsoluteY, cycles: 7, page_penalty: false },
        0xFD => OpcodeInfo { mnemonic: Mnemonic::SBC, mode: AddrMode::AbsoluteX, cycles: 4, page_penalty: true },
        0xFE => OpcodeInfo { mnemonic: Mnemonic::INC, mode: AddrMode::AbsoluteX, cycles: 7, page_penalty: false },
        0xFF => OpcodeInfo { mnemonic: Mnemonic::ISC, mode: AddrMode::AbsoluteX, cycles: 7, page_penalty: false },
        _ => OpcodeInfo { mnemonic: Mnemonic::ILL, mode: AddrMode::Implied, cycles: 2, page_penalty: false },
    }
}

/// Whether `mn` is one of the eight conditional branches.
pub open spec fn is_branch(mn: Mnemonic) -> bool {
    mn == Mnemonic::BCC || mn == Mnemonic::BCS || mn == Mnemonic::BEQ || mn == Mnemonic::BNE
    || mn == Mnemonic::BMI || mn == Mnemonic::BPL || mn == Mnemonic::BVC || mn == Mnemonic::BVS
}

/// Look up the decoding of an opcode.
pub fn opcode_info(opcode: u8) -> (info: OpcodeInfo)
    ensures
        info == opcode_table(opcode),
        2 <= info.cycles <= 8,
        info.page_penalty ==> info.cycles <= 6,
        is_branch(info.mnemonic) ==> info.cycles == 2 && !info.page_penalty,
{
    match opcode {
        0x00 => OpcodeInfo { mnemonic: Mnemonic::BRK, mode: AddrMode::Implied, cycles: 7, page_penalty: false },
        0x01 => OpcodeInfo { mnemonic: Mnemonic::ORA, mode: AddrMode::IndirectX, cycles: 6, page_penalty: false },
        0x03 => OpcodeInfo { mnemonic: Mnemonic::SLO, mode: AddrMode::IndirectX, cycles: 8, page_penalty: false },
        0x05 => OpcodeInfo { mnemonic: Mnemonic::ORA, mode: AddrMode::ZeroPage, cycles: 3, page_penalty: false },
        0x06 => OpcodeInfo { mnemonic: Mnemonic::ASL, mode: AddrMode::ZeroPage, cycles: 5, page_penalty: false },
        0x07 => OpcodeInfo { mnemonic: Mnemonic::SLO, mode: AddrMode::ZeroPage, cycles: 5, page_penalty: false },
        0x08 => OpcodeInfo { mnemonic: Mnemonic::PHP, mode: AddrMode::Implied, cycles: 3, page_penalty: false },
        0x09 => OpcodeInfo { mnemonic: Mnemonic::ORA, mode: AddrMode::Immediate, cycles: 2, page_penalty: false },
        0x0A => OpcodeInfo { mnemonic: Mnemonic::ASL, mode: AddrMode::Accumulator, cycles: 2, page_penalty: false },
        0x0D => OpcodeInfo { mnemonic: Mnemonic::ORA, mode: AddrMode::Absolute, cycles: 4, page_penalty: false },
        0x0E => OpcodeInfo { mnemonic: Mnemonic::ASL, mode: AddrMode::Absolute, cycles: 6, page_penalty: false },
        0x0F => OpcodeInfo { mnemonic: Mnemonic::SLO, mode: AddrMode::Absolute, cycles: 6, page_penalty: false },
        0x10 => OpcodeInfo { mnemonic: Mnemonic::BPL, mode: AddrMode::Relative, cycles: 2, page_penalty: false },
        0x11 => OpcodeInfo { mnemonic: Mnemonic::ORA, mode: AddrMode::IndirectY, cycles: 5, page_penalty: true },
        0x13 => OpcodeInfo { mnemonic: Mnemonic::SLO, mode: AddrMode::IndirectY, cycles: 8, page_penalty: false },
        0x15 => OpcodeInfo { mnemonic: Mnemonic::ORA, mode: AddrMode::ZeroPageX, cycles: 4, page_penalty: false },
        0x16 => OpcodeInfo { mnemonic: Mnemonic::ASL, mode: AddrMode::ZeroPageX, cycles: 6, page_penalty: false },
        0x17 => OpcodeInfo { mnemonic: Mnemonic::SLO, mode: AddrMode::ZeroPageX, cycles: 6, page_penalty: false },
        0x18 => OpcodeInfo { mnemonic: Mnemonic::CLC, mode: AddrMode::Implied, cycles: 2, page_penalty: false },
        0x19 => OpcodeInfo { mnemonic: Mnemonic::ORA, mode: AddrMode::AbsoluteY, cycles: 4, page_penalty: true },
        0x1B => OpcodeInfo { mnemonic: Mnemonic::SLO, mode: AddrMode::AbsoluteY, cycles: 7, page_penalty: false },
        0x1D => OpcodeInfo { mnemonic: Mnemonic::ORA, mode: AddrMode::AbsoluteX, cycles: 4, page_penalty: true },
        0x1E => OpcodeInfo { mnemonic: Mnemonic::ASL, mode: AddrMode::AbsoluteX, cycles: 7, page_penalty: false },
        0x1F => OpcodeInfo { mnemonic: Mnemonic::SLO, mode: AddrMode::AbsoluteX, cycles: 7, page_penalty: false },
        0x20 => OpcodeInfo { mnemonic: Mnemonic::JSR, mode: AddrMode::Absolute, cycles: 6, page_penalty: false },
        0x21 => OpcodeInfo { mnemonic: Mnemonic::AND, mode: AddrMode::IndirectX, cycles: 6, page_penalty: false },
        0x23 => OpcodeInfo { mnemonic: Mnemonic::RLA, mode: AddrMode::IndirectX, cycles: 8, page_penalty: false },
        0x24 => OpcodeInfo { mnemonic: Mnemonic::BIT, mode: AddrMode::ZeroPage, cycles: 3, page_penalty: false },
        0x25 => OpcodeInfo { mnemonic: Mnemonic::AND, mode: AddrMode::ZeroPage, cycles: 3, page_penalty: false },
        0x26 => OpcodeInfo { mnemonic: Mnemonic::ROL, mode: AddrMode::ZeroPage, cycles: 5, page_penalty: false },
        0x27 => OpcodeInfo { mnemonic: Mnemonic::RLA, mode: AddrMode::ZeroPage, cycles: 5, page_penalty: false },
        0x28 => OpcodeInfo { mnemonic: Mnemonic::PLP, mode: AddrMode::Implied, cycles: 4, page_penalty: false },
        0x29 => OpcodeInfo { mnemonic: Mnemonic::AND, mode: AddrMode::Immediate, cycles: 2, page_penalty: false },
        0x2A => OpcodeInfo { mnemonic: Mnemonic::ROL, mode: AddrMode::Accumulator, cycles: 2, page_penalty: false },
        0x2C => OpcodeInfo { mnemonic: Mnemonic::BIT, mode: AddrMode::Absolute, cycles: 4, page_penalty: false },
        0x2D => OpcodeInfo { mnemonic: Mnemonic::AND, mode: AddrMode::Absolute, cycles: 4, page_penalty: false },
        0x2E => OpcodeInfo { mnemonic: Mnemonic::ROL, mode: AddrMode::Absolute, cycles: 6, page_penalty: false },
        0x2F => OpcodeInfo { mnemonic: Mnemonic::RLA, mode: AddrMode::Absolute, cycles: 6, page_penalty: false },
        0x30 => OpcodeInfo { mnemonic: Mnemonic::BMI, mode: AddrMode::Relative, cycles: 2, page_penalty: false },
        0x31 => OpcodeInfo { mnemonic: Mnemonic::AND, mode: AddrMode::IndirectY, cycles: 5, page_penalty: true },
        0x33 => OpcodeInfo { mnemonic: Mnemonic::RLA, mode: AddrMode::IndirectY, cycles: 8, page_penalty: false },
        0x35 => OpcodeInfo { mnemonic: Mnemonic::AND, mode: AddrMode::ZeroPageX, cycles: 4, page_penalty: false },
        0x36 => OpcodeInfo { mnemonic: Mnemonic::ROL, mode: AddrMode::ZeroPageX, cycles: 6, page_penalty: false },
        0x37 => OpcodeInfo { mnemonic: Mnemonic::RLA, mode: AddrMode::ZeroPageX, cycles: 6, page_penalty: false },
        0x38 => OpcodeInfo { mnemonic: Mnemonic::SEC, mode: AddrMode::Implied, cycles: 2, page_penalty: false },
        0x39 => OpcodeInfo { mnemonic: Mnemonic::AND, mode: AddrMode::AbsoluteY, cycles: 4, page_penalty: true },
        0x3B => OpcodeInfo { mnemonic: Mnemonic::RLA, mode: AddrMode::AbsoluteY, cycles: 7, page_penalty: false },
        0x3D => OpcodeInfo { mnemonic: Mnemonic::AND, mode: AddrMode::AbsoluteX, cycles: 4, page_penalty: true },
        0x3E => OpcodeInfo { mnemonic: Mnemonic::ROL, mode: AddrMode::AbsoluteX, cycles: 7, page_penalty: false },
        0x3F => OpcodeInfo { mnemonic: Mnemonic::RLA, mode: AddrMode::AbsoluteX, cycles: 7, page_penalty: false },
        0x40 => OpcodeInfo { mnemonic: Mnemonic::RTI, mode: AddrMode::Implied, cycles: 6, page_penalty: false },
        0x41 => OpcodeInfo { mnemonic: Mnemonic::EOR, mode: AddrMode::IndirectX, cycles: 6, page_penalty: false },
        0x43 => OpcodeInfo { mnemonic: Mnemonic::SRE, mode: AddrMode::IndirectX, cycles: 8, page_penalty: false },
        0x45 => OpcodeInfo { mnemonic: Mnemonic::EOR, mode: AddrMode::ZeroPage, cycles: 3, page_penalty: false },
        0x46 => OpcodeInfo { mnemonic: Mnemonic::LSR, mode: AddrMode::ZeroPage, cycles: 5, page_penalty: false },
        0x47 => OpcodeInfo { mnemonic: Mnemonic::SRE, mode: AddrMode::ZeroPage, cycles: 5, page_penalty: false },
        0x48 => OpcodeInfo { mnemonic: Mnemonic::PHA, mode: AddrMode::Implied, cycles: 3, page_penalty: false },
        0x49 => OpcodeInfo { mnemonic: Mnemonic::EOR, mode: AddrMode::Immediate, cycles: 2, page_penalty: false },
        0x4A => OpcodeInfo { mnemonic: Mnemonic::LSR, mode: AddrMode::Accumulator, cycles: 2, page_penalty: false },
        0x4C => OpcodeInfo { mnemonic: Mnemonic::JMP, mode: AddrMode::Absolute, cycles: 3, page_penalty: false },
        0x4D => OpcodeInfo { mnemonic: Mnemonic::EOR, mode: AddrMode::Absolute, cycles: 4, page_penalty: false },
        0x4E => OpcodeInfo { mnemonic: Mnemonic::LSR, mode: AddrMode::Absolute, cycles: 6, page_penalty: false },
        0x4F => OpcodeInfo { mnemonic: Mnemonic::SRE, mode: AddrMode::Absolute, cycles: 6, page_penalty: false },
        0x50 => OpcodeInfo { mnemonic: Mnemonic::BVC, mode: AddrMode::Relative, cycles: 2, page_penalty: false },
        0x51 => OpcodeInfo { mnemonic: Mnemonic::EOR, mode: AddrMode::IndirectY, cycles: 5, page_penalty: true },
        0x53 => OpcodeInfo { mnemonic: Mnemonic::SRE, mode: AddrMode::IndirectY, cycles: 8, page_penalty: false },
        0x55 => OpcodeInfo { mnemonic: Mnemonic::EOR, mode: AddrMode::ZeroPageX, cycles: 4, page_penalty: false },
        0x56 => OpcodeInfo { mnemonic: Mnemonic::LSR, mode: AddrMode::ZeroPageX, cycles: 6, page_penalty: false },
        0x57 => OpcodeInfo { mnemonic: Mnemonic::SRE, mode: AddrMode::ZeroPageX, cycles: 6, page_penalty: false },
        0x58 => OpcodeInfo { mnemonic: Mnemonic::CLI, mode: AddrMode::Implied, cycles: 2, page_penalty: false },
        0x59 => OpcodeInfo { mnemonic: Mnemonic::EOR, mode: AddrMode::AbsoluteY, cycles: 4, page_penalty: true },
        0x5B => OpcodeInfo { mnemonic: Mnemonic::SRE, mode: AddrMode::AbsoluteY, cycles: 7, page_penalty: false },
        0x5D => OpcodeInfo { mnemonic: Mnemonic::EOR, mode: AddrMode::AbsoluteX, cycles: 4, page_penalty: true },
        0x5E => OpcodeInfo { mnemonic: Mnemonic::LSR, mode: AddrMode::AbsoluteX, cycles: 7, page_penalty: false },
        0x5F => OpcodeInfo { mnemonic: Mnemonic::SRE, mode: AddrMode::AbsoluteX, cycles: 7, page_penalty: false },
        0x60 => OpcodeInfo { mnemonic: Mnemonic::RTS, mode: AddrMode::Implied, cycles: 6, page_penalty: false },
        0x61 => OpcodeInfo { mnemonic: Mnemonic::ADC, mode: AddrMode::IndirectX, cycles: 6, page_penalty: false },
        0x63 => OpcodeInfo { mnemonic: Mnemonic::RRA, mode: AddrMode::IndirectX, cycles: 8, page_penalty: false },
        0x65 => OpcodeInfo { mnemonic: Mnemonic::ADC, mode: AddrMode::ZeroPage, cycles: 3, page_penalty: false },
        0x66 => OpcodeInfo { mnemonic: Mnemonic::ROR, mode: AddrMode::ZeroPage, cycles: 5, page_penalty: false },
        0x67 => OpcodeInfo { mnemonic: Mnemonic::RRA, mode: AddrMode::ZeroPage, cycles: 5, page_penalty: false },
        0x68 => OpcodeInfo { mnemonic: Mnemonic::PLA, mode: AddrMode::Implied, cycles: 4, page_penalty: false },
        0x69 => OpcodeInfo { mnemonic: Mnemonic::ADC, mode: AddrMode::Immediate, cycles: 2, page_penalty: false },
        0x6A => OpcodeInfo { mnemonic: Mnemonic::ROR, mode: AddrMode::Accumulator, cycles: 2, page_penalty: false },
        0x6C => OpcodeInfo { mnemonic: Mnemonic::JMP, mode: AddrMode::Indirect, cycles: 5, page_penalty: false },
        0x6D => OpcodeInfo { mnemonic: Mnemonic::ADC, mode: AddrMode::Absolute, cycles: 4, page_penalty: false },
        0x6E => OpcodeInfo { mnemonic: Mnemonic::ROR, mode: AddrMode::Absolute, cycles: 6, page_penalty: false },
        0x6F => OpcodeInfo { mnemonic: Mnemonic::RRA, mode: AddrMode::Absolute, cycles: 6, page_penalty: false },
        0x70 => OpcodeInfo { mnemonic: Mnemonic::BVS, mode: AddrMode::Relative, cycles: 2, page_penalty: false },
        0x71 => OpcodeInfo { mnemonic: Mnemonic::ADC, mode: AddrMode::IndirectY, cycles: 5, page_penalty: true },
        0x73 => OpcodeInfo { mnemonic: Mnemonic::RRA, mode: AddrMode::IndirectY, cycles: 8, page_penalty: false },
        0x75 => OpcodeInfo { mnemonic: Mnemonic::ADC, mode: AddrMode::ZeroPageX, cycles: 4, page_penalty: false },
        0x76 => OpcodeInfo { mnemonic: Mnemonic::ROR, mode: AddrMode::ZeroPageX, cycles: 6, page_penalty: false },
        0x77 => OpcodeInfo { mnemonic: Mnemonic::RRA, mode: AddrMode::ZeroPageX, cycles: 6, page_penalty: false },
        0x78 => OpcodeInfo { mnemonic: Mnemonic::SEI, mode: AddrMode::Implied, cycles: 2, page_penalty: false },
        0x79 => OpcodeInfo { mnemonic: Mnemonic::ADC, mode: AddrMode::AbsoluteY, cycles: 4, page_penalty: true },
        0x7B => OpcodeInfo { mnemonic: Mnemonic::RRA, mode: AddrMode::AbsoluteY, cycles: 7, page_penalty: false },
        0x7D => OpcodeInfo { mnemonic: Mnemonic::ADC, mode: AddrMode::AbsoluteX, cycles: 4, page_penalty: true },
        0x7E => OpcodeInfo { mnemonic: Mnemonic::ROR, mode: AddrMode::AbsoluteX, cycles: 7, page_penalty: false },
        0x7F => OpcodeInfo { mnemonic: Mnemonic::RRA, mode: AddrMode::AbsoluteX, cycles: 7, page_penalty: false },
        0x81 => OpcodeInfo { mnemonic: Mnemonic::STA, mode: AddrMode::IndirectX, cycles: 6, page_penalty: false },
        0x83 => OpcodeInfo { mnemonic: Mnemonic::SAX, mode: AddrMode::IndirectX, cycles: 6, page_penalty: false },
        0x84 => OpcodeInfo { mnemonic: Mnemonic::STY, mode: AddrMode::ZeroPage, cycles: 3, page_penalty: false },
        0x85 => OpcodeInfo { mnemonic: Mnemonic::STA, mode: AddrMode::ZeroPage, cycles: 3, page_penalty: false },
        0x86 => OpcodeInfo { mnemonic: Mnemonic::STX, mode: AddrMode::ZeroPage, cycles: 3, page_penalty: false },
        0x87 => OpcodeInfo { mnemonic: Mnemonic::SAX, mode: AddrMode::ZeroPage, cycles: 3, page_penalty: false },
        0x88 => OpcodeInfo { mnemonic: Mnemonic::DEY, mode: AddrMode::Implied, cycles: 2, page_penalty: false },
        0x8A => OpcodeInfo { mnemonic: Mnemonic::TXA, mode: AddrMode::Implied, cycles: 2, page_penalty: false },
        0x8C => OpcodeInfo { mnemonic: Mnemonic::STY, mode: AddrMode::Absolute, cycles: 4, page_penalty: false },
        0x8D => OpcodeInfo { mnemonic: Mnemonic::STA, mode: AddrMode::Absolute, cycles: 4, page_penalty: false },
        0x8E => OpcodeInfo { mnemonic: Mnemonic::STX, mode: AddrMode::Absolute, cycles: 4, page_penalty: false },
        0x8F => OpcodeInfo { mnemonic: Mnemonic::SAX, mode: AddrMode::Absolute, cycles: 4, page_penalty: false },
        0x90 => OpcodeInfo { mnemonic: Mnemonic::BCC, mode: AddrMode::Relative, cycles: 2, page_penalty: false },
        0x91 => OpcodeInfo { mnemonic: Mnemonic::STA, mode: AddrMode::IndirectY, cycles: 6, page_penalty: false },
        0x94 => OpcodeInfo { mnemonic: Mnemonic::STY, mode: AddrMode::ZeroPageX, cycles: 4, page_penalty: false },
        0x95 => OpcodeInfo { mnemonic: Mnemonic::STA, mode: AddrMode::ZeroPageX, cycles: 4, page_penalty: false },
        0x96 => OpcodeInfo { mnemonic: Mnemonic::STX, mode: AddrMode::ZeroPageY, cycles: 4, page_penalty: false },
        0x97 => OpcodeInfo { mnemonic: Mnemonic::SAX, mode: AddrMode::ZeroPageY, cycles: 4, page_penalty: false },
        0x98 => OpcodeInfo { mnemonic: Mnemonic::TYA, mode: AddrMode::Implied, cycles: 2, page_penalty: false },
        0x99 => OpcodeInfo { mnemonic: Mnemonic::STA, mode: AddrMode::AbsoluteY, cycles: 5, page_penalty: false },
        0x9A => OpcodeInfo { mnemonic: Mnemonic::TXS, mode: AddrMode::Implied, cycles: 2, page_penalty: false },
        0x9D => OpcodeInfo { mnemonic: Mnemonic::STA, mode: AddrMode::AbsoluteX, cycles: 5, page_penalty: false },
        0xA0 => OpcodeInfo { mnemonic: Mnemonic::LDY, mode: AddrMode::Immediate, cycles: 2, page_penalty: false },
        0xA1 => OpcodeInfo { mnemonic: Mnemonic::LDA, mode: AddrMode::IndirectX, cycles: 6, page_penalty: false },
        0xA2 => OpcodeInfo { mnemonic: Mnemonic::LDX, mode: AddrMode::Immediate, cycles: 2, page_penalty: false },
        0xA3 => OpcodeInfo { mnemonic: Mnemonic::LAX, mode: AddrMode::IndirectX, cycles: 6, page_penalty: false },
        0xA4 => OpcodeInfo { mnemonic: Mnemonic::LDY, mode: AddrMode::ZeroPage, cycles: 3, page_penalty: false },
        0xA5 => OpcodeInfo { mnemonic: Mnemonic::LDA, mode: AddrMode::ZeroPage, cycles: 3, page_penalty: false },
        0xA6 => OpcodeInfo { mnemonic: Mnemonic::LDX, mode: AddrMode::ZeroPage, cycles: 3, page_penalty: false },
        0xA7 => OpcodeInfo { mnemonic: Mnemonic::LAX, mode: AddrMode::ZeroPage, cycles: 3, page_penalty: false },
        0xA8 => OpcodeInfo { mnemonic: Mnemonic::TAY, mode: AddrMode::Implied, cycles: 2, page_penalty: false },
        0xA9 => OpcodeInfo { mnemonic: Mnemonic::LDA, mode: AddrMode::Immediate, cycles: 2, page_penalty: false },
        0xAA => OpcodeInfo { mnemonic: Mnemonic::TAX, mode: AddrMode::Implied, cycles: 2, page_penalty: false },
        0xAC => OpcodeInfo { mnemonic: Mnemonic::LDY, mode: AddrMode::Absolute, cycles: 4, page_penalty: false },
        0xAD => OpcodeInfo { mnemonic: Mnemonic::LDA, mode: AddrMode::Absolute, cycles: 4, page_penalty: false },
        0xAE => OpcodeInfo { mnemonic: Mnemonic::LDX, mode: AddrMode::Absolute, cycles: 4, page_penalty: false },
        0xAF => OpcodeInfo { mnemonic: Mnemonic::LAX, mode: AddrMode::Absolute, cycles: 4, page_penalty: false },
        0xB0 => OpcodeInfo { mnemonic: Mnemonic::BCS, mode: AddrMode::Relative, cycles: 2, page_penalty: false },
        0xB1 => OpcodeInfo { mnemonic: Mnemonic::LDA, mode: AddrMode::IndirectY, cycles: 5, page_penalty: true },
        0xB3 => OpcodeInfo { mnemonic: Mnemonic::LAX, mode: AddrMode::IndirectY, cycles: 5, page_penalty: true },
        0xB4 => OpcodeInfo { mnemonic: Mnemonic::LDY, mode: AddrMode::ZeroPageX, cycles: 4, page_penalty: false },
        0xB5 => OpcodeInfo { mnemonic: Mnemonic::LDA, mode: AddrMode::ZeroPageX, cycles: 4, page_penalty: false },
        0xB6 => OpcodeInfo { mnemonic: Mnemonic::LDX, mode: AddrMode::ZeroPageY, cycles: 4, page_penalty: false },
        0xB7 => OpcodeInfo { mnemonic: Mnemonic::LAX, mode: AddrMode::ZeroPageY, cycles: 4, page_penalty: false },
        0xB8 => OpcodeInfo { mnemonic: Mnemonic::CLV, mode: AddrMode::Implied, cycles: 2, page_penalty: false },
        0xB9 => OpcodeInfo { mnemonic: Mnemonic::LDA, mode: AddrMode::AbsoluteY, cycles: 4, page_penalty: true },
        0xBA => OpcodeInfo { mnemonic: Mnemonic::TSX, mode: AddrMode::Implied, cycles: 2, page_penalty: false },
        0xBC => OpcodeInfo { mnemonic: Mnemonic::LDY, mode: AddrMode::AbsoluteX, cycles: 4, page_penalty: true },
        0xBD => OpcodeInfo { mnemonic: Mnemonic::LDA, mode: AddrMode::AbsoluteX, cycles: 4, page_penalty: true },
        0xBE => OpcodeInfo { mnemonic: Mnemonic::LDX, mode: AddrMode::AbsoluteY, cycles: 4, page_penalty: true },
        0xBF => OpcodeInfo { mnemonic: Mnemonic::LAX, mode: AddrMode::AbsoluteY, cycles: 4, page_penalty: true },
        0xC0 => OpcodeInfo { mnemonic: Mnemonic::CPY, mode: AddrMode::Immediate, cycles: 2, page_penalty: false },
        0xC1 => OpcodeInfo { mnemonic: Mnemonic::CMP, mode: AddrMode::IndirectX, cycles: 6, page_penalty: false },
        0xC3 => OpcodeInfo { mnemonic: Mnemonic::DCP, mode: AddrMode::IndirectX, cycles: 8, page_penalty: false },
        0xC4 => OpcodeInfo { mnemonic: Mnemonic::CPY, mode: AddrMode::ZeroPage, cycles: 3, page_penalty: false },
        0xC5 => OpcodeInfo { mnemonic: Mnemonic::CMP, mode: AddrMode::ZeroPage, cycles: 3, page_penalty: false },
        0xC6 => OpcodeInfo { mnemonic: Mnemonic::DEC, mode: AddrMode::ZeroPage, cycles: 5, page_penalty: false },
        0xC7 => OpcodeInfo { mnemonic: Mnemonic::DCP, mode: AddrMode::ZeroPage, cycles: 5, page_penalty: false },
        0xC8 => OpcodeInfo { mnemonic: Mnemonic::INY, mode: AddrMode::Implied, cycles: 2, page_penalty: false },
        0xC9 => OpcodeInfo { mnemonic: Mnemonic::CMP, mode: AddrMode::Immediate, cycles: 2, page_penalty: false },
        0xCA => OpcodeInfo { mnemonic: Mnemonic::DEX, mode: AddrMode::Implied, cycles: 2, page_penalty: false },
        0xCC => OpcodeInfo { mnemonic: Mnemonic::CPY, mode: AddrMode::Absolute, cycles: 4, page_penalty: false },
        0xCD => OpcodeInfo { mnemonic: Mnemonic::CMP, mode: AddrMode::Absolute, cycles: 4, page_penalty: false },
        0xCE => OpcodeInfo { mnemonic: Mnemonic::DEC, mode: AddrMode::Absolute, cycles: 6, page_penalty: false },
        0xCF => OpcodeInfo { mnemonic: Mnemonic::DCP, mode: AddrMode::Absolute, cycles: 6, page_penalty: false },
        0xD0 => OpcodeInfo { mnemonic: Mnemonic::BNE, mode: AddrMode::Relative, cycles: 2, page_penalty: false },
        0xD1 => OpcodeInfo { mnemonic: Mnemonic::CMP, mode: AddrMode::IndirectY, cycles: 5, page_penalty: true },
        0xD3 => OpcodeInfo { mnemonic: Mnemonic::DCP, mode: AddrMode::IndirectY, cycles: 8, page_penalty: false },
        0xD5 => OpcodeInfo { mnemonic: Mnemonic::CMP, mode: AddrMode::ZeroPageX, cycles: 4, page_penalty: false },
        0xD6 => OpcodeInfo { mnemonic: Mnemonic::DEC, mode: AddrMode::ZeroPageX, cycles: 6, page_penalty: false },
        0xD7 => OpcodeInfo { mnemonic: Mnemonic::DCP, mode: AddrMode::ZeroPageX, cycles: 6, page_penalty: false },
        0xD8 => OpcodeInfo { mnemonic: Mnemonic::CLD, mode: AddrMode::Implied, cycles: 2, page_penalty: false },
        0xD9 => OpcodeInfo { mnemonic: Mnemonic::CMP, mode: AddrMode::AbsoluteY, cycles: 4, page_penalty: true },
        0xDB => OpcodeInfo { mnemonic: Mnemonic::DCP, mode: AddrMode::AbsoluteY, cycles: 7, page_penalty: false },
        0xDD => OpcodeInfo { mnemonic: Mnemonic::CMP, mode: AddrMode::AbsoluteX, cycles: 4, page_penalty: true },
        0xDE => OpcodeInfo { mnemonic: Mnemonic::DEC, mode: AddrMode::AbsoluteX, cycles: 7, page_penalty: false },
        0xDF => OpcodeInfo { mnemonic: Mnemonic::DCP, mode: AddrMode::AbsoluteX, cycles: 7, page_penalty: false },
        0xE0 => OpcodeInfo { mnemonic: Mnemonic::CPX, mode: AddrMode::Immediate, cycles: 2, page_penalty: false },
        0xE1 => OpcodeInfo { mnemonic: Mnemonic::SBC, mode: AddrMode::IndirectX, cycles: 6, page_penalty: false },
        0xE3 => OpcodeInfo { mnemonic: Mnemonic::ISC, mode: AddrMode::IndirectX, cycles: 8, page_penalty: false },
        0xE4 => OpcodeInfo { mnemonic: Mnemonic::CPX, mode: AddrMode::ZeroPage, cycles: 3, page_penalty: false },
        0xE5 => OpcodeInfo { mnemonic: Mnemonic::SBC, mode: AddrMode::ZeroPage, cycles: 3, page_penalty: false },
        0xE6 => OpcodeInfo { mnemonic: Mnemonic::INC, mode: AddrMode::ZeroPage, cycles: 5, page_penalty: false },
        0xE7 => OpcodeInfo { mnemonic: Mnemonic::ISC, mode: AddrMode::ZeroPage, cycles: 5, page_penalty: false },
        0xE8 => OpcodeInfo { mnemonic: Mnemonic::INX, mode: AddrMode::Implied, cycles: 2, page_penalty: false },
        0xE9 => OpcodeInfo { mnemonic: Mnemonic::SBC, mode: AddrMode::Immediate, cycles: 2, page_penalty: false },
        0xEA => OpcodeInfo { mnemonic: Mnemonic::NOP, mode: AddrMode::Implied, cycles: 2, page_penalty: false },
        0xEC => OpcodeInfo { mnemonic: Mnemonic::CPX, mode: AddrMode::Absolute, cycles: 4, page_penalty: false },
        0xED => OpcodeInfo { mnemonic: Mnemonic::SBC, mode: AddrMode::Absolute, cycles: 4, page_penalty: false },
        0xEE => OpcodeInfo { mnemonic: Mnemonic::INC, mode: AddrMode::Absolute, cycles: 6, page_penalty: false },
        0xEF => OpcodeInfo { mnemonic: Mnemonic::ISC, mode: AddrMode::Absolute, cycles: 6, page_penalty: false },
        0xF0 => OpcodeInfo { mnemonic: Mnemonic::BEQ, mode: AddrMode::Relative, cycles: 2, page_penalty: false },
        0xF1 => OpcodeInfo { mnemonic: Mnemonic::SBC, mode: AddrMode::IndirectY, cycles: 5, page_penalty: true },
        0xF3 => OpcodeInfo { mnemonic: Mnemonic::ISC, mode: AddrMode::IndirectY, cycles: 8, page_penalty: false },
        0xF5 => OpcodeInfo { mnemonic: Mnemonic::SBC, mode: AddrMode::ZeroPageX, cycles: 4, page_penalty: false },
        0xF6 => OpcodeInfo { mnemonic: Mnemonic::INC, mode: AddrMode::ZeroPageX, cycles: 6, page_penalty: false },
        0xF7 => OpcodeInfo { mnemonic: Mnemonic::ISC, mode: AddrMode::ZeroPageX, cycles: 6, page_penalty: false },
        0xF8 => OpcodeInfo { mnemonic: Mnemonic::SED, mode: AddrMode::Implied, cycles: 2, page_penalty: false },
        0xF9 => OpcodeInfo { mnemonic: Mnemonic::SBC, mode: AddrMode::AbsoluteY, cycles: 4, page_penalty: true },
        0xFB => OpcodeInfo { mnemonic: Mnemonic::ISC, mode: AddrMode::AbsoluteY, cycles: 7, page_penalty: false },
        0xFD => OpcodeInfo { mnemonic: Mnemonic::SBC, mode: AddrMode::AbsoluteX, cycles: 4, page_penalty: true },
        0xFE => OpcodeInfo { mnemonic: Mnemonic::INC, mode: AddrMode::AbsoluteX, cycles: 7, page_penalty: false },
        0xFF => OpcodeInfo { mnemonic: Mnemonic::ISC, mode: AddrMode::AbsoluteX, cycles: 7, page_penalty: false },
        _ => ill(),
    }
}

/// The three letters of a mnemonic.
pub open spec fn mnemonic_name(m: Mnemonic) -> Seq<char> {
    match m {
        Mnemonic::ADC => seq!['A', 'D', 'C'],
        Mnemonic::AND => seq!['A', 'N', 'D'],
        Mnemonic::ASL => seq!['A', 'S', 'L'],
        Mnemonic::BCC => seq!['B', 'C', 'C'],
        Mnemonic::BCS => seq!['B', 'C', 'S'],
        Mnemonic::BEQ => seq!['B', 'E', 'Q'],
        Mnemonic::BIT => seq!['B', 'I', 'T'],
        Mnemonic::BMI => seq!['B', 'M', 'I'],
        Mnemonic::BNE => seq!['B', 'N', 'E'],
        Mnemonic::BPL => seq!['B', 'P', 'L'],
        Mnemonic::BRK => seq!['B', 'R', 'K'],
        Mnemonic::BVC => seq!['B', 'V', 'C'],
        Mnemonic::BVS => seq!['B', 'V', 'S'],
        Mnemonic::CLC => seq!['C', 'L', 'C'],
        Mnemonic::CLD => seq!['C', 'L', 'D'],
        Mnemonic::CLI => seq!['C', 'L', 'I'],
        Mnemonic::CLV => seq!['C', 'L', 'V'],
        Mnemonic::CMP => seq!['C', 'M', 'P'],
        Mnemonic::CPX => seq!['C', 'P', 'X'],
        Mnemonic::CPY => seq!['C', 'P', 'Y'],
        Mnemonic::DEC => seq!['D', 'E', 'C'],
        Mnemonic::DEX => seq!['D', 'E', 'X'],
        Mnemonic::DEY => seq!['D', 'E', 'Y'],
        Mnemonic::EOR => seq!['E', 'O', 'R'],
        Mnemonic::INC => seq!['I', 'N', 'C'],
        Mnemonic::INX => seq!['I', 'N', 'X'],
        Mnemonic::INY => seq!['I', 'N', 'Y'],
        Mnemonic::JMP => seq!['J', 'M', 'P'],
        Mnemonic::JSR => seq!['J', 'S', 'R'],
        Mnemonic::LDA => seq!['L', 'D', 'A'],
        Mnemonic::LDX => seq!['L', 'D', 'X'],
        Mnemonic::LDY => seq!['L', 'D', 'Y'],
        Mnemonic::LSR => seq!['L', 'S', 'R'],
        Mnemonic::NOP => seq!['N', 'O', 'P'],
        Mnemonic::ORA => seq!['O', 'R', 'A'],
        Mnemonic::PHA => seq!['P', 'H', 'A'],
        Mnemonic::PHP => seq!['P', 'H', 'P'],
        Mnemonic::PLA => seq!['P', 'L', 'A'],
        Mnemonic::PLP => seq!['P', 'L', 'P'],
        Mnemonic::ROL => seq!['R', 'O', 'L'],
        Mnemonic::ROR => seq!['R', 'O', 'R'],
        Mnemonic::RTI => seq!['R', 'T', 'I'],
        Mnemonic::RTS => seq!['R', 'T', 'S'],
        Mnemonic::SBC => seq!['S', 'B', 'C'],
        Mnemonic::SEC => seq!['S', 'E', 'C'],
        Mnemonic::SED => seq!['S', 'E', 'D'],
        Mnemonic::SEI => seq!['S', 'E', 'I'],
        Mnemonic::STA => seq!['S', 'T', 'A'],
        Mnemonic::STX => seq!['S', 'T', 'X'],
        Mnemonic::STY => seq!['S', 'T', 'Y'],
        Mnemonic::TAX => seq!['T', 'A', 'X'],
        Mnemonic::TAY => seq!['T', 'A', 'Y'],
        Mnemonic::TSX => seq!['T', 'S', 'X'],
        Mnemonic::TXA => seq!['T', 'X', 'A'],
        Mnemonic::TXS => seq!['T', 'X', 'S'],
        Mnemonic::TYA => seq!['T', 'Y', 'A'],
        Mnemonic::LAX => seq!['L', 'A', 'X'],
        Mnemonic::SAX => seq!['S', 'A', 'X'],
        Mnemonic::DCP => seq!['D', 'C', 'P'],
        Mnemonic::ISC => seq!['I', 'S', 'C'],
        Mnemonic::SLO => seq!['S', 'L', 'O'],
        Mnemonic::RLA => seq!['R', 'L', 'A'],
        Mnemonic::SRE => seq!['S', 'R', 'E'],
        Mnemonic::RRA => seq!['R', 'R', 'A'],
        Mnemonic::ILL => seq!['I', 'L', 'L'],
    }
}

/// The three letters of a mnemonic.
pub fn mnemonic_letters(m: Mnemonic) -> (r: (char, char, char))
    ensures
        seq![r.0, r.1, r.2] == mnemonic_name(m),
{
    match m {
        Mnemonic::ADC => ('A', 'D', 'C'),
        Mnemonic::AND => ('A', 'N', 'D'),
        Mnemonic::ASL => ('A', 'S', 'L'),
        Mnemonic::BCC => ('B', 'C', 'C'),
        Mnemonic::BCS => ('B', 'C', 'S'),
        Mnemonic::BEQ => ('B', 'E', 'Q'),
        Mnemonic::BIT => ('B', 'I', 'T'),
        Mnemonic::BMI => ('B', 'M', 'I'),
        Mnemonic::BNE => ('B', 'N', 'E'),
        Mnemonic::BPL => ('B', 'P', 'L'),
        Mnemonic::BRK => ('B', 'R', 'K'),
        Mnemonic::BVC => ('B', 'V', 'C'),
        Mnemonic::BVS => ('B', 'V', 'S'),
        Mnemonic::CLC => ('C', 'L', 'C'),
        Mnemonic::CLD => ('C', 'L', 'D'),
        Mnemonic::CLI => ('C', 'L', 'I'),
        Mnemonic::CLV => ('C', 'L', 'V'),
        Mnemonic::CMP => ('C', 'M', 'P'),
        Mnemonic::CPX => ('C', 'P', 'X'),
        Mnemonic::CPY => ('C', 'P', 'Y'),
        Mnemonic::DEC => ('D', 'E', 'C'),
        Mnemonic::DEX => ('D', 'E', 'X'),
        Mnemonic::DEY => ('D', 'E', 'Y'),
        Mnemonic::EOR => ('E', 'O', 'R'),
        Mnemonic::INC => ('I', 'N', 'C'),
        Mnemonic::INX => ('I', 'N', 'X'),
        Mnemonic::INY => ('I', 'N', 'Y'),
        Mnemonic::JMP => ('J', 'M', 'P'),
        Mnemonic::JSR => ('J', 'S', 'R'),
        Mnemonic::LDA => ('L', 'D', 'A'),
        Mnemonic::LDX => ('L', 'D', 'X'),
        Mnemonic::LDY => ('L', 'D', 'Y'),
        Mnemonic::LSR => ('L', 'S', 'R'),
        Mnemonic::NOP => ('N', 'O', 'P'),
        Mnemonic::ORA => ('O', 'R', 'A'),
        Mnemonic::PHA => ('P', 'H', 'A'),
        Mnemonic::PHP => ('P', 'H', 'P'),
        Mnemonic::PLA => ('P', 'L', 'A'),
        Mnemonic::PLP => ('P', 'L', 'P'),
        Mnemonic::ROL => ('R', 'O', 'L'),
        Mnemonic::ROR => ('R', 'O', 'R'),
        Mnemonic::RTI => ('R', 'T', 'I'),
        Mnemonic::RTS => ('R', 'T', 'S'),
        Mnemonic::SBC => ('S', 'B', 'C'),
        Mnemonic::SEC => ('S', 'E', 'C'),
        Mnemonic::SED => ('S', 'E', 'D'),
        Mnemonic::SEI => ('S', 'E', 'I'),
        Mnemonic::STA => ('S', 'T', 'A'),
        Mnemonic::STX => ('S', 'T', 'X'),
        Mnemonic::STY => ('S', 'T', 'Y'),
        Mnemonic::TAX => ('T', 'A', 'X'),
        Mnemonic::TAY => ('T', 'A', 'Y'),
        Mnemonic::TSX => ('T', 'S', 'X'),
        Mnemonic::TXA => ('T', 'X', 'A'),
        Mnemonic::TXS => ('T', 'X', 'S'),
        Mnemonic::TYA => ('T', 'Y', 'A'),
        Mnemonic::LAX => ('L', 'A', 'X'),
        Mnemonic::SAX => ('S', 'A', 'X'),
        Mnemonic::DCP => ('D', 'C', 'P'),
        Mnemonic::ISC => ('I', 'S', 'C'),
        Mnemonic::SLO => ('S', 'L', 'O'),
        Mnemonic::RLA => ('R', 'L', 'A'),
        Mnemonic::SRE => ('S', 'R', 'E'),
        Mnemonic::RRA => ('R', 'R', 'A'),
        Mnemonic::ILL => ('I', 'L', 'L'),
    }
}

} // verus!
