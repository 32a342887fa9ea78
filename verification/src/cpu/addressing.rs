//! Addressing modes and resolved operands.

use vstd::prelude::*;

verus! {

/// The 13 NMOS 6502 addressing modes.
#[derive(Clone, Copy, Debug, PartialEq, Eq, Structural)]
pub enum AddrMode {
    Implied,
    Accumulator,
    Immediate,
    ZeroPage,
    ZeroPageX,
    ZeroPageY,
    Absolute,
    AbsoluteX,
    AbsoluteY,
    Indirect,
    IndirectX,
    IndirectY,
    Relative,
}

/// What an addressing mode resolves to.
#[derive(Clone, Copy, Debug)]
pub enum Operand {
    Empty,
    /// Branch offset byte (relative mode).
    Byte(u8),
    /// Effective address.
    Address(u16),
}

/// A resolved operand and whether indexing crossed a page.
#[derive(Clone, Copy, Debug)]
pub struct Resolved {
    pub operand: Operand,
    pub page_crossed: bool,
}

} // verus!
