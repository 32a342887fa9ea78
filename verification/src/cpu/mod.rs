//! NMOS 6502 CPU core.

pub mod addressing;
pub mod disasm;
pub mod footprint;
pub mod laws;
pub mod opcodes;
pub mod semantics;
pub mod status;
pub mod trace;

use vstd::prelude::*;
use crate::bus::{Bus, mem_at, word_at, wrap16, wrap8, read_word, read_word_page_wrap, make_word, view_now, word_rel, page_wrap_next};
use trace::{fetch_rel, fetch_word_rel, push_rel, push_word_rel, pull_rel, pull_word_rel, resolve_rel, operand_rel, rmw_rel, control_rel, execute_rel, interrupt_rel, instruction_rel, step_rel, steps_rel, lemma_steps_zero, lemma_steps_extend};
use footprint::{step_fits, zero_page_fits, absolute_fits, indirect_fits, indirect_x_fits, indirect_y_fits, resolve_fits, operand_fits, rmw_fits, load_store_fits, pushes_fit, pulls_fit, control_fits, execute_fits, interrupt_fits};
use addressing::{AddrMode, Operand, Resolved};
use opcodes::{Mnemonic, opcode_info, opcode_table, is_branch};
use status::{Status, Flag, C, D, I, N, V, Z, with_flag, push_byte, pull_byte};
use semantics::{crosses, incdec_res, zero_page_spec, absolute_spec, indirect_spec, indirect_x_spec, indirect_y_spec, step_spec, resolve_spec, operand_val, operand_addr, push_spec, push_word_spec, pull_spec, pull_word_spec, execute_spec, interrupt_spec, load_store_spec, alu_spec, shift_spec, combined_spec, incdec_mem_spec, incdec_reg_spec, sbc_bcd_result, register_spec, control_spec, branch_spec, adc_spec, adc_binary_spec, adc_bcd_spec, sbc_spec, sbc_bcd_spec, compare_spec, shift_val, carry_in, signed8, with_p};

verus! {

/// Registers and interrupt lines of the CPU, with a running cycle count.
#[derive(Clone, Copy, Debug)]
pub struct Cpu {
    pub a: u8,
    pub x: u8,
    pub y: u8,
    pub sp: u8,
    pub pc: u16,
    pub p: Status,
    pub cycles: u64,
    pub irq_pending: bool,
    pub nmi_pending: bool,
}

/// The bus keeps its invariant.
pub open spec fn keeps_inv<B: Bus>(before: B, after: B) -> bool {
    before.inv() ==> after.inv()
}

/// Whether every access of a step from `c` is plain on bus `b`.
pub open spec fn bus_fits_step<B: Bus>(b: B, c: Cpu) -> bool {
    step_fits(b.plain_reads(), b.plain_writes(), c, b.memory())
}

/// Whether every step that a run of `target` cycles from `c` makes is plain
/// on bus `b` (whose plain addresses such steps do not change).
pub open spec fn run_fits<B: Bus>(b: B, c: Cpu, target: u64) -> bool {
    forall|k: nat| #[trigger] steps_spec(c, b.memory(), k).0.cycles < c.cycles + target ==> step_fits(
        b.plain_reads(),
        b.plain_writes(),
        steps_spec(c, b.memory(), k).0,
        steps_spec(c, b.memory(), k).1,
    )
}

/// Whether every step that a run from `c` bounded by `max_cycles` and
/// stopping at `stop_pc` makes is plain on bus `b`.
pub open spec fn run_until_fits<B: Bus>(b: B, c: Cpu, max_cycles: u64, stop_pc: u16) -> bool {
    forall|k: nat| #[trigger] steps_spec(c, b.memory(), k).0.cycles < c.cycles + max_cycles
        && steps_spec(c, b.memory(), k).0.pc != stop_pc ==> step_fits(
        b.plain_reads(),
        b.plain_writes(),
        steps_spec(c, b.memory(), k).0,
        steps_spec(c, b.memory(), k).1,
    )
}

/// The CPU after a reset to `vector`: registers clear, SP = $FD, only U
/// and I set, no pending interrupt, the cycle count kept.
pub open spec fn reset_state(c: Cpu, vector: u16) -> Cpu {
    Cpu {
        a: 0,
        x: 0,
        y: 0,
        sp: 0xFD,
        pc: vector,
        p: Status(with_flag(0x20, Flag::I, true)),
        cycles: c.cycles,
        irq_pending: false,
        nmi_pending: false,
    }
}

/// Whether `mn` is one of the mnemonics of a group.
pub open spec fn is_load_store(mn: Mnemonic) -> bool {
    mn == Mnemonic::LDA || mn == Mnemonic::LDX || mn == Mnemonic::LDY || mn == Mnemonic::LAX
    || mn == Mnemonic::STA || mn == Mnemonic::STX || mn == Mnemonic::STY || mn == Mnemonic::SAX
}

pub open spec fn is_alu(mn: Mnemonic) -> bool {
    mn == Mnemonic::ADC || mn == Mnemonic::SBC || mn == Mnemonic::CMP || mn == Mnemonic::CPX
    || mn == Mnemonic::CPY || mn == Mnemonic::AND || mn == Mnemonic::ORA || mn == Mnemonic::EOR
    || mn == Mnemonic::BIT
}

pub open spec fn is_shift(mn: Mnemonic) -> bool {
    mn == Mnemonic::ASL || mn == Mnemonic::LSR || mn == Mnemonic::ROL || mn == Mnemonic::ROR
}

pub open spec fn is_combined(mn: Mnemonic) -> bool {
    mn == Mnemonic::SLO || mn == Mnemonic::RLA || mn == Mnemonic::SRE || mn == Mnemonic::RRA
}


pub open spec fn is_control(mn: Mnemonic) -> bool {
    mn == Mnemonic::PHA || mn == Mnemonic::PHP || mn == Mnemonic::PLA || mn == Mnemonic::PLP
    || mn == Mnemonic::JMP || mn == Mnemonic::JSR || mn == Mnemonic::RTS || mn == Mnemonic::RTI
    || mn == Mnemonic::BRK
}

/// `n` steps of the CPU from state `c` and memory `m`.
pub open spec fn steps_spec(c: Cpu, m: Seq<u8>, n: nat) -> (Cpu, Seq<u8>)
    decreases n,
{
    if n == 0 {
        (c, m)
    } else {
        let (c1, m1) = steps_spec(c, m, (n - 1) as nat);
        let (c2, m2, _) = step_spec(c1, m1);
        (c2, m2)
    }
}

/// `n` steps from `c` are exactly what a run of `target` cycles performs:
/// before each of them fewer than `target` cycles had elapsed, after the
/// last at least `target` have.
pub open spec fn run_stops_after(c: Cpu, m: Seq<u8>, target: u64, n: nat) -> bool {
    &&& forall|k: nat| k < n ==> (#[trigger] steps_spec(c, m, k)).0.cycles < c.cycles + target
    &&& steps_spec(c, m, n).0.cycles >= c.cycles + target
}

impl Cpu {
    /// Power-on state: registers zero, SP = $FD, only U set in P.
    pub fn new() -> (cpu: Self)
        ensures
            cpu.a == 0 && cpu.x == 0 && cpu.y == 0,
            cpu.sp == 0xFD,
            cpu.pc == 0,
            cpu.p.0 == 0x20,
            cpu.cycles == 0,
            !cpu.irq_pending && !cpu.nmi_pending,
    {
        Cpu {
            a: 0,
            x: 0,
            y: 0,
            sp: 0xFD,
            pc: 0,
            p: Status::new(),
            cycles: 0,
            irq_pending: false,
            nmi_pending: false,
        }
    }

    /// Program counter.
    pub fn pc(&self) -> (r: u16)
        ensures
            r == self.pc,
    {
        self.pc
    }

    /// Set the program counter.
    pub fn set_pc(&mut self, pc: u16)
        ensures
            *final(self) == (Cpu { pc, ..*old(self) }),
    {
        self.pc = pc;
    }

    /// Total cycles executed.
    pub fn cycles(&self) -> (r: u64)
        ensures
            r == self.cycles,
    {
        self.cycles
    }

    /// Reset: clear registers, set SP = $FD and I, load PC from the reset
    /// vector at $FFFC, drop pending interrupts. The cycle count is kept.
    pub fn reset<B: Bus>(&mut self, bus: &mut B)
        ensures
            *final(self) == reset_state(*old(self), final(self).pc),
            word_rel(*old(bus), *final(bus), 0xFFFC, 0xFFFD, final(self).pc),
            keeps_inv(*old(bus), *final(bus)),
            old(bus).plain_reads().contains(0xFFFC) && old(bus).plain_reads().contains(0xFFFD) ==> {
                &&& final(self).pc == word_at(old(bus).memory(), 0xFFFC, 0xFFFD)
                &&& view_now(*old(bus), *final(bus), old(bus).memory())
            },
    {
        let vector = read_word(bus, 0xFFFC);
        self.reset_to(vector);
    }

    /// The register part of a reset, with `vector` as the new PC.
    pub fn reset_to(&mut self, vector: u16)
        ensures
            *final(self) == reset_state(*old(self), vector),
    {
        self.a = 0;
        self.x = 0;
        self.y = 0;
        self.sp = 0xFD;
        self.p = Status::new();
        self.p.set(I, true);
        self.pc = vector;
        self.irq_pending = false;
        self.nmi_pending = false;
    }

    /// Execute one instruction (or enter a pending interrupt) and return
    /// the cycles consumed, which are also added to the cycle count.
    pub fn step<B: Bus>(&mut self, bus: &mut B) -> (cycles: u32)
        requires
            old(self).cycles <= u64::MAX - 16,
        ensures
            2 <= cycles <= 8,
            final(self).cycles == old(self).cycles + cycles,
            step_rel(*old(self), *old(bus), *final(self), *final(bus), cycles),
            keeps_inv(*old(bus), *final(bus)),
            bus_fits_step(*old(bus), *old(self)) ==> ({
                let (c, m, n) = step_spec(*old(self), old(bus).memory());
                &&& view_now(*old(bus), *final(bus), m)
                &&& *final(self) == c
                &&& cycles == n
            }),
    {
        proof {
            reveal(step_spec);
            reveal(step_rel);
        }
        bus.set_cycle(self.cycles);
        let ghost b0 = *bus;
        assert(old(bus).cycle_rel(b0, old(self).cycles));

        // Handle interrupts
        if self.nmi_pending {
            self.nmi_pending = false;
            return self.handle_nmi(bus);
        }
        if self.irq_pending && !self.p.get(I) {
            return self.handle_irq(bus);
        }

        let opcode = self.fetch(bus);
        let ghost c1 = *self;
        let ghost b1 = *bus;
        let info = opcode_info(opcode);
        let resolved = self.resolve(info.mode, bus);
        let ghost c3 = *self;
        let ghost b3 = *bus;

        let mut cycles = info.cycles;
        if info.page_penalty && resolved.page_crossed {
            cycles = cycles + 1;
        }

        let extra = self.execute(info.mnemonic, info.mode, &resolved, bus);
        let ghost c4 = *self;
        cycles = cycles + extra;

        self.cycles = self.cycles + cycles as u64;
        assert(fetch_rel(*old(self), b0, c1, b1, opcode));
        assert(resolve_rel(c1, b1, opcode_table(opcode).mode, c3, b3, resolved));
        assert(execute_rel(c3, b3, opcode_table(opcode).mnemonic, opcode_table(opcode).mode, resolved, c4, *bus, extra));
        assert(instruction_rel(*old(self), b0, *self, *bus, cycles));
        cycles
    }

    /// Run for at least `target_cycles` cycles. Returns total cycles executed.
    pub fn run<B: Bus>(&mut self, bus: &mut B, target_cycles: u64) -> (ran: u64)
        requires
            old(self).cycles + target_cycles <= u64::MAX - 16,
        ensures
            target_cycles <= ran < target_cycles + 8,
            target_cycles == 0 ==> ran == 0 && *final(self) == *old(self) && *final(bus) == *old(bus),
            final(self).cycles == old(self).cycles + ran,
            exists|n: nat| #[trigger] steps_rel(*old(self), *old(bus), n, old(self).cycles + target_cycles, None,
                *final(self), *final(bus)),
            keeps_inv(*old(bus), *final(bus)),
            run_fits(*old(bus), *old(self), target_cycles) ==> exists|n: nat| {
                &&& run_stops_after(*old(self), old(bus).memory(), target_cycles, n)
                &&& #[trigger] steps_spec(*old(self), old(bus).memory(), n) == (*final(self), final(bus).memory())
                &&& final(bus).plain_reads() == old(bus).plain_reads()
                &&& final(bus).plain_writes() == old(bus).plain_writes()
            },
    {
        let start = self.cycles;
        let ghost c0 = *self;
        let ghost m0 = bus.memory();
        let ghost plain = run_fits(*bus, *self, target_cycles);
        let ghost mut n: nat = 0;
        proof {
            lemma_steps_zero(c0, *bus, start + target_cycles, None);
        }
        while self.cycles - start < target_cycles
            invariant
                start == c0.cycles,
                start <= self.cycles <= start + target_cycles + 7,
                target_cycles == 0 ==> *self == *old(self) && *bus == *old(bus),
                start + target_cycles <= u64::MAX - 16,
                plain == run_fits(*old(bus), *old(self), target_cycles),
                c0 == *old(self),
                m0 == old(bus).memory(),
                old(bus).inv() ==> bus.inv(),
                plain ==> bus.plain_reads() == old(bus).plain_reads() && bus.plain_writes() == old(bus).plain_writes(),
                plain ==> steps_spec(c0, m0, n) == (*self, bus.memory()),
                plain ==> forall|k: nat| k < n ==> (#[trigger] steps_spec(c0, m0, k)).0.cycles < start + target_cycles,
                steps_rel(c0, *old(bus), n, start + target_cycles, None, *self, *bus),
            decreases start + target_cycles + 7 - self.cycles,
        {
            proof {
                if plain {
                    assert forall|k: nat| k < n + 1 implies (#[trigger] steps_spec(c0, m0, k)).0.cycles < start + target_cycles by {
                        if k == n {
                            assert(steps_spec(c0, m0, n).0 == *self);
                        }
                    }
                    assert(steps_spec(c0, m0, n).0.cycles < c0.cycles + target_cycles);
                    assert(bus_fits_step(*bus, *self));
                }
            }
            let ghost cs = *self;
            let ghost bs = *bus;
            let k = self.step(bus);
            proof {
                lemma_steps_extend(c0, *old(bus), n + 1, start + target_cycles, None, cs, bs, *self, *bus, k);
                n = n + 1;
            }
        }
        proof {
            if plain {
                assert(run_stops_after(c0, m0, target_cycles, n));
            }
        }
        self.cycles - start
    }

    /// Run until at least `max_cycles` cycles have run or the PC reaches
    /// `stop_pc` (checked before each instruction, so nothing runs when it
    /// is there already). Returns the cycles run.
    pub fn run_until<B: Bus>(&mut self, bus: &mut B, max_cycles: u64, stop_pc: u16) -> (ran: u64)
        requires
            old(self).cycles + max_cycles <= u64::MAX - 16,
        ensures
            ran < max_cycles + 8,
            max_cycles == 0 ==> ran == 0 && *final(self) == *old(self) && *final(bus) == *old(bus),
            final(self).cycles == old(self).cycles + ran,
            old(bus).inv() ==> final(bus).inv(),
            ran < max_cycles ==> final(self).pc == stop_pc,
            old(self).pc == stop_pc ==> ran == 0 && *final(self) == *old(self),
            exists|n: nat| #[trigger] steps_rel(*old(self), *old(bus), n, old(self).cycles + max_cycles, Some(stop_pc),
                *final(self), *final(bus)),
            run_until_fits(*old(bus), *old(self), max_cycles, stop_pc) ==> exists|n: nat| {
                &&& forall|k: nat| k < n ==> (#[trigger] steps_spec(*old(self), old(bus).memory(), k)).0.pc != stop_pc
                    && steps_spec(*old(self), old(bus).memory(), k).0.cycles < old(self).cycles + max_cycles
                &&& #[trigger] steps_spec(*old(self), old(bus).memory(), n) == (*final(self), final(bus).memory())
                &&& final(bus).plain_reads() == old(bus).plain_reads()
                &&& final(bus).plain_writes() == old(bus).plain_writes()
            },
    {
        let start = self.cycles;
        let ghost c0 = *self;
        let ghost m0 = bus.memory();
        let ghost plain = run_until_fits(*bus, *self, max_cycles, stop_pc);
        let ghost mut n: nat = 0;
        proof {
            lemma_steps_zero(c0, *bus, start + max_cycles, Some(stop_pc));
        }
        while self.cycles - start < max_cycles && self.pc != stop_pc
            invariant
                start == c0.cycles,
                start <= self.cycles <= start + max_cycles + 7,
                max_cycles == 0 ==> *self == *old(self) && *bus == *old(bus),
                start + max_cycles <= u64::MAX - 16,
                plain == run_until_fits(*old(bus), *old(self), max_cycles, stop_pc),
                c0 == *old(self),
                m0 == old(bus).memory(),
                c0.pc == stop_pc ==> *self == c0,
                old(bus).inv() ==> bus.inv(),
                plain ==> bus.plain_reads() == old(bus).plain_reads() && bus.plain_writes() == old(bus).plain_writes(),
                plain ==> steps_spec(c0, m0, n) == (*self, bus.memory()),
                plain ==> forall|k: nat| k < n ==> (#[trigger] steps_spec(c0, m0, k)).0.pc != stop_pc
                    && steps_spec(c0, m0, k).0.cycles < start + max_cycles,
                steps_rel(c0, *old(bus), n, start + max_cycles, Some(stop_pc), *self, *bus),
            decreases start + max_cycles + 7 - self.cycles,
        {
            proof {
                if plain {
                    assert forall|k: nat| k < n + 1 implies (#[trigger] steps_spec(c0, m0, k)).0.pc != stop_pc
                        && steps_spec(c0, m0, k).0.cycles < start + max_cycles by {
                        if k == n {
                            assert(steps_spec(c0, m0, n).0 == *self);
                        }
                    }
                    assert(steps_spec(c0, m0, n).0.cycles < c0.cycles + max_cycles);
                    assert(bus_fits_step(*bus, *self));
                }
            }
            let ghost cs = *self;
            let ghost bs = *bus;
            let k = self.step(bus);
            proof {
                lemma_steps_extend(c0, *old(bus), n + 1, start + max_cycles, Some(stop_pc), cs, bs, *self, *bus, k);
                n = n + 1;
            }
        }
        self.cycles - start
    }

    // -- Fetch --

    fn fetch<B: Bus>(&mut self, bus: &mut B) -> (val: u8)
        ensures
            fetch_rel(*old(self), *old(bus), *final(self), *final(bus), val),
            *final(self) == (Cpu { pc: wrap16(old(self).pc + 1), ..*old(self) }),
            keeps_inv(*old(bus), *final(bus)),
            zero_page_fits(old(bus).plain_reads(), *old(self)) ==> {
                &&& val == mem_at(old(bus).memory(), old(self).pc)
                &&& view_now(*old(bus), *final(bus), old(bus).memory())
            },
    {
        let val = bus.read(self.pc);
        self.pc = self.pc.wrapping_add(1);
        val
    }

    fn fetch_word<B: Bus>(&mut self, bus: &mut B) -> (val: u16)
        ensures
            fetch_word_rel(*old(self), *old(bus), *final(self), *final(bus), val),
            *final(self) == (Cpu { pc: wrap16(old(self).pc + 2), ..*old(self) }),
            keeps_inv(*old(bus), *final(bus)),
            absolute_fits(old(bus).plain_reads(), *old(self)) ==> {
                &&& val == word_at(old(bus).memory(), old(self).pc, wrap16(old(self).pc + 1))
                &&& view_now(*old(bus), *final(bus), old(bus).memory())
            },
    {
        let ghost b0 = *bus;
        let lo = self.fetch(bus);
        let ghost mid = *bus;
        let hi = self.fetch(bus);
        assert(b0.read_rel(mid, old(self).pc, lo) && mid.read_rel(*bus, wrap16(old(self).pc + 1), hi));
        make_word(lo, hi)
    }

    // -- Stack --

    fn push<B: Bus>(&mut self, bus: &mut B, val: u8)
        ensures
            push_rel(*old(self), *old(bus), *final(self), *final(bus), val),
            *final(self) == push_spec(*old(self), Seq::empty(), val).0,
            keeps_inv(*old(bus), *final(bus)),
            pushes_fit(old(bus).plain_writes(), old(self).sp, 1) ==> view_now(
                *old(bus),
                *final(bus),
                push_spec(*old(self), old(bus).memory(), val).1,
            ),
    {
        let sp = self.sp;
        assert(0x0100u16 | sp as u16 == 0x100 + sp as u16) by (bit_vector);
        bus.write(0x0100 | sp as u16, val);
        self.sp = self.sp.wrapping_sub(1);
    }

    fn push_word<B: Bus>(&mut self, bus: &mut B, val: u16)
        ensures
            push_word_rel(*old(self), *old(bus), *final(self), *final(bus), val),
            *final(self) == push_word_spec(*old(self), Seq::empty(), val).0,
            keeps_inv(*old(bus), *final(bus)),
            pushes_fit(old(bus).plain_writes(), old(self).sp, 2) ==> view_now(
                *old(bus),
                *final(bus),
                push_word_spec(*old(self), old(bus).memory(), val).1,
            ),
    {
        self.push(bus, (val / 256) as u8);
        let ghost c1 = *self;
        let ghost b1 = *bus;
        self.push(bus, (val % 256) as u8);
        assert(push_rel(*old(self), *old(bus), c1, b1, (val / 256) as u8));
    }

    fn pull<B: Bus>(&mut self, bus: &mut B) -> (val: u8)
        ensures
            pull_rel(*old(self), *old(bus), *final(self), *final(bus), val),
            *final(self) == pull_spec(*old(self), Seq::empty()).0,
            keeps_inv(*old(bus), *final(bus)),
            pulls_fit(old(bus).plain_reads(), old(self).sp, 1) ==> {
                &&& val == pull_spec(*old(self), old(bus).memory()).1
                &&& view_now(*old(bus), *final(bus), old(bus).memory())
            },
    {
        self.sp = self.sp.wrapping_add(1);
        let sp = self.sp;
        assert(0x0100u16 | sp as u16 == 0x100 + sp as u16) by (bit_vector);
        bus.read(0x0100 | sp as u16)
    }

    fn pull_word<B: Bus>(&mut self, bus: &mut B) -> (val: u16)
        ensures
            pull_word_rel(*old(self), *old(bus), *final(self), *final(bus), val),
            *final(self) == pull_word_spec(*old(self), Seq::empty()).0,
            keeps_inv(*old(bus), *final(bus)),
            pulls_fit(old(bus).plain_reads(), old(self).sp, 2) ==> {
                &&& val == pull_word_spec(*old(self), old(bus).memory()).1
                &&& view_now(*old(bus), *final(bus), old(bus).memory())
            },
    {
        let lo = self.pull(bus);
        let ghost c1 = *self;
        let ghost b1 = *bus;
        let hi = self.pull(bus);
        assert(pull_rel(*old(self), *old(bus), c1, b1, lo) && pull_rel(c1, b1, *self, *bus, hi));
        make_word(lo, hi)
    }

    // -- Addressing mode resolution --

    fn resolve<B: Bus>(&mut self, mode: AddrMode, bus: &mut B) -> (r: Resolved)
        ensures
            resolve_rel(*old(self), *old(bus), mode, *final(self), *final(bus), r),
            final(self).cycles == old(self).cycles,
            keeps_inv(*old(bus), *final(bus)),
            resolve_fits(old(bus).plain_reads(), *old(self), old(bus).memory(), mode) ==> {
                &&& (*final(self), r) == resolve_spec(*old(self), old(bus).memory(), mode)
                &&& view_now(*old(bus), *final(bus), old(bus).memory())
            },
    {
        match mode {
            AddrMode::Implied | AddrMode::Accumulator => Resolved {
                operand: Operand::Empty,
                page_crossed: false,
            },
            AddrMode::Immediate => {
                let addr = self.pc;
                self.pc = self.pc.wrapping_add(1);
                Resolved { operand: Operand::Address(addr), page_crossed: false }
            },
            AddrMode::ZeroPage => self.resolve_zero_page(0, bus),
            AddrMode::ZeroPageX => {
                let x = self.x;
                self.resolve_zero_page(x, bus)
            },
            AddrMode::ZeroPageY => {
                let y = self.y;
                self.resolve_zero_page(y, bus)
            },
            AddrMode::Absolute => self.resolve_absolute(0, bus),
            AddrMode::AbsoluteX => {
                let x = self.x;
                self.resolve_absolute(x, bus)
            },
            AddrMode::AbsoluteY => {
                let y = self.y;
                self.resolve_absolute(y, bus)
            },
            AddrMode::Indirect => self.resolve_indirect(bus),
            AddrMode::IndirectX => self.resolve_indirect_x(bus),
            AddrMode::IndirectY => self.resolve_indirect_y(bus),
            AddrMode::Relative => {
                let offset = self.fetch(bus);
                assert(fetch_rel(*old(self), *old(bus), *self, *bus, offset));
                Resolved { operand: Operand::Byte(offset), page_crossed: false }
            },
        }
    }

    fn resolve_zero_page<B: Bus>(&mut self, index: u8, bus: &mut B) -> (r: Resolved)
        ensures
            index == 0 ==> resolve_rel(*old(self), *old(bus), AddrMode::ZeroPage, *final(self), *final(bus), r),
            index == old(self).x ==> resolve_rel(*old(self), *old(bus), AddrMode::ZeroPageX, *final(self), *final(bus), r),
            index == old(self).y ==> resolve_rel(*old(self), *old(bus), AddrMode::ZeroPageY, *final(self), *final(bus), r),
            final(self).cycles == old(self).cycles,
            keeps_inv(*old(bus), *final(bus)),
            zero_page_fits(old(bus).plain_reads(), *old(self)) ==> {
                &&& (*final(self), r) == zero_page_spec(*old(self), old(bus).memory(), index)
                &&& view_now(*old(bus), *final(bus), old(bus).memory())
            },
    {
        let base = self.fetch(bus);
        assert(fetch_rel(*old(self), *old(bus), *self, *bus, base));
        let addr = base.wrapping_add(index);
        assert(addr == wrap8(base + index));
        Resolved { operand: Operand::Address(addr as u16), page_crossed: false }
    }

    fn resolve_absolute<B: Bus>(&mut self, index: u8, bus: &mut B) -> (r: Resolved)
        ensures
            index == 0 ==> resolve_rel(*old(self), *old(bus), AddrMode::Absolute, *final(self), *final(bus), r),
            index == old(self).x ==> resolve_rel(*old(self), *old(bus), AddrMode::AbsoluteX, *final(self), *final(bus), r),
            index == old(self).y ==> resolve_rel(*old(self), *old(bus), AddrMode::AbsoluteY, *final(self), *final(bus), r),
            final(self).cycles == old(self).cycles,
            keeps_inv(*old(bus), *final(bus)),
            absolute_fits(old(bus).plain_reads(), *old(self)) ==> {
                &&& (*final(self), r) == absolute_spec(*old(self), old(bus).memory(), index)
                &&& view_now(*old(bus), *final(bus), old(bus).memory())
            },
    {
        let base = self.fetch_word(bus);
        assert(fetch_word_rel(*old(self), *old(bus), *self, *bus, base));
        let addr = base.wrapping_add(index as u16);
        assert(addr == wrap16(base + index));
        assert((base / 256 != addr / 256) == crosses(base, addr));
        Resolved { operand: Operand::Address(addr), page_crossed: base / 256 != addr / 256 }
    }

    fn resolve_indirect<B: Bus>(&mut self, bus: &mut B) -> (r: Resolved)
        ensures
            resolve_rel(*old(self), *old(bus), AddrMode::Indirect, *final(self), *final(bus), r),
            final(self).cycles == old(self).cycles,
            keeps_inv(*old(bus), *final(bus)),
            indirect_fits(old(bus).plain_reads(), *old(self), old(bus).memory()) ==> {
                &&& (*final(self), r) == indirect_spec(*old(self), old(bus).memory())
                &&& view_now(*old(bus), *final(bus), old(bus).memory())
            },
    {
        let ptr = self.fetch_word(bus);
        let ghost b1 = *bus;
        // NMOS 6502 bug: JMP ($xxFF) wraps within page
        let addr = read_word_page_wrap(bus, ptr);
        assert(fetch_word_rel(*old(self), *old(bus), *self, b1, ptr) && word_rel(b1, *bus, ptr, page_wrap_next(ptr), addr));
        Resolved { operand: Operand::Address(addr), page_crossed: false }
    }

    fn resolve_indirect_x<B: Bus>(&mut self, bus: &mut B) -> (r: Resolved)
        ensures
            resolve_rel(*old(self), *old(bus), AddrMode::IndirectX, *final(self), *final(bus), r),
            final(self).cycles == old(self).cycles,
            keeps_inv(*old(bus), *final(bus)),
            indirect_x_fits(old(bus).plain_reads(), *old(self), old(bus).memory()) ==> {
                &&& (*final(self), r) == indirect_x_spec(*old(self), old(bus).memory())
                &&& view_now(*old(bus), *final(bus), old(bus).memory())
            },
    {
        let base = self.fetch(bus);
        let ghost b1 = *bus;
        let ptr = base.wrapping_add(self.x);
        assert(ptr == wrap8(base + self.x));
        let addr = read_word_page_wrap(bus, ptr as u16);
        assert(fetch_rel(*old(self), *old(bus), *self, b1, base)
            && word_rel(b1, *bus, wrap8(base + old(self).x) as u16, page_wrap_next(wrap8(base + old(self).x) as u16), addr));
        Resolved { operand: Operand::Address(addr), page_crossed: false }
    }

    fn resolve_indirect_y<B: Bus>(&mut self, bus: &mut B) -> (r: Resolved)
        ensures
            resolve_rel(*old(self), *old(bus), AddrMode::IndirectY, *final(self), *final(bus), r),
            final(self).cycles == old(self).cycles,
            keeps_inv(*old(bus), *final(bus)),
            indirect_y_fits(old(bus).plain_reads(), *old(self), old(bus).memory()) ==> {
                &&& (*final(self), r) == indirect_y_spec(*old(self), old(bus).memory())
                &&& view_now(*old(bus), *final(bus), old(bus).memory())
            },
    {
        let v = self.fetch(bus);
        let ghost b1 = *bus;
        let ptr = v as u16;
        let base = read_word_page_wrap(bus, ptr);
        let addr = base.wrapping_add(self.y as u16);
        assert(addr == wrap16(base + self.y));
        assert(fetch_rel(*old(self), *old(bus), *self, b1, v) && word_rel(b1, *bus, v as u16, page_wrap_next(v as u16), base));
        assert((base / 256 != addr / 256) == crosses(base, addr));
        Resolved { operand: Operand::Address(addr), page_crossed: base / 256 != addr / 256 }
    }

    // -- Helpers --

    fn read_operand<B: Bus>(&self, resolved: &Resolved, bus: &mut B) -> (val: u8)
        ensures
            operand_rel(*old(bus), *final(bus), *resolved, val),
            keeps_inv(*old(bus), *final(bus)),
            operand_fits(old(bus).plain_reads(), *resolved) ==> {
                &&& val == operand_val(old(bus).memory(), *resolved)
                &&& view_now(*old(bus), *final(bus), old(bus).memory())
            },
    {
        match resolved.operand {
            Operand::Address(addr) => bus.read(addr),
            _ => 0,
        }
    }

    fn addr_of(&self, resolved: &Resolved) -> (addr: u16)
        ensures
            addr == operand_addr(*resolved),
    {
        match resolved.operand {
            Operand::Address(addr) => addr,
            _ => 0,
        }
    }

    // -- Instruction execution --

    /// Execute mnemonic `mn` on the resolved operand. Returns the cycles
    /// beyond the table's count (a taken branch).
    fn execute<B: Bus>(&mut self, mn: Mnemonic, mode: AddrMode, resolved: &Resolved, bus: &mut B) -> (extra: u32)
        ensures
            execute_rel(*old(self), *old(bus), mn, mode, *resolved, *final(self), *final(bus), extra),
            keeps_inv(*old(bus), *final(bus)),
            extra <= 2,
            extra > 0 ==> is_branch(mn),
            final(self).cycles == old(self).cycles,
            execute_fits(old(bus).plain_reads(), old(bus).plain_writes(), *old(self), mn, mode, *resolved) ==> ({
                let (c, m, x) = execute_spec(*old(self), old(bus).memory(), mn, mode, *resolved);
                &&& view_now(*old(bus), *final(bus), m)
                &&& *final(self) == c
                &&& extra == x
            }),
    {
        match mn {
            Mnemonic::LDA | Mnemonic::LDX | Mnemonic::LDY | Mnemonic::LAX
            | Mnemonic::STA | Mnemonic::STX | Mnemonic::STY | Mnemonic::SAX => {
                self.exec_load_store(mn, resolved, bus);
                0
            },
            Mnemonic::ADC | Mnemonic::SBC | Mnemonic::CMP | Mnemonic::CPX | Mnemonic::CPY
            | Mnemonic::AND | Mnemonic::ORA | Mnemonic::EOR | Mnemonic::BIT => {
                self.exec_alu(mn, resolved, bus);
                0
            },
            Mnemonic::ASL | Mnemonic::LSR | Mnemonic::ROL | Mnemonic::ROR => {
                self.exec_shift(mn, mode, resolved, bus);
                0
            },
            Mnemonic::SLO | Mnemonic::RLA | Mnemonic::SRE | Mnemonic::RRA => {
                self.exec_combined(mn, resolved, bus);
                0
            },
            Mnemonic::INC | Mnemonic::DEC | Mnemonic::DCP | Mnemonic::ISC => {
                self.exec_incdec_mem(mn, resolved, bus);
                0
            },
            Mnemonic::INX | Mnemonic::DEX | Mnemonic::INY | Mnemonic::DEY => {
                self.exec_incdec_reg(mn);
                0
            },
            Mnemonic::BCC => { let t = !self.p.get(C); self.branch(t, resolved) },
            Mnemonic::BCS => { let t = self.p.get(C); self.branch(t, resolved) },
            Mnemonic::BEQ => { let t = self.p.get(Z); self.branch(t, resolved) },
            Mnemonic::BNE => { let t = !self.p.get(Z); self.branch(t, resolved) },
            Mnemonic::BMI => { let t = self.p.get(N); self.branch(t, resolved) },
            Mnemonic::BPL => { let t = !self.p.get(N); self.branch(t, resolved) },
            Mnemonic::BVC => { let t = !self.p.get(V); self.branch(t, resolved) },
            Mnemonic::BVS => { let t = self.p.get(V); self.branch(t, resolved) },
            Mnemonic::PHA | Mnemonic::PHP | Mnemonic::PLA | Mnemonic::PLP | Mnemonic::JMP
            | Mnemonic::JSR | Mnemonic::RTS | Mnemonic::RTI | Mnemonic::BRK => {
                self.exec_control(mn, resolved, bus);
                0
            },
            _ => {
                self.exec_register(mn);
                0
            },
        }
    }

    fn exec_load_store<B: Bus>(&mut self, mn: Mnemonic, resolved: &Resolved, bus: &mut B)
        requires
            is_load_store(mn),
        ensures
            execute_rel(*old(self), *old(bus), mn, AddrMode::Implied, *resolved, *final(self), *final(bus), 0),
            keeps_inv(*old(bus), *final(bus)),
            final(self).cycles == old(self).cycles,
            (load_store_fits(old(bus).plain_reads(), old(bus).plain_writes(), mn, *resolved)) ==> ({
                let (c, m) = load_store_spec(*old(self), old(bus).memory(), mn, *resolved);
                &&& view_now(*old(bus), *final(bus), m)
                &&& *final(self) == c
            }),
    {
        match mn {
            Mnemonic::LDA => {
                self.a = self.read_operand(resolved, bus);
                assert(operand_rel(*old(bus), *bus, *resolved, self.a));
                self.p.set_nz(self.a);
            },
            Mnemonic::LDX => {
                self.x = self.read_operand(resolved, bus);
                assert(operand_rel(*old(bus), *bus, *resolved, self.x));
                self.p.set_nz(self.x);
            },
            Mnemonic::LDY => {
                self.y = self.read_operand(resolved, bus);
                assert(operand_rel(*old(bus), *bus, *resolved, self.y));
                self.p.set_nz(self.y);
            },
            Mnemonic::LAX => {
                let val = self.read_operand(resolved, bus);
                assert(operand_rel(*old(bus), *bus, *resolved, val));
                self.a = val;
                self.x = val;
                self.p.set_nz(val);
            },
            Mnemonic::STA => {
                let addr = self.addr_of(resolved);
                bus.write(addr, self.a);
            },
            Mnemonic::STX => {
                let addr = self.addr_of(resolved);
                bus.write(addr, self.x);
            },
            Mnemonic::STY => {
                let addr = self.addr_of(resolved);
                bus.write(addr, self.y);
            },
            _ => {
                let addr = self.addr_of(resolved);
                bus.write(addr, self.a & self.x);
            },
        }
    }

    fn exec_alu<B: Bus>(&mut self, mn: Mnemonic, resolved: &Resolved, bus: &mut B)
        requires
            is_alu(mn),
        ensures
            execute_rel(*old(self), *old(bus), mn, AddrMode::Implied, *resolved, *final(self), *final(bus), 0),
            final(self).cycles == old(self).cycles,
            keeps_inv(*old(bus), *final(bus)),
            operand_fits(old(bus).plain_reads(), *resolved) ==> {
                &&& *final(self) == alu_spec(*old(self), old(bus).memory(), mn, *resolved)
                &&& view_now(*old(bus), *final(bus), old(bus).memory())
            },
    {
        let val = self.read_operand(resolved, bus);
        assert(operand_rel(*old(bus), *bus, *resolved, val));
        match mn {
            Mnemonic::ADC => self.adc(val),
            Mnemonic::SBC => self.sbc(val),
            Mnemonic::CMP => { let r = self.a; self.compare(r, val) },
            Mnemonic::CPX => { let r = self.x; self.compare(r, val) },
            Mnemonic::CPY => { let r = self.y; self.compare(r, val) },
            Mnemonic::AND => {
                self.a = self.a & val;
                self.p.set_nz(self.a);
            },
            Mnemonic::ORA => {
                self.a = self.a | val;
                self.p.set_nz(self.a);
            },
            Mnemonic::EOR => {
                self.a = self.a ^ val;
                self.p.set_nz(self.a);
            },
            _ => {
                self.p.set(Z, (self.a & val) == 0);
                self.p.set(N, val >= 0x80);
                self.p.set(V, val & 0x40 != 0);
            },
        }
    }

    /// Result and carry out of the shift or rotate named by `mn`.
    fn shift_value(mn: Mnemonic, p: Status, val: u8) -> (r: (u8, bool))
        ensures
            r == shift_val(mn, p.0, val),
    {
        let carry_in: u16 = if p.get(C) { 1 } else { 0 };
        match mn {
            Mnemonic::ASL | Mnemonic::SLO => ((((val as u16) * 2) % 256) as u8, val >= 0x80),
            Mnemonic::LSR | Mnemonic::SRE => (val / 2, val % 2 == 1),
            Mnemonic::ROL | Mnemonic::RLA => ((((val as u16) * 2 + carry_in) % 256) as u8, val >= 0x80),
            _ => (((val as u16) / 2 + 128 * carry_in) as u8, val % 2 == 1),
        }
    }

    fn exec_shift<B: Bus>(&mut self, mn: Mnemonic, mode: AddrMode, resolved: &Resolved, bus: &mut B)
        requires
            is_shift(mn),
        ensures
            execute_rel(*old(self), *old(bus), mn, mode, *resolved, *final(self), *final(bus), 0),
            keeps_inv(*old(bus), *final(bus)),
            final(self).cycles == old(self).cycles,
            (mode != AddrMode::Accumulator ==> rmw_fits(old(bus).plain_reads(), old(bus).plain_writes(), *resolved)) ==> ({
                let (c, m) = shift_spec(*old(self), old(bus).memory(), mn, mode, *resolved);
                &&& view_now(*old(bus), *final(bus), m)
                &&& *final(self) == c
            }),
    {
        if mode == AddrMode::Accumulator {
            let (res, carry) = Self::shift_value(mn, self.p, self.a);
            self.p.set(C, carry);
            self.a = res;
            self.p.set_nz(self.a);
        } else {
            let addr = self.addr_of(resolved);
            let val = bus.read(addr);
            let ghost b1 = *bus;
            let (res, carry) = Self::shift_value(mn, self.p, val);
            self.p.set(C, carry);
            bus.write(addr, res);
            self.p.set_nz(res);
            assert(old(bus).read_rel(b1, addr, val) && b1.write_rel(*bus, addr, res));
            assert(rmw_rel(*old(bus), *bus, operand_addr(*resolved), val, shift_val(mn, old(self).p.0, val).0));
        }
    }

    fn exec_combined<B: Bus>(&mut self, mn: Mnemonic, resolved: &Resolved, bus: &mut B)
        requires
            is_combined(mn),
        ensures
            execute_rel(*old(self), *old(bus), mn, AddrMode::Implied, *resolved, *final(self), *final(bus), 0),
            keeps_inv(*old(bus), *final(bus)),
            final(self).cycles == old(self).cycles,
            (rmw_fits(old(bus).plain_reads(), old(bus).plain_writes(), *resolved)) ==> ({
                let (c, m) = combined_spec(*old(self), old(bus).memory(), mn, *resolved);
                &&& view_now(*old(bus), *final(bus), m)
                &&& *final(self) == c
            }),
    {
        let addr = self.addr_of(resolved);
        let val = bus.read(addr);
        let ghost b1 = *bus;
        let (res, carry) = Self::shift_value(mn, self.p, val);
        bus.write(addr, res);
        assert(old(bus).read_rel(b1, addr, val) && b1.write_rel(*bus, addr, res));
        assert(rmw_rel(*old(bus), *bus, operand_addr(*resolved), val, shift_val(mn, old(self).p.0, val).0));
        self.p.set(C, carry);
        match mn {
            Mnemonic::SLO => {
                self.a = self.a | res;
                self.p.set_nz(self.a);
            },
            Mnemonic::RLA => {
                self.a = self.a & res;
                self.p.set_nz(self.a);
            },
            Mnemonic::SRE => {
                self.a = self.a ^ res;
                self.p.set_nz(self.a);
            },
            _ => self.adc(res),
        }
    }

    fn exec_incdec_reg(&mut self, mn: Mnemonic)
        requires
            mn == Mnemonic::INX || mn == Mnemonic::DEX || mn == Mnemonic::INY || mn == Mnemonic::DEY,
        ensures
            *final(self) == incdec_reg_spec(*old(self), mn),
    {
        match mn {
            Mnemonic::INX => {
                self.x = self.x.wrapping_add(1);
                self.p.set_nz(self.x);
            },
            Mnemonic::DEX => {
                self.x = self.x.wrapping_sub(1);
                self.p.set_nz(self.x);
            },
            Mnemonic::INY => {
                self.y = self.y.wrapping_add(1);
                self.p.set_nz(self.y);
            },
            _ => {
                self.y = self.y.wrapping_sub(1);
                self.p.set_nz(self.y);
            },
        }
    }

    fn exec_incdec_mem<B: Bus>(&mut self, mn: Mnemonic, resolved: &Resolved, bus: &mut B)
        requires
            mn == Mnemonic::INC || mn == Mnemonic::DEC || mn == Mnemonic::DCP || mn == Mnemonic::ISC,
        ensures
            execute_rel(*old(self), *old(bus), mn, AddrMode::Implied, *resolved, *final(self), *final(bus), 0),
            keeps_inv(*old(bus), *final(bus)),
            final(self).cycles == old(self).cycles,
            (rmw_fits(old(bus).plain_reads(), old(bus).plain_writes(), *resolved)) ==> ({
                let (c, m) = incdec_mem_spec(*old(self), old(bus).memory(), mn, *resolved);
                &&& view_now(*old(bus), *final(bus), m)
                &&& *final(self) == c
            }),
    {
        let addr = self.addr_of(resolved);
        let old_val = bus.read(addr);
        let ghost b1 = *bus;
        let val = if mn == Mnemonic::INC || mn == Mnemonic::ISC {
            old_val.wrapping_add(1)
        } else {
            old_val.wrapping_sub(1)
        };
        assert(mn == Mnemonic::INC || mn == Mnemonic::ISC ==> val == wrap8(old_val + 1));
        assert(mn == Mnemonic::DEC || mn == Mnemonic::DCP ==> val == wrap8(old_val - 1));
        bus.write(addr, val);
        assert(old(bus).read_rel(b1, addr, old_val) && b1.write_rel(*bus, addr, val));
        assert(val == incdec_res(mn, old_val));
        assert(rmw_rel(*old(bus), *bus, operand_addr(*resolved), old_val, incdec_res(mn, old_val)));
        match mn {
            Mnemonic::INC | Mnemonic::DEC => self.p.set_nz(val),
            Mnemonic::DCP => { let r = self.a; self.compare(r, val) },
            _ => self.sbc(val),
        }
    }

    fn exec_register(&mut self, mn: Mnemonic)
        ensures
            *final(self) == register_spec(*old(self), mn),
    {
        match mn {
            Mnemonic::TAX => {
                self.x = self.a;
                self.p.set_nz(self.x);
            },
            Mnemonic::TAY => {
                self.y = self.a;
                self.p.set_nz(self.y);
            },
            Mnemonic::TXA => {
                self.a = self.x;
                self.p.set_nz(self.a);
            },
            Mnemonic::TYA => {
                self.a = self.y;
                self.p.set_nz(self.a);
            },
            Mnemonic::TSX => {
                self.x = self.sp;
                self.p.set_nz(self.x);
            },
            Mnemonic::TXS => {
                // TXS does not affect flags
                self.sp = self.x;
            },
            Mnemonic::CLC => self.p.set(C, false),
            Mnemonic::SEC => self.p.set(C, true),
            Mnemonic::CLD => self.p.set(D, false),
            Mnemonic::SED => self.p.set(D, true),
            Mnemonic::CLI => self.p.set(I, false),
            Mnemonic::SEI => self.p.set(I, true),
            Mnemonic::CLV => self.p.set(V, false),
            _ => {},
        }
    }

    #[verifier::spinoff_prover]
    #[verifier::rlimit(40)]
    fn exec_control<B: Bus>(&mut self, mn: Mnemonic, resolved: &Resolved, bus: &mut B)
        requires
            is_control(mn),
        ensures
            control_rel(*old(self), *old(bus), mn, *resolved, *final(self), *final(bus)),
            keeps_inv(*old(bus), *final(bus)),
            final(self).cycles == old(self).cycles,
            (control_fits(old(bus).plain_reads(), old(bus).plain_writes(), *old(self), mn)) ==> ({
                let (c, m) = control_spec(*old(self), old(bus).memory(), mn, *resolved);
                &&& view_now(*old(bus), *final(bus), m)
                &&& *final(self) == c
            }),
    {
        match mn {
            Mnemonic::PHA => {
                let a = self.a;
                self.push(bus, a);
            },
            Mnemonic::PHP => {
                // PHP always pushes with B=1 and U=1
                let val = self.p.to_push_byte(true);
                self.push(bus, val);
            },
            Mnemonic::PLA => {
                let val = self.pull(bus);
                assert(pull_rel(*old(self), *old(bus), *self, *bus, val));
                self.a = val;
                self.p.set_nz(self.a);
            },
            Mnemonic::PLP => {
                let val = self.pull(bus);
                assert(pull_rel(*old(self), *old(bus), *self, *bus, val));
                self.p.from_pull_byte(val);
            },
            Mnemonic::JMP => {
                self.pc = self.addr_of(resolved);
            },
            Mnemonic::JSR => {
                // JSR pushes PC-1 (address of the last byte of the JSR instruction)
                let ret = self.pc.wrapping_sub(1);
                assert(ret == wrap16(self.pc - 1));
                self.push_word(bus, ret);
                assert(push_word_rel(*old(self), *old(bus), *self, *bus, wrap16(old(self).pc - 1)));
                self.pc = self.addr_of(resolved);
            },
            Mnemonic::RTS => {
                let addr = self.pull_word(bus);
                assert(pull_word_rel(*old(self), *old(bus), *self, *bus, addr));
                self.pc = addr.wrapping_add(1);
                assert(self.pc == wrap16(addr + 1));
            },
            Mnemonic::RTI => {
                let val = self.pull(bus);
                let ghost c1 = *self;
                let ghost b1 = *bus;
                self.p.from_pull_byte(val);
                let w = self.pull_word(bus);
                assert(pull_rel(*old(self), *old(bus), c1, b1, val));
                assert(pull_word_rel(with_p(c1, pull_byte(val)), b1, *self, *bus, w));
                self.pc = w;
            },
            _ => {
                // BRK pushes PC+1, so the padding byte after BRK is skipped
                let ret = self.pc.wrapping_add(1);
                assert(ret == wrap16(self.pc + 1));
                self.push_word(bus, ret);
                let ghost c1 = *self;
                let ghost b1 = *bus;
                let val = self.p.to_push_byte(true);
                self.push(bus, val);
                let ghost c3 = *self;
                let ghost b3 = *bus;
                self.p.set(I, true);
                let w = read_word(bus, 0xFFFE);
                assert(push_word_rel(*old(self), *old(bus), c1, b1, wrap16(old(self).pc + 1)));
                assert(push_rel(c1, b1, c3, b3, push_byte(c1.p.0, true)));
                assert(word_rel(b3, *bus, 0xFFFE, 0xFFFF, w));
                self.pc = w;
            },
        }
    }

    // -- Interrupt handlers --

    fn handle_nmi<B: Bus>(&mut self, bus: &mut B) -> (cycles: u32)
        requires
            old(self).cycles <= u64::MAX - 16,
        ensures
            interrupt_rel(*old(self), *old(bus), 0xFFFA, *final(self), *final(bus)),
            keeps_inv(*old(bus), *final(bus)),
            cycles == 7,
            final(self).cycles == old(self).cycles + 7,
            interrupt_fits(old(bus).plain_reads(), old(bus).plain_writes(), *old(self), 0xFFFA) ==> ({
                let (c, m, n) = interrupt_spec(*old(self), old(bus).memory(), 0xFFFA);
                &&& view_now(*old(bus), *final(bus), m)
                &&& *final(self) == c
            }),
    {
        let pc = self.pc;
        self.push_word(bus, pc);
        let ghost c1 = *self;
        let ghost b1 = *bus;
        let val = self.p.to_push_byte(false);
        self.push(bus, val);
        let ghost c3 = *self;
        let ghost b3 = *bus;
        self.p.set(I, true);
        let w = read_word(bus, 0xFFFA);
        assert(push_word_rel(*old(self), *old(bus), c1, b1, old(self).pc));
        assert(push_rel(c1, b1, c3, b3, push_byte(c1.p.0, false)));
        assert(word_rel(b3, *bus, 0xFFFA, wrap16(0xFFFAint + 1), w));
        self.pc = w;
        self.cycles = self.cycles + 7;
        7
    }

    fn handle_irq<B: Bus>(&mut self, bus: &mut B) -> (cycles: u32)
        requires
            old(self).cycles <= u64::MAX - 16,
        ensures
            interrupt_rel(*old(self), *old(bus), 0xFFFE, *final(self), *final(bus)),
            keeps_inv(*old(bus), *final(bus)),
            cycles == 7,
            final(self).cycles == old(self).cycles + 7,
            interrupt_fits(old(bus).plain_reads(), old(bus).plain_writes(), *old(self), 0xFFFE) ==> ({
                let (c, m, n) = interrupt_spec(*old(self), old(bus).memory(), 0xFFFE);
                &&& view_now(*old(bus), *final(bus), m)
                &&& *final(self) == c
            }),
    {
        let pc = self.pc;
        self.push_word(bus, pc);
        let ghost c1 = *self;
        let ghost b1 = *bus;
        let val = self.p.to_push_byte(false);
        self.push(bus, val);
        let ghost c3 = *self;
        let ghost b3 = *bus;
        self.p.set(I, true);
        let w = read_word(bus, 0xFFFE);
        assert(push_word_rel(*old(self), *old(bus), c1, b1, old(self).pc));
        assert(push_rel(c1, b1, c3, b3, push_byte(c1.p.0, false)));
        assert(word_rel(b3, *bus, 0xFFFE, wrap16(0xFFFEint + 1), w));
        self.pc = w;
        self.cycles = self.cycles + 7;
        7
    }

    // -- ALU helpers --

    fn adc(&mut self, val: u8)
        ensures
            ({
                let (a, p) = adc_spec(old(self).a, old(self).p.0, val);
                *final(self) == Cpu { a, p: Status(p), ..*old(self) }
            }),
    {
        if self.p.get(D) {
            self.adc_bcd(val);
        } else {
            self.adc_binary(val);
        }
    }

    fn adc_binary(&mut self, val: u8)
        ensures
            ({
                let (a, p) = adc_binary_spec(old(self).a, old(self).p.0, val);
                *final(self) == Cpu { a, p: Status(p), ..*old(self) }
            }),
    {
        let a = self.a;
        let c: u16 = if self.p.get(C) { 1 } else { 0 };
        let sum: u16 = a as u16 + val as u16 + c;
        let res: u8 = (sum % 256) as u8;
        // Overflow: both inputs have the same sign and the result differs from it
        let overflow = (a >= 0x80) == (val >= 0x80) && (res >= 0x80) != (a >= 0x80);
        assert(overflow == !(-128 <= signed8(a) + signed8(val) + c <= 127));
        self.p.set(V, overflow);
        self.p.set(C, sum > 0xFF);
        self.a = res;
        self.p.set_nz(self.a);
    }

    fn adc_bcd(&mut self, val: u8)
        ensures
            ({
                let (a, p) = adc_bcd_spec(old(self).a, old(self).p.0, val);
                *final(self) == Cpu { a, p: Status(p), ..*old(self) }
            }),
    {
        let a = self.a;
        let c: u16 = if self.p.get(C) { 1 } else { 0 };

        // Binary addition for N and Z (NMOS 6502 behavior)
        let bin_sum: u16 = a as u16 + val as u16 + c;

        // BCD low nibble
        let mut lo: u16 = (a % 16) as u16 + (val % 16) as u16 + c;
        if lo > 9 {
            lo = lo + 6;
        }
        // BCD high nibble
        let mut hi: u16 = (a / 16) as u16 + (val / 16) as u16 + if lo > 15 { 1 } else { 0 };

        // NMOS 6502: V is based on the intermediate (after lo fixup, before hi fixup)
        let intermediate: u8 = ((hi * 16 + lo % 16) % 256) as u8;
        let overflow = (a >= 0x80) == (val >= 0x80) && (intermediate >= 0x80) != (a >= 0x80);
        self.p.set(V, overflow);

        if hi > 9 {
            hi = hi + 6;
        }
        self.p.set(C, hi > 15);
        self.a = ((hi * 16 + lo % 16) % 256) as u8;

        // NMOS 6502: N and Z are based on the binary result, not the BCD result
        let bin: u8 = (bin_sum % 256) as u8;
        self.p.set(N, bin >= 0x80);
        self.p.set(Z, bin == 0);
    }

    fn sbc(&mut self, val: u8)
        ensures
            ({
                let (a, p) = sbc_spec(old(self).a, old(self).p.0, val);
                *final(self) == Cpu { a, p: Status(p), ..*old(self) }
            }),
    {
        if self.p.get(D) {
            self.sbc_bcd(val);
        } else {
            // SBC is ADC with the complement
            assert(!val == 255 - val) by (bit_vector);
            proof {
                let p = self.p.0;
                let s = signed8(self.a) - signed8(val) - (1 - carry_in(p));
                assert(signed8(!val) == -signed8(val) - 1);
            }
            self.adc_binary(!val);
        }
    }

    fn sbc_bcd(&mut self, val: u8)
        ensures
            ({
                let (a, p) = sbc_bcd_spec(old(self).a, old(self).p.0, val);
                *final(self) == Cpu { a, p: Status(p), ..*old(self) }
            }),
    {
        let a = self.a;
        let c: i16 = if self.p.get(C) { 1 } else { 0 };

        // Binary difference for C, V, N and Z (NMOS 6502 behavior)
        let diff: i16 = a as i16 - val as i16 - (1 - c);
        let sa: i16 = if a < 0x80 { a as i16 } else { a as i16 - 256 };
        let sv: i16 = if val < 0x80 { val as i16 } else { val as i16 - 256 };
        let sdiff: i16 = sa - sv - (1 - c);
        assert(sa == signed8(a) && sv == signed8(val));
        assert(c == carry_in(self.p.0));
        self.p.set(V, sdiff < -128 || sdiff > 127);

        // C: no borrow out of the binary subtraction
        self.p.set(C, diff >= 0);
        self.a = Self::sbc_bcd_value(a, val, c);

        // NMOS 6502: N and Z based on the binary result
        let bin: u8 = ((diff + 256) % 256) as u8;
        proof {
            vstd::arithmetic::div_mod::lemma_mod_add_multiples_vanish(diff as int, 256);
        }
        assert(bin == wrap8(diff as int));
        self.p.set(N, bin >= 0x80);
        self.p.set(Z, bin == 0);
    }

    /// Accumulator after a decimal SBC (NMOS nibble rules).
    fn sbc_bcd_value(a: u8, val: u8, c: i16) -> (res: u8)
        requires
            0 <= c <= 1,
        ensures
            res == sbc_bcd_result(a, val, c as int),
    {
        let a_lo = (a % 16) as i16;
        let v_lo = (val % 16) as i16;
        let a_hi = (a / 16) as i16;
        let v_hi = (val / 16) as i16;

        // BCD low nibble
        let mut lo: i16 = a_lo - v_lo + c - 1;
        if lo < 0 {
            lo = lo + 10;
        }
        // BCD high nibble
        let borrow_lo: i16 = if a_lo + c - 1 < v_lo { 1 } else { 0 };
        let mut hi: i16 = a_hi - v_hi - borrow_lo;
        if hi < 0 {
            hi = hi + 10;
        }
        let lo_m: i16 = (lo + 16) % 16;
        proof {
            vstd::arithmetic::div_mod::lemma_mod_add_multiples_vanish(lo as int, 16);
        }
        let x: i16 = hi * 16 + lo_m;
        proof {
            vstd::arithmetic::div_mod::lemma_mod_add_multiples_vanish(x as int, 256);
        }
        ((x + 256) % 256) as u8
    }

    fn compare(&mut self, reg: u8, val: u8)
        ensures
            *final(self) == with_p(*old(self), compare_spec(old(self).p.0, reg, val)),
    {
        let result = reg.wrapping_sub(val);
        assert(result == wrap8(reg - val));
        self.p.set(C, reg >= val);
        self.p.set_nz(result);
    }

    fn branch(&mut self, condition: bool, resolved: &Resolved) -> (extra: u32)
        ensures
            (*final(self), extra) == branch_spec(*old(self), condition, *resolved),
            extra <= 2,
    {
        if !condition {
            return 0;
        }
        let offset = match resolved.operand {
            Operand::Byte(b) => b,
            _ => return 0,
        };
        let old_pc = self.pc;
        let target = if offset < 0x80 {
            old_pc.wrapping_add(offset as u16)
        } else {
            old_pc.wrapping_add(offset as u16 + 0xFF00)
        };
        assert(target == wrap16(old_pc + signed8(offset)));
        self.pc = target;

        // +1 for taken, +1 more if the page changed
        if old_pc / 256 != target / 256 {
            2
        } else {
            1
        }
    }
}

} // verus!
