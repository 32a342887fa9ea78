//! Running the machine: single steps, cycle budgets and the RWTS trap.

use vstd::prelude::*;
use crate::bus::Bus;
use crate::cpu::trace::{step_rel, steps_rel, lemma_steps_zero, lemma_steps_extend};
use crate::cpu::{Cpu, bus_fits_step, run_fits, run_until_fits, steps_spec, run_stops_after};
use crate::cpu::semantics::step_spec;
use super::{AppleII, BusState, RWTS_ENTRY_PC};
use super::rwts::rwts_outcome;

verus! {

/// The machine once an RWTS call took `cycles`: the CPU's cycle count
/// advanced by them.
pub open spec fn charged(m: AppleII, cycles: u32) -> AppleII {
    AppleII { cpu: Cpu { cycles: (m.cpu.cycles + cycles) as u64, ..m.cpu }, ..m }
}

/// The cycle budget of `run_cycles(target)`: eight times `target` in fast
/// disk mode while the motor runs, `target` otherwise.
pub open spec fn effective_budget(m: AppleII, target: u64) -> u64 {
    if m.bus.fast_disk && m.bus.disk.motor_on {
        (8 * target) as u64
    } else {
        target
    }
}

/// Whether no step of a run of `budget` cycles from `c` over `m` starts at
/// the RWTS entry.
pub open spec fn avoids_rwts(c: Cpu, m: Seq<u8>, budget: u64) -> bool {
    forall|k: nat| #[trigger] steps_spec(c, m, k).0.cycles < c.cycles + budget ==> steps_spec(c, m, k).0.pc
        != RWTS_ENTRY_PC
}

/// Whether the machine stands at a trappable RWTS call.
pub open spec fn at_rwts(m: AppleII) -> bool {
    m.bus.fast_disk && m.cpu.pc == RWTS_ENTRY_PC
}

/// Outcome of serving a pending RWTS call: not there or not served
/// (`None`, nothing changed), or served in `c` cycles.
pub open spec fn trap_handled(before: AppleII, after: AppleII, r: Option<u32>) -> bool {
    if !at_rwts(before) {
        r is None && after == before
    } else {
        match r {
            None => rwts_outcome(before, before, None) && after == before,
            Some(c) => exists|mid: AppleII| #[trigger] rwts_outcome(before, mid, Some(c)) && after == charged(mid, c),
        }
    }
}

/// One step of the machine: an RWTS call served by the trap, or an
/// instruction (or interrupt entry) run by the CPU on the bus, when the
/// trap is not there or declines.
pub open spec fn machine_step(m: AppleII, m2: AppleII) -> bool {
    ||| at_rwts(m) && exists|mid: AppleII, c: u32| #[trigger] rwts_outcome(m, mid, Some(c)) && m2 == charged(mid, c)
    ||| (!at_rwts(m) || rwts_outcome(m, m, None))
        && exists|n: u32| #[trigger] step_rel(m.cpu, m.bus, m2.cpu, m2.bus, n)
}

/// `k` machine steps lead from `m` to `m2`.
#[verifier::opaque]
pub open spec fn machine_steps(m: AppleII, k: nat, m2: AppleII) -> bool
    decreases k,
{
    if k == 0 {
        m2 == m
    } else {
        exists|m1: AppleII| #[trigger] machine_step(m1, m2) && machine_steps(m, (k - 1) as nat, m1)
    }
}

proof fn lemma_machine_steps_zero(m: AppleII)
    ensures
        machine_steps(m, 0, m),
{
    reveal(machine_steps);
}

proof fn lemma_machine_steps_extend(m: AppleII, k: nat, m1: AppleII, m2: AppleII)
    requires
        k >= 1,
        machine_steps(m, (k - 1) as nat, m1),
        machine_step(m1, m2),
    ensures
        machine_steps(m, k, m2),
{
    reveal(machine_steps);
}

/// Two runs of machine steps make one.
proof fn lemma_machine_steps_concat(m: AppleII, j: nat, m1: AppleII, k: nat, m2: AppleII)
    requires
        machine_steps(m, j, m1),
        machine_steps(m1, k, m2),
    ensures
        machine_steps(m, j + k, m2),
    decreases k,
{
    reveal(machine_steps);
    if k > 0 {
        let mid = choose|mid: AppleII| #[trigger] machine_step(mid, m2) && machine_steps(m1, (k - 1) as nat, mid);
        lemma_machine_steps_concat(m, j, m1, (k - 1) as nat, mid);
        lemma_machine_steps_extend(m, j + k, mid, m2);
    }
}

/// CPU steps that never start at the RWTS entry are machine steps.
proof fn lemma_cpu_steps_are_machine_steps(c: Cpu, b: BusState, k: nat, limit: int, c2: Cpu, b2: BusState)
    requires
        steps_rel(c, b, k, limit, Some(RWTS_ENTRY_PC), c2, b2),
    ensures
        machine_steps(AppleII { cpu: c, bus: b }, k, AppleII { cpu: c2, bus: b2 }),
    decreases k,
{
    reveal(steps_rel);
    if k == 0 {
        lemma_machine_steps_zero(AppleII { cpu: c, bus: b });
    } else {
        let stop = Some(RWTS_ENTRY_PC);
        let (c1, b1, n) = choose|c1: Cpu, b1: BusState, n: u32|
            #![trigger step_rel(c1, b1, c2, b2, n)]
            steps_rel(c, b, (k - 1) as nat, limit, stop, c1, b1) && c1.cycles < limit
                && (stop matches Some(s) ==> c1.pc != s) && step_rel(c1, b1, c2, b2, n);
        assert(c1.pc != RWTS_ENTRY_PC);
        assert(step_rel(c1, b1, c2, b2, n));
        lemma_cpu_steps_are_machine_steps(c, b, (k - 1) as nat, limit, c1, b1);
        let m1 = AppleII { cpu: c1, bus: b1 };
        let m2 = AppleII { cpu: c2, bus: b2 };
        assert(m1.cpu == c1 && m1.bus == b1 && m2.cpu == c2 && m2.bus == b2);
        assert(step_rel(m1.cpu, m1.bus, m2.cpu, m2.bus, n));
        assert(machine_step(m1, m2));
        lemma_machine_steps_extend(AppleII { cpu: c, bus: b }, k, AppleII { cpu: c1, bus: b1 }, AppleII { cpu: c2, bus: b2 });
    }
}

impl AppleII {
    /// Serve the RWTS call at the PC, when fast disk is on, charging its
    /// cycles.
    fn handle_rwts_trap(&mut self) -> (r: Option<u32>)
        requires
            old(self).wf(),
            old(self).cpu.cycles <= u64::MAX - 256,
        ensures
            final(self).wf(),
            trap_handled(*old(self), *final(self), r),
            r matches Some(c) ==> 50 <= c <= 140,
    {
        if !self.bus.fast_disk || self.cpu.pc != RWTS_ENTRY_PC {
            return None;
        }
        let ghost before = *self;
        match self.try_rwts_trap() {
            Some(cycles) => {
                let ghost mid = *self;
                self.cpu.cycles = self.cpu.cycles + cycles as u64;
                self.bus.disk.tick(cycles);
                assert(rwts_outcome(before, mid, Some(cycles)));
                Some(cycles)
            },
            None => None,
        }
    }

    /// Execute one instruction, or serve the RWTS call at the PC in fast-disk
    /// mode. Returns the cycles consumed, also added to the CPU's count.
    pub fn step(&mut self) -> (cycles: u32)
        requires
            old(self).wf(),
            old(self).cpu.cycles <= u64::MAX - 256,
        ensures
            final(self).wf(),
            final(self).cpu.cycles == old(self).cpu.cycles + cycles,
            2 <= cycles <= 140,
            at_rwts(*old(self)) && (exists|mid: AppleII| #[trigger] rwts_outcome(*old(self), mid, Some(cycles))
                && *final(self) == charged(mid, cycles)) || (!at_rwts(*old(self)) || rwts_outcome(
                *old(self),
                *old(self),
                None,
            )) && cycles <= 8,
            !at_rwts(*old(self)) || cycles <= 8 ==> step_rel(
                old(self).cpu,
                old(self).bus,
                final(self).cpu,
                final(self).bus,
                cycles,
            ),
            (!at_rwts(*old(self)) || cycles <= 8) && bus_fits_step(old(self).bus, old(self).cpu) ==> ({
                let (c, m, n) = step_spec(old(self).cpu, old(self).bus.memory());
                &&& final(self).cpu == c
                &&& final(self).bus.memory() == m
                &&& cycles == n
            }),
    {
        if let Some(cycles) = self.handle_rwts_trap() {
            return cycles;
        }
        let cycles = self.cpu.step(&mut self.bus);
        self.bus.disk.tick(cycles);
        cycles
    }

    /// Run for at least `target` cycles and return the cycles run. In
    /// fast-disk mode the CPU runs flat out between RWTS calls, which are
    /// served directly, and while the motor runs the budget is eight times
    /// `target` (fast boot).
    pub fn run_cycles(&mut self, target: u64) -> (ran: u64)
        requires
            old(self).wf(),
            old(self).cpu.cycles + (if old(self).bus.fast_disk && old(self).bus.disk.motor_on {
                8 * target
            } else {
                target as int
            }) + 512 <= u64::MAX,
        ensures
            final(self).wf(),
            final(self).cpu.cycles == old(self).cpu.cycles + ran,
            ran >= (if old(self).bus.fast_disk && old(self).bus.disk.motor_on { 8 * target } else { target as int }),
            ran < (if old(self).bus.fast_disk && old(self).bus.disk.motor_on { 8 * target } else { target as int }) + 152,
            !old(self).bus.fast_disk ==> ran < target + 8,
            old(self).bus.fast_disk ==> exists|k: nat| #[trigger] machine_steps(*old(self), k, *final(self)),
            !old(self).bus.fast_disk ==> exists|k: nat| #[trigger] steps_rel(
                old(self).cpu,
                old(self).bus,
                k,
                old(self).cpu.cycles + target,
                None,
                final(self).cpu,
                final(self).bus,
            ),
            ({
                let budget = effective_budget(*old(self), target);
                run_fits(old(self).bus, old(self).cpu, budget) && (!old(self).bus.fast_disk || avoids_rwts(
                    old(self).cpu,
                    old(self).bus.memory(),
                    budget,
                )) ==> exists|n: nat| {
                    &&& run_stops_after(old(self).cpu, old(self).bus.memory(), budget, n)
                    &&& #[trigger] steps_spec(old(self).cpu, old(self).bus.memory(), n) == (
                        final(self).cpu,
                        final(self).bus.memory(),
                    )
                }
            }),
    {
        let start = self.cpu.cycles;
        if self.bus.fast_disk {
            let effective: u64 = if self.bus.disk.motor_on { target * 8 } else { target };
            assert(effective == (if old(self).bus.disk.motor_on { 8 * target } else { target as int }));
            assert(effective == effective_budget(*old(self), target));
            let ghost c0 = self.cpu;
            let ghost m0 = self.bus.memory();
            let ghost quiet = run_fits(self.bus, self.cpu, effective) && avoids_rwts(c0, m0, effective);
            let ghost mut j: nat = 0;
            proof {
                lemma_machine_steps_zero(*self);
            }
            while self.cpu.cycles - start < effective
                invariant
                    machine_steps(*old(self), j, *self),
                    start == old(self).cpu.cycles,
                    start + effective + 512 <= u64::MAX,
                    start <= self.cpu.cycles < start + effective + 152,
                    self.wf(),
                    c0 == old(self).cpu,
                    m0 == old(self).bus.memory(),
                    quiet == (run_fits(old(self).bus, old(self).cpu, effective) && avoids_rwts(c0, m0, effective)),
                    quiet ==> (self.cpu == c0 && self.bus.memory() == m0) || exists|n: nat| {
                        &&& run_stops_after(c0, m0, effective, n)
                        &&& #[trigger] steps_spec(c0, m0, n) == (self.cpu, self.bus.memory())
                    },
                decreases start + effective + 152 - self.cpu.cycles,
            {
                let remaining = effective - (self.cpu.cycles - start);
                proof {
                    if quiet {
                        if !(self.cpu == c0 && self.bus.memory() == m0) {
                            let n = choose|n: nat| {
                                &&& run_stops_after(c0, m0, effective, n)
                                &&& #[trigger] steps_spec(c0, m0, n) == (self.cpu, self.bus.memory())
                            };
                            assert(steps_spec(c0, m0, n).0.cycles >= c0.cycles + effective);
                        }
                        assert(self.cpu == c0 && self.bus.memory() == m0);
                        assert(remaining == effective);
                        assert forall|k: nat| #[trigger] steps_spec(c0, m0, k).0.cycles < c0.cycles + remaining
                            && steps_spec(c0, m0, k).0.pc != RWTS_ENTRY_PC implies crate::cpu::footprint::step_fits(
                            self.bus.plain_reads(),
                            self.bus.plain_writes(),
                            steps_spec(c0, m0, k).0,
                            steps_spec(c0, m0, k).1,
                        ) by {}
                        assert(run_until_fits(self.bus, self.cpu, remaining, RWTS_ENTRY_PC));
                    }
                }
                let ghost ma = *self;
                let ran = self.cpu.run_until(&mut self.bus, remaining, RWTS_ENTRY_PC);
                proof {
                    let k = choose|k: nat| #[trigger] steps_rel(ma.cpu, ma.bus, k, ma.cpu.cycles + remaining,
                        Some(RWTS_ENTRY_PC), self.cpu, self.bus);
                    lemma_cpu_steps_are_machine_steps(ma.cpu, ma.bus, k, ma.cpu.cycles + remaining, self.cpu, self.bus);
                    assert(AppleII { cpu: ma.cpu, bus: ma.bus } == ma);
                    lemma_machine_steps_concat(*old(self), j, ma, k, *self);
                    j = j + k;
                }
                proof {
                    if quiet {
                        let n = choose|n: nat| {
                            &&& forall|k: nat| k < n ==> (#[trigger] steps_spec(c0, m0, k)).0.pc != RWTS_ENTRY_PC
                                && steps_spec(c0, m0, k).0.cycles < c0.cycles + remaining
                            &&& #[trigger] steps_spec(c0, m0, n) == (self.cpu, self.bus.memory())
                        };
                        if ran < remaining {
                            assert(steps_spec(c0, m0, n).0.cycles < c0.cycles + effective);
                            assert(steps_spec(c0, m0, n).0.pc != RWTS_ENTRY_PC);
                        }
                        assert(run_stops_after(c0, m0, effective, n));
                    }
                }
                if ran != 0 {
                    let ticks: u32 = if ran < 0xFFFF_FFFF { ran as u32 } else { 0xFFFF_FFFF };
                    self.bus.disk.tick(ticks);
                }
                if self.cpu.cycles - start < effective && self.cpu.pc == RWTS_ENTRY_PC {
                    let ghost mb = *self;
                    let served = self.handle_rwts_trap();
                    if served.is_none() {
                        // Not served: step past the entry normally.
                        let cycles = self.cpu.step(&mut self.bus);
                        self.bus.disk.tick(cycles);
                        proof {
                            assert(step_rel(mb.cpu, mb.bus, self.cpu, self.bus, cycles));
                        }
                    }
                    proof {
                        assert(machine_step(mb, *self));
                        lemma_machine_steps_extend(*old(self), j + 1, mb, *self);
                        j = j + 1;
                    }
                }
            }
            proof {
                if quiet && self.cpu == c0 && self.bus.memory() == m0 {
                    assert(steps_spec(c0, m0, 0) == (c0, m0));
                    assert(run_stops_after(c0, m0, effective, 0));
                }
            }
            self.cpu.cycles - start
        } else {
            // Step instruction by instruction so that the disk is ticked.
            assert(effective_budget(*old(self), target) == target);
            let ghost c0 = self.cpu;
            let ghost m0 = self.bus.memory();
            let ghost plain = run_fits(self.bus, self.cpu, target);
            let ghost mut n: nat = 0;
            proof {
                lemma_steps_zero(c0, self.bus, start + target, None);
            }
            while self.cpu.cycles - start < target
                invariant
                    start == old(self).cpu.cycles,
                    start + target + 512 <= u64::MAX,
                    start <= self.cpu.cycles < start + target + 8,
                    self.wf(),
                    c0 == old(self).cpu,
                    m0 == old(self).bus.memory(),
                    plain == run_fits(old(self).bus, old(self).cpu, target),
                    plain ==> steps_spec(c0, m0, n) == (self.cpu, self.bus.memory()),
                    plain ==> forall|k: nat| k < n ==> (#[trigger] steps_spec(c0, m0, k)).0.cycles < start + target,
                    steps_rel(c0, old(self).bus, n, start + target, None, self.cpu, self.bus),
                decreases start + target + 8 - self.cpu.cycles,
            {
                proof {
                    if plain {
                        assert forall|k: nat| k < n + 1 implies (#[trigger] steps_spec(c0, m0, k)).0.cycles < start + target by {
                            if k == n {
                                assert(steps_spec(c0, m0, n).0 == self.cpu);
                            }
                        }
                        assert(steps_spec(c0, m0, n).0.cycles < c0.cycles + target);
                        assert(bus_fits_step(self.bus, self.cpu));
                    }
                }
                let ghost cs = self.cpu;
                let ghost bs = self.bus;
                let cycles = self.cpu.step(&mut self.bus);
                self.bus.disk.tick(cycles);
                proof {
                    lemma_steps_extend(c0, old(self).bus, n + 1, start + target, None, cs, bs, self.cpu, self.bus, cycles);
                    n = n + 1;
                }
            }
            proof {
                if plain {
                    assert(run_stops_after(c0, m0, target, n));
                }
            }
            self.cpu.cycles - start
        }
    }
}

} // verus!
