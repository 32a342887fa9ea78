//! Wall-clock pacing: how many CPU cycles a frontend owes the machine for a
//! step of real time, and which half of the flash period the screen is in.

use vstd::prelude::*;

verus! {

/// Master clock of the Apple II CPU, in cycles per second.
pub const CPU_HZ: u64 = 1_023_000;

/// Factor by which turbo mode speeds the machine up.
pub const TURBO_MULTIPLIER: u64 = 4;

/// Longest step of real time, in nanoseconds, charged to one tick; a longer
/// pause (a suspended process, a slow frame) is not caught up on.
pub const MAX_STEP_NANOS: u128 = 100_000_000;

/// Nanoseconds in a second.
pub const NANOS_PER_SECOND: u128 = 1_000_000_000;

/// Half period of flashing text, in milliseconds.
pub const FLASH_HALF_PERIOD_MS: u128 = 267;

/// The step of real time that a tick is charged for.
pub open spec fn charged_nanos(dt_nanos: u128) -> int {
    if dt_nanos > MAX_STEP_NANOS {
        MAX_STEP_NANOS as int
    } else {
        dt_nanos as int
    }
}

/// Cycle-nanoseconds owed after a step: what was left over plus the step
/// times the clock rate.
pub open spec fn owed(accum: u128, dt_nanos: u128) -> int {
    accum + charged_nanos(dt_nanos) * CPU_HZ
}

/// What one tick of the pacing loop hands the machine.
#[derive(Clone, Copy, Debug, PartialEq, Eq, Structural)]
pub struct TickBudget {
    /// Cycle-nanoseconds carried to the next tick (less than a second's worth).
    pub accum: u128,
    /// Cycles that the step of real time is worth at the machine's clock rate.
    pub real_cycles: u64,
    /// Cycles to run: `real_cycles`, times the turbo factor in turbo mode.
    pub cycles_to_run: u64,
}

/// Accounts for `dt_nanos` of real time: caps the step, converts it to whole
/// cycles at `CPU_HZ` carrying the remainder in `accum`, and multiplies the
/// cycles by the turbo factor when `turbo` is set.
pub fn tick_budget(accum: u128, dt_nanos: u128, turbo: bool) -> (b: TickBudget)
    requires
        accum < NANOS_PER_SECOND,
    ensures
        b.real_cycles == owed(accum, dt_nanos) / (NANOS_PER_SECOND as int),
        b.accum == owed(accum, dt_nanos) % (NANOS_PER_SECOND as int),
        b.accum < NANOS_PER_SECOND,
        b.cycles_to_run == if turbo {
            b.real_cycles * TURBO_MULTIPLIER
        } else {
            b.real_cycles as int
        },
{
    let step: u128 = if dt_nanos > MAX_STEP_NANOS {
        MAX_STEP_NANOS
    } else {
        dt_nanos
    };
    assert(step * (CPU_HZ as u128) <= 100_000_000 * 1_023_000) by (nonlinear_arith)
        requires
            step <= 100_000_000,
            CPU_HZ == 1_023_000,
    ;
    let total: u128 = accum + step * (CPU_HZ as u128);
    let whole: u128 = total / NANOS_PER_SECOND;
    let rest: u128 = total % NANOS_PER_SECOND;
    assert(whole <= 102_301);
    let real_cycles: u64 = whole as u64;
    let cycles_to_run: u64 = if turbo {
        real_cycles * TURBO_MULTIPLIER
    } else {
        real_cycles
    };
    TickBudget { accum: rest, real_cycles, cycles_to_run }
}

/// Cycles handed out, and the carry left, by a run of ticks that starts with
/// carry `accum` and is charged the steps `dts` in turn, each as
/// `tick_budget` charges it.
pub open spec fn paced(accum: int, dts: Seq<u128>) -> (int, int)
    decreases dts.len(),
{
    if dts.len() == 0 {
        (0, accum)
    } else {
        let t = accum + charged_nanos(dts[0]) * CPU_HZ;
        let rest = paced(t % (NANOS_PER_SECOND as int), dts.drop_first());
        (t / (NANOS_PER_SECOND as int) + rest.0, rest.1)
    }
}

/// The real time charged for the steps `dts`, in nanoseconds.
pub open spec fn charged_total(dts: Seq<u128>) -> int
    decreases dts.len(),
{
    if dts.len() == 0 {
        0
    } else {
        charged_nanos(dts[0]) + charged_total(dts.drop_first())
    }
}

/// Pacing loses and invents no time: over any run of ticks, the cycles handed
/// out, in cycle-nanoseconds, plus the final carry equal the starting carry
/// plus the real time charged times the clock rate.
pub proof fn lemma_pacing_loses_no_cycles(accum: int, dts: Seq<u128>)
    ensures
        paced(accum, dts).0 * NANOS_PER_SECOND + paced(accum, dts).1 == accum
            + charged_total(dts) * CPU_HZ,
    decreases dts.len(),
{
    if dts.len() > 0 {
        let t = accum + charged_nanos(dts[0]) * CPU_HZ;
        let n = NANOS_PER_SECOND as int;
        lemma_pacing_loses_no_cycles(t % n, dts.drop_first());
        assert(t == (t / n) * n + t % n);
        assert((charged_nanos(dts[0]) + charged_total(dts.drop_first())) * CPU_HZ
            == charged_nanos(dts[0]) * CPU_HZ + charged_total(dts.drop_first()) * CPU_HZ)
            by (nonlinear_arith);
        assert((t / n + paced(t % n, dts.drop_first()).0) * n
            == (t / n) * n + paced(t % n, dts.drop_first()).0 * n) by (nonlinear_arith);
    }
}

/// Whether flashing text shows in its normal form `elapsed_ms` milliseconds
/// after start: the first half period normal, the next inverse, and so on.
pub fn flash_visible(elapsed_ms: u128) -> (on: bool)
    ensures
        on == ((elapsed_ms / FLASH_HALF_PERIOD_MS) % 2 == 0),
{
    (elapsed_ms / FLASH_HALF_PERIOD_MS) % 2 == 0
}

} // verus!
