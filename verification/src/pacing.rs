//! Pacing: how long the host has to wait after an instruction so that wall
//! time keeps step with the simulated clock.

use vstd::prelude::*;

verus! {

/// Nanoseconds of wall time per clock cycle. The nominal period of the
/// 2 MHz clock is 500 ns; the shorter default makes up for what the host
/// loses around each wait.
pub const PERIOD_NS: u64 = 350;

/// The wait that brings wall time level with simulated time: the time that
/// `ticks` clock cycles take, less the time that has already passed. A host
/// that has fallen behind does not wait.
pub open spec fn wait_nanos(ticks: nat, period_ns: nat, elapsed_ns: nat) -> nat {
    if ticks * period_ns > elapsed_ns {
        (ticks * period_ns - elapsed_ns) as nat
    } else {
        0
    }
}

/// Turns clock cycles into waits.
pub struct Pacer {
    period_ns: u64,
}

impl Pacer {
    /// Nanoseconds of wall time per clock cycle.
    pub closed spec fn period(&self) -> nat {
        self.period_ns as nat
    }

    /// A pacer with the default period.
    pub fn new() -> (pacer: Pacer)
        ensures
            pacer.period() == PERIOD_NS,
    {
        Pacer { period_ns: PERIOD_NS }
    }

    /// A pacer with a period of the host's choice.
    pub fn with_period(period_ns: u64) -> (pacer: Pacer)
        ensures
            pacer.period() == period_ns,
    {
        Pacer { period_ns }
    }

    /// The nanoseconds to wait after `ticks` clock cycles have been charged
    /// and `elapsed_ns` nanoseconds have passed since the last wait.
    pub fn delay(&self, ticks: usize, elapsed_ns: u128) -> (nanos: u64)
        requires
            ticks * self.period() <= u64::MAX,
        ensures
            nanos == wait_nanos(ticks as nat, self.period(), elapsed_ns as nat),
    {
        let cycle_time: u128 = (ticks as u128) * (self.period_ns as u128);
        if cycle_time > elapsed_ns {
            (cycle_time - elapsed_ns) as u64
        } else {
            0
        }
    }
}

} // verus!
