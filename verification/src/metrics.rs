use vstd::prelude::*;

verus! {

/// Phase of a benchmark run under which an outcome is recorded.
#[derive(Debug, Clone, Copy, PartialEq, Eq, Structural)]
pub enum TestPhase {
    Warmup,
    Measurement,
}

impl TestPhase {
    /// Label used to tag exported metric samples.
    pub fn as_str(&self) -> (r: &'static str)
        ensures
            *self == TestPhase::Warmup ==> r@ == "warmup"@,
            *self == TestPhase::Measurement ==> r@ == "measurement"@,
    {
        match self {
            TestPhase::Warmup => "warmup",
            TestPhase::Measurement => "measurement",
        }
    }
}

/// Saturating increment: run counters never wrap around.
pub open spec fn inc(c: u64) -> u64 {
    if c < u64::MAX {
        (c + 1) as u64
    } else {
        c
    }
}

/// Saturating addition, for accumulated latency.
pub open spec fn add_sat(a: u64, b: u64) -> u64 {
    if a + b <= u64::MAX {
        (a + b) as u64
    } else {
        u64::MAX
    }
}

/// Tallies kept for the outcomes recorded under one phase.
#[derive(Debug, Clone, Copy, PartialEq, Eq, Structural)]
pub struct PhaseCounters {
    /// Transfers that completed successfully.
    pub completed: u64,
    /// Transfers rejected for insufficient balance.
    pub rejected: u64,
    /// Transfers that failed (backend or transport errors).
    pub failed: u64,
    /// Requests dropped at submit time by the fixed-rate concurrency cap.
    pub dropped: u64,
    /// Latency samples emitted (one per completed or rejected transfer).
    pub latency_samples: u64,
    /// Sum of the emitted latency samples, in microseconds.
    pub latency_total_us: u64,
}

/// All tallies at zero.
pub open spec fn zero_counters() -> PhaseCounters {
    PhaseCounters {
        completed: 0u64,
        rejected: 0u64,
        failed: 0u64,
        dropped: 0u64,
        latency_samples: 0u64,
        latency_total_us: 0u64,
    }
}

impl PhaseCounters {
    pub fn zero() -> (r: PhaseCounters)
        ensures
            r == zero_counters(),
    {
        PhaseCounters {
            completed: 0,
            rejected: 0,
            failed: 0,
            dropped: 0,
            latency_samples: 0,
            latency_total_us: 0,
        }
    }
}

/// Counters for a whole run. Every recorded sample is tagged with the
/// phase in effect at the moment of recording, so the two phases keep
/// separate tallies.
#[derive(Debug, Clone, Copy, PartialEq, Eq, Structural)]
pub struct WorkloadMetrics {
    pub warmup: PhaseCounters,
    pub measurement: PhaseCounters,
}

/// The counters that a given phase owns.
pub open spec fn counters_of(m: WorkloadMetrics, phase: TestPhase) -> PhaseCounters {
    match phase {
        TestPhase::Warmup => m.warmup,
        TestPhase::Measurement => m.measurement,
    }
}

/// The phase other than the given one.
pub open spec fn other_phase(phase: TestPhase) -> TestPhase {
    match phase {
        TestPhase::Warmup => TestPhase::Measurement,
        TestPhase::Measurement => TestPhase::Warmup,
    }
}

impl WorkloadMetrics {
    pub fn new() -> (r: WorkloadMetrics)
        ensures
            r.warmup == zero_counters(),
            r.measurement == zero_counters(),
    {
        WorkloadMetrics { warmup: PhaseCounters::zero(), measurement: PhaseCounters::zero() }
    }

    /// Record a completed transfer: bump the completion counter of the
    /// given phase and emit one latency sample under the same phase.
    pub fn record_completed(&mut self, latency_us: u64, phase: TestPhase)
        ensures
            counters_of(*final(self), phase) == (PhaseCounters {
                completed: inc(counters_of(*old(self), phase).completed),
                latency_samples: inc(counters_of(*old(self), phase).latency_samples),
                latency_total_us: add_sat(
                    counters_of(*old(self), phase).latency_total_us,
                    latency_us,
                ),
                ..counters_of(*old(self), phase)
            }),
            counters_of(*final(self), other_phase(phase)) == counters_of(
                *old(self),
                other_phase(phase),
            ),
    {
        let c = self.counters_mut(phase);
        c.completed = bump(c.completed);
        c.latency_samples = bump(c.latency_samples);
        c.latency_total_us = bump_by(c.latency_total_us, latency_us);
    }

    /// Record a transfer rejected for insufficient balance: bump the
    /// rejection counter and emit one latency sample.
    pub fn record_rejected(&mut self, latency_us: u64, phase: TestPhase)
        ensures
            counters_of(*final(self), phase) == (PhaseCounters {
                rejected: inc(counters_of(*old(self), phase).rejected),
                latency_samples: inc(counters_of(*old(self), phase).latency_samples),
                latency_total_us: add_sat(
                    counters_of(*old(self), phase).latency_total_us,
                    latency_us,
                ),
                ..counters_of(*old(self), phase)
            }),
            counters_of(*final(self), other_phase(phase)) == counters_of(
                *old(self),
                other_phase(phase),
            ),
    {
        let c = self.counters_mut(phase);
        c.rejected = bump(c.rejected);
        c.latency_samples = bump(c.latency_samples);
        c.latency_total_us = bump_by(c.latency_total_us, latency_us);
    }

    /// Record a failed transfer: bump the failure counter. No latency
    /// sample is emitted for failures.
    pub fn record_failed(&mut self, phase: TestPhase)
        ensures
            counters_of(*final(self), phase) == (PhaseCounters {
                failed: inc(counters_of(*old(self), phase).failed),
                ..counters_of(*old(self), phase)
            }),
            counters_of(*final(self), other_phase(phase)) == counters_of(
                *old(self),
                other_phase(phase),
            ),
    {
        let c = self.counters_mut(phase);
        c.failed = bump(c.failed);
    }

    /// Record a request dropped at submit time (fixed-rate mode only):
    /// bump the dropped counter. No outcome and no latency sample.
    pub fn record_dropped(&mut self, phase: TestPhase)
        ensures
            counters_of(*final(self), phase) == (PhaseCounters {
                dropped: inc(counters_of(*old(self), phase).dropped),
                ..counters_of(*old(self), phase)
            }),
            counters_of(*final(self), other_phase(phase)) == counters_of(
                *old(self),
                other_phase(phase),
            ),
    {
        let c = self.counters_mut(phase);
        c.dropped = bump(c.dropped);
    }

    fn counters_mut(&mut self, phase: TestPhase) -> (r: &mut PhaseCounters)
        ensures
            *r == counters_of(*old(self), phase),
            counters_of(*final(self), phase) == *final(r),
            counters_of(*final(self), other_phase(phase)) == counters_of(
                *old(self),
                other_phase(phase),
            ),
    {
        match phase {
            TestPhase::Warmup => &mut self.warmup,
            TestPhase::Measurement => &mut self.measurement,
        }
    }
}

/// Saturating increment of a run counter.
fn bump(c: u64) -> (r: u64)
    ensures
        r == inc(c),
{
    if c < u64::MAX {
        c + 1
    } else {
        c
    }
}

/// Saturating addition for the latency accumulator.
fn bump_by(c: u64, amount: u64) -> (r: u64)
    ensures
        r == add_sat(c, amount),
{
    if c <= u64::MAX - amount {
        c + amount
    } else {
        u64::MAX
    }
}

} // verus!
