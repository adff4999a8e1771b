use vstd::prelude::*;
use rand::rngs::SmallRng;
use crate::metrics::{add_sat, counters_of, inc, PhaseCounters, TestPhase, WorkloadMetrics};
use crate::phase::{get_current_phase, phase_step, spec_phase_of, PhaseController, PhaseEvent};
use crate::workload::{AccountSelector, TransferGenerator, TransferResult};

verus! {

/// Transport-level failure surfaced by an executor, classified by
/// whether the backend reported a serialization conflict (the
/// relational backend's SQLSTATE 40001 family).
#[derive(Debug, Clone, Copy, PartialEq, Eq, Structural)]
pub struct ExecError {
    pub serialization: bool,
}

/// Errors raised while wiring a workload run up.
#[derive(Debug, Clone, Copy, PartialEq, Eq, Structural)]
pub enum WorkloadError {
    /// The fixed-rate mode was asked to run at a rate of zero.
    ZeroTargetRate,
}

/// Capability each backend exposes: execute one logical transfer and
/// report its outcome. A transport failure that prevents classifying
/// the outcome is returned as an error; the recorder counts it as a
/// failure.
pub trait TransferExecutor {
    fn execute(&mut self, source: u64, dest: u64, amount: u64) -> (r: Result<
        TransferResult,
        ExecError,
    >);
}

/// Whether an outcome counts as progress (successes and rejections
/// both advance the shared progress counter).
pub open spec fn counts_progress(result: Result<TransferResult, ExecError>) -> bool {
    result == Result::<TransferResult, ExecError>::Ok(TransferResult::Success) || result
        == Result::<TransferResult, ExecError>::Ok(TransferResult::InsufficientBalance)
}

/// What recording one outcome does to the counters of the phase it is
/// attributed to: successes complete, insufficient balance rejects
/// (both with a latency sample), everything else fails without one.
pub open spec fn record_outcome_counters(
    c: PhaseCounters,
    result: Result<TransferResult, ExecError>,
    latency_us: u64,
) -> PhaseCounters {
    match result {
        Ok(TransferResult::Success) => PhaseCounters {
            completed: inc(c.completed),
            latency_samples: inc(c.latency_samples),
            latency_total_us: add_sat(c.latency_total_us, latency_us),
            ..c
        },
        Ok(TransferResult::InsufficientBalance) => PhaseCounters {
            rejected: inc(c.rejected),
            latency_samples: inc(c.latency_samples),
            latency_total_us: add_sat(c.latency_total_us, latency_us),
            ..c
        },
        _ => PhaseCounters { failed: inc(c.failed), ..c },
    }
}

/// Replace the counters one phase owns, leaving the other phase alone.
pub open spec fn with_counters(
    m: WorkloadMetrics,
    phase: TestPhase,
    c: PhaseCounters,
) -> WorkloadMetrics {
    match phase {
        TestPhase::Warmup => WorkloadMetrics { warmup: c, ..m },
        TestPhase::Measurement => WorkloadMetrics { measurement: c, ..m },
    }
}

/// Record the result of one transfer. This helper centralizes the
/// accounting rules shared by every runner: which outcomes count as
/// progress, which emit a latency sample, and that every sample is
/// tagged with the phase passed in — the phase read at recording time.
pub fn record_transfer_result(
    result: &Result<TransferResult, ExecError>,
    latency_us: u64,
    phase: TestPhase,
    metrics: &mut WorkloadMetrics,
    completed_count: &mut u64,
)
    ensures
        *final(metrics) == with_counters(
            *old(metrics),
            phase,
            record_outcome_counters(counters_of(*old(metrics), phase), *result, latency_us),
        ),
        *final(completed_count) == if counts_progress(*result) {
            inc(*old(completed_count))
        } else {
            *old(completed_count)
        },
{
    match result {
        Ok(TransferResult::Success) => {
            metrics.record_completed(latency_us, phase);
            *completed_count = if *completed_count < u64::MAX {
                *completed_count + 1
            } else {
                *completed_count
            };
        },
        Ok(TransferResult::InsufficientBalance) => {
            metrics.record_rejected(latency_us, phase);
            *completed_count = if *completed_count < u64::MAX {
                *completed_count + 1
            } else {
                *completed_count
            };
        },
        Ok(TransferResult::AccountNotFound) => {
            metrics.record_failed(phase);
        },
        Ok(TransferResult::Failed) => {
            metrics.record_failed(phase);
        },
        Err(_) => {
            metrics.record_failed(phase);
        },
    }
}

/// Workload runner: drives transfers against a backend-specific
/// executor, shared by every backend. The timed loops live with the
/// caller; each call of `run_step` performs one worker iteration.
pub struct WorkloadRunner<E: TransferExecutor> {
    pub executor: E,
    pub account_selector: AccountSelector,
    pub transfer_generator: TransferGenerator,
    pub metrics: WorkloadMetrics,
    pub warmup_duration_secs: u64,
    pub test_duration_secs: u64,
}

impl<E: TransferExecutor> WorkloadRunner<E> {
    pub open spec fn wf(self) -> bool {
        self.account_selector.wf() && self.transfer_generator.wf()
    }

    pub fn new(
        executor: E,
        num_accounts: u64,
        min_transfer_amount: u64,
        max_transfer_amount: u64,
        warmup_duration_secs: u64,
        test_duration_secs: u64,
        metrics: WorkloadMetrics,
    ) -> (r: WorkloadRunner<E>)
        requires
            num_accounts >= 2,
            min_transfer_amount <= max_transfer_amount,
        ensures
            r.wf(),
            r.account_selector.spec_num_accounts() == num_accounts,
            r.transfer_generator.spec_min_amount() == min_transfer_amount,
            r.transfer_generator.spec_max_amount() == max_transfer_amount,
            r.warmup_duration_secs == warmup_duration_secs,
            r.test_duration_secs == test_duration_secs,
            r.metrics == metrics,
    {
        WorkloadRunner {
            executor,
            account_selector: AccountSelector::new(num_accounts),
            transfer_generator: TransferGenerator::new(min_transfer_amount, max_transfer_amount),
            metrics,
            warmup_duration_secs,
            test_duration_secs,
        }
    }

    /// Draw one transfer request: a valid pair of distinct accounts
    /// and an amount within the configured range.
    pub fn generate_request(&self, rng: &mut SmallRng) -> (r: (u64, u64, u64))
        requires
            self.wf(),
        ensures
            1 <= r.0 <= self.account_selector.spec_num_accounts(),
            1 <= r.1 <= self.account_selector.spec_num_accounts(),
            r.0 != r.1,
            self.transfer_generator.spec_min_amount() <= r.2
                <= self.transfer_generator.spec_max_amount(),
    {
        let (source, dest) = self.account_selector.select_transfer_accounts(rng);
        let amount = self.transfer_generator.generate_amount(rng);
        (source, dest, amount)
    }

    /// Record one outcome. The phase is read from the controller here,
    /// at recording time — not at submission — so a transfer in flight
    /// across the phase flip is attributed to the phase under which its
    /// outcome lands.
    pub fn record_step(
        &mut self,
        result: Result<TransferResult, ExecError>,
        latency_us: u64,
        ctrl: &mut PhaseController,
    )
        ensures
            *final(self) == (WorkloadRunner {
                metrics: with_counters(
                    old(self).metrics,
                    spec_phase_of(old(ctrl).phase_flag),
                    record_outcome_counters(
                        counters_of(old(self).metrics, spec_phase_of(old(ctrl).phase_flag)),
                        result,
                        latency_us,
                    ),
                ),
                ..*old(self)
            }),
            *final(ctrl) == if counts_progress(result) {
                phase_step(*old(ctrl), PhaseEvent::Progress)
            } else {
                *old(ctrl)
            },
    {
        let phase = get_current_phase(ctrl.phase_flag());
        record_transfer_result(&result, latency_us, phase, &mut self.metrics, &mut ctrl.completed_count);
    }

    /// One closed-loop worker iteration: draw a request, execute it,
    /// and record the outcome under the phase in effect afterwards.
    /// The caller supplies the measured latency of the executor call.
    pub fn run_step(
        &mut self,
        rng: &mut SmallRng,
        ctrl: &mut PhaseController,
        latency_us: u64,
    ) -> (r: Result<TransferResult, ExecError>)
        requires
            old(self).wf(),
        ensures
            final(self).wf(),
            final(self).account_selector == old(self).account_selector,
            final(self).transfer_generator == old(self).transfer_generator,
            final(self).metrics == with_counters(
                old(self).metrics,
                spec_phase_of(old(ctrl).phase_flag),
                record_outcome_counters(
                    counters_of(old(self).metrics, spec_phase_of(old(ctrl).phase_flag)),
                    r,
                    latency_us,
                ),
            ),
            *final(ctrl) == if counts_progress(r) {
                phase_step(*old(ctrl), PhaseEvent::Progress)
            } else {
                *old(ctrl)
            },
    {
        let (source, dest, amount) = self.generate_request(rng);
        let result = self.executor.execute(source, dest, amount);
        self.record_step(result, latency_us, ctrl);
        result
    }
}

/// Saturating addition on u64 nanosecond timestamps.
pub open spec fn sat_add(a: u64, b: u64) -> u64 {
    if a + b <= u64::MAX {
        (a + b) as u64
    } else {
        u64::MAX
    }
}

/// What the fixed-rate submitter does with one grid slot.
#[derive(Debug, Clone, Copy, PartialEq, Eq, Structural)]
pub enum SubmitDecision {
    /// Issue a request; latency is later measured from `scheduled_ns`,
    /// the slot's place on the fixed grid, so queueing delay stays
    /// visible (coordinated-omission correction).
    Submit { scheduled_ns: u64 },
    /// The concurrency cap was reached: drop the request.
    Dropped,
}

/// State of the fixed-rate (open-loop) submitter: requests are issued
/// on a fixed time grid regardless of completions, and in-flight
/// concurrency is capped.
#[derive(Debug, Clone, Copy, PartialEq, Eq, Structural)]
pub struct FixedRateSubmitter {
    /// Grid period in nanoseconds.
    pub interval_ns: u64,
    /// The next slot on the grid.
    pub next_submit_ns: u64,
    /// Requests currently in flight.
    pub in_flight: u64,
    /// Cap on in-flight requests.
    pub max_concurrency: u64,
}

/// Events that move the submitter state.
#[derive(Debug, Clone, Copy, PartialEq, Eq, Structural)]
pub enum SubmitterEvent {
    /// A grid slot came due.
    Slot,
    /// An in-flight request finished.
    Completion,
}

/// What one event does to the submitter state: a slot advances the
/// grid and either admits a request or leaves the count at the cap; a
/// completion frees one slot.
pub open spec fn submitter_step(s: FixedRateSubmitter, e: SubmitterEvent) -> FixedRateSubmitter {
    match e {
        SubmitterEvent::Slot => FixedRateSubmitter {
            next_submit_ns: sat_add(s.next_submit_ns, s.interval_ns),
            in_flight: if s.in_flight >= s.max_concurrency {
                s.in_flight
            } else {
                (s.in_flight + 1) as u64
            },
            ..s
        },
        SubmitterEvent::Completion => FixedRateSubmitter {
            in_flight: if s.in_flight >= 1 {
                (s.in_flight - 1) as u64
            } else {
                s.in_flight
            },
            ..s
        },
    }
}

/// The submitter state after a whole sequence of events.
pub open spec fn submitter_run(s: FixedRateSubmitter, es: Seq<SubmitterEvent>) -> FixedRateSubmitter
    decreases es.len(),
{
    if es.len() == 0 {
        s
    } else {
        submitter_run(submitter_step(s, es[0]), es.drop_first())
    }
}

impl FixedRateSubmitter {
    /// The open-loop invariant: in-flight requests never exceed the cap.
    pub open spec fn wf(self) -> bool {
        self.in_flight <= self.max_concurrency
    }

    /// Build a submitter for the given rate. A rate of zero has no
    /// grid period and is rejected before any request is issued.
    pub fn new(target_rate: u64, max_concurrency: u64, start_ns: u64) -> (r: Result<
        FixedRateSubmitter,
        WorkloadError,
    >)
        ensures
            target_rate == 0 <==> r is Err,
            (r matches Err(e) ==> e == WorkloadError::ZeroTargetRate),
            (r matches Ok(s) ==> s == (FixedRateSubmitter {
                interval_ns: (1_000_000_000u64 / target_rate) as u64,
                next_submit_ns: start_ns,
                in_flight: 0u64,
                max_concurrency,
            })),
            (r matches Ok(s) ==> s.wf()),
    {
        if target_rate == 0 {
            Err(WorkloadError::ZeroTargetRate)
        } else {
            Ok(
                FixedRateSubmitter {
                    interval_ns: 1_000_000_000 / target_rate,
                    next_submit_ns: start_ns,
                    in_flight: 0,
                    max_concurrency,
                },
            )
        }
    }

    /// Handle one grid slot. The slot's scheduled time is captured
    /// before the concurrency check, and the grid always advances by a
    /// fixed interval — never from the current time — so the long-run
    /// rate is preserved across stalls. A request is dropped exactly
    /// when the pre-submit check finds the cap reached; a dropped slot
    /// is counted against the phase read at the time of the drop.
    pub fn tick(&mut self, metrics: &mut WorkloadMetrics, phase: TestPhase) -> (r: SubmitDecision)
        requires
            old(self).wf(),
        ensures
            *final(self) == submitter_step(*old(self), SubmitterEvent::Slot),
            final(self).wf(),
            final(self).interval_ns == old(self).interval_ns,
            final(self).max_concurrency == old(self).max_concurrency,
            final(self).next_submit_ns == sat_add(old(self).next_submit_ns, old(self).interval_ns),
            old(self).in_flight >= old(self).max_concurrency ==> r == SubmitDecision::Dropped
                && final(self).in_flight == old(self).in_flight && *final(metrics) == with_counters(
                *old(metrics),
                phase,
                (PhaseCounters {
                    dropped: inc(counters_of(*old(metrics), phase).dropped),
                    ..counters_of(*old(metrics), phase)
                }),
            ),
            old(self).in_flight < old(self).max_concurrency ==> r == (SubmitDecision::Submit {
                scheduled_ns: old(self).next_submit_ns,
            }) && final(self).in_flight == old(self).in_flight + 1 && *final(metrics) == *old(
                metrics,
            ),
    {
        let scheduled_ns = self.next_submit_ns;
        self.next_submit_ns = if self.next_submit_ns <= u64::MAX - self.interval_ns {
            self.next_submit_ns + self.interval_ns
        } else {
            u64::MAX
        };
        if self.in_flight >= self.max_concurrency {
            metrics.record_dropped(phase);
            SubmitDecision::Dropped
        } else {
            self.in_flight = self.in_flight + 1;
            SubmitDecision::Submit { scheduled_ns }
        }
    }

    /// One in-flight request finished.
    pub fn complete(&mut self)
        requires
            old(self).in_flight >= 1,
            old(self).wf(),
        ensures
            *final(self) == submitter_step(*old(self), SubmitterEvent::Completion),
            final(self).wf(),
            *final(self) == (FixedRateSubmitter {
                in_flight: (old(self).in_flight - 1) as u64,
                ..*old(self)
            }),
    {
        self.in_flight = self.in_flight - 1;
    }
}

/// The open-loop invariant holds at every instant: from any state
/// under the cap, no sequence of grid slots and completions pushes
/// the in-flight count past the cap, and the grid period and the cap
/// themselves never change.
pub proof fn lemma_open_loop_invariant(s: FixedRateSubmitter, es: Seq<SubmitterEvent>)
    requires
        s.wf(),
    ensures
        submitter_run(s, es).wf(),
        submitter_run(s, es).interval_ns == s.interval_ns,
        submitter_run(s, es).max_concurrency == s.max_concurrency,
    decreases es.len(),
{
    if es.len() > 0 {
        lemma_open_loop_invariant(submitter_step(s, es[0]), es.drop_first());
    }
}

/// Latency of a request measured from its scheduled slot on the grid,
/// in microseconds. Measuring from the schedule rather than the actual
/// submit instant keeps queueing delay inside the reported latency.
pub fn latency_us_from_scheduled(scheduled_ns: u64, completed_ns: u64) -> (r: u64)
    ensures
        r == if completed_ns >= scheduled_ns {
            ((completed_ns - scheduled_ns) / 1000) as u64
        } else {
            0u64
        },
{
    if completed_ns >= scheduled_ns {
        (completed_ns - scheduled_ns) / 1000
    } else {
        0
    }
}

} // verus!
