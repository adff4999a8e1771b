use vstd::prelude::*;
use crate::metrics::{inc, TestPhase};

verus! {

/// Events that drive a run's phase state forward.
#[derive(Debug, Clone, Copy, PartialEq, Eq, Structural)]
pub enum PhaseEvent {
    /// A transfer completed or was rejected: the progress counter moves.
    Progress,
    /// The warmup timer elapsed: measurement begins.
    WarmupElapsed,
    /// The measurement timer elapsed: workers must stop.
    MeasurementElapsed,
}

/// State of the warmup -> measurement -> stop progression of one run.
///
/// The timers themselves live with the caller; this controller holds
/// the flags the workers observe and the shared progress counter, and
/// says exactly what each timer event does to them.
#[derive(Debug, Clone, Copy, PartialEq, Eq, Structural)]
pub struct PhaseController {
    /// True once the run must stop.
    pub stop_flag: bool,
    /// False during warmup, true once measurement has begun.
    pub phase_flag: bool,
    /// Transfers counted as progress (successes and rejections).
    pub completed_count: u64,
    /// Configured warmup length in seconds.
    pub warmup_duration_secs: u64,
    /// Configured measurement length in seconds.
    pub test_duration_secs: u64,
}

/// What one event does to the controller state.
pub open spec fn phase_step(s: PhaseController, e: PhaseEvent) -> PhaseController {
    match e {
        PhaseEvent::Progress => PhaseController { completed_count: inc(s.completed_count), ..s },
        PhaseEvent::WarmupElapsed => PhaseController { phase_flag: true, ..s },
        PhaseEvent::MeasurementElapsed => PhaseController { stop_flag: true, ..s },
    }
}

/// The controller state after a whole sequence of events.
pub open spec fn phase_run(s: PhaseController, es: Seq<PhaseEvent>) -> PhaseController
    decreases es.len(),
{
    if es.len() == 0 {
        s
    } else {
        phase_run(phase_step(s, es[0]), es.drop_first())
    }
}

/// The phase that a read of the phase flag denotes.
pub open spec fn spec_phase_of(phase_flag: bool) -> TestPhase {
    if phase_flag {
        TestPhase::Measurement
    } else {
        TestPhase::Warmup
    }
}

impl PhaseController {
    pub fn new(warmup_duration_secs: u64, test_duration_secs: u64) -> (r: PhaseController)
        ensures
            r == (PhaseController {
                stop_flag: false,
                phase_flag: false,
                completed_count: 0u64,
                warmup_duration_secs,
                test_duration_secs,
            }),
    {
        PhaseController {
            stop_flag: false,
            phase_flag: false,
            completed_count: 0,
            warmup_duration_secs,
            test_duration_secs,
        }
    }

    /// Current value of the stop flag.
    pub fn stop_flag(&self) -> (r: bool)
        ensures
            r == self.stop_flag,
    {
        self.stop_flag
    }

    /// Current value of the phase flag.
    pub fn phase_flag(&self) -> (r: bool)
        ensures
            r == self.phase_flag,
    {
        self.phase_flag
    }

    /// Current value of the progress counter.
    pub fn completed_count(&self) -> (r: u64)
        ensures
            r == self.completed_count,
    {
        self.completed_count
    }

    /// Count one completed or rejected transfer as progress.
    pub fn add_completed(&mut self)
        ensures
            *final(self) == phase_step(*old(self), PhaseEvent::Progress),
    {
        self.completed_count = if self.completed_count < u64::MAX {
            self.completed_count + 1
        } else {
            self.completed_count
        };
    }

    /// The warmup timer elapsed: publish the measurement phase and
    /// snapshot how much progress the warmup produced.
    pub fn begin_measurement(&mut self) -> (warmup_count: u64)
        ensures
            *final(self) == phase_step(*old(self), PhaseEvent::WarmupElapsed),
            warmup_count == old(self).completed_count,
    {
        self.phase_flag = true;
        self.completed_count
    }

    /// The measurement timer elapsed: tell all workers to stop.
    pub fn request_stop(&mut self)
        ensures
            *final(self) == phase_step(*old(self), PhaseEvent::MeasurementElapsed),
    {
        self.stop_flag = true;
    }

    /// Progress made during the measurement phase alone, given the
    /// snapshot taken when measurement began.
    pub fn log_stats(&self, warmup_count: u64) -> (r: u64)
        ensures
            r == if warmup_count <= self.completed_count {
                (self.completed_count - warmup_count) as u64
            } else {
                0u64
            },
    {
        if warmup_count <= self.completed_count {
            self.completed_count - warmup_count
        } else {
            0
        }
    }
}

/// Convert a read of the phase flag into the phase it denotes.
pub fn get_current_phase(phase_flag: bool) -> (r: TestPhase)
    ensures
        r == spec_phase_of(phase_flag),
{
    if phase_flag {
        TestPhase::Measurement
    } else {
        TestPhase::Warmup
    }
}

/// Phase monotonicity over one event: once the phase flag reads
/// measurement no later read returns warmup, and once the stop flag
/// reads true no later read returns false. Events also never disturb
/// the configured durations.
pub proof fn lemma_phase_monotonic(s: PhaseController, e: PhaseEvent)
    ensures
        s.phase_flag ==> phase_step(s, e).phase_flag,
        s.stop_flag ==> phase_step(s, e).stop_flag,
        phase_step(s, e).warmup_duration_secs == s.warmup_duration_secs,
        phase_step(s, e).test_duration_secs == s.test_duration_secs,
{
}

/// Phase monotonicity over any sequence of events.
pub proof fn lemma_phase_monotonic_run(s: PhaseController, es: Seq<PhaseEvent>)
    ensures
        s.phase_flag ==> phase_run(s, es).phase_flag,
        s.stop_flag ==> phase_run(s, es).stop_flag,
    decreases es.len(),
{
    if es.len() > 0 {
        lemma_phase_monotonic(s, es[0]);
        lemma_phase_monotonic_run(phase_step(s, es[0]), es.drop_first());
    }
}

} // verus!
