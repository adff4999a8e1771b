use rand::rngs::SmallRng;
use rand::SeedableRng;
use tb_perf::memory::MemoryBackend;
use tb_perf::metrics::{TestPhase, WorkloadMetrics};
use tb_perf::phase::PhaseController;
use tb_perf::runner::{
    latency_us_from_scheduled, record_transfer_result, ExecError, FixedRateSubmitter,
    SubmitDecision, WorkloadError, WorkloadRunner,
};
use tb_perf::workload::TransferResult;

#[test]
fn test_recorder_success_counts_progress_and_latency() {
    let mut metrics = WorkloadMetrics::new();
    let mut completed: u64 = 0;
    record_transfer_result(
        &Ok(TransferResult::Success),
        150,
        TestPhase::Warmup,
        &mut metrics,
        &mut completed,
    );
    assert_eq!(completed, 1);
    assert_eq!(metrics.warmup.completed, 1);
    assert_eq!(metrics.warmup.latency_samples, 1);
    assert_eq!(metrics.warmup.rejected, 0);
    assert_eq!(metrics.warmup.failed, 0);
    assert_eq!(metrics.measurement.completed, 0);
}

#[test]
fn test_recorder_rejection_counts_progress_and_latency() {
    let mut metrics = WorkloadMetrics::new();
    let mut completed: u64 = 0;
    record_transfer_result(
        &Ok(TransferResult::InsufficientBalance),
        150,
        TestPhase::Measurement,
        &mut metrics,
        &mut completed,
    );
    assert_eq!(completed, 1);
    assert_eq!(metrics.measurement.rejected, 1);
    assert_eq!(metrics.measurement.latency_samples, 1);
    assert_eq!(metrics.measurement.completed, 0);
}

#[test]
fn test_recorder_failures_count_no_progress_no_latency() {
    let mut metrics = WorkloadMetrics::new();
    let mut completed: u64 = 0;
    record_transfer_result(
        &Ok(TransferResult::AccountNotFound),
        10,
        TestPhase::Measurement,
        &mut metrics,
        &mut completed,
    );
    record_transfer_result(
        &Ok(TransferResult::Failed),
        10,
        TestPhase::Measurement,
        &mut metrics,
        &mut completed,
    );
    record_transfer_result(
        &Err(ExecError { serialization: false }),
        10,
        TestPhase::Measurement,
        &mut metrics,
        &mut completed,
    );
    assert_eq!(completed, 0);
    assert_eq!(metrics.measurement.failed, 3);
    assert_eq!(metrics.measurement.latency_samples, 0);
}

#[test]
fn test_outcome_recorded_under_phase_at_record_time() {
    // A transfer issued during warmup whose outcome lands after the
    // phase flip is attributed to measurement.
    let executor = MemoryBackend::new(10, 1_000_000);
    let mut runner = WorkloadRunner::new(executor, 10, 1, 10, 1, 2, WorkloadMetrics::new());
    let mut ctrl = PhaseController::new(1, 2);

    // The request goes out while the controller still reads warmup...
    assert!(!ctrl.phase_flag());
    let result = Ok(TransferResult::Success);

    // ...and the phase flips while it is in flight.
    ctrl.begin_measurement();
    runner.record_step(result, 500_000, &mut ctrl);

    assert_eq!(runner.metrics.warmup.completed, 0);
    assert_eq!(runner.metrics.measurement.completed, 1);
    assert_eq!(runner.metrics.measurement.latency_samples, 1);
}

#[test]
fn test_closed_loop_run_with_memory_executor() {
    // Closed loop against the in-memory executor: eight workers each
    // take turns; warmup progress is snapshotted at the flip; no
    // transfer fails; phase attribution stays consistent.
    let executor = MemoryBackend::new(64, 1_000_000);
    let mut runner = WorkloadRunner::new(executor, 64, 1, 100, 1, 2, WorkloadMetrics::new());
    let mut ctrl = PhaseController::new(1, 2);
    let mut rngs: Vec<SmallRng> = (0..8u64).map(SmallRng::seed_from_u64).collect();

    for round in 0..25 {
        for rng in rngs.iter_mut() {
            let result = runner.run_step(rng, &mut ctrl, 10 + round);
            assert!(result.is_ok());
        }
    }
    let warmup_count = ctrl.begin_measurement();
    for round in 0..50 {
        for rng in rngs.iter_mut() {
            let result = runner.run_step(rng, &mut ctrl, 10 + round);
            assert!(result.is_ok());
        }
    }
    ctrl.request_stop();

    let completed_count = ctrl.completed_count();
    assert!(completed_count > 0);
    assert!(warmup_count <= completed_count);
    assert_eq!(runner.metrics.warmup.failed, 0);
    assert_eq!(runner.metrics.measurement.failed, 0);
    // Every outcome was recorded under exactly one phase, and both
    // tallies together account for all progress.
    let recorded = runner.metrics.warmup.completed
        + runner.metrics.warmup.rejected
        + runner.metrics.measurement.completed
        + runner.metrics.measurement.rejected;
    assert_eq!(recorded, completed_count);
    assert_eq!(runner.metrics.warmup.completed + runner.metrics.warmup.rejected, warmup_count);
    assert_eq!(ctrl.log_stats(warmup_count), completed_count - warmup_count);
}

#[test]
fn test_fixed_rate_zero_target_rate_rejected() {
    // Construction fails before any request issues.
    let r = FixedRateSubmitter::new(0, 10, 0);
    assert_eq!(r, Err(WorkloadError::ZeroTargetRate));
}

#[test]
fn test_fixed_rate_grid_and_concurrency_cap() {
    // 1000 requests per second: one slot every millisecond.
    let mut submitter = FixedRateSubmitter::new(1000, 2, 0).unwrap();
    assert_eq!(submitter.interval_ns, 1_000_000);
    let mut metrics = WorkloadMetrics::new();

    let d0 = submitter.tick(&mut metrics, TestPhase::Warmup);
    assert_eq!(d0, SubmitDecision::Submit { scheduled_ns: 0 });
    let d1 = submitter.tick(&mut metrics, TestPhase::Warmup);
    assert_eq!(d1, SubmitDecision::Submit { scheduled_ns: 1_000_000 });
    assert_eq!(submitter.in_flight, 2);

    // The cap is reached: the next slot is dropped, but the grid
    // still advances by the fixed interval.
    let d2 = submitter.tick(&mut metrics, TestPhase::Warmup);
    assert_eq!(d2, SubmitDecision::Dropped);
    assert_eq!(submitter.in_flight, 2);
    assert_eq!(metrics.warmup.dropped, 1);
    assert_eq!(submitter.next_submit_ns, 3_000_000);

    // A completion frees a slot; the following slot submits again at
    // its scheduled grid time.
    submitter.complete();
    let d3 = submitter.tick(&mut metrics, TestPhase::Warmup);
    assert_eq!(d3, SubmitDecision::Submit { scheduled_ns: 3_000_000 });
}

#[test]
fn test_open_loop_with_slow_stub_executor() {
    // target_rate 1000, max_concurrency 10, a stub that takes 50 ms
    // per request: the cap is hit almost immediately, many slots are
    // dropped, and in_flight never exceeds 10.
    let mut submitter = FixedRateSubmitter::new(1000, 10, 0).unwrap();
    let mut metrics = WorkloadMetrics::new();
    let service_ns: u64 = 50_000_000;
    let mut in_flight_finish: Vec<u64> = Vec::new();
    let mut submitted = 0u64;
    let mut max_in_flight = 0u64;

    for slot in 0..200u64 {
        let now_ns = slot * 1_000_000;
        // Complete whatever the stub has finished by now.
        in_flight_finish.retain(|finish| {
            if *finish <= now_ns {
                submitter.complete();
                false
            } else {
                true
            }
        });
        match submitter.tick(&mut metrics, TestPhase::Measurement) {
            SubmitDecision::Submit { scheduled_ns } => {
                submitted += 1;
                in_flight_finish.push(now_ns + service_ns);
                // The stub sleeps 50 ms, so latency measured from the
                // schedule is at least the service time.
                let latency = latency_us_from_scheduled(scheduled_ns, now_ns + service_ns);
                assert!(latency >= 50_000);
            }
            SubmitDecision::Dropped => {}
        }
        assert!(submitter.in_flight <= 10);
        max_in_flight = max_in_flight.max(submitter.in_flight);
    }

    assert_eq!(max_in_flight, 10);
    assert!(metrics.measurement.dropped > 100, "most slots are dropped under a 10-deep cap");
    assert!(submitted >= 10);
}

#[test]
fn test_coordinated_omission_correction() {
    // A request scheduled at t=0 that only completes at t=120ms
    // reports the full 120ms, queueing delay included.
    assert_eq!(latency_us_from_scheduled(0, 120_000_000), 120_000);
    // A completion stamped before its schedule reports zero.
    assert_eq!(latency_us_from_scheduled(5_000, 4_000), 0);
}
