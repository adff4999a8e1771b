use tb_perf::metrics::TestPhase;
use tb_perf::phase::{get_current_phase, PhaseController};

#[test]
fn test_phase_controller_initial_state() {
    let ctrl = PhaseController::new(2, 5);
    assert!(!ctrl.stop_flag());
    assert!(!ctrl.phase_flag());
    assert_eq!(ctrl.completed_count(), 0);
    assert_eq!(get_current_phase(ctrl.phase_flag()), TestPhase::Warmup);
}

#[test]
fn test_zero_warmup_enters_measurement_immediately() {
    // With no warmup, the warmup timer elapses at once: measurement
    // begins immediately and the warmup produced no progress.
    let mut ctrl = PhaseController::new(0, 5);
    let warmup_count = ctrl.begin_measurement();
    assert_eq!(warmup_count, 0);
    assert!(ctrl.phase_flag());
    assert_eq!(get_current_phase(ctrl.phase_flag()), TestPhase::Measurement);
}

#[test]
fn test_phase_progression_is_monotonic() {
    let mut ctrl = PhaseController::new(1, 2);
    ctrl.add_completed();
    assert!(!ctrl.phase_flag());

    let warmup_count = ctrl.begin_measurement();
    assert_eq!(warmup_count, 1);
    assert!(ctrl.phase_flag());

    // Later events never take the controller back to warmup.
    ctrl.add_completed();
    assert!(ctrl.phase_flag());
    ctrl.request_stop();
    assert!(ctrl.phase_flag());
    assert!(ctrl.stop_flag());
    ctrl.add_completed();
    assert!(ctrl.stop_flag());
    assert!(ctrl.phase_flag());
}

#[test]
fn test_warmup_count_snapshot() {
    let mut ctrl = PhaseController::new(1, 2);
    for _ in 0..7 {
        ctrl.add_completed();
    }
    let warmup_count = ctrl.begin_measurement();
    assert_eq!(warmup_count, 7);
    for _ in 0..5 {
        ctrl.add_completed();
    }
    assert_eq!(ctrl.completed_count(), 12);
    assert_eq!(ctrl.log_stats(warmup_count), 5);
}

#[test]
fn test_log_stats_with_no_measurement_progress() {
    let mut ctrl = PhaseController::new(0, 1);
    ctrl.add_completed();
    ctrl.add_completed();
    let warmup_count = ctrl.begin_measurement();
    assert_eq!(ctrl.log_stats(warmup_count), 0);
}

#[test]
fn test_phase_labels() {
    assert_eq!(TestPhase::Warmup.as_str(), "warmup");
    assert_eq!(TestPhase::Measurement.as_str(), "measurement");
}
