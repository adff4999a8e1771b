use vstd::prelude::*;
use crate::config::{Config, DatabaseType};

verus! {

/// Metrics collected from the external time-series store for one
/// run: outcome counters over the measurement window and the four
/// canonical latency quantiles in microseconds.
#[derive(Debug, Clone, Copy, PartialEq, Eq, Structural)]
pub struct CollectedMetrics {
    pub completed_transfers: u64,
    pub rejected_transfers: u64,
    pub failed_transfers: u64,
    pub latency_p50_us: u64,
    pub latency_p95_us: u64,
    pub latency_p99_us: u64,
    pub latency_p999_us: u64,
}

impl Default for CollectedMetrics {
    /// A collection that saw nothing: every counter and quantile zero.
    fn default() -> (r: CollectedMetrics)
        ensures
            r == (CollectedMetrics {
                completed_transfers: 0u64,
                rejected_transfers: 0u64,
                failed_transfers: 0u64,
                latency_p50_us: 0u64,
                latency_p95_us: 0u64,
                latency_p99_us: 0u64,
                latency_p999_us: 0u64,
            }),
    {
        CollectedMetrics {
            completed_transfers: 0,
            rejected_transfers: 0,
            failed_transfers: 0,
            latency_p50_us: 0,
            latency_p95_us: 0,
            latency_p99_us: 0,
            latency_p999_us: 0,
        }
    }
}

/// The slice of the configuration that the result report repeats.
#[derive(Debug, Clone, PartialEq, Eq)]
pub struct ConfigSummary {
    pub database_type: String,
    pub test_mode: String,
    pub num_accounts: u64,
    pub initial_balance: u64,
    pub warmup_duration_secs: u64,
    pub test_duration_secs: u64,
    pub num_runs: usize,
}

impl ConfigSummary {
    /// Summarize a configuration for the report header.
    pub fn new(config: &Config, num_runs: usize) -> (r: ConfigSummary)
        ensures
            config.database.kind == DatabaseType::PostgreSQL ==> r.database_type@
                == "postgresql"@,
            config.database.kind == DatabaseType::TigerBeetle ==> r.database_type@
                == "tigerbeetle"@,
            r.test_mode@ == config.workload.test_mode@,
            r.num_accounts == config.workload.num_accounts,
            r.initial_balance == config.workload.initial_balance,
            r.warmup_duration_secs == config.workload.warmup_duration_secs,
            r.test_duration_secs == config.workload.test_duration_secs,
            r.num_runs == num_runs,
    {
        ConfigSummary {
            database_type: config.database.kind.as_str().to_owned(),
            test_mode: config.workload.test_mode.clone(),
            num_accounts: config.workload.num_accounts,
            initial_balance: config.workload.initial_balance,
            warmup_duration_secs: config.workload.warmup_duration_secs,
            test_duration_secs: config.workload.test_duration_secs,
            num_runs,
        }
    }
}

/// The total balance the backend must hold before and after a run:
/// every account times its initial balance.
pub fn expected_total_balance(num_accounts: u64, initial_balance: u64) -> (r: u128)
    ensures
        r == num_accounts * initial_balance,
{
    proof {
        assert((num_accounts as int) * (initial_balance as int) <= u128::MAX)
            by (nonlinear_arith)
            requires
                num_accounts <= u64::MAX,
                initial_balance <= u64::MAX,
        ;
    }
    (num_accounts as u128) * (initial_balance as u128)
}

/// Sum of one per-run counter over all runs of a test.
pub open spec fn spec_sum_counts(s: Seq<u64>) -> int
    decreases s.len(),
{
    if s.len() == 0 {
        0
    } else {
        spec_sum_counts(s.drop_last()) + s.last()
    }
}

/// Total a per-run counter over all runs, for the aggregate report.
pub fn sum_run_counts(counts: &Vec<u64>) -> (r: u128)
    ensures
        r == spec_sum_counts(counts@),
{
    let mut sum: u128 = 0;
    let mut i: usize = 0;
    while i < counts.len()
        invariant
            i <= counts.len(),
            sum == spec_sum_counts(counts@.take(i as int)),
            sum <= i * (u64::MAX as int),
        decreases counts.len() - i,
    {
        proof {
            assert(counts@.take(i + 1).drop_last() =~= counts@.take(i as int));
            assert((i + 1) * (u64::MAX as int) == i * (u64::MAX as int) + (u64::MAX as int))
                by (nonlinear_arith);
            assert(i * (u64::MAX as int) <= (usize::MAX as int) * (u64::MAX as int))
                by (nonlinear_arith)
                requires
                    0 <= i <= usize::MAX,
            ;
            assert((usize::MAX as int) * (u64::MAX as int) < u128::MAX) by (nonlinear_arith);
        }
        sum = sum + counts[i] as u128;
        i = i + 1;
    }
    proof {
        assert(counts@.take(counts@.len() as int) =~= counts@);
    }
    sum
}

} // verus!
