use tb_perf::config::{
    Config, ConfigReal, CoordinatorConfig, DatabaseConfig, DatabaseType, DeploymentConfig,
    DeploymentType, IsolationLevel, MonitoringConfig, PostgresqlConfig, WorkloadConfig,
};
use tb_perf::results::{expected_total_balance, sum_run_counts, CollectedMetrics, ConfigSummary};

#[test]
fn test_collected_metrics_default() {
    let metrics = CollectedMetrics::default();
    assert_eq!(metrics.completed_transfers, 0);
    assert_eq!(metrics.rejected_transfers, 0);
    assert_eq!(metrics.failed_transfers, 0);
    assert_eq!(metrics.latency_p50_us, 0);
}

#[test]
fn test_config_summary_repeats_workload_facts() {
    let config = Config {
        workload: WorkloadConfig {
            test_mode: "max_throughput".to_string(),
            concurrency: Some(4),
            target_rate: None,
            max_concurrency: None,
            num_accounts: 1000,
            zipfian_exponent: ConfigReal::Finite { negative: false, thousandths: 0 },
            initial_balance: 5000,
            min_transfer_amount: 1,
            max_transfer_amount: 100,
            warmup_duration_secs: 1,
            test_duration_secs: 2,
        },
        database: DatabaseConfig { kind: DatabaseType::TigerBeetle },
        postgresql: Some(PostgresqlConfig {
            isolation_level: IsolationLevel::Serializable,
            connection_pool_size: 1,
            connection_pool_min_idle: None,
            batched_mode: false,
        }),
        tigerbeetle: None,
        deployment: DeploymentConfig {
            kind: DeploymentType::Local,
            num_db_nodes: 1,
            num_client_nodes: None,
            aws_region: None,
            db_instance_type: None,
            client_instance_type: None,
            measure_network_latency: false,
        },
        coordinator: CoordinatorConfig {
            test_runs: 2,
            max_variance_threshold: ConfigReal::Finite { negative: false, thousandths: 100 },
            max_error_rate: ConfigReal::Finite { negative: false, thousandths: 50 },
            metrics_export_path: "./results".to_string(),
            keep_grafana_running: false,
        },
        monitoring: MonitoringConfig {
            grafana_port: 3000,
            prometheus_port: 9090,
            otel_collector_port: 4317,
        },
    };
    let summary = ConfigSummary::new(&config, 2);
    assert_eq!(summary.database_type, "tigerbeetle");
    assert_eq!(summary.test_mode, "max_throughput");
    assert_eq!(summary.num_accounts, 1000);
    assert_eq!(summary.initial_balance, 5000);
    assert_eq!(summary.warmup_duration_secs, 1);
    assert_eq!(summary.test_duration_secs, 2);
    assert_eq!(summary.num_runs, 2);
}

#[test]
fn test_expected_total_balance_product() {
    assert_eq!(expected_total_balance(0, 100), 0);
    assert_eq!(expected_total_balance(100000, 1000000), 100_000_000_000);
    // The product of two large counts does not wrap.
    assert_eq!(
        expected_total_balance(u64::MAX, 2),
        (u64::MAX as u128) * 2
    );
}

#[test]
fn test_sum_run_counts() {
    assert_eq!(sum_run_counts(&vec![]), 0);
    assert_eq!(sum_run_counts(&vec![1, 2, 3]), 6);
    assert_eq!(sum_run_counts(&vec![u64::MAX, u64::MAX]), 2 * (u64::MAX as u128));
}
