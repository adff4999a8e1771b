use vstd::prelude::*;

verus! {

/// A real-valued configuration parameter, as read from the
/// configuration file: its classification, and for ordinary values
/// the sign and the magnitude in thousandths. The verified core holds
/// no floating point, so a parameter carries exactly the facts the
/// validation rules and the samplers read.
#[derive(Debug, Clone, Copy, PartialEq, Eq, Structural)]
pub enum ConfigReal {
    /// An ordinary finite value.
    Finite { negative: bool, thousandths: u64 },
    /// The file held a not-a-number value.
    NotANumber,
    /// The file held an infinite value.
    Infinite { negative: bool },
}

impl ConfigReal {
    /// Whether the parameter is an ordinary finite value.
    pub open spec fn spec_is_finite(self) -> bool {
        self is Finite
    }

    /// Whether the parameter lies below zero.
    pub open spec fn spec_is_negative(self) -> bool {
        match self {
            ConfigReal::Finite { negative, thousandths } => negative && thousandths > 0,
            ConfigReal::NotANumber => false,
            ConfigReal::Infinite { negative } => negative,
        }
    }

    pub fn is_finite(&self) -> (r: bool)
        ensures
            r == self.spec_is_finite(),
    {
        match self {
            ConfigReal::Finite { .. } => true,
            _ => false,
        }
    }

    pub fn is_negative(&self) -> (r: bool)
        ensures
            r == self.spec_is_negative(),
    {
        match self {
            ConfigReal::Finite { negative, thousandths } => *negative && *thousandths > 0,
            ConfigReal::NotANumber => false,
            ConfigReal::Infinite { negative } => *negative,
        }
    }
}

/// Everything that can be wrong with a configuration file, in the
/// order validation reports it.
#[derive(Debug, Clone, Copy, PartialEq, Eq, Structural)]
pub enum ConfigError {
    /// max_throughput mode requires the concurrency field.
    MissingConcurrency,
    /// fixed_rate mode requires the target_rate field.
    MissingTargetRate,
    /// fixed_rate mode requires the max_concurrency field.
    MissingMaxConcurrency,
    /// The test_mode field names no known mode.
    InvalidTestMode,
    /// The relational database type requires its configuration section.
    MissingPostgresqlSection,
    /// The connection pool must hold at least one connection.
    ZeroConnectionPoolSize,
    /// The accounting-engine database type requires its configuration section.
    MissingTigerbeetleSection,
    /// The accounting engine needs at least one cluster address.
    EmptyClusterAddresses,
    /// Cloud deployments must say how many client nodes run.
    MissingNumClientNodes,
    /// Cloud deployments must name their region.
    MissingAwsRegion,
    /// Transfers need at least two accounts.
    TooFewAccounts,
    /// The measurement must last at least one second.
    ZeroTestDuration,
    /// The transfer amount range must not be empty.
    InvalidTransferAmounts,
    /// The skew exponent must not lie below zero.
    NegativeZipfianExponent,
    /// The skew exponent must be an ordinary finite value.
    NonFiniteZipfianExponent,
    /// The variance threshold must be an ordinary finite value.
    NonFiniteVarianceThreshold,
    /// At least one test run must be scheduled.
    ZeroTestRuns,
}

/// Workload section of the configuration.
#[derive(Debug, Clone, PartialEq, Eq)]
pub struct WorkloadConfig {
    pub test_mode: String,
    pub concurrency: Option<usize>,
    pub target_rate: Option<u64>,
    pub max_concurrency: Option<usize>,
    pub num_accounts: u64,
    pub zipfian_exponent: ConfigReal,
    pub initial_balance: u64,
    pub min_transfer_amount: u64,
    pub max_transfer_amount: u64,
    pub warmup_duration_secs: u64,
    pub test_duration_secs: u64,
}

/// The two ways a workload can be driven.
#[derive(Debug, Clone, Copy, PartialEq, Eq, Structural)]
pub enum TestMode {
    /// Persistent workers each in a tight submit/await loop.
    MaxThroughput { concurrency: usize },
    /// Requests issued on a fixed time grid under a concurrency cap.
    FixedRate { target_rate: u64, max_concurrency: usize },
}

impl TestMode {
    /// Label of the test mode for metric resource attributes.
    pub fn as_str(&self) -> (r: &'static str)
        ensures
            (*self matches TestMode::MaxThroughput { .. }) ==> r@ == "max_throughput"@,
            (*self matches TestMode::FixedRate { .. }) ==> r@ == "fixed_rate"@,
    {
        match self {
            TestMode::MaxThroughput { .. } => "max_throughput",
            TestMode::FixedRate { .. } => "fixed_rate",
        }
    }
}

/// The test mode a workload section denotes: its label resolved and
/// the fields the mode requires checked for presence.
pub open spec fn spec_test_mode(w: WorkloadConfig) -> Result<TestMode, ConfigError> {
    if w.test_mode@ == "max_throughput"@ {
        match w.concurrency {
            Some(concurrency) => Ok(TestMode::MaxThroughput { concurrency }),
            None => Err(ConfigError::MissingConcurrency),
        }
    } else if w.test_mode@ == "fixed_rate"@ {
        match w.target_rate {
            Some(target_rate) => match w.max_concurrency {
                Some(max_concurrency) => Ok(TestMode::FixedRate { target_rate, max_concurrency }),
                None => Err(ConfigError::MissingMaxConcurrency),
            },
            None => Err(ConfigError::MissingTargetRate),
        }
    } else {
        Err(ConfigError::InvalidTestMode)
    }
}

impl WorkloadConfig {
    /// Resolve the test-mode label, checking that the fields the mode
    /// requires are present.
    pub fn test_mode(&self) -> (r: Result<TestMode, ConfigError>)
        ensures
            r == spec_test_mode(*self),
    {
        if self.test_mode == "max_throughput".to_owned() {
            match self.concurrency {
                Some(concurrency) => Ok(TestMode::MaxThroughput { concurrency }),
                None => Err(ConfigError::MissingConcurrency),
            }
        } else if self.test_mode == "fixed_rate".to_owned() {
            match self.target_rate {
                Some(target_rate) => match self.max_concurrency {
                    Some(max_concurrency) => Ok(
                        TestMode::FixedRate { target_rate, max_concurrency },
                    ),
                    None => Err(ConfigError::MissingMaxConcurrency),
                },
                None => Err(ConfigError::MissingTargetRate),
            }
        } else {
            Err(ConfigError::InvalidTestMode)
        }
    }
}

/// Database section: which backend the run drives.
#[derive(Debug, Clone, Copy, PartialEq, Eq, Structural)]
pub struct DatabaseConfig {
    pub kind: DatabaseType,
}

/// The backends under comparison.
#[derive(Debug, Clone, Copy, PartialEq, Eq, Structural)]
pub enum DatabaseType {
    PostgreSQL,
    TigerBeetle,
}

impl DatabaseType {
    /// Label of the backend for metric resource attributes.
    pub fn as_str(&self) -> (r: &'static str)
        ensures
            *self == DatabaseType::PostgreSQL ==> r@ == "postgresql"@,
            *self == DatabaseType::TigerBeetle ==> r@ == "tigerbeetle"@,
    {
        match self {
            DatabaseType::PostgreSQL => "postgresql",
            DatabaseType::TigerBeetle => "tigerbeetle",
        }
    }
}

/// Relational backend settings.
#[derive(Debug, Clone, Copy, PartialEq, Eq, Structural)]
pub struct PostgresqlConfig {
    pub isolation_level: IsolationLevel,
    pub connection_pool_size: usize,
    pub connection_pool_min_idle: Option<usize>,
    /// Funnel all transfers through the single-connection batching
    /// executor instead of the per-request pool.
    pub batched_mode: bool,
}

/// Transaction isolation level applied to every transfer transaction.
#[derive(Debug, Clone, Copy, PartialEq, Eq, Structural)]
pub enum IsolationLevel {
    ReadCommitted,
    RepeatableRead,
    Serializable,
}

impl IsolationLevel {
    /// The SQL spelling used in SET TRANSACTION ISOLATION LEVEL.
    pub fn as_sql_str(&self) -> (r: &'static str)
        ensures
            *self == IsolationLevel::ReadCommitted ==> r@ == "READ COMMITTED"@,
            *self == IsolationLevel::RepeatableRead ==> r@ == "REPEATABLE READ"@,
            *self == IsolationLevel::Serializable ==> r@ == "SERIALIZABLE"@,
    {
        match self {
            IsolationLevel::ReadCommitted => "READ COMMITTED",
            IsolationLevel::RepeatableRead => "REPEATABLE READ",
            IsolationLevel::Serializable => "SERIALIZABLE",
        }
    }
}

/// Accounting-engine backend settings.
#[derive(Debug, Clone, PartialEq, Eq)]
pub struct TigerBeetleConfig {
    pub cluster_addresses: Vec<String>,
}

/// Deployment section.
#[derive(Debug, Clone, PartialEq, Eq)]
pub struct DeploymentConfig {
    pub kind: DeploymentType,
    pub num_db_nodes: usize,
    pub num_client_nodes: Option<usize>,
    pub aws_region: Option<String>,
    pub db_instance_type: Option<String>,
    pub client_instance_type: Option<String>,
    pub measure_network_latency: bool,
}

/// Where the stack runs.
#[derive(Debug, Clone, Copy, PartialEq, Eq, Structural)]
pub enum DeploymentType {
    Local,
    Cloud,
}

/// Coordinator section.
#[derive(Debug, Clone, PartialEq, Eq)]
pub struct CoordinatorConfig {
    pub test_runs: usize,
    pub max_variance_threshold: ConfigReal,
    pub max_error_rate: ConfigReal,
    pub metrics_export_path: String,
    pub keep_grafana_running: bool,
}

/// Monitoring section.
#[derive(Debug, Clone, Copy, PartialEq, Eq, Structural)]
pub struct MonitoringConfig {
    pub grafana_port: u16,
    pub prometheus_port: u16,
    pub otel_collector_port: u16,
}

/// Default port of the telemetry collector.
pub fn default_otel_port() -> (r: u16)
    ensures
        r == 4317,
{
    4317
}

/// The whole configuration file.
#[derive(Debug, Clone, PartialEq, Eq)]
pub struct Config {
    pub workload: WorkloadConfig,
    pub database: DatabaseConfig,
    pub postgresql: Option<PostgresqlConfig>,
    pub tigerbeetle: Option<TigerBeetleConfig>,
    pub deployment: DeploymentConfig,
    pub coordinator: CoordinatorConfig,
    pub monitoring: MonitoringConfig,
}

/// The outcome of validating a configuration: the first rule it
/// breaks, in the order the rules are checked, or nothing.
pub open spec fn spec_validate(c: Config) -> Result<(), ConfigError> {
    if spec_test_mode(c.workload) is Err {
        Err(spec_test_mode(c.workload)->Err_0)
    } else if c.database.kind == DatabaseType::PostgreSQL && c.postgresql is None {
        Err(ConfigError::MissingPostgresqlSection)
    } else if c.database.kind == DatabaseType::PostgreSQL
        && c.postgresql->0.connection_pool_size == 0 {
        Err(ConfigError::ZeroConnectionPoolSize)
    } else if c.database.kind == DatabaseType::TigerBeetle && c.tigerbeetle is None {
        Err(ConfigError::MissingTigerbeetleSection)
    } else if c.database.kind == DatabaseType::TigerBeetle
        && c.tigerbeetle->0.cluster_addresses.len() == 0 {
        Err(ConfigError::EmptyClusterAddresses)
    } else if c.deployment.kind == DeploymentType::Cloud && c.deployment.num_client_nodes is None {
        Err(ConfigError::MissingNumClientNodes)
    } else if c.deployment.kind == DeploymentType::Cloud && c.deployment.aws_region is None {
        Err(ConfigError::MissingAwsRegion)
    } else if c.workload.num_accounts < 2 {
        Err(ConfigError::TooFewAccounts)
    } else if c.workload.test_duration_secs == 0 {
        Err(ConfigError::ZeroTestDuration)
    } else if c.workload.min_transfer_amount > c.workload.max_transfer_amount {
        Err(ConfigError::InvalidTransferAmounts)
    } else if c.workload.zipfian_exponent.spec_is_negative() {
        Err(ConfigError::NegativeZipfianExponent)
    } else if !c.workload.zipfian_exponent.spec_is_finite() {
        Err(ConfigError::NonFiniteZipfianExponent)
    } else if !c.coordinator.max_variance_threshold.spec_is_finite() {
        Err(ConfigError::NonFiniteVarianceThreshold)
    } else if c.coordinator.test_runs == 0 {
        Err(ConfigError::ZeroTestRuns)
    } else {
        Ok(())
    }
}

impl Config {
    /// Validate the configuration: the test-mode fields, the section
    /// the selected backend requires, the deployment fields, and the
    /// workload bounds. Returns the first broken rule.
    pub fn validate(&self) -> (r: Result<(), ConfigError>)
        ensures
            r == spec_validate(*self),
    {
        match self.workload.test_mode() {
            Err(e) => {
                return Err(e);
            },
            Ok(_) => {},
        }
        match self.database.kind {
            DatabaseType::PostgreSQL => {
                match &self.postgresql {
                    None => {
                        return Err(ConfigError::MissingPostgresqlSection);
                    },
                    Some(pg) => {
                        if pg.connection_pool_size == 0 {
                            return Err(ConfigError::ZeroConnectionPoolSize);
                        }
                    },
                }
            },
            DatabaseType::TigerBeetle => {
                match &self.tigerbeetle {
                    None => {
                        return Err(ConfigError::MissingTigerbeetleSection);
                    },
                    Some(tb) => {
                        if tb.cluster_addresses.len() == 0 {
                            return Err(ConfigError::EmptyClusterAddresses);
                        }
                    },
                }
            },
        }
        if self.deployment.kind == DeploymentType::Cloud {
            if self.deployment.num_client_nodes.is_none() {
                return Err(ConfigError::MissingNumClientNodes);
            }
            if self.deployment.aws_region.is_none() {
                return Err(ConfigError::MissingAwsRegion);
            }
        }
        if self.workload.num_accounts < 2 {
            return Err(ConfigError::TooFewAccounts);
        }
        if self.workload.test_duration_secs == 0 {
            return Err(ConfigError::ZeroTestDuration);
        }
        if self.workload.min_transfer_amount > self.workload.max_transfer_amount {
            return Err(ConfigError::InvalidTransferAmounts);
        }
        if self.workload.zipfian_exponent.is_negative() {
            return Err(ConfigError::NegativeZipfianExponent);
        }
        if !self.workload.zipfian_exponent.is_finite() {
            return Err(ConfigError::NonFiniteZipfianExponent);
        }
        if !self.coordinator.max_variance_threshold.is_finite() {
            return Err(ConfigError::NonFiniteVarianceThreshold);
        }
        if self.coordinator.test_runs == 0 {
            return Err(ConfigError::ZeroTestRuns);
        }
        Ok(())
    }
}

} // verus!
