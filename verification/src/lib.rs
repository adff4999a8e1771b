//! Core logic of a benchmarking harness that drives transfer workloads
//! against transactional ledger backends: workload generation, phase
//! control, outcome accounting, executor decision rules, batching, and
//! balance verification.

pub mod config;
pub mod memory;
pub mod metrics;
pub mod phase;
pub mod postgres;
pub mod results;
pub mod rng;
pub mod runner;
pub mod tigerbeetle;
pub mod workload;
