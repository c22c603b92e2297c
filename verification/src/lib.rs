//! Verified core of the persistence benchmark harness: sample statistics,
//! argument validation, workload planning and the naming of keys and runs.

pub mod alloc_count;
pub mod args;
pub mod command_output;
pub mod decimal;
pub mod engine;
pub mod error;
pub mod naming;
pub mod procfs;
pub mod stats;
pub mod workload;
