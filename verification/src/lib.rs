//! Scheduling, configuration and reporting rules of a scriptable load generator.

pub mod cli;
pub mod config;
pub mod executor;
pub mod fetch;
pub mod number;
pub mod report;
pub mod run;
pub mod runtime;
pub mod schedule;
pub mod text;
