//! A release-pipeline library: per-repository version bumping, history
//! summarization, credential-session checks, and failure-isolating
//! orchestration, with the decision logic verified.
//!
//! The library never touches the file system, the network or a clock, and
//! never spawns a process. It computes: the next version under either
//! increment policy, the history summary since the last release marker,
//! the validity of cached credential sessions, the patched manifest
//! texts, the exact external commands each step must run, and the
//! disjoint success/error bookkeeping of a whole batch. A thin shell
//! around it performs the I/O and feeds the results back.

pub mod branch;
pub mod commands;
pub mod config;
pub mod decimal;
pub mod errors;
pub mod history;
pub mod json;
pub mod logger;
pub mod loginer;
pub mod orchestrator;
pub mod patcher;
pub mod rebuilder;
pub mod strutil;
pub mod timeparse;
pub mod version;
