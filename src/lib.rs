//! Qualification and merging of open pull requests across repositories.
//!
//! The library holds the decisions of a merge run: the ordered checks that a
//! pull request goes through, the per-repository sequence that stops after a
//! real merge, and the aggregation of repository results into a run summary.
//! Network calls, concurrency and terminal output live with the caller, which
//! hands the library plain values and acts on the steps it returns.

mod private;

pub mod domain;
pub mod pattern;
pub mod forge;
pub mod config;
pub mod engine;
pub mod repo;
pub mod summary;
pub mod validate;
pub mod log;
pub mod report;
