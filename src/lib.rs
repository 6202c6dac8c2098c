//! Verdict logic of a concurrency conformance harness: assertions that yield
//! failures instead of aborting, the per-scenario checks on what worker threads
//! observed, and the report that a run accumulates.

pub mod text;
pub mod failure;
pub mod check;
pub mod scenario;
pub mod report;
