//! A micro-benchmark harness that measures the overhead of spawning and
//! joining many independent concurrent tasks, each computing the square of
//! its own index, and that verifies every collected result.

pub mod bench;
pub mod report;
mod tasks;
