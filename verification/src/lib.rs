// A crash-resilient, resumable download orchestration core: a supervisor
// that registers one worker per in-flight URL and owns the retry policy, a
// per-URL worker protocol for resumable transfers with periodic progress
// persistence, and a fixed-window throughput estimator.

pub mod coordinator;
pub mod filename;
pub mod human;
pub mod progress;
pub mod speed;
pub mod worker;
