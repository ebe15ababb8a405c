//! A process-liveness watchdog: a deadline that heartbeats push forward,
//! read by a health endpoint and sampled into a gauge.
mod clock;
pub mod deadline;
pub mod health;
pub mod sampler;
pub mod verdict;

pub use deadline::DeadlineStore;
pub use health::HealthCheck;
pub use verdict::Verdict;
