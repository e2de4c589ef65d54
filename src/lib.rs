//! Live per-core CPU telemetry: a sampler that turns host measurements into
//! snapshots, and a broadcast hub that hands each snapshot to every viewer
//! subscribed at the time, keeping at most one undelivered snapshot per viewer.
pub mod hub;
pub mod laws;
pub mod sampler;
pub mod snapshot;
pub mod viewer;
