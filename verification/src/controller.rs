//! The controller's decisions: build scheduling, Job reuse and integration status.
pub mod job;
pub mod status;
pub mod plan;
pub mod patch;
pub mod lookup;
