//! Host telemetry snapshots: how a snapshot is assembled from probe readings
//! that may each have failed, and how it is rendered as a fixed textual report.

pub mod lemmas;
pub mod log_path;
pub mod reading;
pub mod remote_pc;
pub mod render;
pub mod sampling;
pub mod text;
