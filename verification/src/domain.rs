//! Domain of the first ingestion service.
pub mod state;
pub mod telemetry;
