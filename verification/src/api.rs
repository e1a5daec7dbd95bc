//! Endpoints of the first ingestion service.
pub mod telemetry;
