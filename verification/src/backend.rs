//! Gateway-facing ingestion service: digital twin, ingestion decisions and
//! persistence rows.
pub mod api;
pub mod domain;
pub mod infrastructure;
