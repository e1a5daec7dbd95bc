//! State of the ingestion service.
pub mod state;
