//! Telemetry domain of an environmental-sensing hub: validated sensor
//! readings, wire-format conversions, and the decisions of the ingestion
//! services and the dashboard.
//!
//! `shared` holds the telemetry model that the gateway-facing services share;
//! `backend` the decisions of the ingestion service (endpoints, digital twin,
//! Pub/Sub subscriber, storage worker); `frontend` those of the dashboard;
//! `domain` and `api` the first, single-listener ingestion service.
pub mod ieee754;
pub mod time;
pub mod text;
pub mod ids;
pub mod validation;
pub mod shared;
pub mod backend;
pub mod frontend;
pub mod domain;
pub mod api;
