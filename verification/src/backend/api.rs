//! Decisions of the HTTP endpoints of the ingestion service.
pub mod auth;
pub mod chat;
pub mod digital_twin;
pub mod dlq;
pub mod gateway_health;
pub mod health;
pub mod telemetry;
pub mod ws;
