//! Background work of the ingestion service: the Pub/Sub subscriber and the
//! storage worker.
pub mod pubsub;
pub mod worker;
