//! Readiness of the service for its orchestrator.
use vstd::prelude::*;

verus! {

/// HTTP status of the readiness probe: 200 when both the database and the
/// Pub/Sub worker are ready, 503 otherwise.
pub fn readiness_status(db_ready: bool, pubsub_ready: bool) -> (code: u16)
    ensures
        code == if db_ready && pubsub_ready {
            200u16
        } else {
            503u16
        },
{
    if db_ready && pubsub_ready {
        200
    } else {
        503
    }
}

} // verus!
