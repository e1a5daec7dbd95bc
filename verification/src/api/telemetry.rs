//! Telemetry ingestion of the first ingestion service.
use crate::domain::state::DigitalTwin;
use crate::domain::telemetry::TelemetryPayload;
use vstd::prelude::*;

verus! {

/// Takes in a telemetry record: it becomes the latest state of its device.
/// Answers HTTP status 201.
pub fn ingest_telemetry(twin: &mut DigitalTwin, payload: TelemetryPayload) -> (status: u16)
    ensures
        status == 201,
        final(twin)@ == old(twin)@.insert(payload.device_id@, payload),
{
    let device_id = payload.device_id.clone();
    twin.insert(device_id, payload);
    201
}

} // verus!
