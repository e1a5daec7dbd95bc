//! Telemetry ingestion (JSON and protobuf bodies).
use crate::backend::domain::state::{after_put, keys_distinct, lookup, DigitalTwin, TWIN_CAPACITY};
use crate::shared::{
    from_wire, id_violations, payload_violations, wire_readings_ok, wire_rejection, TelemetryError,
    TelemetryPayload, TelemetryPayloadPb,
};
use crate::validation::Violation;
use vstd::prelude::*;

verus! {

/// How an ingestion request ends.
#[derive(Debug, Clone, Copy, PartialEq, Eq, Structural)]
pub enum IngestReply {
    /// The record was taken into the twin and queued for storage.
    Queued,
    /// The body was refused.
    Refused,
    /// The storage queue was full or closed.
    QueueUnavailable,
}

impl IngestReply {
    /// HTTP status of the reply.
    pub fn status(self) -> (code: u16)
        ensures
            code == match self {
                IngestReply::Queued => 201u16,
                IngestReply::Refused => 400u16,
                IngestReply::QueueUnavailable => 500u16,
            },
    {
        match self {
            IngestReply::Queued => 201,
            IngestReply::Refused => 400,
            IngestReply::QueueUnavailable => 500,
        }
    }
}

/// Takes in a telemetry record sent as JSON: checks its field rules and, when
/// they hold, records it in the twin. The record returned is what is then
/// broadcast and queued for storage.
pub fn ingest_telemetry(twin: &mut DigitalTwin, payload: TelemetryPayload) -> (res: Result<
    TelemetryPayload,
    Vec<Violation>,
>)
    ensures
        res is Ok <==> payload_violations(payload).len() == 0,
        res matches Ok(p) ==> p == payload && final(twin)@ == after_put(
            old(twin)@,
            TWIN_CAPACITY as nat,
            payload.device_id@,
            payload,
        ),
        res is Ok ==> lookup(final(twin)@, payload.device_id@) == Some(payload) && keys_distinct(
            final(twin)@,
        ),
        res matches Err(v) ==> v@ == payload_violations(payload) && final(twin)@ == old(twin)@,
{
    match payload.validate() {
        Err(v) => Err(v),
        Ok(()) => {
            let device_id = payload.device_id.clone();
            let stored = payload.clone();
            twin.put(device_id, stored);
            Ok(payload)
        },
    }
}

/// Why a protobuf telemetry body is refused (after decoding).
#[derive(Debug)]
pub enum ProtobufRejection {
    /// A reading is out of range.
    Domain(TelemetryError),
    /// An identifier breaks its rules.
    Rules(Vec<Violation>),
}

/// Takes in a decoded protobuf telemetry body: converts it to a record,
/// checks the field rules and records it in the twin.
pub fn ingest_telemetry_protobuf(twin: &mut DigitalTwin, pb: TelemetryPayloadPb) -> (res: Result<
    TelemetryPayload,
    ProtobufRejection,
>)
    ensures
        res is Ok <==> wire_readings_ok(pb) && id_violations(
            pb.event_id@,
            pb.gateway_id@,
            pb.device_id@,
        ).len() == 0,
        res matches Err(ProtobufRejection::Domain(e)) ==> !wire_readings_ok(pb) && wire_rejection(
            pb,
            e,
        ),
        res matches Err(ProtobufRejection::Rules(v)) ==> wire_readings_ok(pb) && v@ == id_violations(
            pb.event_id@,
            pb.gateway_id@,
            pb.device_id@,
        ),
        res is Err ==> final(twin)@ == old(twin)@,
        res matches Ok(p) ==> from_wire(pb, p) && final(twin)@ == after_put(
            old(twin)@,
            TWIN_CAPACITY as nat,
            p.device_id@,
            p,
        ),
        res matches Ok(p) ==> lookup(final(twin)@, p.device_id@) == Some(p) && keys_distinct(
            final(twin)@,
        ),
{
    let payload = match TelemetryPayload::try_from(pb) {
        Ok(p) => p,
        Err(e) => {
            return Err(ProtobufRejection::Domain(e));
        },
    };
    match ingest_telemetry(twin, payload) {
        Ok(p) => Ok(p),
        Err(v) => Err(ProtobufRejection::Rules(v)),
    }
}

} // verus!
