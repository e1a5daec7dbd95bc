//! Records of the dead-letter queue, where refused messages are kept.
use crate::ids::{base64_standard, encode_base64, uuid_text, uuid_to_string};
use crate::time::Timestamp;
use vstd::prelude::*;

verus! {

/// Most recent dead-letter records returned by one query.
pub const RECENT_LIMIT: u32 = 50;

/// A dead-letter record as served to operators.
#[derive(Debug)]
pub struct DlqRecordDto {
    /// Id of the record (hyphenated UUID).
    pub id: String,
    /// When the message was taken in.
    pub ingested_at: Timestamp,
    /// The refused message, in base64.
    pub raw_payload_base64: String,
    /// Why it was refused.
    pub error_reason: String,
    /// Gateway id, when known.
    pub gateway_id: Option<String>,
    /// Event id (hyphenated UUID), when known.
    pub event_id: Option<String>,
}

impl DlqRecordDto {
    /// Builds the record served for a stored dead letter.
    pub fn from_row(
        id: u128,
        ingested_at: Timestamp,
        raw_payload: &[u8],
        error_reason: String,
        gateway_id: Option<String>,
        event_id: Option<u128>,
    ) -> (dto: DlqRecordDto)
        ensures
            dto.id@ == uuid_text(id),
            dto.ingested_at == ingested_at,
            dto.raw_payload_base64@ == base64_standard(raw_payload@),
            dto.error_reason == error_reason,
            dto.gateway_id == gateway_id,
            match event_id {
                Some(e) => dto.event_id matches Some(s) && s@ == uuid_text(e),
                None => dto.event_id is None,
            },
    {
        DlqRecordDto {
            id: uuid_to_string(id),
            ingested_at,
            raw_payload_base64: encode_base64(raw_payload),
            error_reason,
            gateway_id,
            event_id: match event_id {
                Some(e) => Some(uuid_to_string(e)),
                None => None,
            },
        }
    }
}

} // verus!
