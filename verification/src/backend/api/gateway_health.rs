//! Ingestion of gateway health events.
use crate::shared::{
    health_event_from_wire, health_violations, GatewayHealthEvent, GatewayHealthEventPb,
};
use crate::time::Timestamp;
use crate::validation::{CheckedField, Rule, Violation};
use vstd::prelude::*;

verus! {

/// A count as stored in a signed 32-bit column: values beyond `i32::MAX`
/// are stored as `i32::MAX`.
pub open spec fn saturate_i32(v: u32) -> i32 {
    if v <= i32::MAX as u32 {
        v as i32
    } else {
        i32::MAX
    }
}

/// Converts a count for a signed 32-bit column.
pub fn to_i32_saturating(v: u32) -> (r: i32)
    ensures
        r == saturate_i32(v),
{
    if v <= i32::MAX as u32 {
        v as i32
    } else {
        i32::MAX
    }
}

/// The row stored for a gateway health event.
#[derive(Debug, PartialEq, Eq)]
pub struct GatewayHealthRow {
    /// `gateway_id` column.
    pub gateway_id: String,
    /// `timestamp` column.
    pub timestamp: Timestamp,
    /// `is_degraded_mode` column.
    pub is_degraded_mode: bool,
    /// `sd_card_mounted` column.
    pub sd_card_mounted: bool,
    /// `sd_card_total_mb` column.
    pub sd_card_total_mb: Option<i32>,
    /// `sd_card_free_mb` column.
    pub sd_card_free_mb: Option<i32>,
    /// `sd_io_errors` column.
    pub sd_io_errors: i32,
    /// `uptime_seconds` column.
    pub uptime_seconds: i32,
    /// `free_heap_bytes` column.
    pub free_heap_bytes: i32,
    /// `alert_message` column.
    pub alert_message: Option<String>,
}

/// An optional count as stored in a signed 32-bit column.
pub open spec fn saturate_opt(v: Option<u32>) -> Option<i32> {
    match v {
        Some(x) => Some(saturate_i32(x)),
        None => None,
    }
}

/// The row that stores event `e`.
pub open spec fn health_row(e: GatewayHealthEvent) -> GatewayHealthRow {
    GatewayHealthRow {
        gateway_id: e.gateway_id,
        timestamp: e.timestamp,
        is_degraded_mode: e.is_degraded_mode,
        sd_card_mounted: e.sd_card_mounted,
        sd_card_total_mb: saturate_opt(e.sd_card_total_mb),
        sd_card_free_mb: saturate_opt(e.sd_card_free_mb),
        sd_io_errors: saturate_i32(e.sd_io_errors),
        uptime_seconds: saturate_i32(e.uptime_seconds),
        free_heap_bytes: saturate_i32(e.free_heap_bytes),
        alert_message: e.alert_message,
    }
}

/// The stored row keeps every field of the event, each count in its own
/// column: a count up to `i32::MAX` unchanged, a larger one as `i32::MAX`.
pub proof fn lemma_health_row_columns(e: GatewayHealthEvent)
    ensures
        health_row(e).gateway_id == e.gateway_id,
        health_row(e).timestamp == e.timestamp,
        health_row(e).is_degraded_mode == e.is_degraded_mode,
        health_row(e).sd_card_mounted == e.sd_card_mounted,
        health_row(e).sd_card_total_mb is Some <==> e.sd_card_total_mb is Some,
        e.sd_card_total_mb matches Some(x) ==> health_row(e).sd_card_total_mb == Some(if x <= i32::MAX {
            x as i32
        } else {
            i32::MAX
        }),
        health_row(e).sd_card_free_mb is Some <==> e.sd_card_free_mb is Some,
        e.sd_card_free_mb matches Some(x) ==> health_row(e).sd_card_free_mb == Some(if x <= i32::MAX {
            x as i32
        } else {
            i32::MAX
        }),
        e.sd_io_errors <= i32::MAX ==> health_row(e).sd_io_errors == e.sd_io_errors,
        e.sd_io_errors > i32::MAX ==> health_row(e).sd_io_errors == i32::MAX,
        e.uptime_seconds <= i32::MAX ==> health_row(e).uptime_seconds == e.uptime_seconds,
        e.uptime_seconds > i32::MAX ==> health_row(e).uptime_seconds == i32::MAX,
        e.free_heap_bytes <= i32::MAX ==> health_row(e).free_heap_bytes == e.free_heap_bytes,
        e.free_heap_bytes > i32::MAX ==> health_row(e).free_heap_bytes == i32::MAX,
        health_row(e).alert_message == e.alert_message,
{
}

fn saturate_option(v: Option<u32>) -> (r: Option<i32>)
    ensures
        r == saturate_opt(v),
{
    match v {
        Some(x) => Some(to_i32_saturating(x)),
        None => None,
    }
}

/// Builds the row that stores a health event.
pub fn gateway_health_row(event: &GatewayHealthEvent) -> (row: GatewayHealthRow)
    ensures
        row == health_row(*event),
        row.gateway_id == event.gateway_id,
        row.timestamp == event.timestamp,
        row.is_degraded_mode == event.is_degraded_mode,
        row.sd_card_mounted == event.sd_card_mounted,
        row.sd_card_total_mb is Some <==> event.sd_card_total_mb is Some,
        event.sd_card_total_mb matches Some(x) ==> row.sd_card_total_mb == Some(if x <= i32::MAX {
            x as i32
        } else {
            i32::MAX
        }),
        row.sd_card_free_mb is Some <==> event.sd_card_free_mb is Some,
        event.sd_card_free_mb matches Some(x) ==> row.sd_card_free_mb == Some(if x <= i32::MAX {
            x as i32
        } else {
            i32::MAX
        }),
        event.sd_io_errors <= i32::MAX ==> row.sd_io_errors == event.sd_io_errors,
        event.sd_io_errors > i32::MAX ==> row.sd_io_errors == i32::MAX,
        event.uptime_seconds <= i32::MAX ==> row.uptime_seconds == event.uptime_seconds,
        event.uptime_seconds > i32::MAX ==> row.uptime_seconds == i32::MAX,
        event.free_heap_bytes <= i32::MAX ==> row.free_heap_bytes == event.free_heap_bytes,
        event.free_heap_bytes > i32::MAX ==> row.free_heap_bytes == i32::MAX,
        row.alert_message == event.alert_message,
{
    GatewayHealthRow {
        gateway_id: event.gateway_id.clone(),
        timestamp: event.timestamp,
        is_degraded_mode: event.is_degraded_mode,
        sd_card_mounted: event.sd_card_mounted,
        sd_card_total_mb: saturate_option(event.sd_card_total_mb),
        sd_card_free_mb: saturate_option(event.sd_card_free_mb),
        sd_io_errors: to_i32_saturating(event.sd_io_errors),
        uptime_seconds: to_i32_saturating(event.uptime_seconds),
        free_heap_bytes: to_i32_saturating(event.free_heap_bytes),
        alert_message: match &event.alert_message {
            Some(m) => Some(m.clone()),
            None => None,
        },
    }
}

/// Takes in a health event sent as JSON: checks its field rules and gives
/// the row to store.
pub fn ingest_gateway_health(event: &GatewayHealthEvent) -> (res: Result<
    GatewayHealthRow,
    Vec<Violation>,
>)
    ensures
        res is Ok <==> health_violations(*event).len() == 0,
        res matches Ok(row) ==> row == health_row(*event),
        res matches Err(v) ==> v@ == health_violations(*event),
{
    match event.validate() {
        Err(v) => Err(v),
        Ok(()) => Ok(gateway_health_row(event)),
    }
}

/// Takes in a decoded protobuf health event, stamped with the current
/// instant: checks its field rules and gives the event and the row to store.
pub fn ingest_gateway_health_protobuf(pb: GatewayHealthEventPb) -> (res: Result<
    (GatewayHealthEvent, GatewayHealthRow),
    Vec<Violation>,
>)
    ensures
        res is Ok <==> crate::validation::id_length_ok(pb.gateway_id@),
        res matches Ok((e, row)) ==> row == health_row(e) && exists|now: Timestamp|
            e == health_event_from_wire(pb, now),
        res matches Err(v) ==> v@ == seq![
            Violation { field: CheckedField::GatewayId, rule: Rule::Length },
        ],
{
    let event: GatewayHealthEvent = GatewayHealthEvent::from(pb);
    match ingest_gateway_health(&event) {
        Err(v) => Err(v),
        Ok(row) => Ok((event, row)),
    }
}

} // verus!
