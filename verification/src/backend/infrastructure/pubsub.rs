//! Decisions of the Pub/Sub subscriber: reconnection back-off, what to do
//! with each message, and the rows it stores.
use crate::backend::domain::state::{after_put, keys_distinct, lookup, DigitalTwin, TWIN_CAPACITY};
use crate::ids::{parse_uuid, random_uuid, uuid_parse};
use crate::shared::{
    from_wire, id_violations, wire_readings_ok, wire_rejection, TelemetryError, TelemetryPayload,
    TelemetryPayloadPb,
};
use crate::time::Timestamp;
use crate::validation::Violation;
use vstd::prelude::*;

verus! {

/// First wait before reconnecting, in seconds.
pub const INITIAL_BACKOFF_SECS: u64 = 1;

/// Longest wait before reconnecting, in seconds.
pub const MAX_BACKOFF_SECS: u64 = 60;

/// The wait after `current`: doubled, capped at `MAX_BACKOFF_SECS`.
pub open spec fn next_backoff_spec(current: int) -> int {
    if 2 * current < MAX_BACKOFF_SECS {
        2 * current
    } else {
        MAX_BACKOFF_SECS as int
    }
}

/// The wait before the next reconnection attempt.
pub fn next_backoff(current: u64) -> (next: u64)
    requires
        current <= u64::MAX / 2,
    ensures
        next == next_backoff_spec(current as int),
{
    if 2 * current < MAX_BACKOFF_SECS {
        2 * current
    } else {
        MAX_BACKOFF_SECS
    }
}

/// The wait after `n` consecutive failed connection attempts.
pub open spec fn backoff_after(n: nat) -> int
    decreases n,
{
    if n == 0 {
        INITIAL_BACKOFF_SECS as int
    } else {
        next_backoff_spec(backoff_after((n - 1) as nat))
    }
}

/// The reconnection wait starts at one second, doubles (1, 2, 4, ..., 32)
/// and stays at 60 seconds from the sixth failure on.
pub proof fn lemma_backoff_schedule(n: nat)
    ensures
        1 <= backoff_after(n) <= MAX_BACKOFF_SECS,
        n <= 5 ==> backoff_after(n) == vstd::arithmetic::power2::pow2(n),
        n >= 6 ==> backoff_after(n) == MAX_BACKOFF_SECS,
    decreases n,
{
    vstd::arithmetic::power2::lemma2_to64();
    if n > 0 {
        lemma_backoff_schedule((n - 1) as nat);
        if n <= 5 {
            vstd::arithmetic::power2::lemma_pow2_unfold(n);
        }
    }
}

/// Connection state of the subscriber: whether it is streaming (what the
/// readiness probe reports) and the wait before the next attempt to
/// connect.
#[derive(Debug)]
pub struct Reconnect {
    wait_secs: u64,
    ready: bool,
}

impl View for Reconnect {
    type V = int;

    /// The wait, in seconds.
    closed spec fn view(&self) -> int {
        self.wait_secs as int
    }
}

impl Reconnect {
    /// The wait lies within `[INITIAL_BACKOFF_SECS, MAX_BACKOFF_SECS]`.
    #[verifier::type_invariant]
    spec fn bounded(self) -> bool {
        INITIAL_BACKOFF_SECS <= self.wait_secs <= MAX_BACKOFF_SECS
    }

    /// The subscriber is streaming.
    pub closed spec fn streaming(&self) -> bool {
        self.ready
    }

    /// Before the first attempt: not streaming, and one second to wait after
    /// a failure.
    pub fn new() -> (r: Reconnect)
        ensures
            r@ == backoff_after(0),
            !r.streaming(),
    {
        Reconnect { wait_secs: INITIAL_BACKOFF_SECS, ready: false }
    }

    /// A connection was made: the subscriber is streaming, and the wait
    /// starts again at one second.
    pub fn connected(&mut self)
        ensures
            final(self)@ == backoff_after(0),
            final(self).streaming(),
    {
        self.wait_secs = INITIAL_BACKOFF_SECS;
        self.ready = true;
    }

    /// The stream ended (an error, the server closing it, or shutdown): the
    /// subscriber is no longer streaming; the wait is kept.
    pub fn disconnected(&mut self)
        ensures
            final(self)@ == old(self)@,
            !final(self).streaming(),
    {
        proof {
            use_type_invariant(&*self);
        }
        self.ready = false;
    }

    /// Whether the subscriber is streaming.
    pub fn is_streaming(&self) -> (b: bool)
        ensures
            b == self.streaming(),
    {
        self.ready
    }

    /// The wait before the next attempt, in seconds.
    pub fn wait_secs(&self) -> (w: u64)
        ensures
            w == self@,
            INITIAL_BACKOFF_SECS <= w <= MAX_BACKOFF_SECS,
    {
        proof {
            use_type_invariant(self);
        }
        self.wait_secs
    }

    /// The wait was spent and the next attempt is due: the following wait
    /// doubles, up to `MAX_BACKOFF_SECS`.
    pub fn waited(&mut self)
        ensures
            final(self)@ == next_backoff_spec(old(self)@),
            final(self).streaming() == old(self).streaming(),
    {
        proof {
            use_type_invariant(&*self);
        }
        self.wait_secs = next_backoff(self.wait_secs);
    }
}

/// Why a message was set aside in the dead-letter queue.
#[derive(Debug)]
pub enum PoisonReason {
    /// The body was not a valid protobuf message.
    InvalidProtobuf,
    /// A reading was out of range.
    DomainValidation(TelemetryError),
    /// An identifier broke its rules.
    StrictValidation(Vec<Violation>),
}

/// What to do with a Pub/Sub message.
#[derive(Debug)]
pub enum MessageDisposition {
    /// Store the raw message in the dead-letter queue, then acknowledge it.
    Poison {
        /// Why.
        reason: PoisonReason,
        /// Event id of the record, when it could be read.
        event_id: Option<String>,
    },
    /// The record entered the twin; broadcast and store it, then
    /// acknowledge the message if storing succeeds (otherwise ask for
    /// redelivery).
    Deliver(TelemetryPayload),
}

/// What the subscriber answers Pub/Sub for a message.
#[derive(Debug, Clone, Copy, PartialEq, Eq, Structural)]
pub enum Acknowledgement {
    /// Done with; do not redeliver.
    Ack,
    /// Redeliver later.
    Nack,
}

impl MessageDisposition {
    /// The answer once the message was handled: a poison pill is
    /// acknowledged whether or not the dead-letter write succeeded; a
    /// delivered record is acknowledged only when it was stored.
    pub fn settle(&self, stored: bool) -> (a: Acknowledgement)
        ensures
            a == if self is Poison || stored {
                Acknowledgement::Ack
            } else {
                Acknowledgement::Nack
            },
    {
        match self {
            MessageDisposition::Poison { .. } => Acknowledgement::Ack,
            MessageDisposition::Deliver(_) => if stored {
                Acknowledgement::Ack
            } else {
                Acknowledgement::Nack
            },
        }
    }
}

/// Handles a Pub/Sub message whose body decoded to `decoded` (`None` when
/// it is not a valid protobuf message).
pub fn handle_message(twin: &mut DigitalTwin, decoded: Option<TelemetryPayloadPb>) -> (d: MessageDisposition)
    ensures
        match decoded {
            None => d matches MessageDisposition::Poison { reason: PoisonReason::InvalidProtobuf, event_id: None },
            Some(pb) => if !wire_readings_ok(pb) {
                d matches MessageDisposition::Poison { reason: PoisonReason::DomainValidation(e), event_id: None }
                    && wire_rejection(pb, e)
            } else if id_violations(pb.event_id@, pb.gateway_id@, pb.device_id@).len() > 0 {
                d matches MessageDisposition::Poison { reason: PoisonReason::StrictValidation(v), event_id: Some(id) }
                    && v@ == id_violations(pb.event_id@, pb.gateway_id@, pb.device_id@)
                    && id == pb.event_id
            } else {
                d matches MessageDisposition::Deliver(p) && from_wire(pb, p)
                    && final(twin)@ == after_put(old(twin)@, TWIN_CAPACITY as nat, p.device_id@, p)
                    && lookup(final(twin)@, p.device_id@) == Some(p)
                    && keys_distinct(final(twin)@)
            },
        },
        d is Poison ==> final(twin)@ == old(twin)@,
{
    let pb = match decoded {
        None => {
            return MessageDisposition::Poison { reason: PoisonReason::InvalidProtobuf, event_id: None };
        },
        Some(pb) => pb,
    };
    let payload = match TelemetryPayload::try_from(pb) {
        Ok(p) => p,
        Err(e) => {
            return MessageDisposition::Poison {
                reason: PoisonReason::DomainValidation(e),
                event_id: None,
            };
        },
    };
    if let Err(v) = payload.validate() {
        return MessageDisposition::Poison {
            reason: PoisonReason::StrictValidation(v),
            event_id: Some(payload.event_id),
        };
    }
    let device_id = payload.device_id.clone();
    let stored = payload.clone();
    twin.put(device_id, stored);
    MessageDisposition::Deliver(payload)
}

/// A count as stored in a signed 32-bit column, with a fallback for counts
/// beyond `i32::MAX`.
pub open spec fn i32_or(v: u32, fallback: i32) -> i32 {
    if v <= i32::MAX as u32 {
        v as i32
    } else {
        fallback
    }
}

fn to_i32_or(v: u32, fallback: i32) -> (r: i32)
    ensures
        r == i32_or(v, fallback),
{
    if v <= i32::MAX as u32 {
        v as i32
    } else {
        fallback
    }
}

pub(crate) fn opt_to_i32_or(v: Option<u32>, fallback: i32) -> (r: Option<i32>)
    ensures
        r == match v {
            Some(x) => Some(i32_or(x, fallback)),
            None => None,
        },
{
    match v {
        Some(x) => Some(to_i32_or(x, fallback)),
        None => None,
    }
}

/// The row stored for a telemetry record. Readings are binary64 bit
/// patterns.
#[derive(Debug, PartialEq, Eq)]
pub struct TelemetryRow {
    /// `event_id` column (a UUID).
    pub event_id: u128,
    /// `protocol_version` column.
    pub protocol_version: i32,
    /// `schema_version` column.
    pub schema_version: i32,
    /// `gateway_id` column.
    pub gateway_id: String,
    /// `device_id` column.
    pub device_id: String,
    /// `node_sequence` column.
    pub node_sequence: i32,
    /// `measured_at` column.
    pub measured_at: Timestamp,
    /// `ingested_at` column.
    pub ingested_at: Timestamp,
    /// `temperature` column.
    pub temperature: Option<u64>,
    /// `humidity` column.
    pub humidity: Option<u64>,
    /// `ph` column.
    pub ph: Option<u64>,
    /// `dissolved_oxygen` column.
    pub dissolved_oxygen: Option<u64>,
    /// `pressure` column.
    pub pressure: Option<u64>,
    /// `gas_resistance` column.
    pub gas_resistance: Option<u64>,
    /// `co2` column.
    pub co2: Option<u64>,
    /// `iaq` column.
    pub iaq: Option<u64>,
    /// `pm1_0` column.
    pub pm1_0: Option<u64>,
    /// `pm2_5` column.
    pub pm2_5: Option<u64>,
    /// `pm10_0` column.
    pub pm10_0: Option<u64>,
    /// `battery_mv` column.
    pub battery_mv: Option<i32>,
    /// `sleep_cycles` column.
    pub sleep_cycles: Option<i32>,
}

/// Bit pattern of an optional reading.
pub open spec fn bits_of<T: View<V = u64>>(r: Option<T>) -> Option<u64> {
    match r {
        Some(t) => Some(t@),
        None => None,
    }
}

/// The row that stores record `p` under event id `id`.
pub open spec fn telemetry_row_spec(p: TelemetryPayload, id: u128) -> TelemetryRow {
    TelemetryRow {
        event_id: id,
        protocol_version: i32_or(p.protocol_version, 1),
        schema_version: i32_or(p.schema_version, 1),
        gateway_id: p.gateway_id,
        device_id: p.device_id,
        node_sequence: i32_or(p.node_sequence, 0),
        measured_at: p.measured_at,
        ingested_at: p.ingested_at,
        temperature: bits_of(p.temperature),
        humidity: bits_of(p.humidity),
        ph: bits_of(p.ph),
        dissolved_oxygen: bits_of(p.dissolved_oxygen),
        pressure: bits_of(p.pressure),
        gas_resistance: bits_of(p.gas_resistance),
        co2: bits_of(p.co2),
        iaq: bits_of(p.iaq),
        pm1_0: bits_of(p.pm1_0),
        pm2_5: bits_of(p.pm2_5),
        pm10_0: bits_of(p.pm10_0),
        battery_mv: match p.battery_mv {
            Some(x) => Some(i32_or(x, i32::MAX)),
            None => None,
        },
        sleep_cycles: match p.sleep_cycles {
            Some(x) => Some(i32_or(x, i32::MAX)),
            None => None,
        },
    }
}

/// The stored row keeps the record's fields, each in its own column: the
/// event id given, the identifiers and instants unchanged, every reading
/// column the bit pattern of the same-named reading (absent exactly when
/// the reading is), and each count unchanged up to `i32::MAX` (beyond it,
/// the column's fallback).
pub proof fn lemma_telemetry_row_columns(p: TelemetryPayload, id: u128)
    ensures
        telemetry_row_spec(p, id).event_id == id,
        p.protocol_version <= i32::MAX ==> telemetry_row_spec(p, id).protocol_version == p.protocol_version,
        p.protocol_version > i32::MAX ==> telemetry_row_spec(p, id).protocol_version == 1,
        p.schema_version <= i32::MAX ==> telemetry_row_spec(p, id).schema_version == p.schema_version,
        p.schema_version > i32::MAX ==> telemetry_row_spec(p, id).schema_version == 1,
        telemetry_row_spec(p, id).gateway_id == p.gateway_id,
        telemetry_row_spec(p, id).device_id == p.device_id,
        p.node_sequence <= i32::MAX ==> telemetry_row_spec(p, id).node_sequence == p.node_sequence,
        p.node_sequence > i32::MAX ==> telemetry_row_spec(p, id).node_sequence == 0,
        telemetry_row_spec(p, id).measured_at == p.measured_at,
        telemetry_row_spec(p, id).ingested_at == p.ingested_at,
        telemetry_row_spec(p, id).temperature is Some <==> p.temperature is Some,
        p.temperature matches Some(x) ==> telemetry_row_spec(p, id).temperature == Some(x@),
        telemetry_row_spec(p, id).humidity is Some <==> p.humidity is Some,
        p.humidity matches Some(x) ==> telemetry_row_spec(p, id).humidity == Some(x@),
        telemetry_row_spec(p, id).ph is Some <==> p.ph is Some,
        p.ph matches Some(x) ==> telemetry_row_spec(p, id).ph == Some(x@),
        telemetry_row_spec(p, id).dissolved_oxygen is Some <==> p.dissolved_oxygen is Some,
        p.dissolved_oxygen matches Some(x) ==> telemetry_row_spec(p, id).dissolved_oxygen == Some(x@),
        telemetry_row_spec(p, id).pressure is Some <==> p.pressure is Some,
        p.pressure matches Some(x) ==> telemetry_row_spec(p, id).pressure == Some(x@),
        telemetry_row_spec(p, id).gas_resistance is Some <==> p.gas_resistance is Some,
        p.gas_resistance matches Some(x) ==> telemetry_row_spec(p, id).gas_resistance == Some(x@),
        telemetry_row_spec(p, id).co2 is Some <==> p.co2 is Some,
        p.co2 matches Some(x) ==> telemetry_row_spec(p, id).co2 == Some(x@),
        telemetry_row_spec(p, id).iaq is Some <==> p.iaq is Some,
        p.iaq matches Some(x) ==> telemetry_row_spec(p, id).iaq == Some(x@),
        telemetry_row_spec(p, id).pm1_0 is Some <==> p.pm1_0 is Some,
        p.pm1_0 matches Some(x) ==> telemetry_row_spec(p, id).pm1_0 == Some(x@),
        telemetry_row_spec(p, id).pm2_5 is Some <==> p.pm2_5 is Some,
        p.pm2_5 matches Some(x) ==> telemetry_row_spec(p, id).pm2_5 == Some(x@),
        telemetry_row_spec(p, id).pm10_0 is Some <==> p.pm10_0 is Some,
        p.pm10_0 matches Some(x) ==> telemetry_row_spec(p, id).pm10_0 == Some(x@),
        telemetry_row_spec(p, id).battery_mv is Some <==> p.battery_mv is Some,
        p.battery_mv matches Some(x) ==> telemetry_row_spec(p, id).battery_mv == Some(if x <= i32::MAX {
            x as i32
        } else {
            i32::MAX
        }),
        telemetry_row_spec(p, id).sleep_cycles is Some <==> p.sleep_cycles is Some,
        p.sleep_cycles matches Some(x) ==> telemetry_row_spec(p, id).sleep_cycles == Some(if x <= i32::MAX {
            x as i32
        } else {
            i32::MAX
        }),
{
}

/// Builds the row that stores `payload` under the event id `id`.
pub fn telemetry_row_with_id(payload: &TelemetryPayload, id: u128) -> (row: TelemetryRow)
    ensures
        row == telemetry_row_spec(*payload, id),
        row.event_id == id,
        payload.protocol_version <= i32::MAX ==> row.protocol_version == payload.protocol_version,
        payload.protocol_version > i32::MAX ==> row.protocol_version == 1,
        payload.schema_version <= i32::MAX ==> row.schema_version == payload.schema_version,
        payload.schema_version > i32::MAX ==> row.schema_version == 1,
        row.gateway_id == payload.gateway_id,
        row.device_id == payload.device_id,
        payload.node_sequence <= i32::MAX ==> row.node_sequence == payload.node_sequence,
        payload.node_sequence > i32::MAX ==> row.node_sequence == 0,
        row.measured_at == payload.measured_at,
        row.ingested_at == payload.ingested_at,
        row.temperature == bits_of(payload.temperature),
        row.humidity == bits_of(payload.humidity),
        row.ph == bits_of(payload.ph),
        row.dissolved_oxygen == bits_of(payload.dissolved_oxygen),
        row.pressure == bits_of(payload.pressure),
        row.gas_resistance == bits_of(payload.gas_resistance),
        row.co2 == bits_of(payload.co2),
        row.iaq == bits_of(payload.iaq),
        row.pm1_0 == bits_of(payload.pm1_0),
        row.pm2_5 == bits_of(payload.pm2_5),
        row.pm10_0 == bits_of(payload.pm10_0),
        row.battery_mv is Some <==> payload.battery_mv is Some,
        payload.battery_mv matches Some(x) ==> row.battery_mv == Some(if x <= i32::MAX {
            x as i32
        } else {
            i32::MAX
        }),
        row.sleep_cycles is Some <==> payload.sleep_cycles is Some,
        payload.sleep_cycles matches Some(x) ==> row.sleep_cycles == Some(if x <= i32::MAX {
            x as i32
        } else {
            i32::MAX
        }),
{
    TelemetryRow {
        event_id: id,
        protocol_version: to_i32_or(payload.protocol_version, 1),
        schema_version: to_i32_or(payload.schema_version, 1),
        gateway_id: payload.gateway_id.clone(),
        device_id: payload.device_id.clone(),
        node_sequence: to_i32_or(payload.node_sequence, 0),
        measured_at: payload.measured_at,
        ingested_at: payload.ingested_at,
        temperature: match payload.temperature {
            Some(t) => Some(t.value()),
            None => None,
        },
        humidity: match payload.humidity {
            Some(t) => Some(t.value()),
            None => None,
        },
        ph: match payload.ph {
            Some(t) => Some(t.value()),
            None => None,
        },
        dissolved_oxygen: match payload.dissolved_oxygen {
            Some(t) => Some(t.value()),
            None => None,
        },
        pressure: match payload.pressure {
            Some(t) => Some(t.value()),
            None => None,
        },
        gas_resistance: match payload.gas_resistance {
            Some(t) => Some(t.value()),
            None => None,
        },
        co2: match payload.co2 {
            Some(t) => Some(t.value()),
            None => None,
        },
        iaq: match payload.iaq {
            Some(t) => Some(t.value()),
            None => None,
        },
        pm1_0: match payload.pm1_0 {
            Some(t) => Some(t.value()),
            None => None,
        },
        pm2_5: match payload.pm2_5 {
            Some(t) => Some(t.value()),
            None => None,
        },
        pm10_0: match payload.pm10_0 {
            Some(t) => Some(t.value()),
            None => None,
        },
        battery_mv: opt_to_i32_or(payload.battery_mv, i32::MAX),
        sleep_cycles: opt_to_i32_or(payload.sleep_cycles, i32::MAX),
    }
}

/// Builds the row that stores `payload`: its event id when that reads as a
/// UUID, otherwise a fresh random UUID.
pub fn telemetry_row(payload: &TelemetryPayload) -> (row: TelemetryRow)
    ensures
        match uuid_parse(payload.event_id@) {
            Some(id) => row == telemetry_row_spec(*payload, id),
            None => exists|id: u128| row == telemetry_row_spec(*payload, id),
        },
        payload.protocol_version <= i32::MAX ==> row.protocol_version == payload.protocol_version,
        payload.protocol_version > i32::MAX ==> row.protocol_version == 1,
        payload.schema_version <= i32::MAX ==> row.schema_version == payload.schema_version,
        payload.schema_version > i32::MAX ==> row.schema_version == 1,
        row.gateway_id == payload.gateway_id,
        row.device_id == payload.device_id,
        payload.node_sequence <= i32::MAX ==> row.node_sequence == payload.node_sequence,
        payload.node_sequence > i32::MAX ==> row.node_sequence == 0,
        row.measured_at == payload.measured_at,
        row.ingested_at == payload.ingested_at,
        row.temperature == bits_of(payload.temperature),
        row.humidity == bits_of(payload.humidity),
        row.ph == bits_of(payload.ph),
        row.dissolved_oxygen == bits_of(payload.dissolved_oxygen),
        row.pressure == bits_of(payload.pressure),
        row.gas_resistance == bits_of(payload.gas_resistance),
        row.co2 == bits_of(payload.co2),
        row.iaq == bits_of(payload.iaq),
        row.pm1_0 == bits_of(payload.pm1_0),
        row.pm2_5 == bits_of(payload.pm2_5),
        row.pm10_0 == bits_of(payload.pm10_0),
        row.battery_mv is Some <==> payload.battery_mv is Some,
        payload.battery_mv matches Some(x) ==> row.battery_mv == Some(if x <= i32::MAX {
            x as i32
        } else {
            i32::MAX
        }),
        row.sleep_cycles is Some <==> payload.sleep_cycles is Some,
        payload.sleep_cycles matches Some(x) ==> row.sleep_cycles == Some(if x <= i32::MAX {
            x as i32
        } else {
            i32::MAX
        }),
{
    let id = match parse_uuid(payload.event_id.as_str()) {
        Some(id) => id,
        None => random_uuid(),
    };
    telemetry_row_with_id(payload, id)
}

/// Event id stored with a dead letter: the record's event id, when it reads
/// as a UUID.
pub fn poison_event_id(event_id: Option<&str>) -> (id: Option<u128>)
    ensures
        id == match event_id {
            Some(s) => uuid_parse(s@),
            None => None,
        },
{
    match event_id {
        Some(s) => parse_uuid(s),
        None => None,
    }
}

} // verus!
