use oscar_bio_dev::backend::api::dlq::{DlqRecordDto, RECENT_LIMIT};
use oscar_bio_dev::backend::api::gateway_health::{
    gateway_health_row, ingest_gateway_health, ingest_gateway_health_protobuf, to_i32_saturating,
    GatewayHealthRow,
};
use oscar_bio_dev::backend::api::health::readiness_status;
use oscar_bio_dev::backend::api::telemetry::{
    ingest_telemetry, ingest_telemetry_protobuf, IngestReply, ProtobufRejection,
};
use oscar_bio_dev::backend::domain::state::{DigitalTwin, TWIN_CAPACITY};
use oscar_bio_dev::backend::infrastructure::pubsub::{
    handle_message, next_backoff, poison_event_id, telemetry_row, telemetry_row_with_id,
    Acknowledgement, MessageDisposition, PoisonReason, Reconnect, INITIAL_BACKOFF_SECS,
    MAX_BACKOFF_SECS,
};
use oscar_bio_dev::backend::infrastructure::worker::{
    worker_row, RetrySchedule, RetryStep, WorkerRow, INITIAL_DELAY_MS, MAX_ATTEMPTS, MAX_DELAY_MS,
};
use oscar_bio_dev::shared::{
    GatewayHealthEvent, GatewayHealthEventPb, TelemetryError, TelemetryPayload, TelemetryPayloadPb,
};
use oscar_bio_dev::time::Timestamp;
use oscar_bio_dev::validation::{CheckedField, Rule, Violation};

const EVENT_UUID: &str = "550e8400-e29b-41d4-a716-446655440000";

fn pb(device: &str, temperature: f32) -> TelemetryPayloadPb {
    TelemetryPayloadPb {
        protocol_version: 1,
        schema_version: 2,
        event_id: EVENT_UUID.to_string(),
        gateway_id: "gw-1".to_string(),
        device_id: device.to_string(),
        node_sequence: 7,
        measured_at_ms: 1_757_000_000_000,
        ingested_at_ms: 1_757_000_000_250,
        temperature: Some(temperature.to_bits()),
        humidity: None,
        pressure: Some(1000.5f32.to_bits()),
        gas_resistance: None,
        iaq: Some(42.0f32.to_bits()),
        co2: Some(800),
        pm1_0: None,
        pm2_5: None,
        pm10_0: None,
        ph: None,
        dissolved_oxygen: None,
        battery_mv: Some(3300),
        sleep_cycles: None,
    }
}

fn payload(device: &str, temperature: f32) -> TelemetryPayload {
    TelemetryPayload::try_from(pb(device, temperature)).unwrap()
}

fn temperature_of(p: &TelemetryPayload) -> f64 {
    f64::from_bits(p.temperature.unwrap().value())
}

#[test]
fn twin_keeps_the_latest_record_of_each_device() {
    let mut twin = DigitalTwin::new();
    assert_eq!(twin.len(), 0);
    assert!(twin.put("a".to_string(), payload("a", 20.0)).is_none());
    assert!(twin.put("b".to_string(), payload("b", 21.0)).is_none());
    let replaced = twin.put("a".to_string(), payload("a", 22.0)).unwrap();
    assert_eq!(temperature_of(&replaced), 20.0);
    assert_eq!(twin.len(), 2);
    assert_eq!(temperature_of(twin.get("a").unwrap()), 22.0);
    assert_eq!(temperature_of(twin.get("b").unwrap()), 21.0);
    assert!(twin.get("c").is_none());
    let snap = twin.snapshot();
    let ids: Vec<&str> = snap.iter().map(|(k, _)| k.as_str()).collect();
    assert_eq!(ids, vec!["a", "b"]);
}

#[test]
fn full_twin_evicts_the_least_recently_updated_device() {
    let mut twin = DigitalTwin::new();
    for i in 0..TWIN_CAPACITY {
        let id = format!("dev-{i}");
        twin.put(id.clone(), payload(&id, 20.0));
    }
    assert_eq!(twin.len(), TWIN_CAPACITY);
    // dev-0 is refreshed, so dev-1 becomes the least recently updated.
    twin.put("dev-0".to_string(), payload("dev-0", 25.0));
    twin.put("newcomer".to_string(), payload("newcomer", 30.0));
    assert_eq!(twin.len(), TWIN_CAPACITY);
    assert!(twin.get("dev-1").is_none());
    assert_eq!(temperature_of(twin.get("dev-0").unwrap()), 25.0);
    assert_eq!(temperature_of(twin.get("newcomer").unwrap()), 30.0);
    assert!(twin.get("dev-2").is_some());
    assert_eq!(twin.snapshot()[0].0, "newcomer");
}

#[test]
fn json_ingestion_puts_valid_records_in_the_twin() {
    let mut twin = DigitalTwin::new();
    let p = ingest_telemetry(&mut twin, payload("node-1", 19.5)).unwrap();
    assert_eq!(p.device_id, "node-1");
    assert_eq!(temperature_of(twin.get("node-1").unwrap()), 19.5);
    assert_eq!(IngestReply::Queued.status(), 201);
}

#[test]
fn json_ingestion_refuses_broken_ids_and_leaves_the_twin() {
    let mut twin = DigitalTwin::new();
    let mut p = payload("node 1", 19.5);
    p.event_id = String::new();
    let v = ingest_telemetry(&mut twin, p).unwrap_err();
    assert_eq!(
        v,
        vec![
            Violation { field: CheckedField::EventId, rule: Rule::Length },
            Violation { field: CheckedField::DeviceId, rule: Rule::Pattern },
        ]
    );
    assert_eq!(twin.len(), 0);
    assert_eq!(IngestReply::Refused.status(), 400);
    assert_eq!(IngestReply::QueueUnavailable.status(), 500);
}

#[test]
fn protobuf_ingestion_converts_checks_and_records() {
    let mut twin = DigitalTwin::new();
    let p = ingest_telemetry_protobuf(&mut twin, pb("node-2", 23.25)).unwrap();
    assert_eq!(temperature_of(&p), 23.25);
    assert_eq!(f64::from_bits(p.co2.unwrap().value()), 800.0);
    assert_eq!(twin.len(), 1);

    match ingest_telemetry_protobuf(&mut twin, pb("node-3", 151.0)) {
        Err(ProtobufRejection::Domain(e)) => {
            assert_eq!(e, TelemetryError::Temperature(151.0f64.to_bits()))
        }
        other => panic!("unexpected {other:?}"),
    }
    match ingest_telemetry_protobuf(&mut twin, pb("", 20.0)) {
        Err(ProtobufRejection::Rules(v)) => assert_eq!(
            v,
            vec![
                Violation { field: CheckedField::DeviceId, rule: Rule::Length },
                Violation { field: CheckedField::DeviceId, rule: Rule::Pattern },
            ]
        ),
        other => panic!("unexpected {other:?}"),
    }
    assert_eq!(twin.len(), 1);
}

fn health_event(gateway_id: &str) -> GatewayHealthEvent {
    GatewayHealthEvent {
        gateway_id: gateway_id.to_string(),
        timestamp: Timestamp { secs: 1_757_000_000, nanos: 0 },
        is_degraded_mode: true,
        sd_card_mounted: false,
        sd_card_total_mb: Some(3_000_000_000),
        sd_card_free_mb: None,
        sd_io_errors: u32::MAX,
        uptime_seconds: 3600,
        free_heap_bytes: 2_147_483_647,
        alert_message: Some("SD card removed".to_string()),
    }
}

#[test]
fn health_rows_saturate_counts_at_i32_max() {
    assert_eq!(to_i32_saturating(0), 0);
    assert_eq!(to_i32_saturating(2_147_483_647), i32::MAX);
    assert_eq!(to_i32_saturating(2_147_483_648), i32::MAX);
    let row = gateway_health_row(&health_event("gw-9"));
    assert_eq!(
        row,
        GatewayHealthRow {
            gateway_id: "gw-9".to_string(),
            timestamp: Timestamp { secs: 1_757_000_000, nanos: 0 },
            is_degraded_mode: true,
            sd_card_mounted: false,
            sd_card_total_mb: Some(i32::MAX),
            sd_card_free_mb: None,
            sd_io_errors: i32::MAX,
            uptime_seconds: 3600,
            free_heap_bytes: i32::MAX,
            alert_message: Some("SD card removed".to_string()),
        }
    );
}

#[test]
fn health_ingestion_checks_the_gateway_id() {
    assert!(ingest_gateway_health(&health_event("gw-9")).is_ok());
    assert_eq!(
        ingest_gateway_health(&health_event("")).unwrap_err(),
        vec![Violation { field: CheckedField::GatewayId, rule: Rule::Length }]
    );
}

#[test]
fn protobuf_health_ingestion_builds_event_and_row() {
    let pb = GatewayHealthEventPb {
        gateway_id: "gateway-AA:BB".to_string(),
        is_degraded_mode: false,
        sd_card_mounted: true,
        sd_card_total_mb: 32768,
        sd_card_free_mb: 0,
        sd_io_errors: 1,
        uptime_seconds: 60,
        free_heap_bytes: 100,
        alert_message: String::new(),
    };
    let (event, row) = ingest_gateway_health_protobuf(pb).unwrap();
    assert_eq!(event.sd_card_total_mb, Some(32768));
    assert_eq!(event.sd_card_free_mb, None);
    assert_eq!(event.alert_message, None);
    assert_eq!(row.sd_card_total_mb, Some(32768));
    assert_eq!(row.timestamp, event.timestamp);
    let bad = GatewayHealthEventPb {
        gateway_id: "x".repeat(65),
        is_degraded_mode: false,
        sd_card_mounted: false,
        sd_card_total_mb: 0,
        sd_card_free_mb: 0,
        sd_io_errors: 0,
        uptime_seconds: 0,
        free_heap_bytes: 0,
        alert_message: String::new(),
    };
    assert_eq!(
        ingest_gateway_health_protobuf(bad).unwrap_err(),
        vec![Violation { field: CheckedField::GatewayId, rule: Rule::Length }]
    );
}

#[test]
fn readiness_needs_database_and_pubsub() {
    assert_eq!(readiness_status(true, true), 200);
    assert_eq!(readiness_status(true, false), 503);
    assert_eq!(readiness_status(false, true), 503);
    assert_eq!(readiness_status(false, false), 503);
}

#[test]
fn pubsub_backoff_doubles_up_to_a_minute() {
    let mut waits = vec![INITIAL_BACKOFF_SECS];
    for _ in 0..8 {
        let next = next_backoff(*waits.last().unwrap());
        waits.push(next);
    }
    assert_eq!(waits, vec![1, 2, 4, 8, 16, 32, 60, 60, 60]);
    assert_eq!(next_backoff(MAX_BACKOFF_SECS), 60);
    assert_eq!(next_backoff(29), 58);
    assert_eq!(next_backoff(30), 60);
}

#[test]
fn worker_retries_four_times_then_gives_up() {
    let mut s = RetrySchedule::new();
    let mut steps = Vec::new();
    for _ in 0..MAX_ATTEMPTS {
        steps.push(s.on_failure());
    }
    assert_eq!(
        steps,
        vec![
            RetryStep::RetryAfter(INITIAL_DELAY_MS),
            RetryStep::RetryAfter(1000),
            RetryStep::RetryAfter(2000),
            RetryStep::RetryAfter(4000),
            RetryStep::GiveUp,
        ]
    );
    assert!(MAX_DELAY_MS == 8000);
}

#[test]
fn message_that_is_not_protobuf_is_a_poison_pill() {
    let mut twin = DigitalTwin::new();
    match handle_message(&mut twin, None) {
        MessageDisposition::Poison { reason: PoisonReason::InvalidProtobuf, event_id: None } => {}
        other => panic!("unexpected {other:?}"),
    }
    assert_eq!(twin.len(), 0);
}

#[test]
fn message_with_a_bad_reading_is_a_poison_pill_without_event_id() {
    let mut twin = DigitalTwin::new();
    let mut m = pb("node-1", 20.0);
    m.co2 = Some(99_999);
    match handle_message(&mut twin, Some(m)) {
        MessageDisposition::Poison {
            reason: PoisonReason::DomainValidation(TelemetryError::Co2(b)),
            event_id: None,
        } => assert_eq!(f64::from_bits(b), 99_999.0),
        other => panic!("unexpected {other:?}"),
    }
    assert_eq!(twin.len(), 0);
}

#[test]
fn message_with_bad_ids_is_a_poison_pill_with_its_event_id() {
    let mut twin = DigitalTwin::new();
    let mut m = pb("node-1", 20.0);
    m.gateway_id = String::new();
    match handle_message(&mut twin, Some(m)) {
        MessageDisposition::Poison { reason: PoisonReason::StrictValidation(v), event_id } => {
            assert_eq!(v, vec![Violation { field: CheckedField::GatewayId, rule: Rule::Length }]);
            assert_eq!(event_id.as_deref(), Some(EVENT_UUID));
        }
        other => panic!("unexpected {other:?}"),
    }
    assert_eq!(twin.len(), 0);
}

#[test]
fn good_message_is_delivered_and_enters_the_twin() {
    let mut twin = DigitalTwin::new();
    match handle_message(&mut twin, Some(pb("node-7", 18.0))) {
        MessageDisposition::Deliver(p) => assert_eq!(p.device_id, "node-7"),
        other => panic!("unexpected {other:?}"),
    }
    assert_eq!(temperature_of(twin.get("node-7").unwrap()), 18.0);
}

#[test]
fn telemetry_rows_keep_the_event_uuid_and_convert_counts() {
    let mut p = payload("node-1", 20.0);
    p.node_sequence = u32::MAX;
    p.protocol_version = 3_000_000_000;
    p.sleep_cycles = Some(u32::MAX);
    let row = telemetry_row(&p);
    assert_eq!(row.event_id, 0x550e8400_e29b_41d4_a716_446655440000);
    assert_eq!(row.protocol_version, 1);
    assert_eq!(row.schema_version, 2);
    assert_eq!(row.node_sequence, 0);
    assert_eq!(row.battery_mv, Some(3300));
    assert_eq!(row.sleep_cycles, Some(i32::MAX));
    assert_eq!(row.temperature, Some(20.0f64.to_bits()));
    assert_eq!(row.co2, Some(800.0f64.to_bits()));
    assert_eq!(row.humidity, None);
    assert_eq!(row.measured_at, Timestamp { secs: 1_757_000_000, nanos: 0 });
    assert_eq!(row, telemetry_row_with_id(&p, row.event_id));
}

#[test]
fn telemetry_rows_get_a_fresh_id_when_the_event_id_is_not_a_uuid() {
    let mut p = payload("node-1", 20.0);
    p.event_id = "evt-123".to_string();
    let a = telemetry_row(&p);
    let b = telemetry_row(&p);
    assert_ne!(a.event_id, b.event_id);
    assert_eq!(uuid::Uuid::from_u128(a.event_id).get_version_num(), 4);
}

#[test]
fn poison_event_ids_are_read_as_uuids() {
    assert_eq!(poison_event_id(Some(EVENT_UUID)), Some(0x550e8400_e29b_41d4_a716_446655440000));
    assert_eq!(
        poison_event_id(Some("{550e8400-e29b-41d4-a716-446655440000}")),
        Some(0x550e8400_e29b_41d4_a716_446655440000)
    );
    assert_eq!(poison_event_id(Some("evt-123")), None);
    assert_eq!(poison_event_id(None), None);
}

#[test]
fn dead_letter_records_show_uuids_and_base64() {
    let dto = DlqRecordDto::from_row(
        0x550e8400_e29b_41d4_a716_446655440000,
        Timestamp { secs: 5, nanos: 0 },
        b"\x08\x01bad",
        "Invalid Protobuf".to_string(),
        None,
        Some(0xFFFF_0000_0000_0000_0000_0000_0000_00AB),
    );
    assert_eq!(dto.id, EVENT_UUID);
    assert_eq!(dto.raw_payload_base64, "CAFiYWQ=");
    assert_eq!(dto.event_id.as_deref(), Some("ffff0000-0000-0000-0000-0000000000ab"));
    assert_eq!(dto.error_reason, "Invalid Protobuf");
    assert_eq!(RECENT_LIMIT, 50);
    let empty = DlqRecordDto::from_row(0, Timestamp { secs: 0, nanos: 0 }, b"", String::new(), None, None);
    assert_eq!(empty.id, "00000000-0000-0000-0000-000000000000");
    assert_eq!(empty.raw_payload_base64, "");
    assert_eq!(empty.event_id, None);
}

#[test]
fn reconnect_waits_grow_and_reset_on_connection() {
    let mut r = Reconnect::new();
    let mut waits = Vec::new();
    for _ in 0..8 {
        waits.push(r.wait_secs());
        r.waited();
    }
    assert_eq!(waits, vec![1, 2, 4, 8, 16, 32, 60, 60]);
    assert!(!r.is_streaming());
    r.connected();
    assert!(r.is_streaming());
    assert_eq!(r.wait_secs(), 1);
    r.waited();
    assert_eq!(r.wait_secs(), 2);
    assert!(r.is_streaming());
    r.disconnected();
    assert!(!r.is_streaming());
    assert_eq!(r.wait_secs(), 2);
}

#[test]
fn an_accepted_record_is_read_back_from_the_twin() {
    let mut twin = DigitalTwin::new();
    let p = ingest_telemetry_protobuf(&mut twin, pb("node-9", 17.5)).unwrap();
    assert_eq!(format!("{:?}", twin.get("node-9").unwrap()), format!("{p:?}"));
    let q = ingest_telemetry(&mut twin, payload("node-9", 18.5)).unwrap();
    assert_eq!(format!("{:?}", twin.get("node-9").unwrap()), format!("{q:?}"));
    assert_eq!(twin.len(), 1);
}

#[test]
fn poison_pills_are_acknowledged_and_unstored_records_redelivered() {
    let mut twin = DigitalTwin::new();
    let poison = handle_message(&mut twin, None);
    assert_eq!(poison.settle(false), Acknowledgement::Ack);
    assert_eq!(poison.settle(true), Acknowledgement::Ack);
    let delivered = handle_message(&mut twin, Some(pb("node-5", 21.0)));
    assert_eq!(delivered.settle(true), Acknowledgement::Ack);
    assert_eq!(delivered.settle(false), Acknowledgement::Nack);
}

#[test]
fn storage_worker_rows_hold_fifteen_columns() {
    let mut p = payload("node-1", 20.0);
    p.battery_mv = Some(u32::MAX);
    p.sleep_cycles = Some(12);
    assert_eq!(
        worker_row(&p),
        WorkerRow {
            device_id: "node-1".to_string(),
            measured_at: Timestamp { secs: 1_757_000_000, nanos: 0 },
            temperature: Some(20.0f64.to_bits()),
            humidity: None,
            ph: None,
            dissolved_oxygen: None,
            pressure: Some(f64::from(1000.5f32).to_bits()),
            gas_resistance: None,
            co2: Some(800.0f64.to_bits()),
            iaq: Some(42.0f64.to_bits()),
            pm1_0: None,
            pm2_5: None,
            pm10_0: None,
            battery_mv: Some(i32::MAX),
            sleep_cycles: Some(12),
        }
    );
}
