use oscar_bio_dev::shared::{
    Co2, DissolvedOxygen, GasResistance, GatewayHealthEvent, GatewayHealthEventPb, Humidity, Iaq,
    Ph, Pm10_0, Pm1_0, Pm2_5, Pressure, TelemetryError, TelemetryPayload, TelemetryPayloadPb,
    Temperature,
};
use oscar_bio_dev::time::Timestamp;
use oscar_bio_dev::validation::{CheckedField, Rule, Violation};

fn bits(x: f64) -> u64 {
    x.to_bits()
}

fn instant(text: &str) -> Result<Timestamp, String> {
    let dt = chrono::DateTime::parse_from_rfc3339(text).map_err(|e| e.to_string())?;
    Ok(Timestamp { secs: dt.timestamp(), nanos: dt.timestamp_subsec_nanos() })
}

/// Reads a record the way its JSON form is read: the identity and time
/// fields are required, readings go through the validating constructors.
fn payload_from_json(json: &str) -> Result<TelemetryPayload, String> {
    let v: serde_json::Value = serde_json::from_str(json).map_err(|e| e.to_string())?;
    let obj = v.as_object().ok_or("not an object")?;
    let uint = |k: &str| -> Result<u32, String> {
        obj.get(k)
            .and_then(|x| x.as_u64())
            .and_then(|x| u32::try_from(x).ok())
            .ok_or(format!("missing {k}"))
    };
    let text = |k: &str| -> Result<String, String> {
        obj.get(k).and_then(|x| x.as_str()).map(str::to_string).ok_or(format!("missing {k}"))
    };
    let num = |k: &str| -> Result<Option<u64>, String> {
        match obj.get(k) {
            None | Some(serde_json::Value::Null) => Ok(None),
            Some(x) => x.as_f64().map(|f| Some(f.to_bits())).ok_or(format!("{k} not a number")),
        }
    };
    let opt_uint = |k: &str| -> Result<Option<u32>, String> {
        match obj.get(k) {
            None | Some(serde_json::Value::Null) => Ok(None),
            Some(x) => x
                .as_u64()
                .and_then(|x| u32::try_from(x).ok())
                .map(Some)
                .ok_or(format!("{k} not a u32")),
        }
    };
    let err = |e: TelemetryError| format!("{e:?}");
    // Readings are checked as they are read, before the record is known to
    // be complete.
    let temperature = num("temperature")?.map(Temperature::new).transpose().map_err(err)?;
    let humidity = num("humidity")?.map(Humidity::new).transpose().map_err(err)?;
    let pressure = num("pressure")?.map(Pressure::new).transpose().map_err(err)?;
    let gas_resistance = num("gas_resistance")?.map(GasResistance::new).transpose().map_err(err)?;
    let iaq = num("iaq")?.map(Iaq::new).transpose().map_err(err)?;
    let co2 = num("co2")?.map(Co2::new).transpose().map_err(err)?;
    let pm1_0 = num("pm1_0")?.map(Pm1_0::new).transpose().map_err(err)?;
    let pm2_5 = num("pm2_5")?.map(Pm2_5::new).transpose().map_err(err)?;
    let pm10_0 = num("pm10_0")?.map(Pm10_0::new).transpose().map_err(err)?;
    let ph = num("ph")?.map(Ph::new).transpose().map_err(err)?;
    let dissolved_oxygen =
        num("dissolved_oxygen")?.map(DissolvedOxygen::new).transpose().map_err(err)?;
    Ok(TelemetryPayload {
        protocol_version: uint("protocol_version")?,
        schema_version: uint("schema_version")?,
        event_id: text("event_id")?,
        gateway_id: text("gateway_id")?,
        device_id: text("device_id")?,
        node_sequence: uint("node_sequence")?,
        measured_at: instant(&text("measured_at")?)?,
        ingested_at: instant(&text("ingested_at")?)?,
        temperature,
        humidity,
        pressure,
        gas_resistance,
        iaq,
        co2,
        pm1_0,
        pm2_5,
        pm10_0,
        ph,
        dissolved_oxygen,
        battery_mv: opt_uint("battery_mv")?,
        sleep_cycles: opt_uint("sleep_cycles")?,
    })
}

#[test]
fn out_of_range_json_reading_is_refused_for_its_range() {
    let json =
        r#"{"device_id":"node-1","measured_at":"2026-08-30T10:00:00Z","temperature": 999.0}"#;
    let e = payload_from_json(json).unwrap_err();
    assert_eq!(e, format!("{:?}", TelemetryError::Temperature(999.0f64.to_bits())));
}

#[test]
fn test_invalid_json_deserialization() {
    let json =
        r#"{"device_id":"node-1","measured_at":"2026-08-30T10:00:00Z","temperature": 999.0}"#;
    let result = payload_from_json(json);
    assert!(result.is_err());
}

#[test]
fn test_valid_json_deserialization_minimal() {
    let json = r#"{
            "protocol_version": 1,
            "schema_version": 1,
            "event_id": "evt-123",
            "gateway_id": "gw-1",
            "device_id": "node-1",
            "node_sequence": 1,
            "measured_at": "2026-09-04T10:00:00Z",
            "ingested_at": "2026-09-04T10:00:00Z"
        }"#;
    let result = payload_from_json(json);
    assert!(result.is_ok());
    let p = result.unwrap();
    assert!(p.temperature.is_none());
    assert!(p.co2.is_none());
    assert!(p.pm2_5.is_none());
}

#[test]
fn test_valid_json_deserialization_full() {
    let json = r#"{
            "protocol_version": 1,
            "schema_version": 1,
            "event_id": "evt-123",
            "gateway_id": "gw-1",
            "device_id":"sensor-AA:BB:CC:DD:EE:FF",
            "node_sequence": 1,
            "measured_at":"2026-09-04T10:00:00Z",
            "ingested_at":"2026-09-04T10:00:01Z",
            "temperature": 25.5,
            "humidity": 60.0,
            "pressure": 1013.25,
            "iaq": 50.0,
            "co2": 420.0,
            "pm2_5": 12.5,
            "battery_mv": 3300
        }"#;
    let result = payload_from_json(json);
    assert!(result.is_ok());
}

#[test]
fn test_gateway_health_event_from_pb() {
    let pb = GatewayHealthEventPb {
        gateway_id: "gateway-AA:BB:CC:DD:EE:FF".to_string(),
        is_degraded_mode: true,
        sd_card_mounted: false,
        sd_card_total_mb: 32768,
        sd_card_free_mb: 0,
        sd_io_errors: 42,
        uptime_seconds: 3600,
        free_heap_bytes: 200_000,
        alert_message: "SD card removed".to_string(),
    };

    let event: GatewayHealthEvent = pb.into();
    assert_eq!(event.gateway_id, "gateway-AA:BB:CC:DD:EE:FF");
    assert!(event.is_degraded_mode);
    assert!(!event.sd_card_mounted);
    assert_eq!(event.sd_io_errors, 42);
    assert_eq!(event.alert_message.as_deref(), Some("SD card removed"));
}

/// Samples `lo..hi` in `steps` equal steps, with both ends.
fn samples(lo: f64, hi: f64, steps: u32) -> Vec<f64> {
    (0..=steps).map(|i| lo + (hi - lo) * f64::from(i) / f64::from(steps)).collect()
}

#[test]
fn ph_validation_over_a_sweep() {
    for val in samples(-1.0, 15.0, 1600) {
        assert_eq!(Ph::new(bits(val)).is_ok(), (0.0..=14.0).contains(&val), "{val}");
    }
}

#[test]
fn temperature_validation_over_a_sweep() {
    for val in samples(-60.0, 160.0, 2200) {
        assert_eq!(Temperature::new(bits(val)).is_ok(), (-50.0..=150.0).contains(&val), "{val}");
    }
}

#[test]
fn iaq_validation_over_a_sweep() {
    for val in samples(-10.0, 510.0, 2600) {
        assert_eq!(Iaq::new(bits(val)).is_ok(), (0.0..=500.0).contains(&val), "{val}");
    }
}

#[test]
fn pm2_5_validation_over_a_sweep() {
    for val in samples(-10.0, 1010.0, 2040) {
        assert_eq!(Pm2_5::new(bits(val)).is_ok(), (0.0..=1000.0).contains(&val), "{val}");
    }
}

#[test]
fn every_reading_refuses_nan_and_infinities() {
    for x in [f64::NAN, f64::INFINITY, f64::NEG_INFINITY] {
        assert_eq!(Ph::new(bits(x)), Err(TelemetryError::Ph(bits(x))));
        assert_eq!(DissolvedOxygen::new(bits(x)), Err(TelemetryError::DissolvedOxygen(bits(x))));
        assert_eq!(Temperature::new(bits(x)), Err(TelemetryError::Temperature(bits(x))));
        assert_eq!(Humidity::new(bits(x)), Err(TelemetryError::Humidity(bits(x))));
        assert_eq!(Pressure::new(bits(x)), Err(TelemetryError::Pressure(bits(x))));
        assert_eq!(GasResistance::new(bits(x)), Err(TelemetryError::GasResistance(bits(x))));
        assert_eq!(Co2::new(bits(x)), Err(TelemetryError::Co2(bits(x))));
        assert_eq!(Iaq::new(bits(x)), Err(TelemetryError::Iaq(bits(x))));
        assert_eq!(Pm1_0::new(bits(x)), Err(TelemetryError::Pm1_0(bits(x))));
        assert_eq!(Pm2_5::new(bits(x)), Err(TelemetryError::Pm2_5(bits(x))));
        assert_eq!(Pm10_0::new(bits(x)), Err(TelemetryError::Pm10_0(bits(x))));
    }
}

#[test]
fn range_ends_are_inclusive() {
    assert!(Pressure::new(bits(300.0)).is_ok());
    assert!(Pressure::new(bits(1100.0)).is_ok());
    assert!(Pressure::new(bits(299.999)).is_err());
    assert!(Pressure::new(bits(1100.001)).is_err());
    assert!(GasResistance::new(bits(50_000_000.0)).is_ok());
    assert!(GasResistance::new(bits(50_000_000.5)).is_err());
    assert!(Co2::new(bits(0.0)).is_ok());
    assert!(Co2::new(bits(40_000.0)).is_ok());
    assert!(Pm10_0::new(bits(-0.0)).is_ok());
    assert!(Pm1_0::new(bits(-f64::from_bits(1))).is_err());
    assert!(Humidity::new(bits(f64::from_bits(1))).is_ok());
}

#[test]
fn value_gives_back_the_reading() {
    let t = Temperature::new(bits(-12.375)).unwrap();
    assert_eq!(t.value(), bits(-12.375));
    assert_eq!(Ph::MIN, 0);
    assert_eq!(Ph::MAX, 14);
    assert_eq!(Temperature::MIN, -50);
}

fn sample_pb() -> TelemetryPayloadPb {
    TelemetryPayloadPb {
        protocol_version: 1,
        schema_version: 1,
        event_id: "evt-123".to_string(),
        gateway_id: "gw-1".to_string(),
        device_id: "test-node".to_string(),
        node_sequence: 1,
        measured_at_ms: 1_700_000_000_000,
        ingested_at_ms: 1_700_000_000_100,
        temperature: Some(21.5f32.to_bits()),
        humidity: Some(40.0f32.to_bits()),
        pressure: None,
        gas_resistance: None,
        iaq: None,
        co2: None,
        pm1_0: None,
        pm2_5: None,
        pm10_0: None,
        ph: None,
        dissolved_oxygen: None,
        battery_mv: Some(3300),
        sleep_cycles: Some(42),
    }
}

#[test]
fn telemetry_protobuf_conversion_over_a_sweep() {
    for i in 0..=200u16 {
        let temp = -50.0f32 + 200.0 * f32::from(i) / 200.0;
        let hum = 100.0f32 * f32::from(i) / 200.0;
        let mut pb = sample_pb();
        pb.temperature = Some(temp.to_bits());
        pb.humidity = Some(hum.to_bits());
        let p = TelemetryPayload::try_from(pb).unwrap();
        assert_eq!(p.battery_mv, Some(3300));
        assert_eq!(p.sleep_cycles, Some(42));
        assert_eq!(p.event_id, "evt-123");
        assert_eq!(p.temperature.unwrap().value(), f64::from(temp).to_bits());
        assert_eq!(p.humidity.unwrap().value(), f64::from(hum).to_bits());
    }
}

#[test]
fn protobuf_conversion_widens_exactly() {
    let mut pb = sample_pb();
    pb.pressure = Some(1013.25f32.to_bits());
    pb.ph = Some(7.1f32.to_bits());
    pb.co2 = Some(415);
    pb.pm2_5 = Some(f32::from_bits(1).to_bits());
    let p = TelemetryPayload::try_from(pb).unwrap();
    assert_eq!(f64::from_bits(p.pressure.unwrap().value()), 1013.25);
    assert_eq!(p.ph.unwrap().value(), f64::from(7.1f32).to_bits());
    assert_ne!(p.ph.unwrap().value(), 7.1f64.to_bits());
    assert_eq!(f64::from_bits(p.co2.unwrap().value()), 415.0);
    assert_eq!(p.pm2_5.unwrap().value(), f64::from(f32::from_bits(1)).to_bits());
    assert_eq!(p.measured_at, Timestamp { secs: 1_700_000_000, nanos: 0 });
    assert_eq!(p.ingested_at, Timestamp { secs: 1_700_000_000, nanos: 100_000_000 });
}

#[test]
fn protobuf_conversion_reports_the_first_bad_reading() {
    let mut pb = sample_pb();
    pb.humidity = Some(120.0f32.to_bits());
    pb.co2 = Some(50_000);
    pb.ph = Some(f32::NAN.to_bits());
    assert_eq!(
        TelemetryPayload::try_from(pb).unwrap_err(),
        TelemetryError::Humidity(120.0f64.to_bits())
    );
    let mut pb = sample_pb();
    pb.co2 = Some(50_000);
    pb.ph = Some(15.0f32.to_bits());
    assert_eq!(TelemetryPayload::try_from(pb).unwrap_err(), TelemetryError::Co2(50_000.0f64.to_bits()));
    let mut pb = sample_pb();
    pb.dissolved_oxygen = Some(f32::NEG_INFINITY.to_bits());
    assert_eq!(
        TelemetryPayload::try_from(pb).unwrap_err(),
        TelemetryError::DissolvedOxygen(f64::NEG_INFINITY.to_bits())
    );
    let mut pb = sample_pb();
    pb.iaq = Some(f32::NAN.to_bits());
    match TelemetryPayload::try_from(pb).unwrap_err() {
        TelemetryError::Iaq(b) => assert!(f64::from_bits(b).is_nan()),
        other => panic!("unexpected {other:?}"),
    }
}

#[test]
fn protobuf_timestamps_beyond_i64_read_as_the_epoch() {
    let mut pb = sample_pb();
    pb.measured_at_ms = u64::MAX;
    pb.ingested_at_ms = i64::MAX as u64;
    let p = TelemetryPayload::try_from(pb).unwrap();
    assert_eq!(p.measured_at, Timestamp { secs: 0, nanos: 0 });
    assert_eq!(p.ingested_at, Timestamp { secs: 0, nanos: 0 });
}

fn sample_payload() -> TelemetryPayload {
    TelemetryPayload::try_from(sample_pb()).unwrap()
}

#[test]
fn validate_accepts_well_formed_ids() {
    assert_eq!(sample_payload().validate(), Ok(()));
    let mut p = sample_payload();
    p.device_id = "sensor-AA:BB:CC:DD:EE:FF".to_string();
    assert_eq!(p.validate(), Ok(()));
    p.device_id = "x".repeat(64);
    assert_eq!(p.validate(), Ok(()));
}

#[test]
fn validate_lists_every_broken_rule_in_field_order() {
    let mut p = sample_payload();
    p.event_id = String::new();
    p.gateway_id = "g".repeat(65);
    p.device_id = String::new();
    assert_eq!(
        p.validate(),
        Err(vec![
            Violation { field: CheckedField::EventId, rule: Rule::Length },
            Violation { field: CheckedField::GatewayId, rule: Rule::Length },
            Violation { field: CheckedField::DeviceId, rule: Rule::Length },
            Violation { field: CheckedField::DeviceId, rule: Rule::Pattern },
        ])
    );
    let mut p = sample_payload();
    p.device_id = "node 1".to_string();
    assert_eq!(
        p.validate(),
        Err(vec![Violation { field: CheckedField::DeviceId, rule: Rule::Pattern }])
    );
    p.device_id = "nodo-ñ".to_string();
    assert_eq!(
        p.validate(),
        Err(vec![Violation { field: CheckedField::DeviceId, rule: Rule::Pattern }])
    );
}

#[test]
fn validate_counts_chars_not_bytes() {
    let mut p = sample_payload();
    p.gateway_id = "é".repeat(64);
    assert_eq!(p.validate(), Ok(()));
    p.gateway_id = "é".repeat(65);
    assert_eq!(
        p.validate(),
        Err(vec![Violation { field: CheckedField::GatewayId, rule: Rule::Length }])
    );
}

#[test]
fn clone_keeps_every_field() {
    let p = sample_payload();
    let q = p.clone();
    assert_eq!(format!("{p:?}"), format!("{q:?}"));
}

fn health_pb() -> GatewayHealthEventPb {
    GatewayHealthEventPb {
        gateway_id: "gateway-01".to_string(),
        is_degraded_mode: false,
        sd_card_mounted: true,
        sd_card_total_mb: 0,
        sd_card_free_mb: 1024,
        sd_io_errors: 0,
        uptime_seconds: 10,
        free_heap_bytes: 4096,
        alert_message: String::new(),
    }
}

#[test]
fn health_event_from_pb_at_maps_zero_and_empty_to_absent() {
    let now = Timestamp { secs: 1_800_000_000, nanos: 5 };
    let e = GatewayHealthEvent::from_pb_at(health_pb(), now);
    assert_eq!(
        e,
        GatewayHealthEvent {
            gateway_id: "gateway-01".to_string(),
            timestamp: now,
            is_degraded_mode: false,
            sd_card_mounted: true,
            sd_card_total_mb: None,
            sd_card_free_mb: Some(1024),
            sd_io_errors: 0,
            uptime_seconds: 10,
            free_heap_bytes: 4096,
            alert_message: None,
        }
    );
    assert_eq!(e.validate(), Ok(()));
}

#[test]
fn health_event_validation_checks_gateway_id_length() {
    let now = Timestamp { secs: 0, nanos: 0 };
    let mut pb = health_pb();
    pb.gateway_id = String::new();
    assert_eq!(
        GatewayHealthEvent::from_pb_at(pb, now).validate(),
        Err(vec![Violation { field: CheckedField::GatewayId, rule: Rule::Length }])
    );
    let mut pb = health_pb();
    pb.gateway_id = "g".repeat(65);
    assert!(GatewayHealthEvent::from_pb_at(pb, now).validate().is_err());
}

#[test]
fn health_event_from_pb_is_stamped_with_the_clock() {
    let before = chrono::Utc::now().timestamp();
    let e: GatewayHealthEvent = health_pb().into();
    let after = chrono::Utc::now().timestamp();
    assert!(before <= e.timestamp.secs && e.timestamp.secs <= after);
}

#[test]
fn readings_round_trip_through_their_bit_pattern() {
    for x in [0.0, -0.0, 7.25, 14.0] {
        let p = Ph::new(bits(x)).unwrap();
        assert_eq!(Ph::new(p.value()), Ok(p));
    }
    let t = Temperature::new(bits(-49.5)).unwrap();
    assert_eq!(Temperature::new(t.value()), Ok(t));
}
