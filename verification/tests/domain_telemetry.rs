use oscar_bio_dev::domain::state::DigitalTwin;
use oscar_bio_dev::domain::telemetry::{
    Co2, DissolvedOxygen, GasResistance, Humidity, Ph, Pressure, TelemetryError, TelemetryPayload,
    TelemetryPayloadPb, Temperature,
};
use oscar_bio_dev::time::Timestamp;

fn bits(x: f64) -> u64 {
    x.to_bits()
}

#[test]
fn test_ph_valid_bounds() {
    assert!(Ph::new(bits(0.0)).is_ok());
    assert!(Ph::new(bits(7.0)).is_ok());
    assert!(Ph::new(bits(14.0)).is_ok());
}

#[test]
fn test_ph_invalid_bounds() {
    assert_eq!(Ph::new(bits(-0.1)), Err(TelemetryError::Ph(bits(-0.1))));
    assert_eq!(Ph::new(bits(14.1)), Err(TelemetryError::Ph(bits(14.1))));
    assert!(Ph::new(bits(f64::NAN)).is_err());
}

#[test]
fn test_dissolved_oxygen_bounds() {
    assert!(DissolvedOxygen::new(bits(0.0)).is_ok());
    assert!(DissolvedOxygen::new(bits(40.0)).is_ok());
    assert!(DissolvedOxygen::new(bits(-1.0)).is_err());
    assert!(DissolvedOxygen::new(bits(40.1)).is_err());
}

#[test]
fn test_temperature_bounds() {
    assert!(Temperature::new(bits(-50.0)).is_ok());
    assert!(Temperature::new(bits(150.0)).is_ok());
    assert!(Temperature::new(bits(-50.1)).is_err());
    assert!(Temperature::new(bits(150.1)).is_err());
}

#[test]
fn test_humidity_bounds() {
    assert!(Humidity::new(bits(0.0)).is_ok());
    assert!(Humidity::new(bits(100.0)).is_ok());
    assert!(Humidity::new(bits(-0.1)).is_err());
    assert!(Humidity::new(bits(100.1)).is_err());
}

/// Reads a record the way its JSON form is read: required fields must be
/// present, readings go through the validating constructors.
fn payload_from_json(json: &str) -> Result<TelemetryPayload, String> {
    let v: serde_json::Value = serde_json::from_str(json).map_err(|e| e.to_string())?;
    let obj = v.as_object().ok_or("not an object")?;
    let device_id = obj
        .get("device_id")
        .and_then(|x| x.as_str())
        .ok_or("missing device_id")?
        .to_string();
    let ts = obj.get("timestamp").and_then(|x| x.as_str()).ok_or("missing timestamp")?;
    let dt = chrono::DateTime::parse_from_rfc3339(ts).map_err(|e| e.to_string())?;
    let timestamp = Timestamp { secs: dt.timestamp(), nanos: dt.timestamp_subsec_nanos() };
    let num = |k: &str| -> Result<Option<u64>, String> {
        match obj.get(k) {
            None | Some(serde_json::Value::Null) => Ok(None),
            Some(x) => x.as_f64().map(|f| Some(f.to_bits())).ok_or(format!("{k} not a number")),
        }
    };
    let err = |e: TelemetryError| format!("{e:?}");
    let temperature =
        Temperature::new(num("temperature")?.ok_or("missing temperature")?).map_err(err)?;
    let humidity = num("humidity")?.map(Humidity::new).transpose().map_err(err)?;
    let ph = num("ph")?.map(Ph::new).transpose().map_err(err)?;
    let dissolved_oxygen =
        num("dissolved_oxygen")?.map(DissolvedOxygen::new).transpose().map_err(err)?;
    let pressure = num("pressure")?.map(Pressure::new).transpose().map_err(err)?;
    let gas_resistance = num("gas_resistance")?.map(GasResistance::new).transpose().map_err(err)?;
    let co2 = num("co2")?.map(Co2::new).transpose().map_err(err)?;
    Ok(TelemetryPayload {
        device_id,
        timestamp,
        temperature,
        humidity,
        ph,
        dissolved_oxygen,
        pressure,
        gas_resistance,
        co2,
    })
}

#[test]
fn test_json_deserialization_success() {
    let json_data = r#"{
            "device_id": "PICO_W_01",
            "timestamp": "2026-08-17T12:00:00Z",
            "temperature": 25.4,
            "humidity": 60.2,
            "ph": 7.2,
            "dissolved_oxygen": 8.1
        }"#;

    let payload = payload_from_json(json_data);
    assert!(payload.is_ok(), "El JSON válido debería deserializarse correctamente");
}

#[test]
fn test_json_deserialization_failure_out_of_bounds() {
    let json_data = r#"{
            "device_id": "PICO_W_01",
            "timestamp": "2026-08-17T12:00:00Z",
            "temperature": 25.4,
            "ph": 15.0
        }"#;

    let payload = payload_from_json(json_data);
    assert!(payload.is_err(), "El JSON con pH 15.0 debería ser rechazado por serde");
}

#[test]
fn co2_range_starts_at_400_ppm() {
    assert!(Co2::new(bits(399.9)).is_err());
    assert!(Co2::new(bits(400.0)).is_ok());
    assert!(Co2::new(bits(40_000.0)).is_ok());
    assert!(Co2::new(bits(40_000.5)).is_err());
}

#[test]
fn value_returns_the_bits_given() {
    let t = Temperature::new(bits(21.75)).unwrap();
    assert_eq!(f64::from_bits(t.value()), 21.75);
}

fn sample_pb() -> TelemetryPayloadPb {
    TelemetryPayloadPb {
        device_id: "PICO_W_01".to_string(),
        timestamp_epoch_ms: 1_700_000_000_123,
        temperature: bits(25.0),
        humidity: Some(bits(50.0)),
        ph: None,
        dissolved_oxygen: None,
        pressure: Some(bits(1013.25)),
        gas_resistance: None,
        co2: Some(bits(800.0)),
    }
}

#[test]
fn protobuf_conversion_keeps_fields() {
    let p = TelemetryPayload::try_from(sample_pb()).unwrap();
    assert_eq!(p.device_id, "PICO_W_01");
    assert_eq!(p.timestamp, Timestamp { secs: 1_700_000_000, nanos: 123_000_000 });
    assert_eq!(f64::from_bits(p.temperature.value()), 25.0);
    assert_eq!(p.humidity.map(|h| f64::from_bits(h.value())), Some(50.0));
    assert!(p.ph.is_none());
    assert_eq!(p.co2.map(|c| f64::from_bits(c.value())), Some(800.0));
}

#[test]
fn protobuf_conversion_reports_first_bad_reading() {
    let mut pb = sample_pb();
    pb.temperature = bits(200.0);
    pb.co2 = Some(bits(10.0));
    assert_eq!(TelemetryPayload::try_from(pb).unwrap_err(), TelemetryError::Temperature(bits(200.0)));
    let mut pb = sample_pb();
    pb.pressure = Some(bits(f64::INFINITY));
    pb.co2 = Some(bits(10.0));
    assert_eq!(
        TelemetryPayload::try_from(pb).unwrap_err(),
        TelemetryError::Pressure(bits(f64::INFINITY))
    );
}

#[test]
fn protobuf_timestamp_out_of_range_falls_back_to_epoch() {
    let mut pb = sample_pb();
    pb.timestamp_epoch_ms = i64::MAX;
    let p = TelemetryPayload::try_from(pb).unwrap();
    assert_eq!(p.timestamp, Timestamp { secs: 0, nanos: 0 });
}

#[test]
fn first_service_twin_keeps_latest_record_per_device() {
    let mut twin = DigitalTwin::new();
    let first = TelemetryPayload::try_from(sample_pb()).unwrap();
    let mut pb = sample_pb();
    pb.temperature = bits(30.0);
    let second = TelemetryPayload::try_from(pb).unwrap();
    assert_eq!(oscar_bio_dev::api::telemetry::ingest_telemetry(&mut twin, first), 201);
    assert_eq!(oscar_bio_dev::api::telemetry::ingest_telemetry(&mut twin, second), 201);
    assert_eq!(twin.len(), 1);
    let kept = twin.get("PICO_W_01").unwrap();
    assert_eq!(f64::from_bits(kept.temperature.value()), 30.0);
    assert!(twin.get("other").is_none());
}

#[test]
fn first_service_validate_requires_device_id() {
    let mut p = TelemetryPayload::try_from(sample_pb()).unwrap();
    assert!(p.validate());
    p.device_id = String::new();
    assert!(!p.validate());
}
