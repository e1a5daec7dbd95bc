//! Telemetry model shared by the gateway-facing services: validated
//! readings, the telemetry record, its protobuf transfer object, and the
//! gateway health event.
use crate::ieee754::{
    f32_within, f64_from_f32_bits, f64_from_u32, f64_in_closed_range, f64_is_finite,
    f64_scaled, f64_sign_bit, f64_within, lemma_widened_within, widens_to,
};
use crate::time::{chrono_accepts_millis, from_millis_exact, unix_epoch, Timestamp};
use crate::validation::{
    id_length_ok, matches_device_id_pattern, validate_length, CheckedField, Rule, Violation,
};
use vstd::arithmetic::power2::pow2;
use vstd::prelude::*;

verus! {

/// A reading refused because it lies outside its physical range (or is NaN);
/// each variant carries the refused binary64 bit pattern.
#[derive(Debug, Clone, Copy, PartialEq, Eq, Structural)]
pub enum TelemetryError {
    /// pH outside [0, 14] pH units.
    Ph(u64),
    /// dissolved oxygen outside [0, 40] mg/L.
    DissolvedOxygen(u64),
    /// temperature outside [-50, 150] °C.
    Temperature(u64),
    /// humidity outside [0, 100] %RH.
    Humidity(u64),
    /// pressure outside [300, 1100] hPa.
    Pressure(u64),
    /// gas resistance outside [0, 50000000] ohms.
    GasResistance(u64),
    /// CO2 outside [0, 40000] ppm.
    Co2(u64),
    /// IAQ outside [0, 500] index points.
    Iaq(u64),
    /// PM1.0 outside [0, 1000] µg/m³.
    Pm1_0(u64),
    /// PM2.5 outside [0, 1000] µg/m³.
    Pm2_5(u64),
    /// PM10.0 outside [0, 1000] µg/m³.
    Pm10_0(u64),
}

/// pH of water or soil.
#[derive(Debug, Clone, Copy, PartialEq, Eq, Structural)]
pub struct Ph(u64);

impl View for Ph {
    type V = u64;

    /// Binary64 bit pattern of the reading.
    closed spec fn view(&self) -> u64 {
        self.0
    }
}

impl Ph {
    /// Lowest accepted value (pH units).
    pub const MIN: i64 = 0;

    /// Highest accepted value (pH units).
    pub const MAX: i64 = 14;

    /// A reading is its bit pattern: two readings with the same pattern are
    /// the same reading, so `new(r.value())` gives back `Ok(r)`.
    pub proof fn lemma_view_injective(a: Self, b: Self)
        ensures
            a@ == b@ <==> a == b,
    {
    }

    /// A reading always holds a finite value within `[MIN, MAX]`.
    #[verifier::type_invariant]
    spec fn in_range(self) -> bool {
        f64_within(self.0, Self::MIN as int, Self::MAX as int)
    }

    /// Validates the binary64 bit pattern `value`: NaN, infinities and
    /// values outside `[MIN, MAX]` are refused.
    pub fn new(value: u64) -> (res: Result<Self, TelemetryError>)
        ensures
            res is Ok <==> f64_within(value, 0, 14),
            res matches Ok(r) ==> r@ == value,
            res matches Err(e) ==> e == TelemetryError::Ph(value),
    {
        if f64_in_closed_range(value, Self::MIN, Self::MAX) {
            Ok(Ph(value))
        } else {
            Err(TelemetryError::Ph(value))
        }
    }

    /// Binary64 bit pattern of the validated reading.
    pub fn value(self) -> (v: u64)
        ensures
            v == self@,
            f64_within(v, 0, 14),
    {
        proof {
            use_type_invariant(&self);
        }
        self.0
    }
}

/// Dissolved oxygen, in mg/L.
#[derive(Debug, Clone, Copy, PartialEq, Eq, Structural)]
pub struct DissolvedOxygen(u64);

impl View for DissolvedOxygen {
    type V = u64;

    /// Binary64 bit pattern of the reading.
    closed spec fn view(&self) -> u64 {
        self.0
    }
}

impl DissolvedOxygen {
    /// Lowest accepted value (mg/L).
    pub const MIN: i64 = 0;

    /// Highest accepted value (mg/L).
    pub const MAX: i64 = 40;

    /// A reading is its bit pattern: two readings with the same pattern are
    /// the same reading, so `new(r.value())` gives back `Ok(r)`.
    pub proof fn lemma_view_injective(a: Self, b: Self)
        ensures
            a@ == b@ <==> a == b,
    {
    }

    /// A reading always holds a finite value within `[MIN, MAX]`.
    #[verifier::type_invariant]
    spec fn in_range(self) -> bool {
        f64_within(self.0, Self::MIN as int, Self::MAX as int)
    }

    /// Validates the binary64 bit pattern `value`: NaN, infinities and
    /// values outside `[MIN, MAX]` are refused.
    pub fn new(value: u64) -> (res: Result<Self, TelemetryError>)
        ensures
            res is Ok <==> f64_within(value, 0, 40),
            res matches Ok(r) ==> r@ == value,
            res matches Err(e) ==> e == TelemetryError::DissolvedOxygen(value),
    {
        if f64_in_closed_range(value, Self::MIN, Self::MAX) {
            Ok(DissolvedOxygen(value))
        } else {
            Err(TelemetryError::DissolvedOxygen(value))
        }
    }

    /// Binary64 bit pattern of the validated reading.
    pub fn value(self) -> (v: u64)
        ensures
            v == self@,
            f64_within(v, 0, 40),
    {
        proof {
            use_type_invariant(&self);
        }
        self.0
    }
}

/// Temperature, in degrees Celsius.
#[derive(Debug, Clone, Copy, PartialEq, Eq, Structural)]
pub struct Temperature(u64);

impl View for Temperature {
    type V = u64;

    /// Binary64 bit pattern of the reading.
    closed spec fn view(&self) -> u64 {
        self.0
    }
}

impl Temperature {
    /// Lowest accepted value (°C).
    pub const MIN: i64 = -50;

    /// Highest accepted value (°C).
    pub const MAX: i64 = 150;

    /// A reading is its bit pattern: two readings with the same pattern are
    /// the same reading, so `new(r.value())` gives back `Ok(r)`.
    pub proof fn lemma_view_injective(a: Self, b: Self)
        ensures
            a@ == b@ <==> a == b,
    {
    }

    /// A reading always holds a finite value within `[MIN, MAX]`.
    #[verifier::type_invariant]
    spec fn in_range(self) -> bool {
        f64_within(self.0, Self::MIN as int, Self::MAX as int)
    }

    /// Validates the binary64 bit pattern `value`: NaN, infinities and
    /// values outside `[MIN, MAX]` are refused.
    pub fn new(value: u64) -> (res: Result<Self, TelemetryError>)
        ensures
            res is Ok <==> f64_within(value, -50, 150),
            res matches Ok(r) ==> r@ == value,
            res matches Err(e) ==> e == TelemetryError::Temperature(value),
    {
        if f64_in_closed_range(value, Self::MIN, Self::MAX) {
            Ok(Temperature(value))
        } else {
            Err(TelemetryError::Temperature(value))
        }
    }

    /// Binary64 bit pattern of the validated reading.
    pub fn value(self) -> (v: u64)
        ensures
            v == self@,
            f64_within(v, -50, 150),
    {
        proof {
            use_type_invariant(&self);
        }
        self.0
    }
}

/// Relative humidity, in percent.
#[derive(Debug, Clone, Copy, PartialEq, Eq, Structural)]
pub struct Humidity(u64);

impl View for Humidity {
    type V = u64;

    /// Binary64 bit pattern of the reading.
    closed spec fn view(&self) -> u64 {
        self.0
    }
}

impl Humidity {
    /// Lowest accepted value (%RH).
    pub const MIN: i64 = 0;

    /// Highest accepted value (%RH).
    pub const MAX: i64 = 100;

    /// A reading is its bit pattern: two readings with the same pattern are
    /// the same reading, so `new(r.value())` gives back `Ok(r)`.
    pub proof fn lemma_view_injective(a: Self, b: Self)
        ensures
            a@ == b@ <==> a == b,
    {
    }

    /// A reading always holds a finite value within `[MIN, MAX]`.
    #[verifier::type_invariant]
    spec fn in_range(self) -> bool {
        f64_within(self.0, Self::MIN as int, Self::MAX as int)
    }

    /// Validates the binary64 bit pattern `value`: NaN, infinities and
    /// values outside `[MIN, MAX]` are refused.
    pub fn new(value: u64) -> (res: Result<Self, TelemetryError>)
        ensures
            res is Ok <==> f64_within(value, 0, 100),
            res matches Ok(r) ==> r@ == value,
            res matches Err(e) ==> e == TelemetryError::Humidity(value),
    {
        if f64_in_closed_range(value, Self::MIN, Self::MAX) {
            Ok(Humidity(value))
        } else {
            Err(TelemetryError::Humidity(value))
        }
    }

    /// Binary64 bit pattern of the validated reading.
    pub fn value(self) -> (v: u64)
        ensures
            v == self@,
            f64_within(v, 0, 100),
    {
        proof {
            use_type_invariant(&self);
        }
        self.0
    }
}

/// Atmospheric pressure, in hPa.
#[derive(Debug, Clone, Copy, PartialEq, Eq, Structural)]
pub struct Pressure(u64);

impl View for Pressure {
    type V = u64;

    /// Binary64 bit pattern of the reading.
    closed spec fn view(&self) -> u64 {
        self.0
    }
}

impl Pressure {
    /// Lowest accepted value (hPa).
    pub const MIN: i64 = 300;

    /// Highest accepted value (hPa).
    pub const MAX: i64 = 1100;

    /// A reading is its bit pattern: two readings with the same pattern are
    /// the same reading, so `new(r.value())` gives back `Ok(r)`.
    pub proof fn lemma_view_injective(a: Self, b: Self)
        ensures
            a@ == b@ <==> a == b,
    {
    }

    /// A reading always holds a finite value within `[MIN, MAX]`.
    #[verifier::type_invariant]
    spec fn in_range(self) -> bool {
        f64_within(self.0, Self::MIN as int, Self::MAX as int)
    }

    /// Validates the binary64 bit pattern `value`: NaN, infinities and
    /// values outside `[MIN, MAX]` are refused.
    pub fn new(value: u64) -> (res: Result<Self, TelemetryError>)
        ensures
            res is Ok <==> f64_within(value, 300, 1100),
            res matches Ok(r) ==> r@ == value,
            res matches Err(e) ==> e == TelemetryError::Pressure(value),
    {
        if f64_in_closed_range(value, Self::MIN, Self::MAX) {
            Ok(Pressure(value))
        } else {
            Err(TelemetryError::Pressure(value))
        }
    }

    /// Binary64 bit pattern of the validated reading.
    pub fn value(self) -> (v: u64)
        ensures
            v == self@,
            f64_within(v, 300, 1100),
    {
        proof {
            use_type_invariant(&self);
        }
        self.0
    }
}

/// Gas (VOC) resistance of the BME688, in ohms.
#[derive(Debug, Clone, Copy, PartialEq, Eq, Structural)]
pub struct GasResistance(u64);

impl View for GasResistance {
    type V = u64;

    /// Binary64 bit pattern of the reading.
    closed spec fn view(&self) -> u64 {
        self.0
    }
}

impl GasResistance {
    /// Lowest accepted value (ohms).
    pub const MIN: i64 = 0;

    /// Highest accepted value (ohms).
    pub const MAX: i64 = 50000000;

    /// A reading is its bit pattern: two readings with the same pattern are
    /// the same reading, so `new(r.value())` gives back `Ok(r)`.
    pub proof fn lemma_view_injective(a: Self, b: Self)
        ensures
            a@ == b@ <==> a == b,
    {
    }

    /// A reading always holds a finite value within `[MIN, MAX]`.
    #[verifier::type_invariant]
    spec fn in_range(self) -> bool {
        f64_within(self.0, Self::MIN as int, Self::MAX as int)
    }

    /// Validates the binary64 bit pattern `value`: NaN, infinities and
    /// values outside `[MIN, MAX]` are refused.
    pub fn new(value: u64) -> (res: Result<Self, TelemetryError>)
        ensures
            res is Ok <==> f64_within(value, 0, 50000000),
            res matches Ok(r) ==> r@ == value,
            res matches Err(e) ==> e == TelemetryError::GasResistance(value),
    {
        if f64_in_closed_range(value, Self::MIN, Self::MAX) {
            Ok(GasResistance(value))
        } else {
            Err(TelemetryError::GasResistance(value))
        }
    }

    /// Binary64 bit pattern of the validated reading.
    pub fn value(self) -> (v: u64)
        ensures
            v == self@,
            f64_within(v, 0, 50000000),
    {
        proof {
            use_type_invariant(&self);
        }
        self.0
    }
}

/// CO2 concentration of the SCD41, in ppm.
#[derive(Debug, Clone, Copy, PartialEq, Eq, Structural)]
pub struct Co2(u64);

impl View for Co2 {
    type V = u64;

    /// Binary64 bit pattern of the reading.
    closed spec fn view(&self) -> u64 {
        self.0
    }
}

impl Co2 {
    /// Lowest accepted value (ppm).
    pub const MIN: i64 = 0;

    /// Highest accepted value (ppm).
    pub const MAX: i64 = 40000;

    /// A reading is its bit pattern: two readings with the same pattern are
    /// the same reading, so `new(r.value())` gives back `Ok(r)`.
    pub proof fn lemma_view_injective(a: Self, b: Self)
        ensures
            a@ == b@ <==> a == b,
    {
    }

    /// A reading always holds a finite value within `[MIN, MAX]`.
    #[verifier::type_invariant]
    spec fn in_range(self) -> bool {
        f64_within(self.0, Self::MIN as int, Self::MAX as int)
    }

    /// Validates the binary64 bit pattern `value`: NaN, infinities and
    /// values outside `[MIN, MAX]` are refused.
    pub fn new(value: u64) -> (res: Result<Self, TelemetryError>)
        ensures
            res is Ok <==> f64_within(value, 0, 40000),
            res matches Ok(r) ==> r@ == value,
            res matches Err(e) ==> e == TelemetryError::Co2(value),
    {
        if f64_in_closed_range(value, Self::MIN, Self::MAX) {
            Ok(Co2(value))
        } else {
            Err(TelemetryError::Co2(value))
        }
    }

    /// Binary64 bit pattern of the validated reading.
    pub fn value(self) -> (v: u64)
        ensures
            v == self@,
            f64_within(v, 0, 40000),
    {
        proof {
            use_type_invariant(&self);
        }
        self.0
    }
}

/// Index of air quality (BME688 BSEC output).
#[derive(Debug, Clone, Copy, PartialEq, Eq, Structural)]
pub struct Iaq(u64);

impl View for Iaq {
    type V = u64;

    /// Binary64 bit pattern of the reading.
    closed spec fn view(&self) -> u64 {
        self.0
    }
}

impl Iaq {
    /// Lowest accepted value (index points).
    pub const MIN: i64 = 0;

    /// Highest accepted value (index points).
    pub const MAX: i64 = 500;

    /// A reading is its bit pattern: two readings with the same pattern are
    /// the same reading, so `new(r.value())` gives back `Ok(r)`.
    pub proof fn lemma_view_injective(a: Self, b: Self)
        ensures
            a@ == b@ <==> a == b,
    {
    }

    /// A reading always holds a finite value within `[MIN, MAX]`.
    #[verifier::type_invariant]
    spec fn in_range(self) -> bool {
        f64_within(self.0, Self::MIN as int, Self::MAX as int)
    }

    /// Validates the binary64 bit pattern `value`: NaN, infinities and
    /// values outside `[MIN, MAX]` are refused.
    pub fn new(value: u64) -> (res: Result<Self, TelemetryError>)
        ensures
            res is Ok <==> f64_within(value, 0, 500),
            res matches Ok(r) ==> r@ == value,
            res matches Err(e) ==> e == TelemetryError::Iaq(value),
    {
        if f64_in_closed_range(value, Self::MIN, Self::MAX) {
            Ok(Iaq(value))
        } else {
            Err(TelemetryError::Iaq(value))
        }
    }

    /// Binary64 bit pattern of the validated reading.
    pub fn value(self) -> (v: u64)
        ensures
            v == self@,
            f64_within(v, 0, 500),
    {
        proof {
            use_type_invariant(&self);
        }
        self.0
    }
}

/// PM1.0 particulate matter of the BMV080, in µg/m³.
#[derive(Debug, Clone, Copy, PartialEq, Eq, Structural)]
pub struct Pm1_0(u64);

impl View for Pm1_0 {
    type V = u64;

    /// Binary64 bit pattern of the reading.
    closed spec fn view(&self) -> u64 {
        self.0
    }
}

impl Pm1_0 {
    /// Lowest accepted value (µg/m³).
    pub const MIN: i64 = 0;

    /// Highest accepted value (µg/m³).
    pub const MAX: i64 = 1000;

    /// A reading is its bit pattern: two readings with the same pattern are
    /// the same reading, so `new(r.value())` gives back `Ok(r)`.
    pub proof fn lemma_view_injective(a: Self, b: Self)
        ensures
            a@ == b@ <==> a == b,
    {
    }

    /// A reading always holds a finite value within `[MIN, MAX]`.
    #[verifier::type_invariant]
    spec fn in_range(self) -> bool {
        f64_within(self.0, Self::MIN as int, Self::MAX as int)
    }

    /// Validates the binary64 bit pattern `value`: NaN, infinities and
    /// values outside `[MIN, MAX]` are refused.
    pub fn new(value: u64) -> (res: Result<Self, TelemetryError>)
        ensures
            res is Ok <==> f64_within(value, 0, 1000),
            res matches Ok(r) ==> r@ == value,
            res matches Err(e) ==> e == TelemetryError::Pm1_0(value),
    {
        if f64_in_closed_range(value, Self::MIN, Self::MAX) {
            Ok(Pm1_0(value))
        } else {
            Err(TelemetryError::Pm1_0(value))
        }
    }

    /// Binary64 bit pattern of the validated reading.
    pub fn value(self) -> (v: u64)
        ensures
            v == self@,
            f64_within(v, 0, 1000),
    {
        proof {
            use_type_invariant(&self);
        }
        self.0
    }
}

/// PM2.5 particulate matter of the BMV080, in µg/m³.
#[derive(Debug, Clone, Copy, PartialEq, Eq, Structural)]
pub struct Pm2_5(u64);

impl View for Pm2_5 {
    type V = u64;

    /// Binary64 bit pattern of the reading.
    closed spec fn view(&self) -> u64 {
        self.0
    }
}

impl Pm2_5 {
    /// Lowest accepted value (µg/m³).
    pub const MIN: i64 = 0;

    /// Highest accepted value (µg/m³).
    pub const MAX: i64 = 1000;

    /// A reading is its bit pattern: two readings with the same pattern are
    /// the same reading, so `new(r.value())` gives back `Ok(r)`.
    pub proof fn lemma_view_injective(a: Self, b: Self)
        ensures
            a@ == b@ <==> a == b,
    {
    }

    /// A reading always holds a finite value within `[MIN, MAX]`.
    #[verifier::type_invariant]
    spec fn in_range(self) -> bool {
        f64_within(self.0, Self::MIN as int, Self::MAX as int)
    }

    /// Validates the binary64 bit pattern `value`: NaN, infinities and
    /// values outside `[MIN, MAX]` are refused.
    pub fn new(value: u64) -> (res: Result<Self, TelemetryError>)
        ensures
            res is Ok <==> f64_within(value, 0, 1000),
            res matches Ok(r) ==> r@ == value,
            res matches Err(e) ==> e == TelemetryError::Pm2_5(value),
    {
        if f64_in_closed_range(value, Self::MIN, Self::MAX) {
            Ok(Pm2_5(value))
        } else {
            Err(TelemetryError::Pm2_5(value))
        }
    }

    /// Binary64 bit pattern of the validated reading.
    pub fn value(self) -> (v: u64)
        ensures
            v == self@,
            f64_within(v, 0, 1000),
    {
        proof {
            use_type_invariant(&self);
        }
        self.0
    }
}

/// PM10.0 particulate matter of the BMV080, in µg/m³.
#[derive(Debug, Clone, Copy, PartialEq, Eq, Structural)]
pub struct Pm10_0(u64);

impl View for Pm10_0 {
    type V = u64;

    /// Binary64 bit pattern of the reading.
    closed spec fn view(&self) -> u64 {
        self.0
    }
}

impl Pm10_0 {
    /// Lowest accepted value (µg/m³).
    pub const MIN: i64 = 0;

    /// Highest accepted value (µg/m³).
    pub const MAX: i64 = 1000;

    /// A reading is its bit pattern: two readings with the same pattern are
    /// the same reading, so `new(r.value())` gives back `Ok(r)`.
    pub proof fn lemma_view_injective(a: Self, b: Self)
        ensures
            a@ == b@ <==> a == b,
    {
    }

    /// A reading always holds a finite value within `[MIN, MAX]`.
    #[verifier::type_invariant]
    spec fn in_range(self) -> bool {
        f64_within(self.0, Self::MIN as int, Self::MAX as int)
    }

    /// Validates the binary64 bit pattern `value`: NaN, infinities and
    /// values outside `[MIN, MAX]` are refused.
    pub fn new(value: u64) -> (res: Result<Self, TelemetryError>)
        ensures
            res is Ok <==> f64_within(value, 0, 1000),
            res matches Ok(r) ==> r@ == value,
            res matches Err(e) ==> e == TelemetryError::Pm10_0(value),
    {
        if f64_in_closed_range(value, Self::MIN, Self::MAX) {
            Ok(Pm10_0(value))
        } else {
            Err(TelemetryError::Pm10_0(value))
        }
    }

    /// Binary64 bit pattern of the validated reading.
    pub fn value(self) -> (v: u64)
        ensures
            v == self@,
            f64_within(v, 0, 1000),
    {
        proof {
            use_type_invariant(&self);
        }
        self.0
    }
}

// ─── Telemetry record ───────────────────────────────────────────────────────
/// A telemetry record of an edge node (ESP32, RP2350), as relayed by a
/// gateway.
#[derive(Debug)]
pub struct TelemetryPayload {
    /// Protocol version.
    pub protocol_version: u32,
    /// Schema version.
    pub schema_version: u32,
    /// Unique event id (a UUID), for idempotent storage.
    pub event_id: String,
    /// Gateway id.
    pub gateway_id: String,
    /// Device id (for instance `sensor-AA:BB:CC:DD:EE:FF`).
    pub device_id: String,
    /// Sequence number given by the node.
    pub node_sequence: u32,
    /// When the node measured.
    pub measured_at: Timestamp,
    /// When the gateway ingested the reading.
    pub ingested_at: Timestamp,
    /// Temperature.
    pub temperature: Option<Temperature>,
    /// Relative humidity.
    pub humidity: Option<Humidity>,
    /// Atmospheric pressure.
    pub pressure: Option<Pressure>,
    /// Gas resistance.
    pub gas_resistance: Option<GasResistance>,
    /// Index of air quality.
    pub iaq: Option<Iaq>,
    /// CO2 concentration.
    pub co2: Option<Co2>,
    /// PM1.0.
    pub pm1_0: Option<Pm1_0>,
    /// PM2.5.
    pub pm2_5: Option<Pm2_5>,
    /// PM10.0.
    pub pm10_0: Option<Pm10_0>,
    /// pH.
    pub ph: Option<Ph>,
    /// Dissolved oxygen.
    pub dissolved_oxygen: Option<DissolvedOxygen>,
    /// Battery voltage in mV.
    pub battery_mv: Option<u32>,
    /// Deep-sleep cycle counter.
    pub sleep_cycles: Option<u32>,
}

impl Clone for TelemetryPayload {
    fn clone(&self) -> (res: Self)
        ensures
            res == *self,
    {
        TelemetryPayload {
            protocol_version: self.protocol_version,
            schema_version: self.schema_version,
            event_id: self.event_id.clone(),
            gateway_id: self.gateway_id.clone(),
            device_id: self.device_id.clone(),
            node_sequence: self.node_sequence,
            measured_at: self.measured_at,
            ingested_at: self.ingested_at,
            temperature: self.temperature,
            humidity: self.humidity,
            pressure: self.pressure,
            gas_resistance: self.gas_resistance,
            iaq: self.iaq,
            co2: self.co2,
            pm1_0: self.pm1_0,
            pm2_5: self.pm2_5,
            pm10_0: self.pm10_0,
            ph: self.ph,
            dissolved_oxygen: self.dissolved_oxygen,
            battery_mv: self.battery_mv,
            sleep_cycles: self.sleep_cycles,
        }
    }
}

/// The rules broken by the identifiers of a telemetry record, in field order.
pub open spec fn id_violations(event_id: Seq<char>, gateway_id: Seq<char>, device_id: Seq<char>) -> Seq<Violation> {
    (if id_length_ok(event_id) {
        seq![]
    } else {
        seq![Violation { field: CheckedField::EventId, rule: Rule::Length }]
    }) + (if id_length_ok(gateway_id) {
        seq![]
    } else {
        seq![Violation { field: CheckedField::GatewayId, rule: Rule::Length }]
    }) + (if id_length_ok(device_id) {
        seq![]
    } else {
        seq![Violation { field: CheckedField::DeviceId, rule: Rule::Length }]
    }) + (if crate::validation::device_id_pattern(device_id) {
        seq![]
    } else {
        seq![Violation { field: CheckedField::DeviceId, rule: Rule::Pattern }]
    })
}

/// The rules a telemetry record breaks, in field order.
pub open spec fn payload_violations(p: TelemetryPayload) -> Seq<Violation> {
    id_violations(p.event_id@, p.gateway_id@, p.device_id@)
}

impl TelemetryPayload {
    /// Checks the field rules: `event_id`, `gateway_id` and `device_id` hold
    /// 1 to 64 chars, and `device_id` only ASCII letters, digits, `_`, `:`,
    /// `.` and `-`. On failure, lists every broken rule in field order.
    pub fn validate(&self) -> (res: Result<(), Vec<Violation>>)
        ensures
            res is Ok <==> payload_violations(*self).len() == 0,
            res matches Err(v) ==> v@ == payload_violations(*self),
    {
        let mut v: Vec<Violation> = Vec::new();
        if !validate_length(&self.event_id) {
            v.push(Violation { field: CheckedField::EventId, rule: Rule::Length });
        }
        if !validate_length(&self.gateway_id) {
            v.push(Violation { field: CheckedField::GatewayId, rule: Rule::Length });
        }
        if !validate_length(&self.device_id) {
            v.push(Violation { field: CheckedField::DeviceId, rule: Rule::Length });
        }
        if !matches_device_id_pattern(&self.device_id) {
            v.push(Violation { field: CheckedField::DeviceId, rule: Rule::Pattern });
        }
        assert(v@ =~= payload_violations(*self));
        if v.len() == 0 {
            Ok(())
        } else {
            Err(v)
        }
    }
}

// ─── Protobuf transfer object ───────────────────────────────────────────────
/// Protobuf transfer object of a telemetry record, field for field as on the
/// wire. Readings that travel as `float` are held as binary32 bit patterns.
#[derive(Debug)]
pub struct TelemetryPayloadPb {
    /// Tag 1.
    pub protocol_version: u32,
    /// Tag 2.
    pub schema_version: u32,
    /// Tag 3.
    pub event_id: String,
    /// Tag 4.
    pub gateway_id: String,
    /// Tag 5.
    pub device_id: String,
    /// Tag 6.
    pub node_sequence: u32,
    /// Tag 7: milliseconds since the epoch.
    pub measured_at_ms: u64,
    /// Tag 8: milliseconds since the epoch.
    pub ingested_at_ms: u64,
    /// Tag 9 (binary32 bits).
    pub temperature: Option<u32>,
    /// Tag 10 (binary32 bits).
    pub humidity: Option<u32>,
    /// Tag 11 (binary32 bits).
    pub pressure: Option<u32>,
    /// Tag 12 (binary32 bits).
    pub gas_resistance: Option<u32>,
    /// Tag 13 (binary32 bits).
    pub iaq: Option<u32>,
    /// Tag 14, in ppm.
    pub co2: Option<u32>,
    /// Tag 15 (binary32 bits).
    pub pm1_0: Option<u32>,
    /// Tag 16 (binary32 bits).
    pub pm2_5: Option<u32>,
    /// Tag 17 (binary32 bits).
    pub pm10_0: Option<u32>,
    /// Tag 18 (binary32 bits).
    pub ph: Option<u32>,
    /// Tag 19 (binary32 bits).
    pub dissolved_oxygen: Option<u32>,
    /// Tag 20, in mV.
    pub battery_mv: Option<u32>,
    /// Tag 21.
    pub sleep_cycles: Option<u32>,
}

/// An optional binary32 reading is absent or a finite value in `[lo, hi]`.
pub open spec fn wire_reading_ok(o: Option<u32>, lo: int, hi: int) -> bool {
    match o {
        None => true,
        Some(b) => f32_within(b, lo, hi),
    }
}

/// An optional integer reading is absent or within `[lo, hi]`.
pub open spec fn wire_count_ok(o: Option<u32>, lo: int, hi: int) -> bool {
    match o {
        None => true,
        Some(n) => lo <= n <= hi,
    }
}

/// `r` is the widening of the optional binary32 reading `o`.
pub open spec fn widened_reading<T: View<V = u64>>(o: Option<u32>, r: Option<T>) -> bool {
    match (o, r) {
        (None, None) => true,
        (Some(b), Some(t)) => widens_to(b, t@),
        _ => false,
    }
}

/// `r` is the exact binary64 conversion of the optional integer reading `o`.
pub open spec fn converted_count<T: View<V = u64>>(o: Option<u32>, r: Option<T>) -> bool {
    match (o, r) {
        (None, None) => true,
        (Some(n), Some(t)) => f64_is_finite(t@) && !f64_sign_bit(t@) && f64_scaled(t@) == n
            * pow2(1074),
        _ => false,
    }
}

/// Every reading of the transfer object lies within its range.
pub open spec fn wire_readings_ok(pb: TelemetryPayloadPb) -> bool {
    &&& wire_reading_ok(pb.temperature, Temperature::MIN as int, Temperature::MAX as int)
    &&& wire_reading_ok(pb.humidity, Humidity::MIN as int, Humidity::MAX as int)
    &&& wire_reading_ok(pb.pressure, Pressure::MIN as int, Pressure::MAX as int)
    &&& wire_reading_ok(pb.gas_resistance, GasResistance::MIN as int, GasResistance::MAX as int)
    &&& wire_reading_ok(pb.iaq, Iaq::MIN as int, Iaq::MAX as int)
    &&& wire_count_ok(pb.co2, Co2::MIN as int, Co2::MAX as int)
    &&& wire_reading_ok(pb.pm1_0, Pm1_0::MIN as int, Pm1_0::MAX as int)
    &&& wire_reading_ok(pb.pm2_5, Pm2_5::MIN as int, Pm2_5::MAX as int)
    &&& wire_reading_ok(pb.pm10_0, Pm10_0::MIN as int, Pm10_0::MAX as int)
    &&& wire_reading_ok(pb.ph, Ph::MIN as int, Ph::MAX as int)
    &&& wire_reading_ok(pb.dissolved_oxygen, DissolvedOxygen::MIN as int, DissolvedOxygen::MAX as int)
}

/// `e` reports the first reading (in field order) that is out of range.
pub open spec fn wire_rejection(pb: TelemetryPayloadPb, e: TelemetryError) -> bool {
    if !wire_reading_ok(pb.temperature, Temperature::MIN as int, Temperature::MAX as int) {
        e matches TelemetryError::Temperature(v) && widens_to(pb.temperature.unwrap(), v)
    } else if !wire_reading_ok(pb.humidity, Humidity::MIN as int, Humidity::MAX as int) {
        e matches TelemetryError::Humidity(v) && widens_to(pb.humidity.unwrap(), v)
    } else if !wire_reading_ok(pb.pressure, Pressure::MIN as int, Pressure::MAX as int) {
        e matches TelemetryError::Pressure(v) && widens_to(pb.pressure.unwrap(), v)
    } else if !wire_reading_ok(
        pb.gas_resistance,
        GasResistance::MIN as int,
        GasResistance::MAX as int,
    ) {
        e matches TelemetryError::GasResistance(v) && widens_to(pb.gas_resistance.unwrap(), v)
    } else if !wire_reading_ok(pb.iaq, Iaq::MIN as int, Iaq::MAX as int) {
        e matches TelemetryError::Iaq(v) && widens_to(pb.iaq.unwrap(), v)
    } else if !wire_count_ok(pb.co2, Co2::MIN as int, Co2::MAX as int) {
        e matches TelemetryError::Co2(v) && f64_scaled(v) == pb.co2.unwrap() * pow2(1074)
    } else if !wire_reading_ok(pb.pm1_0, Pm1_0::MIN as int, Pm1_0::MAX as int) {
        e matches TelemetryError::Pm1_0(v) && widens_to(pb.pm1_0.unwrap(), v)
    } else if !wire_reading_ok(pb.pm2_5, Pm2_5::MIN as int, Pm2_5::MAX as int) {
        e matches TelemetryError::Pm2_5(v) && widens_to(pb.pm2_5.unwrap(), v)
    } else if !wire_reading_ok(pb.pm10_0, Pm10_0::MIN as int, Pm10_0::MAX as int) {
        e matches TelemetryError::Pm10_0(v) && widens_to(pb.pm10_0.unwrap(), v)
    } else if !wire_reading_ok(pb.ph, Ph::MIN as int, Ph::MAX as int) {
        e matches TelemetryError::Ph(v) && widens_to(pb.ph.unwrap(), v)
    } else if !wire_reading_ok(
        pb.dissolved_oxygen,
        DissolvedOxygen::MIN as int,
        DissolvedOxygen::MAX as int,
    ) {
        e matches TelemetryError::DissolvedOxygen(v) && widens_to(pb.dissolved_oxygen.unwrap(), v)
    } else {
        false
    }
}

/// `p` is the record that the transfer object `pb` denotes.
pub open spec fn from_wire(pb: TelemetryPayloadPb, p: TelemetryPayload) -> bool {
    &&& p.protocol_version == pb.protocol_version
    &&& p.schema_version == pb.schema_version
    &&& p.event_id == pb.event_id
    &&& p.gateway_id == pb.gateway_id
    &&& p.device_id == pb.device_id
    &&& p.node_sequence == pb.node_sequence
    &&& p.measured_at == wire_instant(pb.measured_at_ms)
    &&& p.ingested_at == wire_instant(pb.ingested_at_ms)
    &&& widened_reading(pb.temperature, p.temperature)
    &&& widened_reading(pb.humidity, p.humidity)
    &&& widened_reading(pb.pressure, p.pressure)
    &&& widened_reading(pb.gas_resistance, p.gas_resistance)
    &&& widened_reading(pb.iaq, p.iaq)
    &&& converted_count(pb.co2, p.co2)
    &&& widened_reading(pb.pm1_0, p.pm1_0)
    &&& widened_reading(pb.pm2_5, p.pm2_5)
    &&& widened_reading(pb.pm10_0, p.pm10_0)
    &&& widened_reading(pb.ph, p.ph)
    &&& widened_reading(pb.dissolved_oxygen, p.dissolved_oxygen)
    &&& p.battery_mv == pb.battery_mv
    &&& p.sleep_cycles == pb.sleep_cycles
}

/// A record denoted by a transfer object keeps every field of it: the
/// identifiers, versions, sequence and diagnostics unchanged, each binary32
/// reading present exactly when it is on the wire and then its exact
/// binary64 widening (same class, sign and value), and the integer CO2
/// reading converted exactly.
pub proof fn lemma_from_wire_keeps_fields(pb: TelemetryPayloadPb, p: TelemetryPayload)
    requires
        from_wire(pb, p),
    ensures
        p.protocol_version == pb.protocol_version,
        p.schema_version == pb.schema_version,
        p.event_id == pb.event_id,
        p.gateway_id == pb.gateway_id,
        p.device_id == pb.device_id,
        p.node_sequence == pb.node_sequence,
        p.temperature is Some <==> pb.temperature is Some,
        p.humidity is Some <==> pb.humidity is Some,
        p.pressure is Some <==> pb.pressure is Some,
        p.gas_resistance is Some <==> pb.gas_resistance is Some,
        p.iaq is Some <==> pb.iaq is Some,
        p.co2 is Some <==> pb.co2 is Some,
        p.pm1_0 is Some <==> pb.pm1_0 is Some,
        p.pm2_5 is Some <==> pb.pm2_5 is Some,
        p.pm10_0 is Some <==> pb.pm10_0 is Some,
        p.ph is Some <==> pb.ph is Some,
        p.dissolved_oxygen is Some <==> pb.dissolved_oxygen is Some,
        pb.temperature matches Some(b) ==> widens_to(b, p.temperature.unwrap()@),
        pb.humidity matches Some(b) ==> widens_to(b, p.humidity.unwrap()@),
        pb.pressure matches Some(b) ==> widens_to(b, p.pressure.unwrap()@),
        pb.gas_resistance matches Some(b) ==> widens_to(b, p.gas_resistance.unwrap()@),
        pb.iaq matches Some(b) ==> widens_to(b, p.iaq.unwrap()@),
        pb.co2 matches Some(n) ==> f64_scaled(p.co2.unwrap()@) == n * pow2(1074),
        pb.pm1_0 matches Some(b) ==> widens_to(b, p.pm1_0.unwrap()@),
        pb.pm2_5 matches Some(b) ==> widens_to(b, p.pm2_5.unwrap()@),
        pb.pm10_0 matches Some(b) ==> widens_to(b, p.pm10_0.unwrap()@),
        pb.ph matches Some(b) ==> widens_to(b, p.ph.unwrap()@),
        pb.dissolved_oxygen matches Some(b) ==> widens_to(b, p.dissolved_oxygen.unwrap()@),
        p.battery_mv == pb.battery_mv,
        p.sleep_cycles == pb.sleep_cycles,
{
}

/// The instant of a wire timestamp: milliseconds beyond `i64::MAX` count as
/// 0, and instants chrono cannot represent fall back to the epoch.
pub open spec fn wire_instant(ms: u64) -> Timestamp {
    let m: i64 = if ms <= i64::MAX as u64 {
        ms as i64
    } else {
        0
    };
    if chrono_accepts_millis(m) {
        from_millis_exact(m as int)
    } else {
        unix_epoch()
    }
}

/// Converts a wire timestamp as the transfer-object conversion does.
fn instant_from_wire(ms: u64) -> (t: Timestamp)
    ensures
        t == wire_instant(ms),
{
    let m: i64 = if ms <= i64::MAX as u64 {
        ms as i64
    } else {
        0
    };
    match Timestamp::from_millis(m) {
        Some(t) => t,
        None => Timestamp::unix_epoch(),
    }
}

impl TryFrom<TelemetryPayloadPb> for TelemetryPayload {
    type Error = TelemetryError;

    /// Converts the protobuf transfer object into a validated record,
    /// widening each binary32 reading (and the integer CO2 reading) exactly
    /// to binary64. The first reading out of range, in field order, is
    /// reported.
    fn try_from(pb: TelemetryPayloadPb) -> (res: Result<TelemetryPayload, TelemetryError>)
        ensures
            res is Ok <==> wire_readings_ok(pb),
            res matches Err(e) ==> wire_rejection(pb, e),
            res matches Ok(p) ==> from_wire(pb, p),
            res matches Ok(p) ==> {
                &&& p.protocol_version == pb.protocol_version
                &&& p.schema_version == pb.schema_version
                &&& p.event_id == pb.event_id
                &&& p.gateway_id == pb.gateway_id
                &&& p.device_id == pb.device_id
                &&& p.node_sequence == pb.node_sequence
                &&& p.measured_at == wire_instant(pb.measured_at_ms)
                &&& p.ingested_at == wire_instant(pb.ingested_at_ms)
                &&& (p.temperature is Some <==> pb.temperature is Some)
                &&& (p.humidity is Some <==> pb.humidity is Some)
                &&& (p.pressure is Some <==> pb.pressure is Some)
                &&& (p.gas_resistance is Some <==> pb.gas_resistance is Some)
                &&& (p.iaq is Some <==> pb.iaq is Some)
                &&& (p.co2 is Some <==> pb.co2 is Some)
                &&& (p.pm1_0 is Some <==> pb.pm1_0 is Some)
                &&& (p.pm2_5 is Some <==> pb.pm2_5 is Some)
                &&& (p.pm10_0 is Some <==> pb.pm10_0 is Some)
                &&& (p.ph is Some <==> pb.ph is Some)
                &&& (p.dissolved_oxygen is Some <==> pb.dissolved_oxygen is Some)
                &&& (pb.temperature matches Some(b) ==> widens_to(b, p.temperature.unwrap()@))
                &&& (pb.humidity matches Some(b) ==> widens_to(b, p.humidity.unwrap()@))
                &&& (pb.pressure matches Some(b) ==> widens_to(b, p.pressure.unwrap()@))
                &&& (pb.gas_resistance matches Some(b) ==> widens_to(b, p.gas_resistance.unwrap()@))
                &&& (pb.iaq matches Some(b) ==> widens_to(b, p.iaq.unwrap()@))
                &&& (pb.pm1_0 matches Some(b) ==> widens_to(b, p.pm1_0.unwrap()@))
                &&& (pb.pm2_5 matches Some(b) ==> widens_to(b, p.pm2_5.unwrap()@))
                &&& (pb.pm10_0 matches Some(b) ==> widens_to(b, p.pm10_0.unwrap()@))
                &&& (pb.ph matches Some(b) ==> widens_to(b, p.ph.unwrap()@))
                &&& (pb.dissolved_oxygen matches Some(b) ==> widens_to(b, p.dissolved_oxygen.unwrap()@))
                &&& (pb.co2 matches Some(n) ==> f64_scaled(p.co2.unwrap()@) == n * pow2(1074))
                &&& p.battery_mv == pb.battery_mv
                &&& p.sleep_cycles == pb.sleep_cycles
            },
    {
        let measured_at = instant_from_wire(pb.measured_at_ms);
        let ingested_at = instant_from_wire(pb.ingested_at_ms);
        let temperature = match pb.temperature {
            None => None,
            Some(b) => {
                let w = f64_from_f32_bits(b);
                proof {
                    lemma_widened_within(b, w, Temperature::MIN as int, Temperature::MAX as int);
                }
                Some(Temperature::new(w)?)
            },
        };
        let humidity = match pb.humidity {
            None => None,
            Some(b) => {
                let w = f64_from_f32_bits(b);
                proof {
                    lemma_widened_within(b, w, Humidity::MIN as int, Humidity::MAX as int);
                }
                Some(Humidity::new(w)?)
            },
        };
        let pressure = match pb.pressure {
            None => None,
            Some(b) => {
                let w = f64_from_f32_bits(b);
                proof {
                    lemma_widened_within(b, w, Pressure::MIN as int, Pressure::MAX as int);
                }
                Some(Pressure::new(w)?)
            },
        };
        let gas_resistance = match pb.gas_resistance {
            None => None,
            Some(b) => {
                let w = f64_from_f32_bits(b);
                proof {
                    lemma_widened_within(b, w, GasResistance::MIN as int, GasResistance::MAX as int);
                }
                Some(GasResistance::new(w)?)
            },
        };
        let iaq = match pb.iaq {
            None => None,
            Some(b) => {
                let w = f64_from_f32_bits(b);
                proof {
                    lemma_widened_within(b, w, Iaq::MIN as int, Iaq::MAX as int);
                }
                Some(Iaq::new(w)?)
            },
        };
        let co2 = match pb.co2 {
            None => None,
            Some(n) => {
                let w = f64_from_u32(n);
                proof {
                    vstd::arithmetic::power2::lemma_pow2_pos(1074);
                    assert(f64_within(w, Co2::MIN as int, Co2::MAX as int) <==> Co2::MIN <= n
                        <= Co2::MAX) by (nonlinear_arith)
                        requires
                            f64_is_finite(w),
                            f64_scaled(w) == n * pow2(1074),
                            pow2(1074) > 0,
                    ;
                }
                Some(Co2::new(w)?)
            },
        };
        let pm1_0 = match pb.pm1_0 {
            None => None,
            Some(b) => {
                let w = f64_from_f32_bits(b);
                proof {
                    lemma_widened_within(b, w, Pm1_0::MIN as int, Pm1_0::MAX as int);
                }
                Some(Pm1_0::new(w)?)
            },
        };
        let pm2_5 = match pb.pm2_5 {
            None => None,
            Some(b) => {
                let w = f64_from_f32_bits(b);
                proof {
                    lemma_widened_within(b, w, Pm2_5::MIN as int, Pm2_5::MAX as int);
                }
                Some(Pm2_5::new(w)?)
            },
        };
        let pm10_0 = match pb.pm10_0 {
            None => None,
            Some(b) => {
                let w = f64_from_f32_bits(b);
                proof {
                    lemma_widened_within(b, w, Pm10_0::MIN as int, Pm10_0::MAX as int);
                }
                Some(Pm10_0::new(w)?)
            },
        };
        let ph = match pb.ph {
            None => None,
            Some(b) => {
                let w = f64_from_f32_bits(b);
                proof {
                    lemma_widened_within(b, w, Ph::MIN as int, Ph::MAX as int);
                }
                Some(Ph::new(w)?)
            },
        };
        let dissolved_oxygen = match pb.dissolved_oxygen {
            None => None,
            Some(b) => {
                let w = f64_from_f32_bits(b);
                proof {
                    lemma_widened_within(
                        b,
                        w,
                        DissolvedOxygen::MIN as int,
                        DissolvedOxygen::MAX as int,
                    );
                }
                Some(DissolvedOxygen::new(w)?)
            },
        };
        Ok(TelemetryPayload {
            protocol_version: pb.protocol_version,
            schema_version: pb.schema_version,
            event_id: pb.event_id,
            gateway_id: pb.gateway_id,
            device_id: pb.device_id,
            node_sequence: pb.node_sequence,
            measured_at,
            ingested_at,
            temperature,
            humidity,
            pressure,
            gas_resistance,
            iaq,
            co2,
            pm1_0,
            pm2_5,
            pm10_0,
            ph,
            dissolved_oxygen,
            battery_mv: pb.battery_mv,
            sleep_cycles: pb.sleep_cycles,
        })
    }
}

impl vstd::std_specs::convert::TryFromSpecImpl<TelemetryPayloadPb> for TelemetryPayload {
    /// The result is stated through the widening relation `widens_to`
    /// rather than as a function here: the `ensures` of `try_from` state it.
    open spec fn obeys_try_from_spec() -> bool {
        false
    }

    open spec fn try_from_spec(v: TelemetryPayloadPb) -> Result<TelemetryPayload, TelemetryError> {
        if wire_readings_ok(v) {
            Ok(choose|p: TelemetryPayload| from_wire(v, p))
        } else {
            Err(choose|e: TelemetryError| wire_rejection(v, e))
        }
    }
}

// ─── Gateway health ─────────────────────────────────────────────────────────
/// Health event of an edge telemetry gateway (ESP32-P4), published apart from
/// node telemetry.
#[derive(Debug, PartialEq, Eq)]
pub struct GatewayHealthEvent {
    /// Gateway id (the MAC of the ESP32-P4).
    pub gateway_id: String,
    /// When the event was taken in (UTC).
    pub timestamp: Timestamp,
    /// The microSD card failed or was removed.
    pub is_degraded_mode: bool,
    /// The microSD card is mounted.
    pub sd_card_mounted: bool,
    /// Capacity of the microSD card in MB.
    pub sd_card_total_mb: Option<u32>,
    /// Free space on the microSD card in MB.
    pub sd_card_free_mb: Option<u32>,
    /// Accumulated I/O errors.
    pub sd_io_errors: u32,
    /// Uptime in seconds.
    pub uptime_seconds: u32,
    /// Free heap in bytes.
    pub free_heap_bytes: u32,
    /// Critical alert for operators.
    pub alert_message: Option<String>,
}

/// Protobuf transfer object of a gateway health event, field for field as on
/// the wire (absent values travel as 0 or "").
#[derive(Debug, PartialEq, Eq)]
pub struct GatewayHealthEventPb {
    /// Tag 1.
    pub gateway_id: String,
    /// Tag 2.
    pub is_degraded_mode: bool,
    /// Tag 3.
    pub sd_card_mounted: bool,
    /// Tag 4.
    pub sd_card_total_mb: u32,
    /// Tag 5.
    pub sd_card_free_mb: u32,
    /// Tag 6.
    pub sd_io_errors: u32,
    /// Tag 7.
    pub uptime_seconds: u32,
    /// Tag 8.
    pub free_heap_bytes: u32,
    /// Tag 9.
    pub alert_message: String,
}

/// A wire count of 0 means "not reported".
pub open spec fn reported(v: u32) -> Option<u32> {
    if v > 0 {
        Some(v)
    } else {
        None
    }
}

/// The health event that the transfer object `pb` denotes, taken in at `now`.
pub open spec fn health_event_from_wire(pb: GatewayHealthEventPb, now: Timestamp) -> GatewayHealthEvent {
    GatewayHealthEvent {
        gateway_id: pb.gateway_id,
        timestamp: now,
        is_degraded_mode: pb.is_degraded_mode,
        sd_card_mounted: pb.sd_card_mounted,
        sd_card_total_mb: reported(pb.sd_card_total_mb),
        sd_card_free_mb: reported(pb.sd_card_free_mb),
        sd_io_errors: pb.sd_io_errors,
        uptime_seconds: pb.uptime_seconds,
        free_heap_bytes: pb.free_heap_bytes,
        alert_message: if pb.alert_message@.len() == 0 {
            None
        } else {
            Some(pb.alert_message)
        },
    }
}

/// The event denoted by a transfer object keeps every field of it; counts
/// of 0 and an empty alert read as "not reported"; the stamp is the instant
/// given.
pub proof fn lemma_health_event_fields(pb: GatewayHealthEventPb, now: Timestamp)
    ensures
        health_event_from_wire(pb, now).gateway_id == pb.gateway_id,
        health_event_from_wire(pb, now).timestamp == now,
        health_event_from_wire(pb, now).is_degraded_mode == pb.is_degraded_mode,
        health_event_from_wire(pb, now).sd_card_mounted == pb.sd_card_mounted,
        pb.sd_card_total_mb == 0 ==> health_event_from_wire(pb, now).sd_card_total_mb is None,
        pb.sd_card_total_mb > 0 ==> health_event_from_wire(pb, now).sd_card_total_mb == Some(pb.sd_card_total_mb),
        pb.sd_card_free_mb == 0 ==> health_event_from_wire(pb, now).sd_card_free_mb is None,
        pb.sd_card_free_mb > 0 ==> health_event_from_wire(pb, now).sd_card_free_mb == Some(pb.sd_card_free_mb),
        health_event_from_wire(pb, now).sd_io_errors == pb.sd_io_errors,
        health_event_from_wire(pb, now).uptime_seconds == pb.uptime_seconds,
        health_event_from_wire(pb, now).free_heap_bytes == pb.free_heap_bytes,
        pb.alert_message@.len() == 0 ==> health_event_from_wire(pb, now).alert_message is None,
        pb.alert_message@.len() > 0 ==> health_event_from_wire(pb, now).alert_message == Some(pb.alert_message),
{
}

/// The broken rules of a record's identifiers name exactly the rules broken:
/// a length violation for each identifier outside 1 to 64 chars and a
/// pattern violation for a device id outside the allowed alphabet, each at
/// most once; none when every rule holds.
pub proof fn lemma_id_violations_name_broken_rules(e: Seq<char>, g: Seq<char>, d: Seq<char>)
    ensures
        id_violations(e, g, d).contains(Violation { field: CheckedField::EventId, rule: Rule::Length })
            <==> !id_length_ok(e),
        id_violations(e, g, d).contains(Violation { field: CheckedField::GatewayId, rule: Rule::Length })
            <==> !id_length_ok(g),
        id_violations(e, g, d).contains(Violation { field: CheckedField::DeviceId, rule: Rule::Length })
            <==> !id_length_ok(d),
        id_violations(e, g, d).contains(Violation { field: CheckedField::DeviceId, rule: Rule::Pattern })
            <==> !crate::validation::device_id_pattern(d),
        id_violations(e, g, d).len() == (if id_length_ok(e) { 0int } else { 1int }) + (if id_length_ok(g) {
            0int
        } else {
            1int
        }) + (if id_length_ok(d) { 0int } else { 1int }) + (if crate::validation::device_id_pattern(d) {
            0int
        } else {
            1int
        }),
        id_violations(e, g, d).len() == 0 <==> id_length_ok(e) && id_length_ok(g) && id_length_ok(d)
            && crate::validation::device_id_pattern(d),
{
    let v = id_violations(e, g, d);
    let ve = Violation { field: CheckedField::EventId, rule: Rule::Length };
    let vg = Violation { field: CheckedField::GatewayId, rule: Rule::Length };
    let vd = Violation { field: CheckedField::DeviceId, rule: Rule::Length };
    let vp = Violation { field: CheckedField::DeviceId, rule: Rule::Pattern };
    let a: Seq<Violation> = if id_length_ok(e) { seq![] } else { seq![ve] };
    let b: Seq<Violation> = if id_length_ok(g) { seq![] } else { seq![vg] };
    let c: Seq<Violation> = if id_length_ok(d) { seq![] } else { seq![vd] };
    let f: Seq<Violation> = if crate::validation::device_id_pattern(d) { seq![] } else { seq![vp] };
    assert(v == a + b + c + f);
    assert forall|x: Violation| v.contains(x) <==> (a.contains(x) || b.contains(x) || c.contains(x) || f.contains(x)) by {
        if v.contains(x) {
            let i = choose|i: int| 0 <= i < v.len() && v[i] == x;
            if i < a.len() {
                assert(a[i] == x);
            } else if i < a.len() + b.len() {
                assert(b[i - a.len()] == x);
            } else if i < a.len() + b.len() + c.len() {
                assert(c[i - a.len() - b.len()] == x);
            } else {
                assert(f[i - a.len() - b.len() - c.len()] == x);
            }
        }
        if a.contains(x) {
            assert(v[0] == x);
        }
        if b.contains(x) {
            assert(v[a.len() as int] == x);
        }
        if c.contains(x) {
            assert(v[(a.len() + b.len()) as int] == x);
        }
        if f.contains(x) {
            assert(v[(a.len() + b.len() + c.len()) as int] == x);
        }
    }
    if !id_length_ok(e) { assert(a[0] == ve); }
    if !id_length_ok(g) { assert(b[0] == vg); }
    if !id_length_ok(d) { assert(c[0] == vd); }
    if !crate::validation::device_id_pattern(d) { assert(f[0] == vp); }
}

/// The rules a health event breaks.
pub open spec fn health_violations(e: GatewayHealthEvent) -> Seq<Violation> {
    if id_length_ok(e.gateway_id@) {
        seq![]
    } else {
        seq![Violation { field: CheckedField::GatewayId, rule: Rule::Length }]
    }
}

impl GatewayHealthEvent {
    /// Builds the event from its transfer object, stamped with `now`.
    pub fn from_pb_at(pb: GatewayHealthEventPb, now: Timestamp) -> (e: GatewayHealthEvent)
        ensures
            e == health_event_from_wire(pb, now),
            e.gateway_id == pb.gateway_id,
            e.timestamp == now,
            e.is_degraded_mode == pb.is_degraded_mode,
            e.sd_card_mounted == pb.sd_card_mounted,
            pb.sd_card_total_mb == 0 ==> e.sd_card_total_mb is None,
            pb.sd_card_total_mb > 0 ==> e.sd_card_total_mb == Some(pb.sd_card_total_mb),
            pb.sd_card_free_mb == 0 ==> e.sd_card_free_mb is None,
            pb.sd_card_free_mb > 0 ==> e.sd_card_free_mb == Some(pb.sd_card_free_mb),
            e.sd_io_errors == pb.sd_io_errors,
            e.uptime_seconds == pb.uptime_seconds,
            e.free_heap_bytes == pb.free_heap_bytes,
            pb.alert_message@.len() == 0 ==> e.alert_message is None,
            pb.alert_message@.len() > 0 ==> e.alert_message == Some(pb.alert_message),
    {
        let alert_message = if pb.alert_message.as_str().is_empty() {
            None
        } else {
            Some(pb.alert_message)
        };
        GatewayHealthEvent {
            gateway_id: pb.gateway_id,
            timestamp: now,
            is_degraded_mode: pb.is_degraded_mode,
            sd_card_mounted: pb.sd_card_mounted,
            sd_card_total_mb: if pb.sd_card_total_mb > 0 {
                Some(pb.sd_card_total_mb)
            } else {
                None
            },
            sd_card_free_mb: if pb.sd_card_free_mb > 0 {
                Some(pb.sd_card_free_mb)
            } else {
                None
            },
            sd_io_errors: pb.sd_io_errors,
            uptime_seconds: pb.uptime_seconds,
            free_heap_bytes: pb.free_heap_bytes,
            alert_message,
        }
    }

    /// Checks the field rules: `gateway_id` holds 1 to 64 chars.
    pub fn validate(&self) -> (res: Result<(), Vec<Violation>>)
        ensures
            res is Ok <==> health_violations(*self).len() == 0,
            res matches Err(v) ==> v@ == health_violations(*self),
    {
        let mut v: Vec<Violation> = Vec::new();
        if !validate_length(&self.gateway_id) {
            v.push(Violation { field: CheckedField::GatewayId, rule: Rule::Length });
        }
        assert(v@ =~= health_violations(*self));
        if v.len() == 0 {
            Ok(())
        } else {
            Err(v)
        }
    }
}

impl From<GatewayHealthEventPb> for GatewayHealthEvent {
    /// Builds the event from its transfer object, stamped with the current
    /// instant of the system clock.
    fn from(pb: GatewayHealthEventPb) -> (e: GatewayHealthEvent)
        ensures
            exists|now: Timestamp| e == health_event_from_wire(pb, now),
    {
        let now = Timestamp::now();
        GatewayHealthEvent::from_pb_at(pb, now)
    }
}

impl vstd::std_specs::convert::FromSpecImpl<GatewayHealthEventPb> for GatewayHealthEvent {
    /// The stamp comes from the clock, so no single value is promised;
    /// `from_spec` names the result stamped with the epoch, one of the
    /// possible results, and the `ensures` of `from` state what holds of
    /// every result.
    open spec fn obeys_from_spec() -> bool {
        false
    }

    open spec fn from_spec(v: GatewayHealthEventPb) -> GatewayHealthEvent {
        health_event_from_wire(v, unix_epoch())
    }
}

} // verus!
