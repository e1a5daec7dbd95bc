//! Telemetry model of the first ingestion service: validated readings, the
//! telemetry record and its protobuf transfer object (binary64 on the wire).
use crate::ieee754::{f64_in_closed_range, f64_within};
use crate::time::{chrono_accepts_millis, from_millis_exact, unix_epoch, Timestamp};
use crate::validation::validate_not_empty;
use vstd::prelude::*;

verus! {

/// A reading refused because it lies outside its physical range (or is NaN);
/// each variant carries the refused binary64 bit pattern.
#[derive(Debug, Clone, Copy, PartialEq, Eq, Structural)]
pub enum TelemetryError {
    /// pH outside [0, 14] pH units.
    Ph(u64),
    /// dissolved oxygen outside [0, 40] mg/L.
    DissolvedOxygen(u64),
    /// temperature outside [-50, 150] °C.
    Temperature(u64),
    /// humidity outside [0, 100] %RH.
    Humidity(u64),
    /// pressure outside [300, 1100] hPa.
    Pressure(u64),
    /// gas resistance outside [0, 50000000] ohms.
    GasResistance(u64),
    /// CO2 outside [400, 40000] ppm.
    Co2(u64),
}

/// pH of water or soil.
#[derive(Debug, Clone, Copy, PartialEq, Eq, Structural)]
pub struct Ph(u64);

impl View for Ph {
    type V = u64;

    /// Binary64 bit pattern of the reading.
    closed spec fn view(&self) -> u64 {
        self.0
    }
}

impl Ph {
    /// Lowest accepted value (pH units).
    pub const MIN: i64 = 0;

    /// Highest accepted value (pH units).
    pub const MAX: i64 = 14;

    /// A reading is its bit pattern: two readings with the same pattern are
    /// the same reading, so `new(r.value())` gives back `Ok(r)`.
    pub proof fn lemma_view_injective(a: Self, b: Self)
        ensures
            a@ == b@ <==> a == b,
    {
    }

    /// A reading always holds a finite value within `[MIN, MAX]`.
    #[verifier::type_invariant]
    spec fn in_range(self) -> bool {
        f64_within(self.0, Self::MIN as int, Self::MAX as int)
    }

    /// Validates the binary64 bit pattern `value`: NaN, infinities and
    /// values outside `[MIN, MAX]` are refused.
    pub fn new(value: u64) -> (res: Result<Self, TelemetryError>)
        ensures
            res is Ok <==> f64_within(value, 0, 14),
            res matches Ok(r) ==> r@ == value,
            res matches Err(e) ==> e == TelemetryError::Ph(value),
    {
        if f64_in_closed_range(value, Self::MIN, Self::MAX) {
            Ok(Ph(value))
        } else {
            Err(TelemetryError::Ph(value))
        }
    }

    /// Binary64 bit pattern of the validated reading.
    pub fn value(self) -> (v: u64)
        ensures
            v == self@,
            f64_within(v, 0, 14),
    {
        proof {
            use_type_invariant(&self);
        }
        self.0
    }
}

/// Dissolved oxygen, in mg/L.
#[derive(Debug, Clone, Copy, PartialEq, Eq, Structural)]
pub struct DissolvedOxygen(u64);

impl View for DissolvedOxygen {
    type V = u64;

    /// Binary64 bit pattern of the reading.
    closed spec fn view(&self) -> u64 {
        self.0
    }
}

impl DissolvedOxygen {
    /// Lowest accepted value (mg/L).
    pub const MIN: i64 = 0;

    /// Highest accepted value (mg/L).
    pub const MAX: i64 = 40;

    /// A reading is its bit pattern: two readings with the same pattern are
    /// the same reading, so `new(r.value())` gives back `Ok(r)`.
    pub proof fn lemma_view_injective(a: Self, b: Self)
        ensures
            a@ == b@ <==> a == b,
    {
    }

    /// A reading always holds a finite value within `[MIN, MAX]`.
    #[verifier::type_invariant]
    spec fn in_range(self) -> bool {
        f64_within(self.0, Self::MIN as int, Self::MAX as int)
    }

    /// Validates the binary64 bit pattern `value`: NaN, infinities and
    /// values outside `[MIN, MAX]` are refused.
    pub fn new(value: u64) -> (res: Result<Self, TelemetryError>)
        ensures
            res is Ok <==> f64_within(value, 0, 40),
            res matches Ok(r) ==> r@ == value,
            res matches Err(e) ==> e == TelemetryError::DissolvedOxygen(value),
    {
        if f64_in_closed_range(value, Self::MIN, Self::MAX) {
            Ok(DissolvedOxygen(value))
        } else {
            Err(TelemetryError::DissolvedOxygen(value))
        }
    }

    /// Binary64 bit pattern of the validated reading.
    pub fn value(self) -> (v: u64)
        ensures
            v == self@,
            f64_within(v, 0, 40),
    {
        proof {
            use_type_invariant(&self);
        }
        self.0
    }
}

/// Temperature, in degrees Celsius.
#[derive(Debug, Clone, Copy, PartialEq, Eq, Structural)]
pub struct Temperature(u64);

impl View for Temperature {
    type V = u64;

    /// Binary64 bit pattern of the reading.
    closed spec fn view(&self) -> u64 {
        self.0
    }
}

impl Temperature {
    /// Lowest accepted value (°C).
    pub const MIN: i64 = -50;

    /// Highest accepted value (°C).
    pub const MAX: i64 = 150;

    /// A reading is its bit pattern: two readings with the same pattern are
    /// the same reading, so `new(r.value())` gives back `Ok(r)`.
    pub proof fn lemma_view_injective(a: Self, b: Self)
        ensures
            a@ == b@ <==> a == b,
    {
    }

    /// A reading always holds a finite value within `[MIN, MAX]`.
    #[verifier::type_invariant]
    spec fn in_range(self) -> bool {
        f64_within(self.0, Self::MIN as int, Self::MAX as int)
    }

    /// Validates the binary64 bit pattern `value`: NaN, infinities and
    /// values outside `[MIN, MAX]` are refused.
    pub fn new(value: u64) -> (res: Result<Self, TelemetryError>)
        ensures
            res is Ok <==> f64_within(value, -50, 150),
            res matches Ok(r) ==> r@ == value,
            res matches Err(e) ==> e == TelemetryError::Temperature(value),
    {
        if f64_in_closed_range(value, Self::MIN, Self::MAX) {
            Ok(Temperature(value))
        } else {
            Err(TelemetryError::Temperature(value))
        }
    }

    /// Binary64 bit pattern of the validated reading.
    pub fn value(self) -> (v: u64)
        ensures
            v == self@,
            f64_within(v, -50, 150),
    {
        proof {
            use_type_invariant(&self);
        }
        self.0
    }
}

/// Relative humidity, in percent.
#[derive(Debug, Clone, Copy, PartialEq, Eq, Structural)]
pub struct Humidity(u64);

impl View for Humidity {
    type V = u64;

    /// Binary64 bit pattern of the reading.
    closed spec fn view(&self) -> u64 {
        self.0
    }
}

impl Humidity {
    /// Lowest accepted value (%RH).
    pub const MIN: i64 = 0;

    /// Highest accepted value (%RH).
    pub const MAX: i64 = 100;

    /// A reading is its bit pattern: two readings with the same pattern are
    /// the same reading, so `new(r.value())` gives back `Ok(r)`.
    pub proof fn lemma_view_injective(a: Self, b: Self)
        ensures
            a@ == b@ <==> a == b,
    {
    }

    /// A reading always holds a finite value within `[MIN, MAX]`.
    #[verifier::type_invariant]
    spec fn in_range(self) -> bool {
        f64_within(self.0, Self::MIN as int, Self::MAX as int)
    }

    /// Validates the binary64 bit pattern `value`: NaN, infinities and
    /// values outside `[MIN, MAX]` are refused.
    pub fn new(value: u64) -> (res: Result<Self, TelemetryError>)
        ensures
            res is Ok <==> f64_within(value, 0, 100),
            res matches Ok(r) ==> r@ == value,
            res matches Err(e) ==> e == TelemetryError::Humidity(value),
    {
        if f64_in_closed_range(value, Self::MIN, Self::MAX) {
            Ok(Humidity(value))
        } else {
            Err(TelemetryError::Humidity(value))
        }
    }

    /// Binary64 bit pattern of the validated reading.
    pub fn value(self) -> (v: u64)
        ensures
            v == self@,
            f64_within(v, 0, 100),
    {
        proof {
            use_type_invariant(&self);
        }
        self.0
    }
}

/// Atmospheric pressure, in hPa.
#[derive(Debug, Clone, Copy, PartialEq, Eq, Structural)]
pub struct Pressure(u64);

impl View for Pressure {
    type V = u64;

    /// Binary64 bit pattern of the reading.
    closed spec fn view(&self) -> u64 {
        self.0
    }
}

impl Pressure {
    /// Lowest accepted value (hPa).
    pub const MIN: i64 = 300;

    /// Highest accepted value (hPa).
    pub const MAX: i64 = 1100;

    /// A reading is its bit pattern: two readings with the same pattern are
    /// the same reading, so `new(r.value())` gives back `Ok(r)`.
    pub proof fn lemma_view_injective(a: Self, b: Self)
        ensures
            a@ == b@ <==> a == b,
    {
    }

    /// A reading always holds a finite value within `[MIN, MAX]`.
    #[verifier::type_invariant]
    spec fn in_range(self) -> bool {
        f64_within(self.0, Self::MIN as int, Self::MAX as int)
    }

    /// Validates the binary64 bit pattern `value`: NaN, infinities and
    /// values outside `[MIN, MAX]` are refused.
    pub fn new(value: u64) -> (res: Result<Self, TelemetryError>)
        ensures
            res is Ok <==> f64_within(value, 300, 1100),
            res matches Ok(r) ==> r@ == value,
            res matches Err(e) ==> e == TelemetryError::Pressure(value),
    {
        if f64_in_closed_range(value, Self::MIN, Self::MAX) {
            Ok(Pressure(value))
        } else {
            Err(TelemetryError::Pressure(value))
        }
    }

    /// Binary64 bit pattern of the validated reading.
    pub fn value(self) -> (v: u64)
        ensures
            v == self@,
            f64_within(v, 300, 1100),
    {
        proof {
            use_type_invariant(&self);
        }
        self.0
    }
}

/// Gas (VOC) resistance, in ohms.
#[derive(Debug, Clone, Copy, PartialEq, Eq, Structural)]
pub struct GasResistance(u64);

impl View for GasResistance {
    type V = u64;

    /// Binary64 bit pattern of the reading.
    closed spec fn view(&self) -> u64 {
        self.0
    }
}

impl GasResistance {
    /// Lowest accepted value (ohms).
    pub const MIN: i64 = 0;

    /// Highest accepted value (ohms).
    pub const MAX: i64 = 50000000;

    /// A reading is its bit pattern: two readings with the same pattern are
    /// the same reading, so `new(r.value())` gives back `Ok(r)`.
    pub proof fn lemma_view_injective(a: Self, b: Self)
        ensures
            a@ == b@ <==> a == b,
    {
    }

    /// A reading always holds a finite value within `[MIN, MAX]`.
    #[verifier::type_invariant]
    spec fn in_range(self) -> bool {
        f64_within(self.0, Self::MIN as int, Self::MAX as int)
    }

    /// Validates the binary64 bit pattern `value`: NaN, infinities and
    /// values outside `[MIN, MAX]` are refused.
    pub fn new(value: u64) -> (res: Result<Self, TelemetryError>)
        ensures
            res is Ok <==> f64_within(value, 0, 50000000),
            res matches Ok(r) ==> r@ == value,
            res matches Err(e) ==> e == TelemetryError::GasResistance(value),
    {
        if f64_in_closed_range(value, Self::MIN, Self::MAX) {
            Ok(GasResistance(value))
        } else {
            Err(TelemetryError::GasResistance(value))
        }
    }

    /// Binary64 bit pattern of the validated reading.
    pub fn value(self) -> (v: u64)
        ensures
            v == self@,
            f64_within(v, 0, 50000000),
    {
        proof {
            use_type_invariant(&self);
        }
        self.0
    }
}

/// CO2 concentration, in ppm.
#[derive(Debug, Clone, Copy, PartialEq, Eq, Structural)]
pub struct Co2(u64);

impl View for Co2 {
    type V = u64;

    /// Binary64 bit pattern of the reading.
    closed spec fn view(&self) -> u64 {
        self.0
    }
}

impl Co2 {
    /// Lowest accepted value (ppm).
    pub const MIN: i64 = 400;

    /// Highest accepted value (ppm).
    pub const MAX: i64 = 40000;

    /// A reading is its bit pattern: two readings with the same pattern are
    /// the same reading, so `new(r.value())` gives back `Ok(r)`.
    pub proof fn lemma_view_injective(a: Self, b: Self)
        ensures
            a@ == b@ <==> a == b,
    {
    }

    /// A reading always holds a finite value within `[MIN, MAX]`.
    #[verifier::type_invariant]
    spec fn in_range(self) -> bool {
        f64_within(self.0, Self::MIN as int, Self::MAX as int)
    }

    /// Validates the binary64 bit pattern `value`: NaN, infinities and
    /// values outside `[MIN, MAX]` are refused.
    pub fn new(value: u64) -> (res: Result<Self, TelemetryError>)
        ensures
            res is Ok <==> f64_within(value, 400, 40000),
            res matches Ok(r) ==> r@ == value,
            res matches Err(e) ==> e == TelemetryError::Co2(value),
    {
        if f64_in_closed_range(value, Self::MIN, Self::MAX) {
            Ok(Co2(value))
        } else {
            Err(TelemetryError::Co2(value))
        }
    }

    /// Binary64 bit pattern of the validated reading.
    pub fn value(self) -> (v: u64)
        ensures
            v == self@,
            f64_within(v, 400, 40000),
    {
        proof {
            use_type_invariant(&self);
        }
        self.0
    }
}

/// A telemetry record of an edge device.
#[derive(Debug)]
pub struct TelemetryPayload {
    /// Device id (for instance `esp32-node-1`).
    pub device_id: String,
    /// When the reading was taken (UTC).
    pub timestamp: Timestamp,
    /// Temperature.
    pub temperature: Temperature,
    /// Relative humidity.
    pub humidity: Option<Humidity>,
    /// pH.
    pub ph: Option<Ph>,
    /// Dissolved oxygen.
    pub dissolved_oxygen: Option<DissolvedOxygen>,
    /// Atmospheric pressure.
    pub pressure: Option<Pressure>,
    /// Gas resistance.
    pub gas_resistance: Option<GasResistance>,
    /// CO2 concentration.
    pub co2: Option<Co2>,
}

impl Clone for TelemetryPayload {
    fn clone(&self) -> (res: Self)
        ensures
            res == *self,
    {
        TelemetryPayload {
            device_id: self.device_id.clone(),
            timestamp: self.timestamp,
            temperature: self.temperature,
            humidity: self.humidity,
            ph: self.ph,
            dissolved_oxygen: self.dissolved_oxygen,
            pressure: self.pressure,
            gas_resistance: self.gas_resistance,
            co2: self.co2,
        }
    }
}

impl TelemetryPayload {
    /// Checks the field rule: `device_id` is not empty.
    pub fn validate(&self) -> (ok: bool)
        ensures
            ok == (self.device_id@.len() >= 1),
    {
        validate_not_empty(&self.device_id)
    }
}

/// Protobuf transfer object of a telemetry record; readings travel as
/// `double` and are held as binary64 bit patterns.
#[derive(Debug)]
pub struct TelemetryPayloadPb {
    /// Tag 1.
    pub device_id: String,
    /// Tag 2: milliseconds since the epoch.
    pub timestamp_epoch_ms: i64,
    /// Tag 3.
    pub temperature: u64,
    /// Tag 4.
    pub humidity: Option<u64>,
    /// Tag 5.
    pub ph: Option<u64>,
    /// Tag 6.
    pub dissolved_oxygen: Option<u64>,
    /// Tag 7.
    pub pressure: Option<u64>,
    /// Tag 8.
    pub gas_resistance: Option<u64>,
    /// Tag 9.
    pub co2: Option<u64>,
}

/// An optional reading is absent or a finite value in `[lo, hi]`.
pub open spec fn reading_ok(o: Option<u64>, lo: int, hi: int) -> bool {
    match o {
        None => true,
        Some(b) => f64_within(b, lo, hi),
    }
}

/// `r` holds exactly the optional reading `o`.
pub open spec fn same_reading<T: View<V = u64>>(o: Option<u64>, r: Option<T>) -> bool {
    match (o, r) {
        (None, None) => true,
        (Some(b), Some(t)) => t@ == b,
        _ => false,
    }
}

/// Every reading of the transfer object lies within its range.
pub open spec fn readings_ok(pb: TelemetryPayloadPb) -> bool {
    &&& f64_within(pb.temperature, Temperature::MIN as int, Temperature::MAX as int)
    &&& reading_ok(pb.humidity, Humidity::MIN as int, Humidity::MAX as int)
    &&& reading_ok(pb.ph, Ph::MIN as int, Ph::MAX as int)
    &&& reading_ok(pb.dissolved_oxygen, DissolvedOxygen::MIN as int, DissolvedOxygen::MAX as int)
    &&& reading_ok(pb.pressure, Pressure::MIN as int, Pressure::MAX as int)
    &&& reading_ok(pb.gas_resistance, GasResistance::MIN as int, GasResistance::MAX as int)
    &&& reading_ok(pb.co2, Co2::MIN as int, Co2::MAX as int)
}

/// The error for the first reading (in field order) that is out of range.
pub open spec fn rejection(pb: TelemetryPayloadPb) -> TelemetryError {
    if !f64_within(pb.temperature, Temperature::MIN as int, Temperature::MAX as int) {
        TelemetryError::Temperature(pb.temperature)
    } else if !reading_ok(pb.humidity, Humidity::MIN as int, Humidity::MAX as int) {
        TelemetryError::Humidity(pb.humidity.unwrap())
    } else if !reading_ok(pb.ph, Ph::MIN as int, Ph::MAX as int) {
        TelemetryError::Ph(pb.ph.unwrap())
    } else if !reading_ok(
        pb.dissolved_oxygen,
        DissolvedOxygen::MIN as int,
        DissolvedOxygen::MAX as int,
    ) {
        TelemetryError::DissolvedOxygen(pb.dissolved_oxygen.unwrap())
    } else if !reading_ok(pb.pressure, Pressure::MIN as int, Pressure::MAX as int) {
        TelemetryError::Pressure(pb.pressure.unwrap())
    } else if !reading_ok(pb.gas_resistance, GasResistance::MIN as int, GasResistance::MAX as int) {
        TelemetryError::GasResistance(pb.gas_resistance.unwrap())
    } else {
        TelemetryError::Co2(pb.co2.unwrap())
    }
}

/// The instant of a wire timestamp; instants chrono cannot represent fall
/// back to the epoch.
pub open spec fn wire_instant(ms: i64) -> Timestamp {
    if chrono_accepts_millis(ms) {
        from_millis_exact(ms as int)
    } else {
        unix_epoch()
    }
}

/// `p` is the record that the transfer object `pb` denotes.
pub open spec fn from_wire(pb: TelemetryPayloadPb, p: TelemetryPayload) -> bool {
    &&& p.device_id == pb.device_id
    &&& p.timestamp == wire_instant(pb.timestamp_epoch_ms)
    &&& p.temperature@ == pb.temperature
    &&& same_reading(pb.humidity, p.humidity)
    &&& same_reading(pb.ph, p.ph)
    &&& same_reading(pb.dissolved_oxygen, p.dissolved_oxygen)
    &&& same_reading(pb.pressure, p.pressure)
    &&& same_reading(pb.gas_resistance, p.gas_resistance)
    &&& same_reading(pb.co2, p.co2)
}

/// A record denoted by a transfer object keeps its device id and every
/// reading: each optional reading is present exactly when it is on the wire,
/// with the same bit pattern.
pub proof fn lemma_from_wire_keeps_fields(pb: TelemetryPayloadPb, p: TelemetryPayload)
    requires
        from_wire(pb, p),
    ensures
        p.device_id == pb.device_id,
        p.temperature@ == pb.temperature,
        p.humidity is Some <==> pb.humidity is Some,
        p.ph is Some <==> pb.ph is Some,
        p.dissolved_oxygen is Some <==> pb.dissolved_oxygen is Some,
        p.pressure is Some <==> pb.pressure is Some,
        p.gas_resistance is Some <==> pb.gas_resistance is Some,
        p.co2 is Some <==> pb.co2 is Some,
        pb.humidity matches Some(b) ==> p.humidity.unwrap()@ == b,
        pb.ph matches Some(b) ==> p.ph.unwrap()@ == b,
        pb.dissolved_oxygen matches Some(b) ==> p.dissolved_oxygen.unwrap()@ == b,
        pb.pressure matches Some(b) ==> p.pressure.unwrap()@ == b,
        pb.gas_resistance matches Some(b) ==> p.gas_resistance.unwrap()@ == b,
        pb.co2 matches Some(b) ==> p.co2.unwrap()@ == b,
{
}

impl TryFrom<TelemetryPayloadPb> for TelemetryPayload {
    type Error = TelemetryError;

    /// Converts the protobuf transfer object into a validated record. The
    /// first reading out of range, in field order, is reported.
    fn try_from(pb: TelemetryPayloadPb) -> (res: Result<TelemetryPayload, TelemetryError>)
        ensures
            res is Ok <==> readings_ok(pb),
            res matches Err(e) ==> e == rejection(pb),
            res matches Ok(p) ==> from_wire(pb, p),
            res matches Ok(p) ==> {
                &&& p.device_id == pb.device_id
                &&& p.timestamp == wire_instant(pb.timestamp_epoch_ms)
                &&& p.temperature@ == pb.temperature
                &&& (p.humidity is Some <==> pb.humidity is Some)
                &&& (p.ph is Some <==> pb.ph is Some)
                &&& (p.dissolved_oxygen is Some <==> pb.dissolved_oxygen is Some)
                &&& (p.pressure is Some <==> pb.pressure is Some)
                &&& (p.gas_resistance is Some <==> pb.gas_resistance is Some)
                &&& (p.co2 is Some <==> pb.co2 is Some)
                &&& (pb.humidity matches Some(b) ==> p.humidity.unwrap()@ == b)
                &&& (pb.ph matches Some(b) ==> p.ph.unwrap()@ == b)
                &&& (pb.dissolved_oxygen matches Some(b) ==> p.dissolved_oxygen.unwrap()@ == b)
                &&& (pb.pressure matches Some(b) ==> p.pressure.unwrap()@ == b)
                &&& (pb.gas_resistance matches Some(b) ==> p.gas_resistance.unwrap()@ == b)
                &&& (pb.co2 matches Some(b) ==> p.co2.unwrap()@ == b)
            },
    {
        let timestamp = match Timestamp::from_millis(pb.timestamp_epoch_ms) {
            Some(t) => t,
            None => Timestamp::unix_epoch(),
        };
        let temperature = Temperature::new(pb.temperature)?;
        let humidity = match pb.humidity {
            None => None,
            Some(b) => Some(Humidity::new(b)?),
        };
        let ph = match pb.ph {
            None => None,
            Some(b) => Some(Ph::new(b)?),
        };
        let dissolved_oxygen = match pb.dissolved_oxygen {
            None => None,
            Some(b) => Some(DissolvedOxygen::new(b)?),
        };
        let pressure = match pb.pressure {
            None => None,
            Some(b) => Some(Pressure::new(b)?),
        };
        let gas_resistance = match pb.gas_resistance {
            None => None,
            Some(b) => Some(GasResistance::new(b)?),
        };
        let co2 = match pb.co2 {
            None => None,
            Some(b) => Some(Co2::new(b)?),
        };
        Ok(TelemetryPayload {
            device_id: pb.device_id,
            timestamp,
            temperature,
            humidity,
            ph,
            dissolved_oxygen,
            pressure,
            gas_resistance,
            co2,
        })
    }
}

impl vstd::std_specs::convert::TryFromSpecImpl<TelemetryPayloadPb> for TelemetryPayload {
    /// The `ensures` of `try_from` state its result field by field.
    open spec fn obeys_try_from_spec() -> bool {
        false
    }

    open spec fn try_from_spec(v: TelemetryPayloadPb) -> Result<TelemetryPayload, TelemetryError> {
        if readings_ok(v) {
            Ok(choose|p: TelemetryPayload| from_wire(v, p))
        } else {
            Err(rejection(v))
        }
    }
}

} // verus!
