//! Instants on the UTC time line, as carried by telemetry records.
use vstd::prelude::*;

verus! {

/// An instant: whole seconds since the Unix epoch plus a sub-second part in
/// nanoseconds (as `chrono::DateTime<Utc>` reports them).
#[derive(Debug, Clone, Copy, PartialEq, Eq, Structural)]
pub struct Timestamp {
    /// Seconds since 1970-01-01T00:00:00Z (negative before it).
    pub secs: i64,
    /// Nanoseconds past `secs`.
    pub nanos: u32,
}

/// The Unix epoch, the default instant.
pub open spec fn unix_epoch() -> Timestamp {
    Timestamp { secs: 0, nanos: 0 }
}

/// The instant `ms` milliseconds after the epoch.
pub open spec fn from_millis_exact(ms: int) -> Timestamp {
    Timestamp { secs: (ms / 1000) as i64, nanos: ((ms % 1000) * 1_000_000) as u32 }
}

/// Whether `chrono::DateTime::<Utc>::from_timestamp_millis` accepts `ms`:
/// the instant lies within the calendar range that chrono represents, from
/// -262143-01-01T00:00:00Z to +262142-12-31T23:59:59.999Z (proleptic
/// Gregorian, astronomical year numbering).
pub open spec fn chrono_accepts_millis(ms: i64) -> bool {
    -8_334_601_228_800_000 <= ms <= 8_210_266_876_799_999
}

impl Timestamp {
    /// The Unix epoch (what `DateTime::<Utc>::default()` gives).
    pub fn unix_epoch() -> (t: Timestamp)
        ensures
            t == unix_epoch(),
    {
        Timestamp { secs: 0, nanos: 0 }
    }

    /// The instant `ms` milliseconds after the epoch, when chrono can
    /// represent it.
    pub fn from_millis(ms: i64) -> (res: Option<Timestamp>)
        ensures
            res is Some <==> chrono_accepts_millis(ms),
            res matches Some(t) ==> t == from_millis_exact(ms as int),
    {
        datetime_from_millis(ms)
    }

    /// The current instant, read from the system clock: at or after the
    /// epoch, with a sub-second part below one second.
    pub fn now() -> (t: Timestamp)
        ensures
            t.secs >= 0,
            t.nanos < 1_000_000_000,
    {
        utc_now()
    }
}

/// Calls `chrono::DateTime::<Utc>::from_timestamp_millis`. Its source splits
/// `ms` with `div_euclid` and `rem_euclid` by 1000 and builds the instant
/// from the day count and the seconds of the day; it gives `None` exactly
/// when the day falls outside the years `MIN_YEAR` (-262143) to `MAX_YEAR`
/// (262142) of `NaiveDate`, which is the range `chrono_accepts_millis` tests.
#[verifier::external_body]
fn datetime_from_millis(ms: i64) -> (res: Option<Timestamp>)
    ensures
        res is Some <==> chrono_accepts_millis(ms),
        res matches Some(t) ==> t == from_millis_exact(ms as int),
{
    match chrono::DateTime::from_timestamp_millis(ms) {
        Some(d) => Some(Timestamp { secs: d.timestamp(), nanos: d.timestamp_subsec_nanos() }),
        None => None,
    }
}

/// Calls `chrono::Utc::now`. Its source takes `SystemTime::now()` as a
/// duration since the epoch (it panics on a clock set before the epoch) and
/// builds the instant from its whole seconds and `subsec_nanos`, which is
/// below 10^9; `timestamp` and `timestamp_subsec_nanos` give those back.
/// Which instant the clock reads is not promised.
#[verifier::external_body]
fn utc_now() -> (t: Timestamp)
    ensures
        t.secs >= 0,
        t.nanos < 1_000_000_000,
{
    let d = chrono::Utc::now();
    Timestamp { secs: d.timestamp(), nanos: d.timestamp_subsec_nanos() }
}

} // verus!
