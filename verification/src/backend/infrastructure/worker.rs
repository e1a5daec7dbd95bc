//! The storage worker: the row it writes for each queued record, and its
//! retry schedule (exponential back-off from 500 ms, capped at 8 s, giving up
//! after the fifth failed attempt).
use crate::backend::infrastructure::pubsub::{bits_of, i32_or, opt_to_i32_or};
use crate::shared::TelemetryPayload;
use crate::time::Timestamp;
use vstd::prelude::*;

verus! {

/// The row the storage worker writes for a queued record: its 15 bound
/// columns. Readings are binary64 bit patterns.
#[derive(Debug, PartialEq, Eq)]
pub struct WorkerRow {
    /// `device_id` column.
    pub device_id: String,
    /// `measured_at` column.
    pub measured_at: Timestamp,
    /// `temperature` column.
    pub temperature: Option<u64>,
    /// `humidity` column.
    pub humidity: Option<u64>,
    /// `ph` column.
    pub ph: Option<u64>,
    /// `dissolved_oxygen` column.
    pub dissolved_oxygen: Option<u64>,
    /// `pressure` column.
    pub pressure: Option<u64>,
    /// `gas_resistance` column.
    pub gas_resistance: Option<u64>,
    /// `co2` column.
    pub co2: Option<u64>,
    /// `iaq` column.
    pub iaq: Option<u64>,
    /// `pm1_0` column.
    pub pm1_0: Option<u64>,
    /// `pm2_5` column.
    pub pm2_5: Option<u64>,
    /// `pm10_0` column.
    pub pm10_0: Option<u64>,
    /// `battery_mv` column (`i32::MAX` for counts beyond it).
    pub battery_mv: Option<i32>,
    /// `sleep_cycles` column (`i32::MAX` for counts beyond it).
    pub sleep_cycles: Option<i32>,
}

/// The row that the storage worker writes for record `p`.
pub open spec fn worker_row_spec(p: TelemetryPayload) -> WorkerRow {
    WorkerRow {
        device_id: p.device_id,
        measured_at: p.measured_at,
        temperature: bits_of(p.temperature),
        humidity: bits_of(p.humidity),
        ph: bits_of(p.ph),
        dissolved_oxygen: bits_of(p.dissolved_oxygen),
        pressure: bits_of(p.pressure),
        gas_resistance: bits_of(p.gas_resistance),
        co2: bits_of(p.co2),
        iaq: bits_of(p.iaq),
        pm1_0: bits_of(p.pm1_0),
        pm2_5: bits_of(p.pm2_5),
        pm10_0: bits_of(p.pm10_0),
        battery_mv: match p.battery_mv {
            Some(x) => Some(i32_or(x, i32::MAX)),
            None => None,
        },
        sleep_cycles: match p.sleep_cycles {
            Some(x) => Some(i32_or(x, i32::MAX)),
            None => None,
        },
    }
}

/// The storage worker's row keeps the record's device id and instant, and
/// binds every reading to its own column: the bit pattern of the same-named
/// reading, absent exactly when the reading is; the diagnostic counts are
/// unchanged up to `i32::MAX` and `i32::MAX` beyond it.
pub proof fn lemma_worker_row_columns(p: TelemetryPayload)
    ensures
        worker_row_spec(p).device_id == p.device_id,
        worker_row_spec(p).measured_at == p.measured_at,
        worker_row_spec(p).temperature is Some <==> p.temperature is Some,
        p.temperature matches Some(x) ==> worker_row_spec(p).temperature == Some(x@),
        worker_row_spec(p).humidity is Some <==> p.humidity is Some,
        p.humidity matches Some(x) ==> worker_row_spec(p).humidity == Some(x@),
        worker_row_spec(p).ph is Some <==> p.ph is Some,
        p.ph matches Some(x) ==> worker_row_spec(p).ph == Some(x@),
        worker_row_spec(p).dissolved_oxygen is Some <==> p.dissolved_oxygen is Some,
        p.dissolved_oxygen matches Some(x) ==> worker_row_spec(p).dissolved_oxygen == Some(x@),
        worker_row_spec(p).pressure is Some <==> p.pressure is Some,
        p.pressure matches Some(x) ==> worker_row_spec(p).pressure == Some(x@),
        worker_row_spec(p).gas_resistance is Some <==> p.gas_resistance is Some,
        p.gas_resistance matches Some(x) ==> worker_row_spec(p).gas_resistance == Some(x@),
        worker_row_spec(p).co2 is Some <==> p.co2 is Some,
        p.co2 matches Some(x) ==> worker_row_spec(p).co2 == Some(x@),
        worker_row_spec(p).iaq is Some <==> p.iaq is Some,
        p.iaq matches Some(x) ==> worker_row_spec(p).iaq == Some(x@),
        worker_row_spec(p).pm1_0 is Some <==> p.pm1_0 is Some,
        p.pm1_0 matches Some(x) ==> worker_row_spec(p).pm1_0 == Some(x@),
        worker_row_spec(p).pm2_5 is Some <==> p.pm2_5 is Some,
        p.pm2_5 matches Some(x) ==> worker_row_spec(p).pm2_5 == Some(x@),
        worker_row_spec(p).pm10_0 is Some <==> p.pm10_0 is Some,
        p.pm10_0 matches Some(x) ==> worker_row_spec(p).pm10_0 == Some(x@),
        worker_row_spec(p).battery_mv is Some <==> p.battery_mv is Some,
        p.battery_mv matches Some(x) ==> worker_row_spec(p).battery_mv == Some(if x <= i32::MAX {
            x as i32
        } else {
            i32::MAX
        }),
        worker_row_spec(p).sleep_cycles is Some <==> p.sleep_cycles is Some,
        p.sleep_cycles matches Some(x) ==> worker_row_spec(p).sleep_cycles == Some(if x <= i32::MAX {
            x as i32
        } else {
            i32::MAX
        }),
{
}

/// Builds the row that the storage worker writes for `payload`.
pub fn worker_row(payload: &TelemetryPayload) -> (row: WorkerRow)
    ensures
        row == worker_row_spec(*payload),
        row.device_id == payload.device_id,
        row.measured_at == payload.measured_at,
        row.temperature == bits_of(payload.temperature),
        row.humidity == bits_of(payload.humidity),
        row.ph == bits_of(payload.ph),
        row.dissolved_oxygen == bits_of(payload.dissolved_oxygen),
        row.pressure == bits_of(payload.pressure),
        row.gas_resistance == bits_of(payload.gas_resistance),
        row.co2 == bits_of(payload.co2),
        row.iaq == bits_of(payload.iaq),
        row.pm1_0 == bits_of(payload.pm1_0),
        row.pm2_5 == bits_of(payload.pm2_5),
        row.pm10_0 == bits_of(payload.pm10_0),
        row.battery_mv is Some <==> payload.battery_mv is Some,
        payload.battery_mv matches Some(x) ==> row.battery_mv == Some(if x <= i32::MAX {
            x as i32
        } else {
            i32::MAX
        }),
        row.sleep_cycles is Some <==> payload.sleep_cycles is Some,
        payload.sleep_cycles matches Some(x) ==> row.sleep_cycles == Some(if x <= i32::MAX {
            x as i32
        } else {
            i32::MAX
        }),
{
    WorkerRow {
        device_id: payload.device_id.clone(),
        measured_at: payload.measured_at,
        temperature: match payload.temperature {
            Some(t) => Some(t.value()),
            None => None,
        },
        humidity: match payload.humidity {
            Some(t) => Some(t.value()),
            None => None,
        },
        ph: match payload.ph {
            Some(t) => Some(t.value()),
            None => None,
        },
        dissolved_oxygen: match payload.dissolved_oxygen {
            Some(t) => Some(t.value()),
            None => None,
        },
        pressure: match payload.pressure {
            Some(t) => Some(t.value()),
            None => None,
        },
        gas_resistance: match payload.gas_resistance {
            Some(t) => Some(t.value()),
            None => None,
        },
        co2: match payload.co2 {
            Some(t) => Some(t.value()),
            None => None,
        },
        iaq: match payload.iaq {
            Some(t) => Some(t.value()),
            None => None,
        },
        pm1_0: match payload.pm1_0 {
            Some(t) => Some(t.value()),
            None => None,
        },
        pm2_5: match payload.pm2_5 {
            Some(t) => Some(t.value()),
            None => None,
        },
        pm10_0: match payload.pm10_0 {
            Some(t) => Some(t.value()),
            None => None,
        },
        battery_mv: opt_to_i32_or(payload.battery_mv, i32::MAX),
        sleep_cycles: opt_to_i32_or(payload.sleep_cycles, i32::MAX),
    }
}

/// Attempts made before a record is given up.
pub const MAX_ATTEMPTS: u32 = 5;

/// Wait after the first failure, in milliseconds.
pub const INITIAL_DELAY_MS: u64 = 500;

/// Longest wait, in milliseconds.
pub const MAX_DELAY_MS: u64 = 8000;

/// The wait after `n` consecutive failures (`n >= 1`): 500 ms doubled at
/// each failure, capped at 8 s.
pub open spec fn delay_after(n: nat) -> int
    decreases n,
{
    if n <= 1 {
        INITIAL_DELAY_MS as int
    } else if 2 * delay_after((n - 1) as nat) > MAX_DELAY_MS {
        MAX_DELAY_MS as int
    } else {
        2 * delay_after((n - 1) as nat)
    }
}

/// What the worker does after a failed insert.
#[derive(Debug, Clone, Copy, PartialEq, Eq, Structural)]
pub enum RetryStep {
    /// Wait this many milliseconds, then try again.
    RetryAfter(u64),
    /// Drop the record (the fifth attempt failed).
    GiveUp,
}

/// Failures seen so far for one record, and the next wait.
#[derive(Debug)]
pub struct RetrySchedule {
    attempts: u32,
    delay_ms: u64,
}

impl View for RetrySchedule {
    type V = nat;

    /// Number of failed attempts so far.
    closed spec fn view(&self) -> nat {
        self.attempts as nat
    }
}

impl RetrySchedule {
    /// The next wait is `delay_after(attempts + 1)`.
    #[verifier::type_invariant]
    spec fn consistent(self) -> bool {
        &&& self.attempts <= MAX_ATTEMPTS
        &&& self.delay_ms == delay_after((self.attempts + 1) as nat)
        &&& self.delay_ms <= MAX_DELAY_MS
    }

    /// No failure yet.
    pub fn new() -> (s: RetrySchedule)
        ensures
            s@ == 0,
    {
        RetrySchedule { attempts: 0, delay_ms: INITIAL_DELAY_MS }
    }

    /// The record was given up.
    pub open spec fn exhausted(&self) -> bool {
        self@ >= MAX_ATTEMPTS
    }

    /// Whether the record was given up (no further attempt is made).
    pub fn is_exhausted(&self) -> (b: bool)
        ensures
            b == self.exhausted(),
    {
        self.attempts >= MAX_ATTEMPTS
    }

    /// Records a failed attempt and says what to do: the `n`-th failure
    /// (n < 5) waits `delay_after(n)` before the next attempt; the fifth
    /// gives up.
    pub fn on_failure(&mut self) -> (step: RetryStep)
        requires
            !old(self).exhausted(),
        ensures
            final(self)@ == old(self)@ + 1,
            step == if final(self)@ >= MAX_ATTEMPTS {
                RetryStep::GiveUp
            } else {
                RetryStep::RetryAfter(delay_after(final(self)@) as u64)
            },
    {
        proof {
            use_type_invariant(&*self);
        }
        let attempts = self.attempts + 1;
        let wait = self.delay_ms;
        let next = if 2 * wait > MAX_DELAY_MS {
            MAX_DELAY_MS
        } else {
            2 * wait
        };
        proof {
            assert(delay_after((attempts + 1) as nat) == next);
        }
        *self = RetrySchedule { attempts, delay_ms: next };
        if attempts >= MAX_ATTEMPTS {
            RetryStep::GiveUp
        } else {
            RetryStep::RetryAfter(wait)
        }
    }
}

/// The worker waits 500, 1000, 2000 and 4000 ms between its five attempts:
/// no wait exceeds 8 s.
pub proof fn lemma_retry_waits()
    ensures
        delay_after(1) == 500,
        delay_after(2) == 1000,
        delay_after(3) == 2000,
        delay_after(4) == 4000,
        forall|n: nat| #[trigger] delay_after(n) <= MAX_DELAY_MS,
{
    assert(delay_after(1) == 500);
    assert(delay_after(2) == 1000);
    assert(delay_after(3) == 2000);
    assert(delay_after(4) == 4000);
    assert forall|n: nat| #[trigger] delay_after(n) <= MAX_DELAY_MS by {
        lemma_delay_bounded(n);
    }
}

proof fn lemma_delay_bounded(n: nat)
    ensures
        0 < delay_after(n) <= MAX_DELAY_MS,
    decreases n,
{
    if n > 1 {
        lemma_delay_bounded((n - 1) as nat);
    }
}

} // verus!
