//! Commands that clients send over the telemetry WebSocket.
use vstd::prelude::*;

verus! {

/// Over-the-air configuration command for a sensor node.
#[derive(Debug, Clone, Copy, PartialEq, Eq, Structural)]
pub enum OtaCommand {
    /// Change the sampling period.
    SetSampleRate {
        /// Period in milliseconds.
        rate_ms: u32,
    },
    /// Deep-sleep for a while.
    DeepSleep {
        /// Duration in seconds.
        duration_s: u32,
    },
    /// Restart the node.
    Reboot,
}

} // verus!
