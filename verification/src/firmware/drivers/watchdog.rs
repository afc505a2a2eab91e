//! Timing of the independent watchdog.

use vstd::prelude::*;

verus! {

/// Timeout of the watchdog when none is configured: 500 ms.
pub const DEFAULT_TIMEOUT_MS: u32 = 500;

/// Watchdog configuration.
#[derive(Clone, Copy, Debug, PartialEq, Eq, Structural)]
pub struct WatchdogConfig {
    /// Time without a feed after which the controller is reset, in ms.
    pub timeout_ms: u32,
}

impl Default for WatchdogConfig {
    fn default() -> (c: Self)
        ensures
            c.timeout_ms == DEFAULT_TIMEOUT_MS,
    {
        WatchdogConfig { timeout_ms: DEFAULT_TIMEOUT_MS }
    }
}

impl WatchdogConfig {
    /// The interval at which to feed the watchdog: half of its timeout.
    pub fn feed_interval_ms(&self) -> (interval: u32)
        ensures
            interval == self.timeout_ms / 2,
            2 * interval <= self.timeout_ms,
    {
        self.timeout_ms / 2
    }
}

} // verus!
