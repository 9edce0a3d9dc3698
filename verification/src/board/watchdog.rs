//! Task watchdog timer (TWDT) settings.
//!
//! Arming the ESP-IDF watchdog is done by the caller; this module keeps the
//! configured timeout and derives the values the ESP-IDF configuration
//! takes.
use vstd::prelude::*;

verus! {

/// The configured task watchdog.
#[derive(Debug, Clone, Copy, PartialEq, Eq, Structural)]
pub struct Watchdog {
    timeout_s: u32,
}

/// `timeout_s` seconds in milliseconds, saturating at `u32::MAX`.
pub open spec fn timeout_ms_of(timeout_s: u32) -> u32 {
    if timeout_s * 1000 > u32::MAX {
        u32::MAX
    } else {
        (timeout_s * 1000) as u32
    }
}

impl Watchdog {
    /// Configured timeout in seconds.
    pub closed spec fn spec_timeout_s(self) -> u32 {
        self.timeout_s
    }

    /// A watchdog with a timeout of `timeout_s` seconds (the caller has
    /// armed the ESP-IDF watchdog with [`Watchdog::timeout_ms`]).
    pub fn new(timeout_s: u32) -> (w: Self)
        ensures
            w.spec_timeout_s() == timeout_s,
    {
        Watchdog { timeout_s }
    }

    /// Configured timeout in seconds.
    pub fn timeout_seconds(&self) -> (s: u32)
        ensures
            s == self.spec_timeout_s(),
    {
        self.timeout_s
    }

    /// Timeout in milliseconds for the ESP-IDF configuration, saturating at
    /// `u32::MAX`.
    pub fn timeout_ms(&self) -> (ms: u32)
        ensures
            ms == timeout_ms_of(self.spec_timeout_s()),
    {
        match self.timeout_s.checked_mul(1000) {
            Some(ms) => ms,
            None => u32::MAX,
        }
    }
}

} // verus!
