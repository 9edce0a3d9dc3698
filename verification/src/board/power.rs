//! Power supply switching and the hardware emergency stop.
//!
//! The caller drives the `PS_ON` output and reads the emergency stop input
//! (active low); [`Power`] keeps the switching state and decides.
use crate::error::AppError;
use vstd::prelude::*;

verus! {

/// Reason given when power is requested while the emergency stop is active.
pub open spec fn estop_refusal_text() -> Seq<char> {
    "невозможно включить питание: активна аварийная остановка"@
}

/// Whether the emergency stop is pressed, given whether its input reads low.
pub open spec fn emergency_stopped(estop_low: bool) -> bool {
    estop_low
}

/// Switching state of the machine power supply (motors and heaters).
#[derive(Debug, Clone, Copy, PartialEq, Eq, Structural)]
pub struct Power {
    enabled: bool,
}

impl Power {
    /// Whether the supply is switched on.
    pub closed spec fn spec_enabled(self) -> bool {
        self.enabled
    }

    /// Power off: the safe state at start-up (the caller drives `PS_ON`
    /// low).
    pub fn new() -> (p: Self)
        ensures
            !p.spec_enabled(),
    {
        Power { enabled: false }
    }

    /// Whether the emergency stop is pressed, given whether its input
    /// reads low (the button is active low).
    pub fn is_emergency_stopped(estop_low: bool) -> (b: bool)
        ensures
            b == emergency_stopped(estop_low),
    {
        estop_low
    }

    /// Switches the supply on unless the emergency stop is pressed, in
    /// which case the state is unchanged and the request is refused. The
    /// caller drives `PS_ON` high before calling this with a clear stop.
    pub fn enable(&mut self, estop_low: bool) -> (r: Result<(), AppError>)
        ensures
            emergency_stopped(estop_low) ==> (r matches Err(AppError::Board(msg)) && msg@
                == estop_refusal_text()) && final(self).spec_enabled() == old(self).spec_enabled(),
            !emergency_stopped(estop_low) ==> r is Ok && final(self).spec_enabled(),
    {
        if estop_low {
            let msg = String::from_str("невозможно включить питание: активна аварийная остановка");
            return Err(AppError::board(msg));
        }
        self.enabled = true;
        Ok(())
    }

    /// Records that the supply was switched off (`PS_ON` driven low).
    pub fn disable(&mut self)
        ensures
            !final(self).spec_enabled(),
    {
        self.enabled = false;
    }

    /// Whether the supply is switched on.
    pub fn is_enabled(&self) -> (b: bool)
        ensures
            b == self.spec_enabled(),
    {
        self.enabled
    }

    /// Whether a poll of the emergency stop must cut the power now: the
    /// stop is pressed while the supply is on.
    pub fn poll_emergency_stop(&self, estop_low: bool) -> (cut: bool)
        ensures
            cut == (emergency_stopped(estop_low) && self.spec_enabled()),
    {
        estop_low && self.enabled
    }
}

} // verus!
