//! Position and direction bookkeeping of one machine axis.
//!
//! This is the one place where the logical direction of an axis (set by
//! `invert_direction` in the motion configuration) is mapped to the physical
//! rotation of its motor, and where the position in motor steps is kept.
//! The motor driver and the endstop pin themselves are driven by the caller:
//! it applies the physical direction this module returns, performs the
//! step, and reports the endstop pin level back.
use crate::types::{AxisId, MotorDirection};
use vstd::prelude::*;

verus! {

/// Physical rotation for a logical direction.
pub open spec fn physical_direction(logical: MotorDirection, invert: bool) -> MotorDirection {
    if invert {
        logical.spec_reversed()
    } else {
        logical
    }
}

/// Position change of one step in a logical direction.
pub open spec fn step_delta(direction: MotorDirection) -> int {
    match direction {
        MotorDirection::Forward => 1,
        MotorDirection::Backward => -1,
    }
}

/// Whether an endstop with the given active level is triggered when its
/// pin reads low (`is_low`) or high.
pub open spec fn endstop_level_triggered(is_low: bool, active_low: bool) -> bool {
    if active_low {
        is_low
    } else {
        !is_low
    }
}

/// Bookkeeping of one axis: its identity, wiring options, position in
/// motor steps and the last logical direction requested.
#[derive(Debug, Clone, Copy)]
pub struct AxisTracker {
    id: AxisId,
    invert_direction: bool,
    endstop_active_low: bool,
    position_steps: i64,
    logical_direction: MotorDirection,
}

impl AxisTracker {
    /// The axis this tracker belongs to.
    pub closed spec fn spec_id(self) -> AxisId {
        self.id
    }

    /// Whether the logical direction is inverted relative to the motor.
    pub closed spec fn spec_invert(self) -> bool {
        self.invert_direction
    }

    /// Whether the endstop counts as triggered on a low pin level.
    pub closed spec fn spec_active_low(self) -> bool {
        self.endstop_active_low
    }

    /// Position in motor steps.
    pub closed spec fn spec_position(self) -> int {
        self.position_steps as int
    }

    /// Last logical direction requested.
    pub closed spec fn spec_direction(self) -> MotorDirection {
        self.logical_direction
    }

    /// A tracker at position `0`, moving forward.
    pub fn new(id: AxisId, invert_direction: bool, endstop_active_low: bool) -> (t: Self)
        ensures
            t.spec_id() == id,
            t.spec_invert() == invert_direction,
            t.spec_active_low() == endstop_active_low,
            t.spec_position() == 0,
            t.spec_direction() == MotorDirection::Forward,
    {
        AxisTracker {
            id,
            invert_direction,
            endstop_active_low,
            position_steps: 0,
            logical_direction: MotorDirection::Forward,
        }
    }

    /// The axis this tracker belongs to.
    pub fn id(&self) -> (a: AxisId)
        ensures
            a == self.spec_id(),
    {
        self.id
    }

    /// Records the logical direction of the following steps and returns
    /// the physical direction to give the motor driver.
    pub fn set_direction(&mut self, direction: MotorDirection) -> (physical: MotorDirection)
        ensures
            physical == physical_direction(direction, old(self).spec_invert()),
            final(self).spec_direction() == direction,
            final(self).spec_id() == old(self).spec_id(),
            final(self).spec_invert() == old(self).spec_invert(),
            final(self).spec_active_low() == old(self).spec_active_low(),
            final(self).spec_position() == old(self).spec_position(),
    {
        self.logical_direction = direction;
        if self.invert_direction {
            direction.reversed()
        } else {
            direction
        }
    }

    /// Last logical direction requested.
    pub fn logical_direction(&self) -> (d: MotorDirection)
        ensures
            d == self.spec_direction(),
    {
        self.logical_direction
    }

    /// Accounts for one step the driver has just made in the current
    /// logical direction.
    pub fn record_step(&mut self)
        requires
            i64::MIN <= old(self).spec_position() + step_delta(old(self).spec_direction())
                <= i64::MAX,
        ensures
            final(self).spec_position() == old(self).spec_position() + step_delta(
                old(self).spec_direction(),
            ),
            final(self).spec_direction() == old(self).spec_direction(),
            final(self).spec_id() == old(self).spec_id(),
            final(self).spec_invert() == old(self).spec_invert(),
            final(self).spec_active_low() == old(self).spec_active_low(),
    {
        match self.logical_direction {
            MotorDirection::Forward => self.position_steps = self.position_steps + 1,
            MotorDirection::Backward => self.position_steps = self.position_steps - 1,
        }
    }

    /// Position in motor steps.
    pub fn position_steps(&self) -> (p: i64)
        ensures
            p == self.spec_position(),
    {
        self.position_steps
    }

    /// Sets the position (after homing or `G92`).
    pub fn reset_position(&mut self, steps: i64)
        ensures
            final(self).spec_position() == steps,
            final(self).spec_direction() == old(self).spec_direction(),
            final(self).spec_id() == old(self).spec_id(),
            final(self).spec_invert() == old(self).spec_invert(),
            final(self).spec_active_low() == old(self).spec_active_low(),
    {
        self.position_steps = steps;
    }

    /// Whether the endstop of the axis is triggered, given whether its pin
    /// reads low.
    pub fn is_endstop_triggered(&self, is_low: bool) -> (t: bool)
        ensures
            t == endstop_level_triggered(is_low, self.spec_active_low()),
    {
        if self.endstop_active_low {
            is_low
        } else {
            !is_low
        }
    }
}

/// Direction law: mapping a logical direction to the motor and back through
/// the same wiring gives the logical direction again, and a non-inverted
/// axis passes directions through unchanged.
pub proof fn lemma_direction_mapping_involutive(logical: MotorDirection, invert: bool)
    ensures
        physical_direction(physical_direction(logical, invert), invert) == logical,
        !invert ==> physical_direction(logical, invert) == logical,
        invert ==> physical_direction(logical, invert) != logical,
{
}

/// Position law: a step in one logical direction followed by a step in the
/// opposite direction leaves the position where it was.
pub proof fn lemma_opposite_steps_cancel(position: int, direction: MotorDirection)
    ensures
        position + step_delta(direction) + step_delta(direction.spec_reversed()) == position,
{
}

} // verus!
