//! Endstop switches of the machine.
//!
//! An endstop is read as a pin level; which level means "triggered" depends
//! on the switch wiring. The caller reads the pins and hands the levels to
//! these functions.
use crate::drivers::axis::endstop_level_triggered;
use crate::gcode::commands::EndstopStates;
use crate::types::AxisId;
use vstd::prelude::*;

verus! {

/// One endstop switch with its active level.
#[derive(Debug, Clone, Copy, PartialEq, Eq, Structural)]
pub struct Endstop {
    /// `true` when a low pin level means triggered (a normally closed
    /// switch with a pull-up).
    pub active_low: bool,
}

impl Endstop {
    /// An endstop with the given active level.
    pub fn new(active_low: bool) -> (e: Self)
        ensures
            e.active_low == active_low,
    {
        Endstop { active_low }
    }

    /// Whether the switch is triggered, given whether its pin reads low.
    pub fn is_triggered(&self, is_low: bool) -> (t: bool)
        ensures
            t == endstop_level_triggered(is_low, self.active_low),
    {
        if self.active_low {
            is_low
        } else {
            !is_low
        }
    }
}

/// The endstops of the three axes.
#[derive(Debug, Clone, Copy, PartialEq, Eq, Structural)]
pub struct EndstopSet {
    pub x: Endstop,
    pub y: Endstop,
    pub z: Endstop,
}

impl EndstopSet {
    /// A set of three endstops.
    pub fn new(x: Endstop, y: Endstop, z: Endstop) -> (s: Self)
        ensures
            s.x == x,
            s.y == y,
            s.z == z,
    {
        EndstopSet { x, y, z }
    }

    /// The endstop of an axis.
    pub open spec fn of(self, axis: AxisId) -> Endstop {
        match axis {
            AxisId::X => self.x,
            AxisId::Y => self.y,
            AxisId::Z => self.z,
        }
    }

    /// States of all three endstops (the answer to `M119`), given whether
    /// each pin reads low.
    pub fn states(&self, x_low: bool, y_low: bool, z_low: bool) -> (s: EndstopStates)
        ensures
            s.x_triggered == endstop_level_triggered(x_low, self.x.active_low),
            s.y_triggered == endstop_level_triggered(y_low, self.y.active_low),
            s.z_triggered == endstop_level_triggered(z_low, self.z.active_low),
    {
        EndstopStates {
            x_triggered: self.x.is_triggered(x_low),
            y_triggered: self.y.is_triggered(y_low),
            z_triggered: self.z.is_triggered(z_low),
        }
    }

    /// Whether the endstop of `axis` is triggered, given whether its pin
    /// reads low.
    pub fn is_axis_triggered(&self, axis: AxisId, is_low: bool) -> (t: bool)
        ensures
            t == endstop_level_triggered(is_low, self.of(axis).active_low),
    {
        match axis {
            AxisId::X => self.x.is_triggered(is_low),
            AxisId::Y => self.y.is_triggered(is_low),
            AxisId::Z => self.z.is_triggered(is_low),
        }
    }
}

} // verus!
