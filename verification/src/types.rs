//! Small value types shared by the motion and driver modules.
use vstd::prelude::*;

verus! {

/// Logical axis of the machine.
#[derive(Debug, Clone, Copy, PartialEq, Eq, Structural)]
pub enum AxisId {
    X,
    Y,
    Z,
}

impl AxisId {
    /// Index of the axis in every three-element per-axis array (X, Y, Z).
    pub open spec fn slot(self) -> int {
        match self {
            AxisId::X => 0,
            AxisId::Y => 1,
            AxisId::Z => 2,
        }
    }

    /// Index of the axis in every three-element per-axis array (X, Y, Z).
    pub fn index(self) -> (i: usize)
        ensures
            i == self.slot(),
    {
        match self {
            AxisId::X => 0,
            AxisId::Y => 1,
            AxisId::Z => 2,
        }
    }
}

/// Rotation direction of a motor.
#[derive(Debug, Clone, Copy, PartialEq, Eq, Structural)]
pub enum MotorDirection {
    Forward,
    Backward,
}

impl MotorDirection {
    /// The opposite direction.
    pub open spec fn spec_reversed(self) -> MotorDirection {
        match self {
            MotorDirection::Forward => MotorDirection::Backward,
            MotorDirection::Backward => MotorDirection::Forward,
        }
    }

    /// The opposite direction.
    pub fn reversed(self) -> (d: MotorDirection)
        ensures
            d == self.spec_reversed(),
    {
        match self {
            MotorDirection::Forward => MotorDirection::Backward,
            MotorDirection::Backward => MotorDirection::Forward,
        }
    }
}

} // verus!
