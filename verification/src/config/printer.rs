//! Top-level printer options the verified logic reads.
use vstd::prelude::*;

verus! {

/// Kinematics of the machine.
#[derive(Debug, Clone, Copy, PartialEq, Eq, Structural)]
pub enum KinematicsKind {
    /// Independent X, Y, Z axes.
    Cartesian,
    /// CoreXY belt arrangement.
    CoreXY,
    /// CoreXZ belt arrangement.
    CoreXZ,
    /// Linear delta.
    Delta,
}

impl Default for KinematicsKind {
    /// Cartesian, the reference machine.
    fn default() -> (k: Self)
        ensures
            k == KinematicsKind::Cartesian,
    {
        KinematicsKind::Cartesian
    }
}

} // verus!
