//! Motion: segment queue and multi-axis step interpolation.
pub mod queue;
pub mod steps;
