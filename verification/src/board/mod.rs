//! Board level concerns of the OSIX controller: pin map, power switching,
//! status LED encoding and the task watchdog timeout.
pub mod pins;
pub mod power;
pub mod rgb;
pub mod watchdog;
