//! Temperature options the verified logic reads.
use vstd::prelude::*;

verus! {

/// Thermistor curve of a heater sensor.
#[derive(Debug, Clone, Copy, PartialEq, Eq, Structural)]
pub enum ThermistorModel {
    /// 100 kΩ NTC with B = 3950.
    Ntc100K3950,
    /// 100 kΩ NTC with B = 3435.
    Ntc100K3435,
}

impl Default for ThermistorModel {
    /// The B = 3950 curve, the most common hotend thermistor.
    fn default() -> (m: Self)
        ensures
            m == ThermistorModel::Ntc100K3950,
    {
        ThermistorModel::Ntc100K3950
    }
}

} // verus!
