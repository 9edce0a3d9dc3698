//! Diagnostic status of the TMC2209 (register `DRV_STATUS`).
use super::registers::bit_of;
use crate::text::{dec_text, push_decimal, push_str};
use vstd::prelude::*;

verus! {

/// Decoded `DRV_STATUS` register; every field is an independent
/// diagnostic flag, interpretation is left to the caller.
#[derive(Debug, Clone, Copy, PartialEq, Eq, Structural)]
pub struct DriverStatus {
    pub overtemperature_prewarning: bool,
    pub overtemperature_shutdown: bool,
    pub short_to_ground_a: bool,
    pub short_to_ground_b: bool,
    pub short_to_supply_a: bool,
    pub short_to_supply_b: bool,
    pub open_load_a: bool,
    pub open_load_b: bool,
    pub temperature_above_120c: bool,
    pub temperature_above_143c: bool,
    pub temperature_above_150c: bool,
    pub temperature_above_157c: bool,
    /// Actual current scale `CS_ACTUAL` (bits 16..=20), `0..=31`.
    pub current_scale_actual: u8,
    pub stealth_chop_active: bool,
    pub standstill: bool,
}

impl DriverStatus {
    /// Flags read from a `DRV_STATUS` word (datasheet bit positions).
    pub open spec fn spec_decode(value: u32) -> DriverStatus {
        DriverStatus {
            overtemperature_prewarning: bit_of(value, 0),
            overtemperature_shutdown: bit_of(value, 1),
            short_to_ground_a: bit_of(value, 2),
            short_to_ground_b: bit_of(value, 3),
            short_to_supply_a: bit_of(value, 4),
            short_to_supply_b: bit_of(value, 5),
            open_load_a: bit_of(value, 6),
            open_load_b: bit_of(value, 7),
            temperature_above_120c: bit_of(value, 8),
            temperature_above_143c: bit_of(value, 9),
            temperature_above_150c: bit_of(value, 10),
            temperature_above_157c: bit_of(value, 11),
            current_scale_actual: ((value >> 16u32) & 0x1F) as u8,
            stealth_chop_active: bit_of(value, 30),
            standstill: bit_of(value, 31),
        }
    }

    /// Parses a 32-bit `DRV_STATUS` word.
    pub fn from_u32(value: u32) -> (s: Self)
        ensures
            s == Self::spec_decode(value),
            s.current_scale_actual <= 31,
    {
        assert((value >> 16u32) & 0x1F <= 31) by (bit_vector);
        DriverStatus {
            overtemperature_prewarning: value & (1u32 << 0u32) != 0,
            overtemperature_shutdown: value & (1u32 << 1u32) != 0,
            short_to_ground_a: value & (1u32 << 2u32) != 0,
            short_to_ground_b: value & (1u32 << 3u32) != 0,
            short_to_supply_a: value & (1u32 << 4u32) != 0,
            short_to_supply_b: value & (1u32 << 5u32) != 0,
            open_load_a: value & (1u32 << 6u32) != 0,
            open_load_b: value & (1u32 << 7u32) != 0,
            temperature_above_120c: value & (1u32 << 8u32) != 0,
            temperature_above_143c: value & (1u32 << 9u32) != 0,
            temperature_above_150c: value & (1u32 << 10u32) != 0,
            temperature_above_157c: value & (1u32 << 11u32) != 0,
            current_scale_actual: ((value >> 16u32) & 0x1F) as u8,
            stealth_chop_active: value & (1u32 << 30u32) != 0,
            standstill: value & (1u32 << 31u32) != 0,
        }
    }

    /// A fault that requires the driver to be switched off at once:
    /// overtemperature shutdown or any short circuit. Warnings (prewarning,
    /// open load) are not critical.
    pub open spec fn spec_critical(self) -> bool {
        self.overtemperature_shutdown || self.short_to_ground_a || self.short_to_ground_b
            || self.short_to_supply_a || self.short_to_supply_b
    }

    /// `true` iff a critical fault is flagged (see [`Self::spec_critical`]).
    pub fn has_critical_fault(&self) -> (b: bool)
        ensures
            b == self.spec_critical(),
    {
        self.overtemperature_shutdown || self.short_to_ground_a || self.short_to_ground_b
            || self.short_to_supply_a || self.short_to_supply_b
    }
}

/// A status word signals a critical fault exactly when one of its bits
/// 1..=5 (overtemperature shutdown, the four short circuit detectors) is
/// set.
pub proof fn lemma_critical_fault_bits(value: u32)
    ensures
        DriverStatus::spec_decode(value).spec_critical() <==> (value & 0x3E != 0),
{
    assert((bit_of(value, 1) || bit_of(value, 2) || bit_of(value, 3) || bit_of(value, 4) || bit_of(
        value,
        5,
    )) <==> (value & 0x3E != 0)) by (bit_vector);
}

/// `text` when `on`, nothing otherwise.
pub open spec fn flag_text(on: bool, text: Seq<char>) -> Seq<char> {
    if on {
        text
    } else {
        Seq::empty()
    }
}

/// Human-readable summary of a status: the current scale, then the set
/// flags among standstill, StealthChop, overtemperature and short/open
/// load.
pub open spec fn status_text(s: DriverStatus) -> Seq<char> {
    "DRV_STATUS { CS="@ + dec_text(s.current_scale_actual as nat) + ", "@ + flag_text(s.standstill, "STST "@) + flag_text(s.stealth_chop_active, "STEALTH "@) + flag_text(s.overtemperature_prewarning, "OTPW "@) + flag_text(s.overtemperature_shutdown, "OT! "@) + flag_text(s.short_to_ground_a, "S2GA! "@) + flag_text(s.short_to_ground_b, "S2GB! "@) + flag_text(s.open_load_a, "OLA "@) + flag_text(s.open_load_b, "OLB "@) + " }"@
}

impl DriverStatus {
    /// Human-readable summary of the status (for logs and diagnostics).
    pub fn to_string(&self) -> (text: String)
        ensures
            text@ == status_text(*self),
    {
        let mut out = String::new();
        push_str(&mut out, "DRV_STATUS { CS=");
        push_decimal(&mut out, self.current_scale_actual as u64);
        push_str(&mut out, ", ");
        if self.standstill {
            push_str(&mut out, "STST ");
        }
        if self.stealth_chop_active {
            push_str(&mut out, "STEALTH ");
        }
        if self.overtemperature_prewarning {
            push_str(&mut out, "OTPW ");
        }
        if self.overtemperature_shutdown {
            push_str(&mut out, "OT! ");
        }
        if self.short_to_ground_a {
            push_str(&mut out, "S2GA! ");
        }
        if self.short_to_ground_b {
            push_str(&mut out, "S2GB! ");
        }
        if self.open_load_a {
            push_str(&mut out, "OLA ");
        }
        if self.open_load_b {
            push_str(&mut out, "OLB ");
        }
        push_str(&mut out, " }");
        out
    }
}

} // verus!
