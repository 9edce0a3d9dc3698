//! Value conversions between the subsystems and the ESP32-S3 peripherals
//! (ADC1 for the thermistors, LEDC for heaters and the part fan).
//!
//! Driving the peripherals is done by the caller.
use crate::error::AppError;
use crate::text::{push_signed, push_str, signed_text};
use vstd::prelude::*;

verus! {

/// Largest reading of the 12-bit ADC1.
pub const ADC_MAX_VALUE: u16 = 4095;

/// Reason a negative ADC1 reading (an ESP-IDF error code) is refused.
pub open spec fn adc_error_text(raw: i32) -> Seq<char> {
    "ошибка чтения ADC1 (код "@ + signed_text(raw as int) + ")"@
}

/// The sample of a raw ADC1 reading: a negative reading is the driver's
/// error code and becomes a temperature error; otherwise its low 16 bits.
pub fn adc_sample(raw: i32) -> (r: Result<u16, AppError>)
    ensures
        raw >= 0 ==> r == Ok::<u16, AppError>(raw as u16),
        raw < 0 ==> (r matches Err(AppError::Temperature(m)) && m@ == adc_error_text(raw)),
{
    if raw < 0 {
        let mut m = String::new();
        push_str(&mut m, "ошибка чтения ADC1 (код ");
        push_signed(&mut m, raw as i64);
        push_str(&mut m, ")");
        return Err(AppError::Temperature(m));
    }
    Ok(raw as u16)
}

/// LEDC duty for an 8-bit duty `duty_0_255` on a timer whose full duty is
/// `max_duty`: `duty * max_duty / 255`, rounded down.
pub fn scale_duty(duty_0_255: u8, max_duty: u32) -> (d: u32)
    requires
        duty_0_255 * max_duty <= u32::MAX,
    ensures
        d == (duty_0_255 * max_duty) / 255,
        d <= max_duty,
{
    proof {
        vstd::arithmetic::mul::lemma_mul_inequality(duty_0_255 as int, 255, max_duty as int);
        vstd::arithmetic::mul::lemma_mul_is_commutative(255, max_duty as int);
        vstd::arithmetic::div_mod::lemma_div_is_ordered(
            duty_0_255 * max_duty,
            255 * max_duty,
            255,
        );
        vstd::arithmetic::div_mod::lemma_div_multiples_vanish(max_duty as int, 255);
    }
    (duty_0_255 as u32 * max_duty) / 255
}

} // verus!
