use osix_firmware::board::pins::PinMap;
use osix_firmware::board::power::Power;
use osix_firmware::board::rgb::{ns_to_ticks, ws2812_bits, Color, T0H_NS, T1H_NS};
use osix_firmware::board::watchdog::Watchdog;
use osix_firmware::endstops::{Endstop, EndstopSet};
use osix_firmware::hal_adapters::{adc_sample, scale_duty, ADC_MAX_VALUE};
use osix_firmware::error::AppError;
use osix_firmware::types::AxisId;

#[test]
fn active_low_endstop_reports_triggered_on_low_signal() {
    let endstop = Endstop::new(true);
    assert!(endstop.is_triggered(true));

    let not_triggered = Endstop::new(true);
    assert!(!not_triggered.is_triggered(false));
}

#[test]
fn active_high_endstop_inverts_interpretation() {
    let endstop = Endstop::new(false);
    assert!(!endstop.is_triggered(true));
}

#[test]
fn endstop_set_reports_all_three_axes() {
    let set = EndstopSet::new(Endstop::new(true), Endstop::new(true), Endstop::new(true));
    let states = set.states(true, false, false);
    assert!(states.x_triggered);
    assert!(!states.y_triggered);
    assert!(!states.z_triggered);
}

#[test]
fn endstop_set_answers_per_axis() {
    let set = EndstopSet::new(Endstop::new(true), Endstop::new(false), Endstop::new(true));
    assert!(set.is_axis_triggered(AxisId::X, true));
    assert!(set.is_axis_triggered(AxisId::Y, false));
    assert!(!set.is_axis_triggered(AxisId::Z, false));
}

#[test]
fn default_pin_map_matches_reference_board() {
    let p = PinMap::default();
    assert_eq!((p.axis_x.step, p.axis_x.dir, p.axis_x.enable, p.axis_x.endstop), (4, 5, 6, 7));
    assert_eq!(p.axis_z.in4, 11);
    assert_eq!(p.tmc_uart.y_rx, 47);
    assert_eq!(p.system.status_rgb, 48);
    assert_eq!(p.temperature.bed_thermistor_adc_channel, 2);
    let all = [
        p.axis_x.step, p.axis_x.dir, p.axis_x.enable, p.axis_x.endstop, p.axis_y.step,
        p.axis_y.dir, p.axis_y.enable, p.axis_y.endstop, p.axis_z.in1, p.axis_z.in2, p.axis_z.in3,
        p.axis_z.in4, p.axis_z.endstop, p.tmc_uart.x_tx, p.tmc_uart.x_rx, p.tmc_uart.y_tx,
        p.tmc_uart.y_rx, p.system.psu_enable, p.system.status_rgb, p.system.emergency_stop,
        p.sd_card.mosi, p.sd_card.miso, p.sd_card.sclk, p.sd_card.cs, p.sd_card.card_detect,
        p.temperature.hotend_heater_pwm, p.temperature.bed_heater_pwm, p.temperature.part_fan_pwm,
    ];
    let unique: std::collections::HashSet<_> = all.iter().collect();
    assert_eq!(unique.len(), all.len());
    assert!(all.iter().all(|&g| g <= 48 && !(26..=32).contains(&g)));
}

#[test]
fn power_refuses_enable_during_emergency_stop() {
    let mut power = Power::new();
    assert!(!power.is_enabled());
    match power.enable(true) {
        Err(AppError::Board(m)) => {
            assert_eq!(m, "невозможно включить питание: активна аварийная остановка")
        }
        other => panic!("unexpected {other:?}"),
    }
    assert!(!power.is_enabled());
    assert!(power.enable(false).is_ok());
    assert!(power.is_enabled());
    assert!(power.poll_emergency_stop(true));
    assert!(!power.poll_emergency_stop(false));
    power.disable();
    assert!(!power.poll_emergency_stop(true));
    assert!(Power::is_emergency_stopped(true));
}

#[test]
fn ws2812_frame_is_grb_msb_first() {
    let bits = ws2812_bits(Color { r: 0x01, g: 0x80, b: 0xFF });
    assert_eq!(bits.len(), 24);
    let expected: Vec<bool> = [0x80u8, 0x01, 0xFF]
        .iter()
        .flat_map(|b| (0..8).rev().map(move |i| (b >> i) & 1 == 1))
        .collect();
    assert_eq!(bits, expected);
    assert!(bits[0] && !bits[1] && bits[15] && !bits[14]);
}

#[test]
fn status_colours() {
    assert_eq!(Color::off(), Color { r: 0, g: 0, b: 0 });
    assert_eq!(Color::ready(), Color { r: 0, g: 40, b: 0 });
    assert_eq!(Color::printing(), Color { r: 0, g: 0, b: 40 });
    assert_eq!(Color::warning(), Color { r: 40, g: 40, b: 0 });
    assert_eq!(Color::error(), Color { r: 60, g: 0, b: 0 });
    assert_eq!(Color::boot(), Color { r: 0, g: 0, b: 15 });
}

#[test]
fn pulse_ticks_at_80_mhz() {
    assert_eq!(ns_to_ticks(80_000_000, T0H_NS), 28);
    assert_eq!(ns_to_ticks(80_000_000, T1H_NS), 72);
}

#[test]
fn watchdog_timeout_in_milliseconds_saturates() {
    let w = Watchdog::new(5);
    assert_eq!(w.timeout_seconds(), 5);
    assert_eq!(w.timeout_ms(), 5_000);
    assert_eq!(Watchdog::new(u32::MAX).timeout_ms(), u32::MAX);
}

#[test]
fn adc_readings_and_pwm_duty() {
    assert_eq!(adc_sample(1234).unwrap(), 1234);
    assert_eq!(adc_sample(0).unwrap(), 0);
    match adc_sample(-1) {
        Err(AppError::Temperature(m)) => assert_eq!(m, "ошибка чтения ADC1 (код -1)"),
        other => panic!("unexpected {other:?}"),
    }
    assert_eq!(ADC_MAX_VALUE, 4095);
    assert_eq!(scale_duty(255, 1023), 1023);
    assert_eq!(scale_duty(128, 1023), 513);
    assert_eq!(scale_duty(0, 8191), 0);
}
