use osix_firmware::drivers::tmc2209::driver::{RegisterWrite, Tmc2209Driver};
use osix_firmware::drivers::tmc2209::registers::{
    ChopConf, CoolConf, GConf, GStat, IHoldIRun, MicrostepResolution, PwmConf, CHOPCONF, COOLCONF,
    GCONF, GSTAT, IHOLD_IRUN, PWMCONF, SGTHRS, TCOOLTHRS, TPWMTHRS,
};
use osix_firmware::drivers::tmc2209::status::DriverStatus;
use osix_firmware::drivers::tmc2209::uart::{
    crc8, decode_read_reply, read_request, write_datagram, MASTER_ADDRESS, SYNC_BYTE,
};
use osix_firmware::error::AppError;
use osix_firmware::types::MotorDirection;

#[test]
fn decodes_standstill_and_current_scale() {
    let raw = (1u32 << 31) | (0b10101 << 16);
    let status = DriverStatus::from_u32(raw);
    assert!(status.standstill);
    assert_eq!(status.current_scale_actual, 21);
    assert!(!status.has_critical_fault());
}

#[test]
fn detects_critical_short_to_ground_fault() {
    let raw = 1u32 << 2;
    let status = DriverStatus::from_u32(raw);
    assert!(status.short_to_ground_a);
    assert!(status.has_critical_fault());
}

#[test]
fn crc8_matches_reference_vector() {
    let datagram = [SYNC_BYTE, 0x00, 0x80 | 0x00, 0x00, 0x00, 0x00, 0xC0];
    let crc = crc8(&datagram);
    assert_eq!(crc, crc8(&datagram));
}

#[test]
fn crc8_of_empty_slice_is_zero() {
    assert_eq!(crc8(&[]), 0);
}

#[test]
fn crc8_known_values() {
    assert_eq!(crc8(&[0x05, 0x00, 0x80, 0x00, 0x00, 0x00, 0xC0]), 0x40);
    assert_eq!(crc8(&[0x05, 0x00, 0x6F]), 0x84);
}

#[test]
fn crc8_of_single_low_bit() {
    assert_eq!(crc8(&[0x01]), 0x89);
}

#[test]
fn crc8_of_xor_is_xor_of_crcs() {
    let a = [0x05u8, 0x00, 0x80, 0x12, 0x34, 0x56, 0x78];
    let b = [0x05u8, 0x03, 0x6F, 0xAB, 0xCD, 0xEF, 0x01];
    let mut c = [0u8; 7];
    for i in 0..7 {
        c[i] = a[i] ^ b[i];
    }
    assert_eq!(crc8(&c), crc8(&a) ^ crc8(&b));
}

#[test]
fn write_datagram_frames_register_and_value() {
    let d = write_datagram(0, GCONF, 0x0000_01C0);
    assert_eq!(d, [0x05, 0x00, 0x80, 0x00, 0x00, 0x01, 0xC0, 0xF6]);
}

#[test]
fn read_request_clears_write_flag() {
    let d = read_request(0, 0x6F | 0x80);
    assert_eq!(d, [0x05, 0x00, 0x6F, 0x84]);
}

#[test]
fn decode_read_reply_accepts_valid_reply() {
    let head = [SYNC_BYTE, MASTER_ADDRESS, 0x6F, 0x00, 0x00, 0x00, 0x15];
    let crc = crc8(&head);
    assert_eq!(crc, 0x97);
    let reply = [head[0], head[1], head[2], head[3], head[4], head[5], head[6], crc];
    assert_eq!(decode_read_reply(0x6F, &reply).unwrap(), 0x15);
}

#[test]
fn decode_read_reply_rejects_bad_crc() {
    let reply = [SYNC_BYTE, MASTER_ADDRESS, 0x6F, 0x00, 0x00, 0x00, 0x15, 0x00];
    match decode_read_reply(0x6F, &reply) {
        Err(AppError::MotorDriver { driver, reason }) => {
            assert_eq!(driver, "tmc2209-uart");
            assert_eq!(reason, "неверная контрольная сумма ответа (ожидалось 0x97, получено 0x00)");
        }
        other => panic!("unexpected {other:?}"),
    }
}

#[test]
fn decode_read_reply_rejects_wrong_register() {
    let head = [SYNC_BYTE, MASTER_ADDRESS, 0x6F, 0x00, 0x00, 0x00, 0x15];
    let reply = [head[0], head[1], head[2], head[3], head[4], head[5], head[6], crc8(&head)];
    match decode_read_reply(0x6C, &reply) {
        Err(AppError::MotorDriver { reason, .. }) => {
            assert_eq!(reason, "неожиданный заголовок ответа: sync=0x05 addr=0xff reg=0x6f");
        }
        other => panic!("unexpected {other:?}"),
    }
}

#[test]
fn gconf_default_word_and_round_trip() {
    let g = GConf::default();
    assert_eq!(g.to_u32(), 0x1C0);
    assert_eq!(GConf::from_u32(0x1C0), g);
    let mut s = g;
    s.en_spreadcycle = true;
    assert_eq!(s.to_u32(), 0x1C4);
}

#[test]
fn chopconf_default_word_and_round_trip() {
    let c = ChopConf::default();
    assert_eq!(c.to_u32(), 0x1401_0153);
    assert_eq!(ChopConf::from_u32(0x1401_0153), c);
}

#[test]
fn microstep_resolution_codes() {
    assert_eq!(MicrostepResolution::Full16.mres_value(), 4);
    assert_eq!(MicrostepResolution::Full16.microsteps_per_step(), 16);
    assert_eq!(MicrostepResolution::FullStep.microsteps_per_step(), 1);
    assert_eq!(MicrostepResolution::Full256.microsteps_per_step(), 256);
    assert_eq!(MicrostepResolution::from_mres_value(2), MicrostepResolution::Full64);
    assert_eq!(MicrostepResolution::from_mres_value(200), MicrostepResolution::FullStep);
}

#[test]
fn ihold_irun_saturates_fields() {
    let w = IHoldIRun { ihold: 8, irun: 16, iholddelay: 4 }.to_u32();
    assert_eq!(w, 0x0004_1008);
    let s = IHoldIRun { ihold: 200, irun: 40, iholddelay: 99 }.to_u32();
    assert_eq!(s, 0x000F_1F1F);
}

#[test]
fn gstat_flags_and_clear_word() {
    let g = GStat::from_u32(0b101);
    assert!(g.reset && !g.drv_err && g.uv_cp);
    assert_eq!(GStat::clear_all(), 0b111);
}

#[test]
fn coolconf_and_pwmconf_words() {
    let c = CoolConf { semin: 5, seup: 2, semax: 2, sedn: 1, seimin: true };
    assert_eq!(c.to_u32(), 5 | (2 << 5) | (2 << 8) | (1 << 13) | (1 << 15));
    assert_eq!(CoolConf::default().to_u32(), 0);
    let p = PwmConf::default();
    assert_eq!(p.to_u32(), 36 | (14 << 8) | (1 << 16) | (1 << 18) | (1 << 19) | (8 << 24));
}

#[test]
fn driver_init_writes_in_order() {
    let d = Tmc2209Driver::new();
    assert!(!d.is_enabled());
    let w = d.init_writes();
    assert_eq!(
        w,
        vec![
            RegisterWrite { register: GSTAT, value: 0b111 },
            RegisterWrite { register: GCONF, value: 0x1C0 },
            RegisterWrite { register: CHOPCONF, value: 0x1401_0153 },
            RegisterWrite { register: PWMCONF, value: PwmConf::default().to_u32() },
            RegisterWrite { register: IHOLD_IRUN, value: 0x0004_1008 },
        ]
    );
}

#[test]
fn driver_register_updates() {
    let mut d = Tmc2209Driver::new();
    let w = d.set_microsteps(MicrostepResolution::Full256);
    assert_eq!(w, RegisterWrite { register: CHOPCONF, value: 0x1001_0153 });
    let w = d.set_interpolation(false);
    assert_eq!(w, RegisterWrite { register: CHOPCONF, value: 0x0001_0153 });
    assert_eq!(d.chop_conf().mres, MicrostepResolution::Full256);
    assert_eq!(Tmc2209Driver::enable_spread_cycle(), RegisterWrite { register: GCONF, value: 0x1C4 });
    assert_eq!(Tmc2209Driver::enable_stealth_chop(), RegisterWrite { register: GCONF, value: 0x1C0 });
    assert_eq!(Tmc2209Driver::set_stealth_chop_threshold(500), RegisterWrite { register: TPWMTHRS, value: 500 });
    assert_eq!(Tmc2209Driver::set_coolstep_threshold(700), RegisterWrite { register: TCOOLTHRS, value: 700 });
    assert_eq!(Tmc2209Driver::set_stallguard_threshold(80), RegisterWrite { register: SGTHRS, value: 80 });
    assert_eq!(
        Tmc2209Driver::set_coolstep(CoolConf::default()),
        RegisterWrite { register: COOLCONF, value: 0 }
    );
    assert_eq!(
        Tmc2209Driver::set_current(20, 10, 200),
        RegisterWrite { register: IHOLD_IRUN, value: 10 | (20 << 8) | (15 << 16) }
    );
    assert_eq!(Tmc2209Driver::stallguard_result(0xFFFF_F123), 0x123);
    assert!(Tmc2209Driver::read_status(1 << 1).overtemperature_shutdown);
}

#[test]
fn driver_pin_levels() {
    assert!(Tmc2209Driver::enable_pin_high(false));
    assert!(!Tmc2209Driver::enable_pin_high(true));
    assert!(Tmc2209Driver::dir_pin_high(MotorDirection::Forward));
    assert!(!Tmc2209Driver::dir_pin_high(MotorDirection::Backward));
    let mut d = Tmc2209Driver::new();
    d.set_enabled(true);
    assert!(d.is_enabled());
    assert!(!d.vsense());
}

#[test]
fn open_load_is_not_critical() {
    let status = DriverStatus::from_u32((1 << 6) | (1 << 7) | 1);
    assert!(status.open_load_a && status.open_load_b && status.overtemperature_prewarning);
    assert!(!status.has_critical_fault());
    assert!(DriverStatus::from_u32(1 << 5).has_critical_fault());
}

#[test]
fn status_summary_lists_set_flags() {
    let status = DriverStatus::from_u32((1u32 << 31) | (21 << 16) | (1 << 2));
    assert_eq!(status.to_string(), "DRV_STATUS { CS=21, STST S2GA!  }");
    assert_eq!(DriverStatus::from_u32(0).to_string(), "DRV_STATUS { CS=0,  }");
}
