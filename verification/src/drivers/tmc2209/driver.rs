//! Register-level behaviour of a TMC2209 driven in STEP/DIR mode and
//! configured over its single-wire UART.
//!
//! [`Tmc2209Driver`] keeps the register images the firmware owns and decides
//! which register writes and pin levels each operation needs. The caller
//! performs them: it sends each [`RegisterWrite`] as a UART datagram and
//! drives the `ENABLE`, `DIR` and `STEP` pins to the levels returned here.
use super::registers::{
    ChopConf, CoolConf, GConf, GStat, IHoldIRun, MicrostepResolution, PwmConf, CHOPCONF, COOLCONF,
    GCONF, GSTAT, IHOLD_IRUN, MAX_HOLD_DELAY, PWMCONF, SGTHRS, TCOOLTHRS, TPWMTHRS, min_u8,
};
use super::status::DriverStatus;
use crate::types::MotorDirection;
use vstd::prelude::*;

verus! {

/// One register write: the register address and the 32-bit word.
#[derive(Debug, Clone, Copy, PartialEq, Eq, Structural)]
pub struct RegisterWrite {
    pub register: u8,
    pub value: u32,
}

/// `CHOPCONF` at power-up of the firmware.
pub open spec fn default_chop_conf() -> ChopConf {
    ChopConf {
        toff: 3,
        hstrt: 5,
        hend: 2,
        tbl: 2,
        vsense: false,
        mres: MicrostepResolution::Full16,
        intpol: true,
    }
}

/// `GCONF` for UART control, with the given chopper mode.
pub open spec fn gconf_with_spreadcycle(spreadcycle: bool) -> GConf {
    GConf {
        i_scale_analog: false,
        internal_rsense: false,
        en_spreadcycle: spreadcycle,
        shaft: false,
        index_otpw: false,
        index_step: false,
        pdn_disable: true,
        mstep_reg_select: true,
        multistep_filt: true,
    }
}

/// `PWMCONF` written at initialisation.
pub open spec fn default_pwm_conf() -> PwmConf {
    PwmConf {
        pwm_ofs: 36,
        pwm_grad: 14,
        pwm_freq: 1,
        pwm_autoscale: true,
        pwm_autograd: true,
        pwm_reg: 8,
        freewheel: 0,
    }
}

/// Currents written at initialisation: hold `8`, run `16`, hold delay `4`.
pub open spec fn initial_currents() -> IHoldIRun {
    IHoldIRun { ihold: 8, irun: 16, iholddelay: 4 }
}

/// The write of `value` to `register`.
pub open spec fn write_of(register: u8, value: u32) -> RegisterWrite {
    RegisterWrite { register, value }
}

/// Register writes of the initialisation: clear `GSTAT`, UART control in
/// StealthChop, the chopper image, StealthChop PWM defaults and the initial
/// currents, in this order.
pub open spec fn init_sequence(chop: ChopConf) -> Seq<RegisterWrite> {
    seq![
        write_of(GSTAT, 0b111),
        write_of(GCONF, gconf_with_spreadcycle(false).spec_word()),
        write_of(CHOPCONF, chop.spec_word()),
        write_of(PWMCONF, default_pwm_conf().spec_word()),
        write_of(IHOLD_IRUN, initial_currents().spec_word()),
    ]
}

/// Register state and pin decisions of one TMC2209.
#[derive(Debug, Clone, Copy)]
pub struct Tmc2209Driver {
    chop_conf: ChopConf,
    enabled: bool,
}

impl Tmc2209Driver {
    /// The `CHOPCONF` image last written.
    pub closed spec fn spec_chop_conf(self) -> ChopConf {
        self.chop_conf
    }

    /// Whether the output stage is enabled.
    pub closed spec fn spec_enabled(self) -> bool {
        self.enabled
    }

    /// A driver with the default chopper image and its outputs disabled.
    /// The caller drives `ENABLE` to [`Tmc2209Driver::enable_pin_high`]
    /// of `false` and then performs [`Tmc2209Driver::init_writes`].
    pub fn new() -> (d: Self)
        ensures
            d.spec_chop_conf() == default_chop_conf(),
            !d.spec_enabled(),
    {
        Tmc2209Driver { chop_conf: ChopConf::default(), enabled: false }
    }

    /// The register writes that initialise the driver.
    pub fn init_writes(&self) -> (w: Vec<RegisterWrite>)
        ensures
            w@ == init_sequence(self.spec_chop_conf()),
    {
        let mut gconf = GConf::default();
        gconf.en_spreadcycle = false;
        let mut w: Vec<RegisterWrite> = Vec::new();
        w.push(RegisterWrite { register: GSTAT, value: GStat::clear_all() });
        w.push(RegisterWrite { register: GCONF, value: gconf.to_u32() });
        w.push(RegisterWrite { register: CHOPCONF, value: self.chop_conf.to_u32() });
        w.push(RegisterWrite { register: PWMCONF, value: PwmConf::default().to_u32() });
        w.push(
            RegisterWrite {
                register: IHOLD_IRUN,
                value: IHoldIRun { ihold: 8, irun: 16, iholddelay: 4 }.to_u32(),
            },
        );
        assert(w@ =~= init_sequence(self.chop_conf));
        w
    }

    /// The `CHOPCONF` image last written.
    pub fn chop_conf(&self) -> (c: ChopConf)
        ensures
            c == self.spec_chop_conf(),
    {
        self.chop_conf
    }

    /// Sets the microstep resolution (`CHOPCONF.MRES`) and returns the
    /// write of the new image.
    pub fn set_microsteps(&mut self, resolution: MicrostepResolution) -> (w: RegisterWrite)
        ensures
            final(self).spec_chop_conf() == (ChopConf { mres: resolution, ..old(self).spec_chop_conf() }),
            final(self).spec_enabled() == old(self).spec_enabled(),
            w == write_of(CHOPCONF, final(self).spec_chop_conf().spec_word()),
    {
        self.chop_conf.mres = resolution;
        RegisterWrite { register: CHOPCONF, value: self.chop_conf.to_u32() }
    }

    /// Turns microstep interpolation to 256 steps on or off
    /// (`CHOPCONF.INTPOL`) and returns the write of the new image.
    pub fn set_interpolation(&mut self, enabled: bool) -> (w: RegisterWrite)
        ensures
            final(self).spec_chop_conf() == (ChopConf { intpol: enabled, ..old(self).spec_chop_conf() }),
            final(self).spec_enabled() == old(self).spec_enabled(),
            w == write_of(CHOPCONF, final(self).spec_chop_conf().spec_word()),
    {
        self.chop_conf.intpol = enabled;
        RegisterWrite { register: CHOPCONF, value: self.chop_conf.to_u32() }
    }

    /// The write that selects StealthChop (voltage PWM, quiet).
    pub fn enable_stealth_chop() -> (w: RegisterWrite)
        ensures
            w == write_of(GCONF, gconf_with_spreadcycle(false).spec_word()),
    {
        let mut gconf = GConf::default();
        gconf.en_spreadcycle = false;
        RegisterWrite { register: GCONF, value: gconf.to_u32() }
    }

    /// The write that selects SpreadCycle (more torque at speed).
    pub fn enable_spread_cycle() -> (w: RegisterWrite)
        ensures
            w == write_of(GCONF, gconf_with_spreadcycle(true).spec_word()),
    {
        let mut gconf = GConf::default();
        gconf.en_spreadcycle = true;
        RegisterWrite { register: GCONF, value: gconf.to_u32() }
    }

    /// The write of `TPWMTHRS`, the `TSTEP` below which the driver leaves
    /// StealthChop for SpreadCycle (`0` keeps StealthChop).
    pub fn set_stealth_chop_threshold(tpwmthrs: u32) -> (w: RegisterWrite)
        ensures
            w == write_of(TPWMTHRS, tpwmthrs),
    {
        RegisterWrite { register: TPWMTHRS, value: tpwmthrs }
    }

    /// The write of a CoolStep configuration.
    pub fn set_coolstep(config: CoolConf) -> (w: RegisterWrite)
        ensures
            w == write_of(COOLCONF, config.spec_word()),
    {
        RegisterWrite { register: COOLCONF, value: config.to_u32() }
    }

    /// The write of `TCOOLTHRS`, the speed above which CoolStep and
    /// StallGuard are active.
    pub fn set_coolstep_threshold(tcoolthrs: u32) -> (w: RegisterWrite)
        ensures
            w == write_of(TCOOLTHRS, tcoolthrs),
    {
        RegisterWrite { register: TCOOLTHRS, value: tcoolthrs }
    }

    /// The write of the StallGuard threshold `SGTHRS`.
    pub fn set_stallguard_threshold(sgthrs: u8) -> (w: RegisterWrite)
        ensures
            w == write_of(SGTHRS, sgthrs as u32),
    {
        RegisterWrite { register: SGTHRS, value: sgthrs as u32 }
    }

    /// The StallGuard load value (`SG_RESULT`, 10 bits) of a register word.
    pub fn stallguard_result(raw: u32) -> (r: u16)
        ensures
            r == raw & 0x3FF,
    {
        assert(raw & 0x3FF <= 0x3FF) by (bit_vector);
        (raw & 0x3FF) as u16
    }

    /// The diagnostic status of a `DRV_STATUS` word.
    pub fn read_status(raw: u32) -> (s: DriverStatus)
        ensures
            s == DriverStatus::spec_decode(raw),
    {
        DriverStatus::from_u32(raw)
    }

    /// Whether the sense voltage range is the high-sensitivity one
    /// (`CHOPCONF.VSENSE`); it selects the full-scale voltage used to turn
    /// milliamps into current scales.
    pub fn vsense(&self) -> (v: bool)
        ensures
            v == self.spec_chop_conf().vsense,
    {
        self.chop_conf.vsense
    }

    /// The write of run and hold current scales; the hold delay saturates
    /// at its largest value.
    pub fn set_current(irun: u8, ihold: u8, hold_delay: u8) -> (w: RegisterWrite)
        ensures
            w == write_of(
                IHOLD_IRUN,
                (IHoldIRun { ihold, irun, iholddelay: min_u8(hold_delay, MAX_HOLD_DELAY) }).spec_word(),
            ),
    {
        let delay = if hold_delay < MAX_HOLD_DELAY { hold_delay } else { MAX_HOLD_DELAY };
        RegisterWrite {
            register: IHOLD_IRUN,
            value: IHoldIRun { ihold, irun, iholddelay: delay }.to_u32(),
        }
    }

    /// Level of the active-low `ENABLE` pin for an output stage that is
    /// `enabled` or not: high disables.
    pub fn enable_pin_high(enabled: bool) -> (high: bool)
        ensures
            high == !enabled,
    {
        !enabled
    }

    /// Records that the output stage was enabled (after the `ENABLE` pin
    /// went low) or disabled (after it went high).
    pub fn set_enabled(&mut self, enabled: bool)
        ensures
            final(self).spec_enabled() == enabled,
            final(self).spec_chop_conf() == old(self).spec_chop_conf(),
    {
        self.enabled = enabled;
    }

    /// Whether the output stage is enabled.
    pub fn is_enabled(&self) -> (b: bool)
        ensures
            b == self.spec_enabled(),
    {
        self.enabled
    }

    /// Level of the `DIR` pin: high turns forward.
    pub fn dir_pin_high(direction: MotorDirection) -> (high: bool)
        ensures
            high == (direction == MotorDirection::Forward),
    {
        match direction {
            MotorDirection::Forward => true,
            MotorDirection::Backward => false,
        }
    }
}

} // verus!
