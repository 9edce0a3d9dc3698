//! Register addresses and typed register images of the TMC2209.
//!
//! Every register the driver touches has a struct with named fields and
//! explicit `to_u32`/`from_u32` codecs following the TMC2209 datasheet
//! bit layout.
use vstd::prelude::*;

verus! {

/// General configuration (R/W).
pub const GCONF: u8 = 0x00;
/// Status flags, cleared by writing `1` (R+WC).
pub const GSTAT: u8 = 0x01;
/// Counter of successful UART write transactions (R).
pub const IFCNT: u8 = 0x02;
/// UART slave configuration (W).
pub const SLAVECONF: u8 = 0x03;
/// Driver input pin states (R).
pub const IOIN: u8 = 0x06;
/// Factory calibration (R/W).
pub const FACTORY_CONF: u8 = 0x07;
/// Hold/run current and hold delay (W).
pub const IHOLD_IRUN: u8 = 0x10;
/// Delay before switching to hold current after standstill (W).
pub const TPOWERDOWN: u8 = 0x11;
/// Measured time between steps (R).
pub const TSTEP: u8 = 0x12;
/// StealthChop to SpreadCycle switch threshold (W).
pub const TPWMTHRS: u8 = 0x13;
/// CoolStep/StallGuard enable threshold (W).
pub const TCOOLTHRS: u8 = 0x14;
/// Target velocity in UART motion mode (W).
pub const VACTUAL: u8 = 0x22;
/// StallGuard threshold (W).
pub const SGTHRS: u8 = 0x40;
/// StallGuard load value (R).
pub const SG_RESULT: u8 = 0x41;
/// CoolStep configuration (W).
pub const COOLCONF: u8 = 0x42;
/// Microstep counter (R).
pub const MSCNT: u8 = 0x6A;
/// Actual microstep sine/cosine currents (R).
pub const MSCURACT: u8 = 0x6B;
/// Chopper and microstep configuration (R/W).
pub const CHOPCONF: u8 = 0x6C;
/// Driver diagnostic status (R).
pub const DRV_STATUS: u8 = 0x6F;
/// StealthChop PWM configuration (R/W).
pub const PWMCONF: u8 = 0x70;
/// Actual PWM amplitude (R).
pub const PWM_SCALE: u8 = 0x71;
/// Automatically tuned PWM parameters (R).
pub const PWM_AUTO: u8 = 0x72;

/// `true` iff bit `pos` of `value` is set.
pub open spec fn bit_of(value: u32, pos: u32) -> bool {
    value & (1u32 << pos) != 0
}

/// The value `1` for `true`, `0` for `false`.
pub open spec fn flag(b: bool) -> u32 {
    if b { 1 } else { 0 }
}

proof fn lemma_masks_u8(x: u8)
    ensures
        x & 0xF <= 15,
        x & 0x7 <= 7,
        x & 0x3 <= 3,
{
    assert(x & 0xF <= 15 && x & 0x7 <= 7 && x & 0x3 <= 3) by (bit_vector);
}

fn flag_u32(b: bool) -> (r: u32)
    ensures
        r == flag(b),
{
    if b { 1 } else { 0 }
}

/// Microstep resolution (`MRES` field of `CHOPCONF`).
#[derive(Debug, Clone, Copy, PartialEq, Eq, Structural)]
pub enum MicrostepResolution {
    Full256,
    Full128,
    Full64,
    Full32,
    Full16,
    Full8,
    Full4,
    Full2,
    FullStep,
}

impl MicrostepResolution {
    /// Encoded `MRES` value of the resolution.
    pub open spec fn spec_mres(self) -> u8 {
        match self {
            MicrostepResolution::Full256 => 0,
            MicrostepResolution::Full128 => 1,
            MicrostepResolution::Full64 => 2,
            MicrostepResolution::Full32 => 3,
            MicrostepResolution::Full16 => 4,
            MicrostepResolution::Full8 => 5,
            MicrostepResolution::Full4 => 6,
            MicrostepResolution::Full2 => 7,
            MicrostepResolution::FullStep => 8,
        }
    }

    /// Resolution decoded from an `MRES` value; the reserved values 9..=255
    /// decode to full step.
    pub open spec fn spec_from_mres(value: u8) -> MicrostepResolution {
        if value == 0 {
            MicrostepResolution::Full256
        } else if value == 1 {
            MicrostepResolution::Full128
        } else if value == 2 {
            MicrostepResolution::Full64
        } else if value == 3 {
            MicrostepResolution::Full32
        } else if value == 4 {
            MicrostepResolution::Full16
        } else if value == 5 {
            MicrostepResolution::Full8
        } else if value == 6 {
            MicrostepResolution::Full4
        } else if value == 7 {
            MicrostepResolution::Full2
        } else {
            MicrostepResolution::FullStep
        }
    }

    /// Value of the `MRES` field (bits 24..=27 of `CHOPCONF`).
    pub fn mres_value(self) -> (v: u8)
        ensures
            v == self.spec_mres(),
            v <= 8,
    {
        match self {
            MicrostepResolution::Full256 => 0,
            MicrostepResolution::Full128 => 1,
            MicrostepResolution::Full64 => 2,
            MicrostepResolution::Full32 => 3,
            MicrostepResolution::Full16 => 4,
            MicrostepResolution::Full8 => 5,
            MicrostepResolution::Full4 => 6,
            MicrostepResolution::Full2 => 7,
            MicrostepResolution::FullStep => 8,
        }
    }

    /// Number of microsteps per full motor step: `256 >> MRES`.
    pub fn microsteps_per_step(self) -> (n: u16)
        ensures
            n as int == vstd::arithmetic::power2::pow2((8 - self.spec_mres()) as nat),
    {
        proof {
            vstd::arithmetic::power2::lemma2_to64();
        }
        match self {
            MicrostepResolution::Full256 => 256,
            MicrostepResolution::Full128 => 128,
            MicrostepResolution::Full64 => 64,
            MicrostepResolution::Full32 => 32,
            MicrostepResolution::Full16 => 16,
            MicrostepResolution::Full8 => 8,
            MicrostepResolution::Full4 => 4,
            MicrostepResolution::Full2 => 2,
            MicrostepResolution::FullStep => 1,
        }
    }

    /// Decodes an `MRES` value; reserved values (9..) are treated as full
    /// step, the safest default.
    pub fn from_mres_value(value: u8) -> (m: Self)
        ensures
            m == Self::spec_from_mres(value),
    {
        match value {
            0 => MicrostepResolution::Full256,
            1 => MicrostepResolution::Full128,
            2 => MicrostepResolution::Full64,
            3 => MicrostepResolution::Full32,
            4 => MicrostepResolution::Full16,
            5 => MicrostepResolution::Full8,
            6 => MicrostepResolution::Full4,
            7 => MicrostepResolution::Full2,
            _ => MicrostepResolution::FullStep,
        }
    }
}

/// Decoding an encoded resolution gives the resolution back, and encoding
/// a decoded value gives the value back whenever it is not reserved.
pub proof fn lemma_mres_round_trip(m: MicrostepResolution, value: u8)
    ensures
        MicrostepResolution::spec_from_mres(m.spec_mres()) == m,
        value <= 8 ==> MicrostepResolution::spec_from_mres(value).spec_mres() == value,
{
}


/// Resolution law: each resolution is encoded so that the driver makes
/// `pow2(8 - MRES)` microsteps per full step, and that count is the one
/// the resolution's name gives (`FullN` makes `N`, `FullStep` makes one);
/// in particular `MRES` 5 is 1/8 and `MRES` 6 is 1/4 microstepping, as in
/// the TMC2209 datasheet.
pub proof fn lemma_resolution_names_its_microsteps(m: MicrostepResolution)
    ensures
        m.spec_mres() <= 8,
        vstd::arithmetic::power2::pow2((8 - MicrostepResolution::Full256.spec_mres()) as nat) == 256,
        vstd::arithmetic::power2::pow2((8 - MicrostepResolution::Full128.spec_mres()) as nat) == 128,
        vstd::arithmetic::power2::pow2((8 - MicrostepResolution::Full64.spec_mres()) as nat) == 64,
        vstd::arithmetic::power2::pow2((8 - MicrostepResolution::Full32.spec_mres()) as nat) == 32,
        vstd::arithmetic::power2::pow2((8 - MicrostepResolution::Full16.spec_mres()) as nat) == 16,
        vstd::arithmetic::power2::pow2((8 - MicrostepResolution::Full8.spec_mres()) as nat) == 8,
        vstd::arithmetic::power2::pow2((8 - MicrostepResolution::Full4.spec_mres()) as nat) == 4,
        vstd::arithmetic::power2::pow2((8 - MicrostepResolution::Full2.spec_mres()) as nat) == 2,
        vstd::arithmetic::power2::pow2((8 - MicrostepResolution::FullStep.spec_mres()) as nat) == 1,
        MicrostepResolution::spec_from_mres(5) == MicrostepResolution::Full8,
        MicrostepResolution::spec_from_mres(6) == MicrostepResolution::Full4,
{
    vstd::arithmetic::power2::lemma2_to64();
}

/// Register `GCONF`: general driver configuration.
#[derive(Debug, Clone, Copy, PartialEq, Eq, Structural)]
pub struct GConf {
    pub i_scale_analog: bool,
    pub internal_rsense: bool,
    pub en_spreadcycle: bool,
    pub shaft: bool,
    pub index_otpw: bool,
    pub index_step: bool,
    pub pdn_disable: bool,
    pub mstep_reg_select: bool,
    pub multistep_filt: bool,
}

impl Default for GConf {
    /// UART control defaults: `PDN_UART` pull-up off, microstep resolution
    /// from `CHOPCONF`, step filtering on, StealthChop.
    fn default() -> (g: Self)
        ensures
            g == (GConf {
                i_scale_analog: false,
                internal_rsense: false,
                en_spreadcycle: false,
                shaft: false,
                index_otpw: false,
                index_step: false,
                pdn_disable: true,
                mstep_reg_select: true,
                multistep_filt: true,
            }),
    {
        GConf {
            i_scale_analog: false,
            internal_rsense: false,
            en_spreadcycle: false,
            shaft: false,
            index_otpw: false,
            index_step: false,
            pdn_disable: true,
            mstep_reg_select: true,
            multistep_filt: true,
        }
    }
}

impl GConf {
    /// Register word: field `k` of the datasheet order sits in bit `k`.
    pub open spec fn spec_word(self) -> u32 {
        flag(self.i_scale_analog) | (flag(self.internal_rsense) << 1u32) | (flag(self.en_spreadcycle)
            << 2u32) | (flag(self.shaft) << 3u32) | (flag(self.index_otpw) << 4u32) | (flag(
            self.index_step,
        ) << 5u32) | (flag(self.pdn_disable) << 6u32) | (flag(self.mstep_reg_select) << 7u32) | (
        flag(self.multistep_filt) << 8u32)
    }

    /// Fields read back from a register word.
    pub open spec fn spec_decode(value: u32) -> GConf {
        GConf {
            i_scale_analog: bit_of(value, 0),
            internal_rsense: bit_of(value, 1),
            en_spreadcycle: bit_of(value, 2),
            shaft: bit_of(value, 3),
            index_otpw: bit_of(value, 4),
            index_step: bit_of(value, 5),
            pdn_disable: bit_of(value, 6),
            mstep_reg_select: bit_of(value, 7),
            multistep_filt: bit_of(value, 8),
        }
    }

    /// Serialises the register for a UART write.
    pub fn to_u32(self) -> (r: u32)
        ensures
            r == self.spec_word(),
            bit_of(r, 0) == self.i_scale_analog,
            bit_of(r, 1) == self.internal_rsense,
            bit_of(r, 2) == self.en_spreadcycle,
            bit_of(r, 3) == self.shaft,
            bit_of(r, 4) == self.index_otpw,
            bit_of(r, 5) == self.index_step,
            bit_of(r, 6) == self.pdn_disable,
            bit_of(r, 7) == self.mstep_reg_select,
            bit_of(r, 8) == self.multistep_filt,
            r >> 9u32 == 0,
    {
        let r = flag_u32(self.i_scale_analog) | (flag_u32(self.internal_rsense) << 1u32) | (
        flag_u32(self.en_spreadcycle) << 2u32) | (flag_u32(self.shaft) << 3u32) | (flag_u32(
            self.index_otpw,
        ) << 4u32) | (flag_u32(self.index_step) << 5u32) | (flag_u32(self.pdn_disable) << 6u32)
            | (flag_u32(self.mstep_reg_select) << 7u32) | (flag_u32(self.multistep_filt) << 8u32);
        proof {
            lemma_gconf_bits(self, r);
        }
        r
    }

    /// Parses a register word read from the driver; bits above 8 are ignored.
    pub fn from_u32(value: u32) -> (g: Self)
        ensures
            g == Self::spec_decode(value),
    {
        GConf {
            i_scale_analog: value & (1u32 << 0u32) != 0,
            internal_rsense: value & (1u32 << 1u32) != 0,
            en_spreadcycle: value & (1u32 << 2u32) != 0,
            shaft: value & (1u32 << 3u32) != 0,
            index_otpw: value & (1u32 << 4u32) != 0,
            index_step: value & (1u32 << 5u32) != 0,
            pdn_disable: value & (1u32 << 6u32) != 0,
            mstep_reg_select: value & (1u32 << 7u32) != 0,
            multistep_filt: value & (1u32 << 8u32) != 0,
        }
    }
}

proof fn lemma_gconf_bits(g: GConf, r: u32)
    requires
        r == g.spec_word(),
    ensures
        bit_of(r, 0) == g.i_scale_analog,
        bit_of(r, 1) == g.internal_rsense,
        bit_of(r, 2) == g.en_spreadcycle,
        bit_of(r, 3) == g.shaft,
        bit_of(r, 4) == g.index_otpw,
        bit_of(r, 5) == g.index_step,
        bit_of(r, 6) == g.pdn_disable,
        bit_of(r, 7) == g.mstep_reg_select,
        bit_of(r, 8) == g.multistep_filt,
        r >> 9u32 == 0,
{
    let (a, b, c, d, e, f, h, i, j) = (
        g.i_scale_analog,
        g.internal_rsense,
        g.en_spreadcycle,
        g.shaft,
        g.index_otpw,
        g.index_step,
        g.pdn_disable,
        g.mstep_reg_select,
        g.multistep_filt,
    );
    assert(bit_of(r, 0) == a && bit_of(r, 1) == b && bit_of(r, 2) == c && bit_of(r, 3) == d
        && bit_of(r, 4) == e && bit_of(r, 5) == f && bit_of(r, 6) == h && bit_of(r, 7) == i
        && bit_of(r, 8) == j && r >> 9u32 == 0) by (bit_vector)
        requires
            r == (flag(a) | (flag(b) << 1u32) | (flag(c) << 2u32) | (flag(d) << 3u32) | (flag(e)
                << 4u32) | (flag(f) << 5u32) | (flag(h) << 6u32) | (flag(i) << 7u32) | (flag(j)
                << 8u32)),
    ;
}

/// Decoding an encoded `GCONF` gives the same configuration back, and
/// encoding a decoded word keeps exactly its nine low bits.
pub proof fn lemma_gconf_round_trip(g: GConf, value: u32)
    ensures
        GConf::spec_decode(g.spec_word()) == g,
        GConf::spec_decode(value).spec_word() == value & 0x1FFu32,
{
    lemma_gconf_bits(g, g.spec_word());
    let d = GConf::spec_decode(value);
    let w = d.spec_word();
    lemma_gconf_bits(d, w);
    assert(w == value & 0x1FFu32) by (bit_vector)
        requires
            bit_of(w, 0) == bit_of(value, 0),
            bit_of(w, 1) == bit_of(value, 1),
            bit_of(w, 2) == bit_of(value, 2),
            bit_of(w, 3) == bit_of(value, 3),
            bit_of(w, 4) == bit_of(value, 4),
            bit_of(w, 5) == bit_of(value, 5),
            bit_of(w, 6) == bit_of(value, 6),
            bit_of(w, 7) == bit_of(value, 7),
            bit_of(w, 8) == bit_of(value, 8),
            w >> 9u32 == 0,
    ;
}


/// Register `GSTAT`: sticky status flags, cleared by writing `1`.
#[derive(Debug, Clone, Copy, PartialEq, Eq, Structural)]
pub struct GStat {
    pub reset: bool,
    pub drv_err: bool,
    pub uv_cp: bool,
}

impl GStat {
    /// Parses the register value (bits 0, 1, 2).
    pub fn from_u32(value: u32) -> (g: Self)
        ensures
            g == (GStat {
                reset: bit_of(value, 0),
                drv_err: bit_of(value, 1),
                uv_cp: bit_of(value, 2),
            }),
    {
        GStat {
            reset: value & (1u32 << 0u32) != 0,
            drv_err: value & (1u32 << 1u32) != 0,
            uv_cp: value & (1u32 << 2u32) != 0,
        }
    }

    /// The word that clears all three flags.
    pub fn clear_all() -> (w: u32)
        ensures
            w == 0b111,
            bit_of(w, 0) && bit_of(w, 1) && bit_of(w, 2),
    {
        assert(bit_of(0b111u32, 0) && bit_of(0b111u32, 1) && bit_of(0b111u32, 2)) by (bit_vector);
        0b111
    }
}

/// Largest current scale value (`CS`) of `IHOLD_IRUN`.
pub const MAX_CURRENT_SCALE: u8 = 31;
/// Largest `IHOLDDELAY` value.
pub const MAX_HOLD_DELAY: u8 = 15;

/// `min(a, b)` on bytes.
pub open spec fn min_u8(a: u8, b: u8) -> u8 {
    if a < b { a } else { b }
}

/// Register `IHOLD_IRUN`: hold current, run current and hold delay.
#[derive(Debug, Clone, Copy, PartialEq, Eq, Structural)]
pub struct IHoldIRun {
    pub ihold: u8,
    pub irun: u8,
    pub iholddelay: u8,
}

impl IHoldIRun {
    /// Register word, fields saturated at their largest value.
    pub open spec fn spec_word(self) -> u32 {
        (min_u8(self.ihold, MAX_CURRENT_SCALE) as u32) | ((min_u8(self.irun, MAX_CURRENT_SCALE)
            as u32) << 8u32) | ((min_u8(self.iholddelay, MAX_HOLD_DELAY) as u32) << 16u32)
    }

    /// Serialises the register (`IHOLD` bits 0-4, `IRUN` bits 8-12,
    /// `IHOLDDELAY` bits 16-19); out-of-range fields saturate at their
    /// largest value.
    pub fn to_u32(self) -> (r: u32)
        ensures
            r == self.spec_word(),
            r & 0x1F == min_u8(self.ihold, MAX_CURRENT_SCALE) as u32,
            (r >> 8u32) & 0x1F == min_u8(self.irun, MAX_CURRENT_SCALE) as u32,
            (r >> 16u32) & 0xF == min_u8(self.iholddelay, MAX_HOLD_DELAY) as u32,
            r & !0x000F_1F1Fu32 == 0,
    {
        let h: u32 = if self.ihold < MAX_CURRENT_SCALE { self.ihold as u32 } else { 31 };
        let i: u32 = if self.irun < MAX_CURRENT_SCALE { self.irun as u32 } else { 31 };
        let d: u32 = if self.iholddelay < MAX_HOLD_DELAY { self.iholddelay as u32 } else { 15 };
        let r = h | (i << 8u32) | (d << 16u32);
        assert(r & 0x1F == h && (r >> 8u32) & 0x1F == i && (r >> 16u32) & 0xF == d && r
            & !0x000F_1F1Fu32 == 0) by (bit_vector)
            requires
                h <= 31,
                i <= 31,
                d <= 15,
                r == h | (i << 8u32) | (d << 16u32),
        ;
        r
    }
}

/// Register `CHOPCONF`: chopper timing and microstep resolution.
#[derive(Debug, Clone, Copy, PartialEq, Eq, Structural)]
pub struct ChopConf {
    pub toff: u8,
    pub hstrt: u8,
    pub hend: u8,
    pub tbl: u8,
    pub vsense: bool,
    pub mres: MicrostepResolution,
    pub intpol: bool,
}

impl Default for ChopConf {
    /// `TOFF=3, HSTRT=5, HEND=2, TBL=2`, 1/16 microstepping with
    /// interpolation.
    fn default() -> (c: Self)
        ensures
            c == (ChopConf {
                toff: 3,
                hstrt: 5,
                hend: 2,
                tbl: 2,
                vsense: false,
                mres: MicrostepResolution::Full16,
                intpol: true,
            }),
    {
        ChopConf {
            toff: 3,
            hstrt: 5,
            hend: 2,
            tbl: 2,
            vsense: false,
            mres: MicrostepResolution::Full16,
            intpol: true,
        }
    }
}

/// Bits of `CHOPCONF` that this register image carries.
pub const CHOPCONF_MASK: u32 = 0x1F03_87FF;

impl ChopConf {
    /// Every field within the width of its register bit field.
    pub open spec fn fits(self) -> bool {
        &&& self.toff <= 15
        &&& self.hstrt <= 7
        &&& self.hend <= 15
        &&& self.tbl <= 3
    }

    /// Fields read back from a register word.
    pub open spec fn spec_decode(value: u32) -> ChopConf {
        ChopConf {
            toff: (value & 0xF) as u8,
            hstrt: ((value >> 4u32) & 0x7) as u8,
            hend: ((value >> 7u32) & 0xF) as u8,
            tbl: ((value >> 15u32) & 0x3) as u8,
            vsense: bit_of(value, 17),
            mres: MicrostepResolution::spec_from_mres(((value >> 24u32) & 0xF) as u8),
            intpol: bit_of(value, 28),
        }
    }

    /// Register word; each field truncated to its bit width.
    pub open spec fn spec_word(self) -> u32 {
        ((self.toff & 0xF) as u32) | (((self.hstrt & 0x7) as u32) << 4u32) | (((self.hend & 0xF)
            as u32) << 7u32) | (((self.tbl & 0x3) as u32) << 15u32) | (flag(self.vsense) << 17u32)
            | ((self.mres.spec_mres() as u32) << 24u32) | (flag(self.intpol) << 28u32)
    }

    /// Serialises the register; each field is truncated to its bit width.
    pub fn to_u32(self) -> (r: u32)
        ensures
            r == self.spec_word(),
            r & 0xF == (self.toff & 0xF) as u32,
            (r >> 4u32) & 0x7 == (self.hstrt & 0x7) as u32,
            (r >> 7u32) & 0xF == (self.hend & 0xF) as u32,
            (r >> 15u32) & 0x3 == (self.tbl & 0x3) as u32,
            bit_of(r, 17) == self.vsense,
            (r >> 24u32) & 0xF == self.mres.spec_mres() as u32,
            bit_of(r, 28) == self.intpol,
            r & !CHOPCONF_MASK == 0,
    {
        proof {
            lemma_masks_u8(self.toff);
            lemma_masks_u8(self.hstrt);
            lemma_masks_u8(self.hend);
            lemma_masks_u8(self.tbl);
        }
        let t = (self.toff & 0xF) as u32;
        let hs = (self.hstrt & 0x7) as u32;
        let he = (self.hend & 0xF) as u32;
        let tb = (self.tbl & 0x3) as u32;
        let v = flag_u32(self.vsense);
        let m = self.mres.mres_value() as u32;
        let ip = flag_u32(self.intpol);
        let r = t | (hs << 4u32) | (he << 7u32) | (tb << 15u32) | (v << 17u32) | (m << 24u32) | (ip
            << 28u32);
        let a = self.vsense;
        let b = self.intpol;
        assert(r & 0xF == t && (r >> 4u32) & 0x7 == hs && (r >> 7u32) & 0xF == he && (r >> 15u32)
            & 0x3 == tb && bit_of(r, 17) == a && (r >> 24u32) & 0xF == m && bit_of(r, 28) == b && r
            & !0x1F03_87FFu32 == 0) by (bit_vector)
            requires
                t <= 15,
                hs <= 7,
                he <= 15,
                tb <= 3,
                v == flag(a),
                m <= 8,
                ip == flag(b),
                r == t | (hs << 4u32) | (he << 7u32) | (tb << 15u32) | (v << 17u32) | (m << 24u32)
                    | (ip << 28u32),
        ;
        assert((self.toff & 0xF) as u32 == t && (self.hstrt & 0x7) as u32 == hs && (self.hend
            & 0xF) as u32 == he && (self.tbl & 0x3) as u32 == tb);
        r
    }

    /// Parses a register word read from the driver.
    pub fn from_u32(value: u32) -> (c: Self)
        ensures
            c == Self::spec_decode(value),
            c.fits(),
    {
        let c = ChopConf {
            toff: (value & 0xF) as u8,
            hstrt: ((value >> 4u32) & 0x7) as u8,
            hend: ((value >> 7u32) & 0xF) as u8,
            tbl: ((value >> 15u32) & 0x3) as u8,
            vsense: value & (1u32 << 17u32) != 0,
            mres: MicrostepResolution::from_mres_value(((value >> 24u32) & 0xF) as u8),
            intpol: value & (1u32 << 28u32) != 0,
        };
        assert(value & 0xF <= 15 && (value >> 4u32) & 0x7 <= 7 && (value >> 7u32) & 0xF <= 15 && (
        value >> 15u32) & 0x3 <= 3) by (bit_vector);
        c
    }
}

/// A `CHOPCONF` image whose fields fit their bit widths survives a write
/// and read back unchanged.
pub proof fn lemma_chopconf_round_trip(c: ChopConf, r: u32)
    requires
        c.fits(),
        r & 0xF == (c.toff & 0xF) as u32,
        (r >> 4u32) & 0x7 == (c.hstrt & 0x7) as u32,
        (r >> 7u32) & 0xF == (c.hend & 0xF) as u32,
        (r >> 15u32) & 0x3 == (c.tbl & 0x3) as u32,
        bit_of(r, 17) == c.vsense,
        (r >> 24u32) & 0xF == c.mres.spec_mres() as u32,
        bit_of(r, 28) == c.intpol,
    ensures
        ChopConf::spec_decode(r) == c,
{
    let (t, hs, he, tb) = (c.toff, c.hstrt, c.hend, c.tbl);
    assert(t & 0xF == t && hs & 0x7 == hs && he & 0xF == he && tb & 0x3 == tb) by (bit_vector)
        requires
            t <= 15,
            hs <= 7,
            he <= 15,
            tb <= 3,
    ;
    lemma_mres_round_trip(c.mres, 0);
}

/// Register `COOLCONF`: CoolStep load-adaptive current control.
#[derive(Debug, Clone, Copy, PartialEq, Eq, Structural)]
pub struct CoolConf {
    pub semin: u8,
    pub seup: u8,
    pub semax: u8,
    pub sedn: u8,
    pub seimin: bool,
}

impl Default for CoolConf {
    /// CoolStep off (`SEMIN = 0`) until configured.
    fn default() -> (c: Self)
        ensures
            c == (CoolConf { semin: 0, seup: 0, semax: 0, sedn: 0, seimin: false }),
    {
        CoolConf { semin: 0, seup: 0, semax: 0, sedn: 0, seimin: false }
    }
}

impl CoolConf {
    /// Register word; each field truncated to its bit width.
    pub open spec fn spec_word(self) -> u32 {
        ((self.semin & 0xF) as u32) | (((self.seup & 0x3) as u32) << 5u32) | (((self.semax & 0xF)
            as u32) << 8u32) | (((self.sedn & 0x3) as u32) << 13u32) | (flag(self.seimin) << 15u32)
    }

    /// Serialises the register (`SEMIN` 0-3, `SEUP` 5-6, `SEMAX` 8-11,
    /// `SEDN` 13-14, `SEIMIN` 15); each field is truncated to its width.
    pub fn to_u32(self) -> (r: u32)
        ensures
            r == self.spec_word(),
            r & 0xF == (self.semin & 0xF) as u32,
            (r >> 5u32) & 0x3 == (self.seup & 0x3) as u32,
            (r >> 8u32) & 0xF == (self.semax & 0xF) as u32,
            (r >> 13u32) & 0x3 == (self.sedn & 0x3) as u32,
            bit_of(r, 15) == self.seimin,
            r & !0xEF6Fu32 == 0,
    {
        proof {
            lemma_masks_u8(self.semin);
            lemma_masks_u8(self.seup);
            lemma_masks_u8(self.semax);
            lemma_masks_u8(self.sedn);
        }
        let a = (self.semin & 0xF) as u32;
        let b = (self.seup & 0x3) as u32;
        let c = (self.semax & 0xF) as u32;
        let d = (self.sedn & 0x3) as u32;
        let e = flag_u32(self.seimin);
        let s = self.seimin;
        let r = a | (b << 5u32) | (c << 8u32) | (d << 13u32) | (e << 15u32);
        assert(r & 0xF == a && (r >> 5u32) & 0x3 == b && (r >> 8u32) & 0xF == c && (r >> 13u32)
            & 0x3 == d && bit_of(r, 15) == s && r & !0xEF6Fu32 == 0) by (bit_vector)
            requires
                a <= 15,
                b <= 3,
                c <= 15,
                d <= 3,
                e == flag(s),
                r == a | (b << 5u32) | (c << 8u32) | (d << 13u32) | (e << 15u32),
        ;
        r
    }
}

/// Register `PWMCONF`: StealthChop voltage PWM configuration.
#[derive(Debug, Clone, Copy, PartialEq, Eq, Structural)]
pub struct PwmConf {
    pub pwm_ofs: u8,
    pub pwm_grad: u8,
    pub pwm_freq: u8,
    pub pwm_autoscale: bool,
    pub pwm_autograd: bool,
    pub pwm_reg: u8,
    pub freewheel: u8,
}

impl Default for PwmConf {
    /// Vendor recommended StealthChop defaults.
    fn default() -> (p: Self)
        ensures
            p == (PwmConf {
                pwm_ofs: 36,
                pwm_grad: 14,
                pwm_freq: 1,
                pwm_autoscale: true,
                pwm_autograd: true,
                pwm_reg: 8,
                freewheel: 0,
            }),
    {
        PwmConf {
            pwm_ofs: 36,
            pwm_grad: 14,
            pwm_freq: 1,
            pwm_autoscale: true,
            pwm_autograd: true,
            pwm_reg: 8,
            freewheel: 0,
        }
    }
}

impl PwmConf {
    /// Register word; each field truncated to its bit width.
    pub open spec fn spec_word(self) -> u32 {
        (self.pwm_ofs as u32) | ((self.pwm_grad as u32) << 8u32) | (((self.pwm_freq & 0x3) as u32)
            << 16u32) | (flag(self.pwm_autoscale) << 18u32) | (flag(self.pwm_autograd) << 19u32) | (
        ((self.freewheel & 0x3) as u32) << 20u32) | (((self.pwm_reg & 0xF) as u32) << 24u32)
    }

    /// Serialises the register (`PWM_OFS` 0-7, `PWM_GRAD` 8-15, `PWM_FREQ`
    /// 16-17, `PWM_AUTOSCALE` 18, `PWM_AUTOGRAD` 19, `FREEWHEEL` 20-21,
    /// `PWM_REG` 24-27).
    pub fn to_u32(self) -> (r: u32)
        ensures
            r == self.spec_word(),
            r & 0xFF == self.pwm_ofs as u32,
            (r >> 8u32) & 0xFF == self.pwm_grad as u32,
            (r >> 16u32) & 0x3 == (self.pwm_freq & 0x3) as u32,
            bit_of(r, 18) == self.pwm_autoscale,
            bit_of(r, 19) == self.pwm_autograd,
            (r >> 20u32) & 0x3 == (self.freewheel & 0x3) as u32,
            (r >> 24u32) & 0xF == (self.pwm_reg & 0xF) as u32,
            r & !0x0F3F_FFFFu32 == 0,
    {
        proof {
            lemma_masks_u8(self.pwm_freq);
            lemma_masks_u8(self.freewheel);
            lemma_masks_u8(self.pwm_reg);
        }
        let o = self.pwm_ofs as u32;
        let g = self.pwm_grad as u32;
        let f = (self.pwm_freq & 0x3) as u32;
        let sa = self.pwm_autoscale;
        let ga = self.pwm_autograd;
        let a = flag_u32(sa);
        let b = flag_u32(ga);
        let w = (self.freewheel & 0x3) as u32;
        let rg = (self.pwm_reg & 0xF) as u32;
        let r = o | (g << 8u32) | (f << 16u32) | (a << 18u32) | (b << 19u32) | (w << 20u32) | (rg
            << 24u32);
        assert(r & 0xFF == o && (r >> 8u32) & 0xFF == g && (r >> 16u32) & 0x3 == f && bit_of(r, 18)
            == sa && bit_of(r, 19) == ga && (r >> 20u32) & 0x3 == w && (r >> 24u32) & 0xF == rg && r
            & !0x0F3F_FFFFu32 == 0) by (bit_vector)
            requires
                o <= 255,
                g <= 255,
                f <= 3,
                a == flag(sa),
                b == flag(ga),
                w <= 3,
                rg <= 15,
                r == o | (g << 8u32) | (f << 16u32) | (a << 18u32) | (b << 19u32) | (w << 20u32)
                    | (rg << 24u32),
        ;
        r
    }
}

} // verus!
