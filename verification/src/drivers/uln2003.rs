//! Phase sequencing of a 28BYJ-48 stepper driven through a ULN2003.
//!
//! The ULN2003 has no STEP/DIR input: every step applies the next coil
//! pattern of a fixed sequence to the four inputs `IN1..IN4`. This module
//! holds the sequences and the sequencing state; writing the pattern to the
//! pins is left to the caller.
use crate::types::MotorDirection;
use vstd::prelude::*;

verus! {

/// Stepping mode of the motor.
#[derive(Debug, Clone, Copy, PartialEq, Eq, Structural)]
pub enum StepMode {
    /// Full step: 4 patterns, two coils energised at a time.
    Full,
    /// Half step: 8 patterns alternating one and two coils.
    Half,
}

/// Coil patterns of a mode (bit `k` drives input `IN(k+1)`).
pub open spec fn sequence_of(mode: StepMode) -> Seq<u8> {
    match mode {
        StepMode::Full => seq![0b0011u8, 0b0110u8, 0b1100u8, 0b1001u8],
        StepMode::Half => seq![
            0b0001u8,
            0b0011u8,
            0b0010u8,
            0b0110u8,
            0b0100u8,
            0b1100u8,
            0b1000u8,
            0b1001u8,
        ],
    }
}

impl StepMode {
    /// The coil patterns of this mode, in stepping order.
    pub fn sequence(self) -> (s: Vec<u8>)
        ensures
            s@ == sequence_of(self),
    {
        let s = match self {
            StepMode::Full => vec![0b0011u8, 0b0110u8, 0b1100u8, 0b1001u8],
            StepMode::Half => vec![
                0b0001u8,
                0b0011u8,
                0b0010u8,
                0b0110u8,
                0b0100u8,
                0b1100u8,
                0b1000u8,
                0b1001u8,
            ],
        };
        assert(s@ =~= sequence_of(self));
        s
    }
}

/// The pattern with every energised coil moved on to the next coil
/// (`IN4` wraps round to `IN1`).
pub open spec fn rotate_coils(p: u8) -> u8 {
    ((p << 1u8) | (p >> 3u8)) & 0x0Fu8
}

/// A full step from `a` to `b`: two neighbouring coils, moved on by one.
spec fn full_step_ok(a: u8, b: u8) -> bool {
    a < 16 && a & b != 0 && coil_count(a) == 2 && b == rotate_coils(a)
}

/// A half step from `a` to `b`: one coil switched, one coil kept.
spec fn half_step_ok(a: u8, b: u8, single: bool) -> bool {
    a < 16 && a & b != 0 && coil_count(a ^ b) == 1 && (coil_count(a) == 1) == single
}

proof fn lemma_full_patterns()
    by (bit_vector)
    ensures
        full_step_ok(0b0011u8, 0b0110u8),
        full_step_ok(0b0110u8, 0b1100u8),
        full_step_ok(0b1100u8, 0b1001u8),
        full_step_ok(0b1001u8, 0b0011u8),
        0b0011u8 & 1u8 != 0 && 0b0011u8 & 8u8 == 0 && 0b0110u8 & 2u8 != 0,
{
}

proof fn lemma_half_patterns()
    by (bit_vector)
    ensures
        half_step_ok(0b0001u8, 0b0011u8, true),
        half_step_ok(0b0011u8, 0b0010u8, false),
        half_step_ok(0b0010u8, 0b0110u8, true),
        half_step_ok(0b0110u8, 0b0100u8, false),
        half_step_ok(0b0100u8, 0b1100u8, true),
        half_step_ok(0b1100u8, 0b1000u8, false),
        half_step_ok(0b1000u8, 0b1001u8, true),
        half_step_ok(0b1001u8, 0b0001u8, false),
        rotate_coils(0b0001u8) == 0b0010u8,
        rotate_coils(0b0010u8) == 0b0100u8,
        rotate_coils(0b0100u8) == 0b1000u8,
        rotate_coils(0b1000u8) == 0b0001u8,
        0b0001u8 & 1u8 != 0 && 0b0001u8 & 8u8 == 0 && 0b0011u8 & 2u8 != 0,
{
}

/// Sequence law: the patterns drive the four coils only; consecutive
/// patterns (cyclically) share an energised coil, so the rotor is always
/// held; the sequence starts on `IN1` and turns towards `IN2`. In full
/// step every pattern energises two neighbouring coils and the next one
/// is the same pair moved on by one coil. In half step consecutive
/// patterns differ in exactly one coil, single coils (even positions)
/// alternate with pairs, and each single coil is followed two patterns
/// later by the next coil.
pub proof fn lemma_sequences_turn_the_rotor(mode: StepMode, i: int)
    requires
        0 <= i < sequence_of(mode).len(),
    ensures
        ({
            let p = sequence_of(mode);
            let n = p.len() as int;
            let next = p[(i + 1) % n];
            &&& p[i] < 16
            &&& p[i] & next != 0
            &&& p[0] & 1u8 != 0 && p[0] & 8u8 == 0 && p[1] & 2u8 != 0
            &&& mode == StepMode::Full ==> coil_count(p[i]) == 2 && next == rotate_coils(p[i])
            &&& mode == StepMode::Half ==> coil_count(p[i] ^ next) == 1 && (coil_count(p[i]) == 1
                <==> i % 2 == 0) && (i % 2 == 0 ==> p[(i + 2) % n] == rotate_coils(p[i]))
        }),
{
    let p = sequence_of(mode);
    match mode {
        StepMode::Full => {
            lemma_full_patterns();
            assert(p[0] == 0b0011u8 && p[1] == 0b0110u8 && p[2] == 0b1100u8 && p[3] == 0b1001u8);
            assert(i == 0 || i == 1 || i == 2 || i == 3);
        },
        StepMode::Half => {
            lemma_half_patterns();
            assert(p[0] == 0b0001u8 && p[1] == 0b0011u8 && p[2] == 0b0010u8 && p[3] == 0b0110u8);
            assert(p[4] == 0b0100u8 && p[5] == 0b1100u8 && p[6] == 0b1000u8 && p[7] == 0b1001u8);
            assert(0 <= i < 8);
        },
    }
}

/// Levels of `IN1..IN4` for a pattern (`IN1` is the least significant bit).
pub open spec fn pattern_levels_spec(pattern: u8) -> [bool; 4] {
    [pattern & 1 != 0, pattern & 2 != 0, pattern & 4 != 0, pattern & 8 != 0]
}

/// Levels of `IN1..IN4` for a pattern.
pub fn pattern_levels(pattern: u8) -> (l: [bool; 4])
    ensures
        l == pattern_levels_spec(pattern),
{
    [pattern & 1 != 0, pattern & 2 != 0, pattern & 4 != 0, pattern & 8 != 0]
}

/// Index after one step in `direction` on a sequence of `len` patterns.
pub open spec fn next_index(index: nat, len: nat, direction: MotorDirection) -> nat {
    match direction {
        MotorDirection::Forward => ((index as int + 1) % (len as int)) as nat,
        MotorDirection::Backward => ((index as int + len as int - 1) % (len as int)) as nat,
    }
}

/// Phase sequencing state of one ULN2003 motor.
#[derive(Debug, Clone, Copy, PartialEq, Eq)]
pub struct PhaseSequencer {
    mode: StepMode,
    index: usize,
    direction: MotorDirection,
    enabled: bool,
}

impl PhaseSequencer {
    /// Current mode.
    pub closed spec fn spec_mode(self) -> StepMode {
        self.mode
    }

    /// Position in the current mode's sequence.
    pub closed spec fn spec_index(self) -> nat {
        self.index as nat
    }

    /// Direction of the next step.
    pub closed spec fn spec_direction(self) -> MotorDirection {
        self.direction
    }

    /// Whether steps are applied.
    pub closed spec fn spec_enabled(self) -> bool {
        self.enabled
    }

    /// The index points into the sequence of the mode.
    pub closed spec fn wf(self) -> bool {
        self.index < sequence_of(self.mode).len()
    }

    /// A disabled sequencer at the first pattern, turning forward (the
    /// coils are de-energised by the caller).
    pub fn new(mode: StepMode) -> (s: Self)
        ensures
            s.wf(),
            s.spec_mode() == mode,
            s.spec_index() == 0,
            s.spec_direction() == MotorDirection::Forward,
            !s.spec_enabled(),
    {
        PhaseSequencer { mode, index: 0, direction: MotorDirection::Forward, enabled: false }
    }

    /// Switches mode; the sequence restarts at its first pattern so the
    /// phases stay in step.
    pub fn set_step_mode(&mut self, mode: StepMode)
        ensures
            final(self).wf(),
            final(self).spec_mode() == mode,
            final(self).spec_index() == 0,
            final(self).spec_direction() == old(self).spec_direction(),
            final(self).spec_enabled() == old(self).spec_enabled(),
    {
        self.mode = mode;
        self.index = 0;
    }

    /// Current mode.
    pub fn step_mode(&self) -> (m: StepMode)
        ensures
            m == self.spec_mode(),
    {
        self.mode
    }

    /// Allows steps to be applied.
    pub fn enable(&mut self)
        ensures
            final(self).spec_enabled(),
            final(self).spec_mode() == old(self).spec_mode(),
            final(self).spec_index() == old(self).spec_index(),
            final(self).spec_direction() == old(self).spec_direction(),
            old(self).wf() ==> final(self).wf(),
    {
        self.enabled = true;
    }

    /// Stops applying steps (the caller de-energises the coils).
    pub fn disable(&mut self)
        ensures
            !final(self).spec_enabled(),
            final(self).spec_mode() == old(self).spec_mode(),
            final(self).spec_index() == old(self).spec_index(),
            final(self).spec_direction() == old(self).spec_direction(),
            old(self).wf() ==> final(self).wf(),
    {
        self.enabled = false;
    }

    /// Whether steps are applied.
    pub fn is_enabled(&self) -> (b: bool)
        ensures
            b == self.spec_enabled(),
    {
        self.enabled
    }

    /// Sets the direction of the following steps.
    pub fn set_direction(&mut self, direction: MotorDirection)
        ensures
            final(self).spec_direction() == direction,
            final(self).spec_enabled() == old(self).spec_enabled(),
            final(self).spec_mode() == old(self).spec_mode(),
            final(self).spec_index() == old(self).spec_index(),
            old(self).wf() ==> final(self).wf(),
    {
        self.direction = direction;
    }

    /// Advances one step and returns the pattern to apply; a disabled
    /// sequencer does nothing and returns `None`.
    pub fn step(&mut self) -> (pattern: Option<u8>)
        requires
            old(self).wf(),
        ensures
            final(self).wf(),
            final(self).spec_mode() == old(self).spec_mode(),
            final(self).spec_direction() == old(self).spec_direction(),
            final(self).spec_enabled() == old(self).spec_enabled(),
            !old(self).spec_enabled() ==> pattern is None && final(self).spec_index() == old(
                self,
            ).spec_index(),
            old(self).spec_enabled() ==> final(self).spec_index() == next_index(
                old(self).spec_index(),
                sequence_of(old(self).spec_mode()).len(),
                old(self).spec_direction(),
            ) && pattern == Some(sequence_of(old(self).spec_mode())[final(self).spec_index() as int]),
    {
        if !self.enabled {
            return None;
        }
        let sequence = self.mode.sequence();
        let len = sequence.len();
        self.index = match self.direction {
            MotorDirection::Forward => (self.index + 1) % len,
            MotorDirection::Backward => (self.index + len - 1) % len,
        };
        Some(sequence[self.index])
    }
}

/// Phase law: a forward step followed by a backward step returns to the
/// same pattern, and so does a backward step followed by a forward one.
pub proof fn lemma_step_back_and_forth(index: nat, len: nat)
    requires
        index < len,
    ensures
        next_index(next_index(index, len, MotorDirection::Forward), len, MotorDirection::Backward)
            == index,
        next_index(next_index(index, len, MotorDirection::Backward), len, MotorDirection::Forward)
            == index,
{
    let l = len as int;
    let i = index as int;
    if i + 1 < l {
        assert((i + 1) % l == i + 1) by {
            vstd::arithmetic::div_mod::lemma_small_mod((i + 1) as nat, len);
        }
        assert((i + 1 + l - 1) % l == i) by {
            vstd::arithmetic::div_mod::lemma_mod_add_multiples_vanish(i, l);
            vstd::arithmetic::div_mod::lemma_small_mod(index, len);
        }
    } else {
        assert((i + 1) % l == 0) by {
            vstd::arithmetic::div_mod::lemma_mod_self_0(l);
        }
        assert((0 + l - 1) % l == i) by {
            vstd::arithmetic::div_mod::lemma_small_mod((l - 1) as nat, len);
        }
    }
    if i > 0 {
        assert((i + l - 1) % l == i - 1) by {
            vstd::arithmetic::div_mod::lemma_mod_add_multiples_vanish(i - 1, l);
            vstd::arithmetic::div_mod::lemma_small_mod((i - 1) as nat, len);
        }
        assert((i - 1 + 1) % l == i) by {
            vstd::arithmetic::div_mod::lemma_small_mod(index, len);
        }
    } else {
        assert((i + l - 1) % l == l - 1) by {
            vstd::arithmetic::div_mod::lemma_small_mod((l - 1) as nat, len);
        }
        assert((l - 1 + 1) % l == 0) by {
            vstd::arithmetic::div_mod::lemma_mod_self_0(l);
        }
    }
}

/// Number of coils a pattern energises.
pub open spec fn coil_count(pattern: u8) -> nat {
    (if pattern & 1 != 0 { 1nat } else { 0nat }) + (if pattern & 2 != 0 { 1nat } else { 0nat })
        + (if pattern & 4 != 0 { 1nat } else { 0nat }) + (if pattern & 8 != 0 { 1nat } else { 0nat })
}

/// Every full-step pattern energises exactly two coils, the four full-step
/// patterns are distinct, and the eight half-step patterns are distinct and
/// alternate one and two energised coils.
pub proof fn lemma_sequences_shape()
    ensures
        forall|i: int| 0 <= i < 4 ==> #[trigger] coil_count(sequence_of(StepMode::Full)[i]) == 2,
        forall|i: int, j: int|
            0 <= i < j < 4 ==> sequence_of(StepMode::Full)[i] != sequence_of(StepMode::Full)[j],
        forall|i: int, j: int|
            0 <= i < j < 8 ==> sequence_of(StepMode::Half)[i] != sequence_of(StepMode::Half)[j],
        forall|i: int|
            0 <= i < 8 ==> #[trigger] coil_count(sequence_of(StepMode::Half)[i]) == (if i % 2 == 0 {
                1nat
            } else {
                2nat
            }),
{
    assert({
        1u8 & 1u8 != 0
        && 1u8 & 2u8 == 0
        && 1u8 & 4u8 == 0
        && 1u8 & 8u8 == 0
        && 2u8 & 1u8 == 0
        && 2u8 & 2u8 != 0
        && 2u8 & 4u8 == 0
        && 2u8 & 8u8 == 0
        && 4u8 & 1u8 == 0
        && 4u8 & 2u8 == 0
        && 4u8 & 4u8 != 0
        && 4u8 & 8u8 == 0
        && 8u8 & 1u8 == 0
        && 8u8 & 2u8 == 0
        && 8u8 & 4u8 == 0
        && 8u8 & 8u8 != 0
        && 3u8 & 1u8 != 0
        && 3u8 & 2u8 != 0
        && 3u8 & 4u8 == 0
        && 3u8 & 8u8 == 0
        && 6u8 & 1u8 == 0
        && 6u8 & 2u8 != 0
        && 6u8 & 4u8 != 0
        && 6u8 & 8u8 == 0
        && 12u8 & 1u8 == 0
        && 12u8 & 2u8 == 0
        && 12u8 & 4u8 != 0
        && 12u8 & 8u8 != 0
        && 9u8 & 1u8 != 0
        && 9u8 & 2u8 == 0
        && 9u8 & 4u8 == 0
        && 9u8 & 8u8 != 0
    }) by (bit_vector);
    assert forall|i: int| 0 <= i < 4 implies #[trigger] coil_count(sequence_of(StepMode::Full)[i])
        == 2 by {
        assert(0 <= i < 4);
    }
    assert forall|i: int| 0 <= i < 8 implies #[trigger] coil_count(sequence_of(StepMode::Half)[i])
        == (if i % 2 == 0 { 1nat } else { 2nat }) by {
        assert(0 <= i < 8);
    }
}

} // verus!
