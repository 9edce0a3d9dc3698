//! Multi-axis step interpolation of one motion segment.
//!
//! The axis with the most steps in the segment (the main axis) steps on
//! every tick; every other axis follows with the classic Bresenham
//! accumulator, which keeps the path straight whatever the ratio of step
//! counts. Timing of the ticks (the trapezoid speed profile) is left to the
//! caller.
use crate::types::MotorDirection;
use vstd::arithmetic::div_mod::{lemma_fundamental_div_mod, lemma_fundamental_div_mod_converse};
use vstd::arithmetic::mul::lemma_mul_is_distributive_add_other_way;
use vstd::prelude::*;

verus! {

/// Steps an axis with `s` of the segment's `m` ticks has been given after
/// `k` ticks: `floor(k * s / m)`.
pub open spec fn steps_after(s: nat, m: nat, k: nat) -> nat {
    ((k * s) / m) as nat
}

/// Absolute value of a step delta.
pub open spec fn abs_steps(d: int) -> nat {
    if d >= 0 {
        d as nat
    } else {
        (-d) as nat
    }
}

/// Index of the main axis: the largest step count, the last such axis on a
/// tie (as `Iterator::max_by_key` picks).
pub open spec fn main_axis_of(s0: nat, s1: nat, s2: nat) -> nat {
    if s2 >= s1 && s2 >= s0 {
        2
    } else if s1 >= s0 {
        1
    } else {
        0
    }
}

/// Direction and step count of every axis for one segment.
#[derive(Debug, Clone, Copy, PartialEq, Eq)]
pub struct SegmentSteps {
    /// Direction each axis turns (`Forward` also for no movement).
    pub directions: [MotorDirection; 3],
    /// Number of steps of each axis.
    pub steps: [u64; 3],
    /// Axis with the most steps.
    pub main_axis: usize,
}

/// `true` iff the delta between two step positions fits a signed 64-bit
/// step count with a representable magnitude.
pub open spec fn delta_fits(current: i64, target: i64) -> bool {
    i64::MIN < target - current <= i64::MAX
}

fn axis_plan(current: i64, target: i64) -> (r: (MotorDirection, u64))
    requires
        delta_fits(current, target),
    ensures
        r.0 == (if target - current >= 0 {
            MotorDirection::Forward
        } else {
            MotorDirection::Backward
        }),
        r.1 == abs_steps(target - current),
        r.1 <= i64::MAX,
{
    let delta = target - current;
    if delta >= 0 {
        (MotorDirection::Forward, delta as u64)
    } else {
        (MotorDirection::Backward, (-delta) as u64)
    }
}

/// Directions and step counts that take the axes from the step positions
/// `current` to `target`.
pub fn plan_segment_steps(current: [i64; 3], target: [i64; 3]) -> (p: SegmentSteps)
    requires
        forall|i: int| 0 <= i < 3 ==> delta_fits(#[trigger] current[i], target[i]),
    ensures
        forall|i: int|
            0 <= i < 3 ==> (#[trigger] p.directions[i]) == (if target[i] - current[i] >= 0 {
                MotorDirection::Forward
            } else {
                MotorDirection::Backward
            }) && p.steps[i] == abs_steps(target[i] - current[i]) && p.steps[i] <= i64::MAX,
        p.main_axis == main_axis_of(p.steps[0] as nat, p.steps[1] as nat, p.steps[2] as nat),
{
    let a = axis_plan(current[0], target[0]);
    let b = axis_plan(current[1], target[1]);
    let c = axis_plan(current[2], target[2]);
    let main_axis: usize = if c.1 >= b.1 && c.1 >= a.1 {
        2
    } else if b.1 >= a.1 {
        1
    } else {
        0
    };
    let p = SegmentSteps { directions: [a.0, b.0, c.0], steps: [a.1, b.1, c.1], main_axis };
    assert(p.directions[0] == a.0 && p.directions[1] == b.0 && p.directions[2] == c.0);
    assert(p.steps[0] == a.1 && p.steps[1] == b.1 && p.steps[2] == c.1);
    p
}

/// Bresenham interpolation state of one segment.
pub struct StepInterpolator {
    steps: [u64; 3],
    main_axis: usize,
    main_steps: u64,
    error: [u64; 3],
    tick: u64,
}

/// One accumulator update: add `s`, wrap at `m`, report a step on wrap.
fn advance(error: u64, s: u64, m: u64, k: Ghost<nat>) -> (r: (u64, bool))
    requires
        0 < m,
        s <= m,
        m <= i64::MAX,
        error == ((k@ * s) % (m as int)) as nat,
    ensures
        r.0 == (((k@ + 1) * s) % (m as int)) as nat,
        r.1 == (steps_after(s as nat, m as nat, k@ + 1) > steps_after(s as nat, m as nat, k@)),
{
    let ghost x = k@ * s;
    let ghost q = x / (m as int);
    proof {
        lemma_fundamental_div_mod(x, m as int);
        lemma_mul_is_distributive_add_other_way(s as int, k@ as int, 1);
        assert(x == q * m + error) by (nonlinear_arith)
            requires
                x == m * q + error,
        ;
        assert((k@ + 1) * s == x + s);
        vstd::arithmetic::div_mod::lemma_mod_pos_bound(x, m as int);
        lemma_mul_is_distributive_add_other_way(m as int, q, 1);
    }
    let sum = error + s;
    if sum >= m {
        proof {
            lemma_fundamental_div_mod_converse((k@ + 1) * s, m as int, q + 1, (sum - m) as int);
        }
        (sum - m, true)
    } else {
        proof {
            lemma_fundamental_div_mod_converse((k@ + 1) * s, m as int, q, sum as int);
        }
        (sum, false)
    }
}

impl StepInterpolator {
    /// Ticks taken so far.
    pub closed spec fn ticks(self) -> nat {
        self.tick as nat
    }

    /// Ticks of the whole segment: the main axis's step count.
    pub closed spec fn total_ticks(self) -> nat {
        self.main_steps as nat
    }

    /// Step count of axis `i` in the segment.
    pub closed spec fn axis_steps(self, i: int) -> nat {
        self.steps[i] as nat
    }

    /// Internal consistency: every accumulator holds `tick * steps mod
    /// main_steps`.
    pub closed spec fn wf(self) -> bool {
        &&& self.main_axis < 3
        &&& self.main_steps == self.steps[self.main_axis as int]
        &&& 0 < self.main_steps <= i64::MAX
        &&& forall|i: int| 0 <= i < 3 ==> #[trigger] self.steps[i] <= self.main_steps
        &&& self.tick <= self.main_steps
        &&& forall|i: int|
            0 <= i < 3 ==> #[trigger] self.error[i] == ((self.tick * self.steps[i]) % (
            self.main_steps as int)) as nat
    }

    /// Interpolation state at the start of a planned segment; `None` when
    /// no axis moves.
    pub fn new(plan: &SegmentSteps) -> (r: Option<Self>)
        requires
            plan.main_axis == main_axis_of(
                plan.steps[0] as nat,
                plan.steps[1] as nat,
                plan.steps[2] as nat,
            ),
            forall|i: int| 0 <= i < 3 ==> #[trigger] plan.steps[i] <= i64::MAX,
        ensures
            r is None <==> plan.steps[plan.main_axis as int] == 0,
            r matches Some(s) ==> s.wf() && s.ticks() == 0 && s.total_ticks()
                == plan.steps[plan.main_axis as int] && forall|i: int|
                0 <= i < 3 ==> s.axis_steps(i) == plan.steps[i],
    {
        let main_steps = plan.steps[plan.main_axis];
        if main_steps == 0 {
            return None;
        }
        let s = StepInterpolator {
            steps: plan.steps,
            main_axis: plan.main_axis,
            main_steps,
            error: [0, 0, 0],
            tick: 0,
        };
        assert forall|i: int| 0 <= i < 3 implies #[trigger] s.error[i] == ((s.tick * s.steps[i]) % (
        s.main_steps as int)) as nat by {
            assert(0 * s.steps[i] == 0);
            lemma_fundamental_div_mod_converse(0, s.main_steps as int, 0, 0);
        }
        Some(s)
    }

    /// `true` once every tick of the segment has been taken.
    pub fn is_done(&self) -> (b: bool)
        ensures
            b == (self.ticks() >= self.total_ticks()),
    {
        self.tick >= self.main_steps
    }

    /// Takes the next tick; the result tells which axes step on it. Axis
    /// `i` steps exactly when its share `floor(k * s_i / m)` grows, so the
    /// main axis steps on every tick.
    pub fn next_tick(&mut self) -> (stepped: [bool; 3])
        requires
            old(self).wf(),
            old(self).ticks() < old(self).total_ticks(),
        ensures
            final(self).wf(),
            final(self).ticks() == old(self).ticks() + 1,
            final(self).total_ticks() == old(self).total_ticks(),
            forall|i: int| 0 <= i < 3 ==> final(self).axis_steps(i) == old(self).axis_steps(i),
            forall|i: int|
                0 <= i < 3 ==> #[trigger] stepped[i] == (steps_after(
                    old(self).axis_steps(i),
                    old(self).total_ticks(),
                    old(self).ticks() + 1,
                ) > steps_after(old(self).axis_steps(i), old(self).total_ticks(), old(self).ticks())),
    {
        let k = Ghost(self.tick as nat);
        let m = self.main_steps;
        let (e0, t0) = advance(self.error[0], self.steps[0], m, k);
        let (e1, t1) = advance(self.error[1], self.steps[1], m, k);
        let (e2, t2) = advance(self.error[2], self.steps[2], m, k);
        self.error = [e0, e1, e2];
        self.tick = self.tick + 1;
        let r = [t0, t1, t2];
        assert(self.error[0] == e0 && self.error[1] == e1 && self.error[2] == e2);
        assert(r[0] == t0 && r[1] == t1 && r[2] == t2);
        r
    }
}

/// Number of ticks among the first `n` on which an axis with `s` of `m`
/// steps is stepped.
pub open spec fn stepped_count(s: nat, m: nat, n: nat) -> nat
    decreases n,
{
    if n == 0 {
        0
    } else {
        stepped_count(s, m, (n - 1) as nat) + if steps_after(s, m, n) > steps_after(
            s,
            m,
            (n - 1) as nat,
        ) {
            1nat
        } else {
            0nat
        }
    }
}

proof fn lemma_share_step(s: nat, m: nat, n: nat)
    requires
        0 < m,
        s <= m,
    ensures
        steps_after(s, m, n) <= steps_after(s, m, n + 1) <= steps_after(s, m, n) + 1,
{
    let x: int = (n * s) as int;
    let y: int = ((n + 1) * s) as int;
    lemma_mul_is_distributive_add_other_way(s as int, n as int, 1);
    assert(y == x + s);
    lemma_fundamental_div_mod(x, m as int);
    lemma_fundamental_div_mod(y, m as int);
    let q: int = x / (m as int);
    let r: int = x % (m as int);
    let q2: int = y / (m as int);
    let r2: int = y % (m as int);
    assert(q <= q2 <= q + 1) by (nonlinear_arith)
        requires
            x == m * q + r,
            y == m * q2 + r2,
            0 <= r < m,
            0 <= r2 < m,
            y == x + s,
            0 <= s <= m,
    ;
}

proof fn lemma_stepped_count(s: nat, m: nat, n: nat)
    requires
        0 < m,
        s <= m,
    ensures
        stepped_count(s, m, n) == steps_after(s, m, n),
    decreases n,
{
    if n == 0 {
        assert(0 * s == 0);
    } else {
        lemma_stepped_count(s, m, (n - 1) as nat);
        lemma_share_step(s, m, (n - 1) as nat);
    }
}

/// Interpolation law: over the `m` ticks of a segment, an axis with `s <=
/// m` steps is stepped exactly `s` times — every axis reaches its target
/// and the main axis steps on every tick.
pub proof fn lemma_exact_step_count(s: nat, m: nat)
    requires
        0 < m,
        s <= m,
    ensures
        stepped_count(s, m, m) == s,
        stepped_count(m, m, m) == m,
{
    lemma_stepped_count(s, m, m);
    lemma_stepped_count(m, m, m);
    vstd::arithmetic::div_mod::lemma_div_multiples_vanish(s as int, m as int);
    vstd::arithmetic::div_mod::lemma_div_multiples_vanish(m as int, m as int);
    vstd::arithmetic::mul::lemma_mul_is_commutative(m as int, s as int);
    vstd::arithmetic::mul::lemma_mul_is_commutative(m as int, m as int);
}

/// Steps of axis `i` in the segment from `current` to `target`.
pub open spec fn segment_axis_steps(current: [i64; 3], target: [i64; 3], i: int) -> nat {
    abs_steps(target[i] - current[i])
}

/// Ticks of the segment from `current` to `target`: the step count of its
/// main axis.
pub open spec fn segment_ticks(current: [i64; 3], target: [i64; 3]) -> nat {
    segment_axis_steps(
        current,
        target,
        main_axis_of(
            segment_axis_steps(current, target, 0),
            segment_axis_steps(current, target, 1),
            segment_axis_steps(current, target, 2),
        ) as int,
    )
}

/// Segment law: over the ticks of a segment planned by
/// [`plan_segment_steps`] and run by [`StepInterpolator`], every axis is
/// stepped exactly `|target - current|` times in its planned direction,
/// so it ends at its target; no axis needs more steps than there are
/// ticks.
pub proof fn lemma_segment_reaches_target(current: [i64; 3], target: [i64; 3])
    ensures
        forall|i: int|
            0 <= i < 3 ==> #[trigger] segment_axis_steps(current, target, i) <= segment_ticks(
                current,
                target,
            ),
        segment_ticks(current, target) > 0 ==> forall|i: int|
            0 <= i < 3 ==> stepped_count(
                #[trigger] segment_axis_steps(current, target, i),
                segment_ticks(current, target),
                segment_ticks(current, target),
            ) == segment_axis_steps(current, target, i),
        forall|i: int|
            0 <= i < 3 ==> current[i] + (if target[i] - current[i] >= 0 {
                #[trigger] segment_axis_steps(current, target, i) as int
            } else {
                -(segment_axis_steps(current, target, i) as int)
            }) == target[i],
{
    let m = segment_ticks(current, target);
    if m > 0 {
        assert forall|i: int| 0 <= i < 3 implies stepped_count(
            #[trigger] segment_axis_steps(current, target, i),
            m,
            m,
        ) == segment_axis_steps(current, target, i) by {
            lemma_exact_step_count(segment_axis_steps(current, target, i), m);
        }
    }
}

} // verus!
