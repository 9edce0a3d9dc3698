//! Decisions of the printer-level procedures: which axes a command touches
//! and the homing run of one axis.
//!
//! Homing alternates hardware work (reading the endstop, stepping the
//! motor, waiting) with decisions; the decisions live here as a small state
//! machine and the caller performs the work each one asks for.
use crate::error::AppError;
use crate::gcode::commands::{AxisSelector, FirmwareInfo};
use crate::text::{dec_text, push_decimal, push_str};
use crate::types::AxisId;
use vstd::prelude::*;

verus! {

/// Version of this firmware.
pub const FIRMWARE_VERSION: &'static str = "0.1.0";

/// Name the firmware reports for itself.
pub const FIRMWARE_NAME: &'static str = "OSIX Firmware";

/// Axes a selector names, in the order X, Y, Z.
pub open spec fn selected_seq(s: AxisSelector) -> Seq<AxisId> {
    (if s.x { seq![AxisId::X] } else { Seq::empty() }) + (if s.y {
        seq![AxisId::Y]
    } else {
        Seq::empty()
    }) + (if s.z { seq![AxisId::Z] } else { Seq::empty() })
}

/// The axes a selector names, in the order they are homed, enabled or
/// disabled: X, then Y, then Z.
pub fn selected_axes(s: AxisSelector) -> (v: Vec<AxisId>)
    ensures
        v@ == selected_seq(s),
{
    let mut v: Vec<AxisId> = Vec::new();
    if s.x {
        v.push(AxisId::X);
    }
    if s.y {
        v.push(AxisId::Y);
    }
    if s.z {
        v.push(AxisId::Z);
    }
    assert(v@ =~= selected_seq(s));
    v
}

/// Letter of an axis as it is printed.
pub open spec fn axis_letter(axis: AxisId) -> char {
    match axis {
        AxisId::X => 'X',
        AxisId::Y => 'Y',
        AxisId::Z => 'Z',
    }
}

/// What a homing run asks the caller to do next.
#[derive(Debug, Clone, Copy, PartialEq, Eq, Structural)]
pub enum HomingAction {
    /// The endstop is reached: set the axis position to `0`; done.
    Finished,
    /// Make one step towards the endstop, wait, and read the endstop again.
    Step,
    /// The step budget is spent without reaching the endstop.
    TimedOut,
}

/// Homing of one axis towards its endstop with a bounded number of steps
/// (a broken endstop must not drive the axis forever).
#[derive(Debug, Clone, Copy)]
pub struct HomingRun {
    max_steps: u64,
    steps_taken: u64,
}

/// Decision of a homing run that has taken `taken` of `max` steps, given
/// whether the endstop reads triggered.
pub open spec fn homing_decision(taken: nat, max: nat, triggered: bool) -> HomingAction {
    if triggered {
        HomingAction::Finished
    } else if taken >= max {
        HomingAction::TimedOut
    } else {
        HomingAction::Step
    }
}

impl HomingRun {
    /// Step budget of the run.
    pub closed spec fn spec_max_steps(self) -> nat {
        self.max_steps as nat
    }

    /// Steps taken so far.
    pub closed spec fn spec_steps_taken(self) -> nat {
        self.steps_taken as nat
    }

    /// The run never exceeds its budget.
    pub closed spec fn wf(self) -> bool {
        self.steps_taken <= self.max_steps
    }

    /// A run with a budget of `max_steps` steps and none taken. The caller
    /// enables the axis and sets its direction backward first.
    pub fn new(max_steps: u64) -> (r: Self)
        ensures
            r.wf(),
            r.spec_max_steps() == max_steps,
            r.spec_steps_taken() == 0,
    {
        HomingRun { max_steps, steps_taken: 0 }
    }

    /// Steps taken so far.
    pub fn steps_taken(&self) -> (n: u64)
        ensures
            n == self.spec_steps_taken(),
    {
        self.steps_taken
    }

    /// Step budget of the run.
    pub fn max_steps(&self) -> (n: u64)
        ensures
            n == self.spec_max_steps(),
    {
        self.max_steps
    }

    /// Decides the next action from the endstop reading; a `Step` counts as
    /// taken (the caller performs it).
    pub fn advance(&mut self, endstop_triggered: bool) -> (a: HomingAction)
        requires
            old(self).wf(),
        ensures
            final(self).wf(),
            a == homing_decision(
                old(self).spec_steps_taken(),
                old(self).spec_max_steps(),
                endstop_triggered,
            ),
            final(self).spec_max_steps() == old(self).spec_max_steps(),
            final(self).spec_steps_taken() == old(self).spec_steps_taken() + (if a
                == HomingAction::Step {
                1nat
            } else {
                0nat
            }),
    {
        if endstop_triggered {
            HomingAction::Finished
        } else if self.steps_taken >= self.max_steps {
            HomingAction::TimedOut
        } else {
            self.steps_taken = self.steps_taken + 1;
            HomingAction::Step
        }
    }
}

/// Homing law: a run whose endstop never triggers asks for exactly
/// `max_steps` steps and then times out.
pub proof fn lemma_homing_times_out_after_budget(max: nat, taken: nat)
    requires
        taken <= max,
    ensures
        taken < max ==> homing_decision(taken, max, false) == HomingAction::Step,
        taken == max ==> homing_decision(taken, max, false) == HomingAction::TimedOut,
        homing_decision(taken, max, true) == HomingAction::Finished,
{
}

/// Outcome of a homing run driven by [`homing_decision`] from `taken`
/// steps, whose endstop reads untriggered on the next `untriggered` polls
/// and triggered afterwards: the final action and the steps taken.
pub open spec fn homing_run(taken: nat, max: nat, untriggered: nat) -> (HomingAction, nat)
    decreases untriggered,
{
    match homing_decision(taken, max, untriggered == 0) {
        HomingAction::Step => homing_run(taken + 1, max, (untriggered - 1) as nat),
        action => (action, taken),
    }
}

/// Homing law over a whole run: an endstop that triggers after `k`
/// untriggered polls is reached after exactly `k` steps when `k` is within
/// the budget `n`; otherwise the run times out after exactly `n` steps, so
/// the motor never takes more than `n` homing steps.
pub proof fn lemma_homing_run(n: nat, k: nat)
    ensures
        k <= n ==> homing_run(0, n, k) == (HomingAction::Finished, k),
        k > n ==> homing_run(0, n, k) == (HomingAction::TimedOut, n),
{
    lemma_homing_run_from(0, n, k);
}

proof fn lemma_homing_run_from(taken: nat, n: nat, k: nat)
    requires
        taken <= n,
    ensures
        taken + k <= n ==> homing_run(taken, n, k) == (HomingAction::Finished, taken + k),
        taken + k > n ==> homing_run(taken, n, k) == (HomingAction::TimedOut, n),
    decreases k,
{
    if k > 0 && taken < n {
        lemma_homing_run_from(taken + 1, n, (k - 1) as nat);
    }
}

/// Text of the error of a homing run that timed out.
pub open spec fn homing_timeout_text(axis: AxisId, max_steps: nat) -> Seq<char> {
    "хоуминг оси "@ + seq![axis_letter(axis)] + " не обнаружил концевик за "@ + dec_text(max_steps)
        + " шагов"@
}

/// The error reported when homing `axis` spent `max_steps` steps without
/// reaching the endstop.
pub fn homing_timeout_error(axis: AxisId, max_steps: u64) -> (e: AppError)
    ensures
        e matches AppError::HardwareTimeout(msg) && msg@ == homing_timeout_text(axis, max_steps as nat),
{
    let mut msg = String::new();
    push_str(&mut msg, "хоуминг оси ");
    let letter = match axis {
        AxisId::X => 'X',
        AxisId::Y => 'Y',
        AxisId::Z => 'Z',
    };
    msg.push(letter);
    push_str(&mut msg, " не обнаружил концевик за ");
    push_decimal(&mut msg, max_steps);
    push_str(&mut msg, " шагов");
    proof {
        reveal_strlit("хоуминг оси ");
    }
    assert(msg@ =~= homing_timeout_text(axis, max_steps as nat));
    AppError::HardwareTimeout(msg)
}

/// The identification the printer reports (`M115`) for a kinematics and an
/// extruder count.
pub fn firmware_info(kinematics_name: &'static str, extruder_count: u8) -> (f: FirmwareInfo)
    ensures
        f.firmware_name@ == FIRMWARE_NAME@,
        f.firmware_version@ == FIRMWARE_VERSION@,
        f.kinematics_name == kinematics_name,
        f.extruder_count == extruder_count,
{
    FirmwareInfo {
        firmware_name: FIRMWARE_NAME,
        firmware_version: FIRMWARE_VERSION,
        kinematics_name,
        extruder_count,
    }
}

} // verus!
