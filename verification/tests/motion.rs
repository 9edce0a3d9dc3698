use osix_firmware::drivers::axis::AxisTracker;
use osix_firmware::drivers::uln2003::{pattern_levels, PhaseSequencer, StepMode};
use osix_firmware::error::AppError;
use osix_firmware::motion::queue::MotionQueue;
use osix_firmware::motion::steps::{plan_segment_steps, StepInterpolator};
use osix_firmware::printer_state::{homing_timeout_error, selected_axes, HomingAction, HomingRun};
use osix_firmware::gcode::commands::AxisSelector;
use osix_firmware::types::{AxisId, MotorDirection};

#[derive(Debug, Clone, Copy, PartialEq)]
struct Segment {
    distance_mm: f32,
}

fn sample_segment() -> Segment {
    Segment { distance_mm: 10.0 }
}

#[test]
fn queue_respects_capacity() {
    let mut queue = MotionQueue::new(2);
    assert!(queue.push(sample_segment()));
    assert!(queue.push(sample_segment()));
    assert!(!queue.push(sample_segment()));
    assert!(queue.is_full());
    assert_eq!(queue.len(), 2);
}

#[test]
fn pop_front_returns_oldest_segment_first() {
    let mut queue = MotionQueue::new(4);
    let mut first = sample_segment();
    first.distance_mm = 1.0;
    let mut second = sample_segment();
    second.distance_mm = 2.0;

    queue.push(first);
    queue.push(second);

    assert_eq!(queue.pop_front().unwrap().distance_mm, 1.0);
    assert_eq!(queue.pop_front().unwrap().distance_mm, 2.0);
    assert!(queue.is_empty());
}

#[test]
fn queue_get_and_replace() {
    let mut queue = MotionQueue::new(3);
    queue.push(1u32);
    queue.push(2u32);
    assert_eq!(*queue.get(1), 2);
    assert_eq!(queue.replace(0, 7), 1);
    assert_eq!(queue.pop_front(), Some(7));
    assert_eq!(queue.capacity(), 3);
}

fn run_segment(current: [i64; 3], target: [i64; 3]) -> [u64; 3] {
    let plan = plan_segment_steps(current, target);
    let mut counts = [0u64; 3];
    if let Some(mut interp) = StepInterpolator::new(&plan) {
        while !interp.is_done() {
            let stepped = interp.next_tick();
            for i in 0..3 {
                if stepped[i] {
                    counts[i] += 1;
                }
            }
        }
    }
    counts
}

#[test]
fn main_axis_receives_exactly_the_requested_number_of_steps() {
    // 10 mm and 5 mm at 80 steps/mm.
    let counts = run_segment([0, 0, 0], [800, 400, 0]);
    assert_eq!(counts[0], 800);
    assert_eq!(counts[1], 400);
}

#[test]
fn segment_plan_directions_and_main_axis() {
    let plan = plan_segment_steps([10, 0, 5], [4, 3, 5]);
    assert_eq!(plan.directions, [MotorDirection::Backward, MotorDirection::Forward, MotorDirection::Forward]);
    assert_eq!(plan.steps, [6, 3, 0]);
    assert_eq!(plan.main_axis, 0);
    assert!(StepInterpolator::new(&plan_segment_steps([1, 1, 1], [1, 1, 1])).is_none());
    assert_eq!(run_segment([0, 0, 0], [-7, 3, 5]), [7, 3, 5]);
}

#[test]
fn every_axis_gets_its_step_count() {
    assert_eq!(run_segment([0, 0, 0], [13, 7, 2]), [13, 7, 2]);
    assert_eq!(run_segment([0, 0, 0], [5, 5, 5]), [5, 5, 5]);
}

#[test]
fn full_step_sequence_has_four_distinct_two_bit_patterns() {
    let seq = StepMode::Full.sequence();
    let unique: std::collections::HashSet<_> = seq.iter().collect();
    assert_eq!(unique.len(), 4);
    for pattern in seq {
        assert_eq!(pattern.count_ones(), 2, "полный шаг держит 2 обмотки активными");
    }
}

#[test]
fn half_step_sequence_has_eight_distinct_patterns() {
    let seq = StepMode::Half.sequence();
    let unique: std::collections::HashSet<_> = seq.iter().collect();
    assert_eq!(unique.len(), 8);
}

#[test]
fn step_mode_selects_correct_sequence_length() {
    assert_eq!(StepMode::Full.sequence().len(), 4);
    assert_eq!(StepMode::Half.sequence().len(), 8);
}

#[test]
fn phase_sequencer_steps_forward_and_back() {
    let mut s = PhaseSequencer::new(StepMode::Full);
    assert_eq!(s.step(), None);
    s.enable();
    assert_eq!(s.step(), Some(0b0110));
    assert_eq!(s.step(), Some(0b1100));
    s.set_direction(MotorDirection::Backward);
    assert_eq!(s.step(), Some(0b0110));
    assert_eq!(s.step(), Some(0b0011));
    assert_eq!(s.step(), Some(0b1001));
    s.set_step_mode(StepMode::Half);
    assert_eq!(s.step_mode(), StepMode::Half);
    s.set_direction(MotorDirection::Forward);
    assert_eq!(s.step(), Some(0b0011));
    s.disable();
    assert!(!s.is_enabled());
    assert_eq!(s.step(), None);
}

#[test]
fn pattern_levels_follow_bits() {
    assert_eq!(pattern_levels(0b1001), [true, false, false, true]);
    assert_eq!(pattern_levels(0), [false; 4]);
}

#[test]
fn axis_tracker_counts_steps_and_maps_direction() {
    let mut axis = AxisTracker::new(AxisId::Y, true, true);
    assert_eq!(axis.id(), AxisId::Y);
    assert_eq!(axis.set_direction(MotorDirection::Forward), MotorDirection::Backward);
    axis.record_step();
    axis.record_step();
    assert_eq!(axis.position_steps(), 2);
    assert_eq!(axis.set_direction(MotorDirection::Backward), MotorDirection::Forward);
    axis.record_step();
    assert_eq!(axis.position_steps(), 1);
    axis.reset_position(-5);
    assert_eq!(axis.position_steps(), -5);
    assert!(axis.is_endstop_triggered(true));
    let plain = AxisTracker::new(AxisId::X, false, false);
    assert!(plain.is_endstop_triggered(false));
    assert_eq!(plain.logical_direction(), MotorDirection::Forward);
}

#[test]
fn homing_stops_at_endstop() {
    let mut run = HomingRun::new(3);
    assert_eq!(run.advance(false), HomingAction::Step);
    assert_eq!(run.advance(false), HomingAction::Step);
    assert_eq!(run.advance(true), HomingAction::Finished);
    assert_eq!(run.steps_taken(), 2);
}

#[test]
fn homing_times_out_after_budget() {
    let mut run = HomingRun::new(2);
    assert_eq!(run.advance(false), HomingAction::Step);
    assert_eq!(run.advance(false), HomingAction::Step);
    assert_eq!(run.advance(false), HomingAction::TimedOut);
    assert_eq!(run.max_steps(), 2);
    match homing_timeout_error(AxisId::Z, 2) {
        AppError::HardwareTimeout(msg) => {
            assert_eq!(msg, "хоуминг оси Z не обнаружил концевик за 2 шагов")
        }
        other => panic!("unexpected {other:?}"),
    }
}

#[test]
fn selected_axes_keep_x_y_z_order() {
    assert_eq!(selected_axes(AxisSelector::all()), vec![AxisId::X, AxisId::Y, AxisId::Z]);
    assert_eq!(
        selected_axes(AxisSelector { x: false, y: true, z: true }),
        vec![AxisId::Y, AxisId::Z]
    );
    assert!(selected_axes(AxisSelector { x: false, y: false, z: false }).is_empty());
}
