use isp_sim::fixed::{HALF_PI, ONE};
use isp_sim::robot::{RobotInstruction, RobotParameters};
use isp_sim::simulation::{
    steer, RobotSimulation, RobotState, BEZIER_STEPS, DIRECTION_THRESHOLD, DISTANCE_THRESHOLD,
};
use isp_sim::util::cubic_bezier;
use std::time::Duration;

fn channel_at(x: i64, y: i64, heading: i64) -> RobotParameters {
    RobotParameters {
        motor_left: 0,
        motor_right: 0,
        blade_on: false,
        imu: heading,
        gps_x: x,
        gps_y: y,
        wheel_distance: ONE / 2,
        wheel_radius: ONE / 5,
        max_motor_speed: 10 * ONE,
    }
}

fn tick_of_ten_ms() -> Duration {
    Duration::from_millis(10)
}

fn waypoints(sim: &RobotSimulation) -> Vec<(i64, i64)> {
    match sim.state() {
        RobotState::GotoPoints(points) => points.iter().copied().collect(),
        other => panic!("not driving: {other:?}"),
    }
}

fn near(value: i64, expected: f64) -> bool {
    (value as f64 / ONE as f64 - expected).abs() < 1e-8
}

#[test]
fn a_new_controller_is_idle_with_the_script_queued() {
    let script = [
        RobotInstruction::BladeOn,
        RobotInstruction::GotoPoint(ONE, ONE),
        RobotInstruction::BladeOff,
    ];
    let (sim, debug) = RobotSimulation::initialize(&script);
    assert!(matches!(sim.state(), RobotState::Idle));
    assert_eq!(sim.remaining_instructions(), 3);
    assert_eq!(sim.steps_since_idle(), 0);
    assert_eq!(debug.messages, vec![String::from("Robot Initialized")]);
    assert!(debug.renderables.is_empty());
}

#[test]
fn an_empty_queue_ends_the_run_and_stops_the_motors() {
    let (mut sim, _) = RobotSimulation::initialize(&[]);
    let mut channel = channel_at(ONE, 2 * ONE, 3 * ONE);
    channel.motor_left = ONE / 2;
    channel.motor_right = -ONE / 3;
    channel.blade_on = true;
    let step = sim.step(tick_of_ten_ms(), &mut channel);
    assert!(step.end);
    assert_eq!(step.debug.messages, vec![String::from("No instructions remaining")]);
    assert!(step.debug.renderables.is_empty());
    assert_eq!(channel.motor_left, 0);
    assert_eq!(channel.motor_right, 0);
    assert!(channel.blade_on);
    assert_eq!((channel.gps_x, channel.gps_y, channel.imu), (ONE, 2 * ONE, 3 * ONE));
    assert!(matches!(sim.state(), RobotState::Idle));
    assert_eq!(sim.steps_since_idle(), 0);

    let again = sim.step(tick_of_ten_ms(), &mut channel);
    assert!(again.end);
}

#[test]
fn a_blade_instruction_is_carried_out_in_one_tick() {
    let script = [RobotInstruction::BladeOn, RobotInstruction::BladeOff];
    let (mut sim, _) = RobotSimulation::initialize(&script);
    let mut channel = channel_at(0, 0, 0);
    channel.motor_left = ONE;
    channel.motor_right = ONE;

    let first = sim.step(tick_of_ten_ms(), &mut channel);
    assert!(!first.end);
    assert!(channel.blade_on);
    assert_eq!((channel.motor_left, channel.motor_right), (0, 0));
    assert!(matches!(sim.state(), RobotState::Idle));
    assert_eq!(sim.remaining_instructions(), 1);
    assert_eq!(first.debug.messages, vec![String::from("Steps since last idle: 0")]);
    assert!(first.debug.renderables.is_empty());

    let second = sim.step(tick_of_ten_ms(), &mut channel);
    assert!(!second.end);
    assert!(!channel.blade_on);
    assert!(matches!(sim.state(), RobotState::Idle));
    assert_eq!(sim.remaining_instructions(), 0);

    let third = sim.step(tick_of_ten_ms(), &mut channel);
    assert!(third.end);
    assert!(!channel.blade_on);
}

#[test]
fn a_target_straight_ahead_gets_full_power_on_both_wheels() {
    let (mut sim, _) = RobotSimulation::initialize(&[RobotInstruction::GotoPoint(5 * ONE, 0)]);
    let mut channel = channel_at(0, 0, 0);
    let step = sim.step(tick_of_ten_ms(), &mut channel);
    assert!(!step.end);
    assert_eq!(channel.motor_left, ONE);
    assert_eq!(channel.motor_right, ONE);
    assert_eq!(waypoints(&sim), vec![(5 * ONE, 0)]);
    assert_eq!(sim.remaining_instructions(), 0);
    assert_eq!(
        step.debug.messages,
        vec![
            String::from("Steps since last idle: 0"),
            String::from("Robot Position: (0.000, 0.000)"),
            String::from("Robot Angle: 0.0"),
            String::from("Target point: (5.00, 0.00)"),
            String::from("Distance to target: 5.0000"),
            String::from("Angle error to target: 0.0"),
            String::from("Left Motor Power: +1.00"),
            String::from("Right Motor Power: +1.00"),
        ]
    );
    assert_eq!(
        step.debug.renderables,
        vec![String::from("Line((5.0, 0.0), (0.0, 0.0), 4, (255, 0, 0))")]
    );
}

#[test]
fn a_target_to_the_left_makes_the_robot_turn_left_on_the_spot() {
    let (mut sim, _) = RobotSimulation::initialize(&[RobotInstruction::GotoPoint(0, 5 * ONE)]);
    let mut channel = channel_at(0, 0, 0);
    let step = sim.step(tick_of_ten_ms(), &mut channel);
    // The error is a quarter turn, capped at 1; 1^0.7 / 1.5 = 0.666...
    assert_eq!(channel.motor_right, 666_666_666);
    assert_eq!(channel.motor_left, -666_666_666);
    assert_eq!(step.debug.messages[5], "Angle error to target: 90.0");
    assert_eq!(step.debug.messages[6], "Left Motor Power: -0.67");
    assert_eq!(step.debug.messages[7], "Right Motor Power: +0.67");
}

#[test]
fn a_target_to_the_right_makes_the_robot_turn_right_on_the_spot() {
    let (mut sim, _) = RobotSimulation::initialize(&[RobotInstruction::GotoPoint(0, -5 * ONE)]);
    let mut channel = channel_at(0, 0, 0);
    let step = sim.step(tick_of_ten_ms(), &mut channel);
    assert_eq!(channel.motor_right, -666_666_666);
    assert_eq!(channel.motor_left, 666_666_666);
    assert_eq!(step.debug.messages[5], "Angle error to target: -90.0");
}

#[test]
fn the_heading_error_wraps_across_half_a_turn() {
    // Heading just short of half a turn, target just beyond it on the other side.
    let heading = 3 * ONE;
    let s = steer((-5 * ONE, -ONE), &channel_at(0, 0, heading));
    let bearing = (-1.0f64).atan2(-5.0);
    let expected = bearing + 2.0 * std::f64::consts::PI - 3.0;
    assert!(near(s.error_angle, expected));
    assert!(s.error_angle > 0);
    assert!(s.error_angle < ONE / 2);
}

#[test]
fn turning_power_follows_the_law() {
    // An error of 0.5 rad: 0.5^0.7 / 1.5.
    let target = (ONE, 546_302_490);
    let s = steer(target, &channel_at(0, 0, 0));
    let error = 0.546302490f64.atan2(1.0);
    assert!(near(s.error_angle, error));
    let power = error.powf(0.7) / 1.5;
    assert!(near(s.motor_right, power));
    assert_eq!(s.motor_left, -s.motor_right);
}

#[test]
fn approach_power_follows_the_law() {
    // A small error: both wheels advance with sqrt(min(d, 2) / 2), corrected by 4·error.
    let target = (ONE, ONE / 20);
    let s = steer(target, &channel_at(0, 0, 0));
    let distance = (1.0f64 + 0.0025).sqrt();
    let error = 0.05f64.atan2(1.0);
    assert!(s.error_angle <= DIRECTION_THRESHOLD);
    assert!(near(s.distance, distance));
    assert!(near(s.error_angle, error));
    let forward = (distance / 2.0).sqrt();
    assert!(near(s.motor_right, 4.0 * error + forward));
    assert!(near(s.motor_left, -4.0 * error + forward));
}

#[test]
fn the_regime_changes_at_the_direction_threshold() {
    // Heading error exactly at the threshold: still the approach regime.
    let at = steer((5 * ONE, 0), &channel_at(0, 0, -DIRECTION_THRESHOLD));
    assert_eq!(at.error_angle, DIRECTION_THRESHOLD);
    assert_eq!(at.motor_right, 4 * DIRECTION_THRESHOLD + ONE);
    assert_eq!(at.motor_left, -4 * DIRECTION_THRESHOLD + ONE);
    // One unit more: turning on the spot.
    let above = steer((5 * ONE, 0), &channel_at(0, 0, -DIRECTION_THRESHOLD - 1));
    assert_eq!(above.error_angle, DIRECTION_THRESHOLD + 1);
    assert_eq!(above.motor_left, -above.motor_right);
    assert!(above.motor_right > 0);
}

#[test]
fn a_waypoint_is_dropped_once_it_is_within_reach() {
    let (mut sim, _) = RobotSimulation::initialize(&[RobotInstruction::GotoPoint(5 * ONE, 0)]);
    let mut channel = channel_at(5 * ONE - ONE / 20, 0, 0);
    let step = sim.step(tick_of_ten_ms(), &mut channel);
    assert!(!step.end);
    assert!(waypoints(&sim).is_empty());
    // sqrt(0.05 / 2)
    assert_eq!(channel.motor_left, 158_113_883);
    assert_eq!(channel.motor_right, 158_113_883);
    assert_eq!(step.debug.messages[4], "Distance to target: 0.0500");

    // The empty run is resolved to idle; the motors are left as they are.
    let next = sim.step(tick_of_ten_ms(), &mut channel);
    assert!(!next.end);
    assert!(matches!(sim.state(), RobotState::Idle));
    assert_eq!(sim.steps_since_idle(), 1);
    assert_eq!(channel.motor_left, 158_113_883);
    assert_eq!(channel.motor_right, 158_113_883);
    assert_eq!(next.debug.messages, vec![String::from("Steps since last idle: 1")]);
    assert!(next.debug.renderables.is_empty());

    let last = sim.step(tick_of_ten_ms(), &mut channel);
    assert!(last.end);
    assert_eq!((channel.motor_left, channel.motor_right), (0, 0));
}

#[test]
fn a_waypoint_at_the_reach_threshold_is_kept() {
    let (mut sim, _) = RobotSimulation::initialize(&[RobotInstruction::GotoPoint(5 * ONE, 0)]);
    let mut channel = channel_at(5 * ONE - DISTANCE_THRESHOLD, 0, 0);
    sim.step(tick_of_ten_ms(), &mut channel);
    assert_eq!(waypoints(&sim), vec![(5 * ONE, 0)]);

    let (mut sim, _) = RobotSimulation::initialize(&[RobotInstruction::GotoPoint(5 * ONE, 0)]);
    let mut channel = channel_at(5 * ONE - DISTANCE_THRESHOLD + 1, 0, 0);
    sim.step(tick_of_ten_ms(), &mut channel);
    assert!(waypoints(&sim).is_empty());
}

#[test]
fn a_line_becomes_its_two_ends() {
    let script = [RobotInstruction::Line { start: (ONE, ONE), end: (2 * ONE, 3 * ONE) }];
    let (mut sim, _) = RobotSimulation::initialize(&script);
    let mut channel = channel_at(0, 0, 0);
    let step = sim.step(tick_of_ten_ms(), &mut channel);
    assert_eq!(waypoints(&sim), vec![(ONE, ONE), (2 * ONE, 3 * ONE)]);
    assert_eq!(step.debug.messages[3], "Target point: (1.00, 1.00)");
}

#[test]
fn the_ends_of_a_line_are_visited_in_order() {
    let script = [RobotInstruction::Line { start: (ONE, 0), end: (2 * ONE, 0) }];
    let (mut sim, _) = RobotSimulation::initialize(&script);
    let mut channel = channel_at(ONE, 0, 0);
    sim.step(tick_of_ten_ms(), &mut channel);
    assert_eq!(waypoints(&sim), vec![(2 * ONE, 0)]);
    let step = sim.step(tick_of_ten_ms(), &mut channel);
    assert_eq!(step.debug.messages[3], "Target point: (2.00, 0.00)");
    assert_eq!(sim.steps_since_idle(), 1);
}

#[test]
fn a_curve_becomes_a_hundred_samples() {
    let p0 = (0, 0);
    let p1 = (ONE, 3 * ONE);
    let p2 = (4 * ONE, 3 * ONE);
    let p3 = (5 * ONE, 0);
    let script = [RobotInstruction::CubicBezier { p0, p1, p2, p3 }];
    let (mut sim, _) = RobotSimulation::initialize(&script);
    // Far from the curve, so that the first tick drops no sample.
    let mut channel = channel_at(-50 * ONE, 0, 0);
    sim.step(tick_of_ten_ms(), &mut channel);
    let points = waypoints(&sim);
    assert_eq!(BEZIER_STEPS, 100);
    assert_eq!(points.len(), BEZIER_STEPS);
    assert_eq!(points[0], p0);
    for (n, point) in points.iter().enumerate() {
        assert_eq!(*point, cubic_bezier(p0, p1, p2, p3, n as i64 * (ONE / 100)));
    }
    assert_ne!(points[99], p3);
}

#[test]
fn the_counter_counts_the_ticks_since_the_last_instruction_was_taken() {
    let script = [RobotInstruction::GotoPoint(100 * ONE, 0), RobotInstruction::BladeOn];
    let (mut sim, _) = RobotSimulation::initialize(&script);
    let mut channel = channel_at(0, 0, 0);
    for expected in 0..5 {
        let step = sim.step(tick_of_ten_ms(), &mut channel);
        assert_eq!(sim.steps_since_idle(), expected);
        assert_eq!(step.debug.messages[0], format!("Steps since last idle: {expected}"));
    }
}

#[test]
fn the_controller_never_rests_in_the_blade_state() {
    let script = [
        RobotInstruction::BladeOn,
        RobotInstruction::GotoPoint(ONE / 20, 0),
        RobotInstruction::BladeOff,
        RobotInstruction::Line { start: (0, 0), end: (ONE / 50, 0) },
        RobotInstruction::BladeOn,
    ];
    let (mut sim, _) = RobotSimulation::initialize(&script);
    let mut channel = channel_at(0, 0, 0);
    let mut ended = false;
    for _ in 0..20 {
        let step = sim.step(tick_of_ten_ms(), &mut channel);
        assert!(!matches!(sim.state(), RobotState::SetBlade(_)));
        ended = step.end;
    }
    assert!(ended);
    assert!(channel.blade_on);
}

#[test]
fn the_tick_length_does_not_influence_the_controller() {
    let script = [RobotInstruction::GotoPoint(3 * ONE, 4 * ONE)];
    let (mut a, _) = RobotSimulation::initialize(&script);
    let (mut b, _) = RobotSimulation::initialize(&script);
    let mut channel_a = channel_at(0, 0, HALF_PI);
    let mut channel_b = channel_at(0, 0, HALF_PI);
    let step_a = a.step(Duration::from_millis(1), &mut channel_a);
    let step_b = b.step(Duration::from_secs(5), &mut channel_b);
    assert_eq!(step_a.debug.messages, step_b.debug.messages);
    assert_eq!(channel_a.motor_left, channel_b.motor_left);
    assert_eq!(channel_a.motor_right, channel_b.motor_right);
    assert_eq!(step_a.debug.messages[4], "Distance to target: 5.0000");
}
