use isp_sim::fixed::ONE;
use isp_sim::robot::{RobotInstruction, RobotParameters};
use isp_sim::simulate::basic::{State as BasicState, LEFT_POWER, RIGHT_POWER};
use isp_sim::simulate::{run_simulation, Basic, Simulation, SimulationInstructions, StepReturn};
use isp_sim::simulation::RobotSimulation;
use isp_sim::simulations::basic::{BasicGoto, State as GotoState, DISTANCE_THRESHOLD};
use isp_sim::{SimInput, SimulationLength};
use std::time::Duration;

fn strategy_input(instructions: Vec<RobotInstruction>, sim_length: SimulationLength) -> SimInput {
    SimInput {
        instructions,
        sim_length,
        delta_time: Duration::from_millis(10),
        wheel_distance: ONE / 2,
        wheel_radius: ONE / 5,
        max_motor_speed: 10 * ONE,
        blade_radius: ONE / 4,
    }
}

fn strategy_channel(x: i64, y: i64, heading: i64) -> RobotParameters {
    RobotParameters {
        motor_left: 0,
        motor_right: 0,
        blade_on: false,
        imu: heading,
        gps_x: x,
        gps_y: y,
        wheel_distance: ONE / 2,
        wheel_radius: ONE / 5,
        max_motor_speed: 10 * ONE,
    }
}

#[test]
fn the_placeholder_reports_its_state_as_telemetry() {
    let script = [RobotInstruction::GotoPoint(3 * ONE, 4 * ONE), RobotInstruction::BladeOn];
    let (mut sim, first) = Basic::initialize(SimulationInstructions { points: &script });
    assert!(matches!(first, BasicState::Idle));
    let mut channel = strategy_channel(0, 0, 0);
    for _ in 0..3 {
        let (signal, state) = sim.step(Duration::from_millis(10), &mut channel);
        assert_eq!(signal, StepReturn::Nothing);
        assert!(matches!(state, BasicState::TargetPoint(x, y) if x == 3 * ONE && y == 4 * ONE));
        assert_eq!(channel.motor_left, LEFT_POWER);
        assert_eq!(channel.motor_right, RIGHT_POWER);
        assert!(!channel.blade_on);
    }
}

#[test]
fn the_placeholder_keeps_the_end_of_a_line_or_a_curve() {
    let line = [RobotInstruction::Line { start: (ONE, 2 * ONE), end: (3 * ONE, 4 * ONE) }];
    let (mut sim, _) = Basic::initialize(SimulationInstructions { points: &line });
    let mut channel = strategy_channel(0, 0, 0);
    let (_, state) = sim.step(Duration::from_millis(10), &mut channel);
    assert!(matches!(state, BasicState::TargetPoint(x, y) if x == 3 * ONE && y == 4 * ONE));

    let curve = [RobotInstruction::CubicBezier {
        p0: (0, 0),
        p1: (ONE, 0),
        p2: (ONE, ONE),
        p3: (7 * ONE, -ONE),
    }];
    let (mut sim, _) = Basic::initialize(SimulationInstructions { points: &curve });
    let (_, state) = sim.step(Duration::from_millis(10), &mut channel);
    assert!(matches!(state, BasicState::TargetPoint(x, y) if x == 7 * ONE && y == -ONE));
}

#[test]
fn the_placeholder_takes_a_blade_instruction_without_switching_the_blade() {
    let script = [RobotInstruction::BladeOn];
    let (mut sim, _) = Basic::initialize(SimulationInstructions { points: &script });
    let mut channel = strategy_channel(0, 0, 0);
    let (signal, state) = sim.step(Duration::from_millis(10), &mut channel);
    assert_eq!(signal, StepReturn::Nothing);
    assert!(matches!(state, BasicState::SetBlade(true)));
    assert!(!channel.blade_on);
}

#[test]
fn the_placeholder_with_an_empty_script_reports_the_end_and_touches_nothing() {
    let (mut sim, _) = Basic::initialize(SimulationInstructions { points: &[] });
    let mut channel = strategy_channel(0, 0, 0);
    channel.motor_left = 7;
    channel.motor_right = -7;
    let (signal, state) = sim.step(Duration::from_millis(10), &mut channel);
    assert_eq!(signal, StepReturn::End);
    assert!(matches!(state, BasicState::Idle));
    assert_eq!((channel.motor_left, channel.motor_right), (7, -7));
}

#[test]
fn the_harness_runs_the_placeholder_in_a_circle() {
    let input = strategy_input(
        vec![RobotInstruction::GotoPoint(ONE, ONE)],
        SimulationLength::Steps(4),
    );
    let states = run_simulation::<Basic>(&input);
    assert_eq!(states.len(), 5);
    assert!(matches!(states[0].debug, BasicState::Idle));
    assert!(matches!(states[1].debug, BasicState::TargetPoint(_, _)));
    // (r/2)·(φ_l + φ_r)·dt = 0.1 · 15 · 0.01 and (r/s)·(φ_r − φ_l)·dt = 0.4 · (−5) · 0.01.
    assert_eq!(states[1].robot_x, 15_000_000);
    assert_eq!(states[1].robot_y, 0);
    assert_eq!(states[1].robot_theta, -20_000_000);
    assert!(states[2].robot_y < 0);
    assert_eq!(states[4].robot_theta, -80_000_000);

    let empty = strategy_input(vec![], SimulationLength::Indefinite);
    let states = run_simulation::<Basic>(&empty);
    assert_eq!(states.len(), 2);
    assert_eq!((states[1].robot_x, states[1].robot_y, states[1].robot_theta), (0, 0, 0));
}

#[test]
fn the_point_controller_steers_like_the_standard_one() {
    let script = [RobotInstruction::GotoPoint(3 * ONE, 4 * ONE)];
    let (mut simple, first) = BasicGoto::initialize(SimulationInstructions { points: &script });
    let (mut standard, _) = RobotSimulation::initialize(&script);
    assert_eq!(first.messages, vec![String::from("Robot Initialized")]);
    let mut a = strategy_channel(ONE, -ONE, ONE / 3);
    let mut b = strategy_channel(ONE, -ONE, ONE / 3);
    let (signal, debug) = Simulation::step(&mut simple, Duration::from_millis(10), &mut a);
    let step = standard.step(Duration::from_millis(10), &mut b);
    assert_eq!(signal, StepReturn::Nothing);
    assert_eq!((a.motor_left, a.motor_right), (b.motor_left, b.motor_right));
    assert_eq!(debug.messages, step.debug.messages);
    assert_eq!(debug.renderables, step.debug.renderables);
    assert!(matches!(simple.state(), GotoState::TargetPoint(x, y) if x == 3 * ONE && y == 4 * ONE));
}

#[test]
fn the_point_controller_goes_idle_as_soon_as_the_target_is_within_reach() {
    let script = [RobotInstruction::GotoPoint(5 * ONE, 0)];
    let (mut sim, _) = BasicGoto::initialize(SimulationInstructions { points: &script });
    let mut channel = strategy_channel(5 * ONE - DISTANCE_THRESHOLD + 1, 0, 0);
    let (signal, _) = Simulation::step(&mut sim, Duration::from_millis(10), &mut channel);
    assert_eq!(signal, StepReturn::Nothing);
    assert!(matches!(sim.state(), GotoState::Idle));
    let (signal, debug) = Simulation::step(&mut sim, Duration::from_millis(10), &mut channel);
    assert_eq!(signal, StepReturn::End);
    assert_eq!(debug.messages, vec![String::from("No instructions remaining")]);
    assert_eq!((channel.motor_left, channel.motor_right), (0, 0));

    let (mut sim, _) = BasicGoto::initialize(SimulationInstructions { points: &script });
    let mut channel = strategy_channel(5 * ONE - DISTANCE_THRESHOLD, 0, 0);
    Simulation::step(&mut sim, Duration::from_millis(10), &mut channel);
    assert!(matches!(sim.state(), GotoState::TargetPoint(_, _)));
}

#[test]
fn the_point_controller_switches_the_blade_in_one_tick() {
    let script = [RobotInstruction::BladeOn, RobotInstruction::BladeOff];
    let (mut sim, _) = BasicGoto::initialize(SimulationInstructions { points: &script });
    let mut channel = strategy_channel(0, 0, 0);
    let (_, debug) = Simulation::step(&mut sim, Duration::from_millis(10), &mut channel);
    assert!(channel.blade_on);
    assert!(matches!(sim.state(), GotoState::Idle));
    assert_eq!(debug.messages, vec![String::from("Steps since last idle: 0")]);
    Simulation::step(&mut sim, Duration::from_millis(10), &mut channel);
    assert!(!channel.blade_on);
}

#[test]
fn the_point_controller_visits_the_end_of_a_line() {
    let input = strategy_input(
        vec![RobotInstruction::Line { start: (0, 2 * ONE), end: (2 * ONE, 0) }],
        SimulationLength::Indefinite,
    );
    let states = run_simulation::<BasicGoto>(&input);
    let last = states.last().unwrap();
    let dx = (last.robot_x - 2 * ONE) as f64 / ONE as f64;
    let dy = last.robot_y as f64 / ONE as f64;
    assert!((dx * dx + dy * dy).sqrt() < 0.2);
    assert_eq!(last.debug.messages, vec![String::from("No instructions remaining")]);
    // It never heads for the start of the line.
    for state in &states[1..states.len() - 1] {
        assert_eq!(state.debug.messages[3], "Target point: (2.00, 0.00)");
    }
}

#[test]
fn the_point_controller_counts_the_ticks_since_it_took_an_instruction() {
    let script = [RobotInstruction::GotoPoint(100 * ONE, 0)];
    let (mut sim, _) = BasicGoto::initialize(SimulationInstructions { points: &script });
    let mut channel = strategy_channel(0, 0, 0);
    for expected in 0..4 {
        let (_, debug) = Simulation::step(&mut sim, Duration::from_millis(10), &mut channel);
        assert_eq!(debug.messages[0], format!("Steps since last idle: {expected}"));
    }
}

#[test]
fn every_strategy_keeps_a_step_budget() {
    let script = vec![RobotInstruction::GotoPoint(ONE, ONE), RobotInstruction::BladeOn];
    let input = strategy_input(script, SimulationLength::Steps(10));
    assert_eq!(run_simulation::<Basic>(&input).len(), 11);
    assert_eq!(run_simulation::<BasicGoto>(&input).len(), 11);
    assert_eq!(run_simulation::<RobotSimulation>(&input).len(), 11);
}
