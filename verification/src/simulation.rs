//! The motion controller: a state machine that works through a queue of
//! instructions and decides the motor powers of every tick.

use std::collections::VecDeque;
use std::time::Duration;
use vstd::prelude::*;
use vstd::string::StringExecFns;
use crate::debug::renderables;
use crate::debug::renderables::line_text;
use crate::debug::{DebugInfo, DebugView};
use crate::fixed::{
    add_spec, div_spec, fx_abs, fx_add, fx_div, fx_hypot, fx_mul, fx_mul_div, fx_neg,
    fx_pow_seven_tenths, fx_sqrt, fx_sub, hypot_spec, magnitude, mul_div_spec, mul_spec, neg_spec,
    pow_seven_tenths_spec, sqrt_spec, sub_spec, ONE, PI,
};
use crate::robot::{RobotInstruction, RobotParameters};
use crate::simulate::{
    writes_actuators_only, Simulation, SimulationInstructions, StepModel, StepReturn,
};
use crate::text::{
    decimal_text, natural_text, push_decimal, push_natural, push_signed_decimal,
    signed_decimal_text,
};
use crate::trig::{atan2_spec, fx_atan2};
use crate::util::{
    cubic_bezier, cubic_bezier_spec, signed_angle_difference, signed_angle_difference_spec,
};
use crate::Step;

verus! {

/// Number of waypoints a cubic Bézier curve is sampled into.
pub const BEZIER_STEPS: usize = 100;

/// Parameter distance between two samples of a curve, `1 / BEZIER_STEPS`.
pub const BEZIER_INCREMENT: i64 = 10_000_000;

/// Heading error above which the robot turns on the spot: 5 degrees.
pub const DIRECTION_THRESHOLD: i64 = 87_266_463;

/// Gain of the heading correction while the robot advances: 4.
pub const CORRECTION_FACTOR: i64 = 4_000_000_000;

/// Distance below which a waypoint counts as reached: 0.1 m.
pub const DISTANCE_THRESHOLD: i64 = 100_000_000;

/// Distance from which the robot advances at full power: 2 m.
pub const FULL_POWER_DISTANCE: i64 = 2_000_000_000;

/// Divisor of the turning power: 1.5.
pub const TURN_POWER_DIVISOR: i64 = 1_500_000_000;

/// Width of the line drawn from the target to the robot: 4.
pub const TARGET_LINE_WIDTH: i64 = 4_000_000_000;

/// The state of the controller between two ticks.
#[derive(Debug, Default, Clone)]
pub enum RobotState {
    /// No instruction is active; the next tick takes one from the queue.
    #[default]
    Idle,
    /// The blade is about to be switched; resolved in the tick it is entered.
    SetBlade(bool),
    /// Waypoints still to visit, the active target first.
    GotoPoints(VecDeque<(i64, i64)>),
}

/// A controller state with its waypoints as a sequence.
pub enum ControlState {
    Idle,
    SetBlade(bool),
    GotoPoints(Seq<(i64, i64)>),
}

impl View for RobotState {
    type V = ControlState;

    open spec fn view(&self) -> ControlState {
        match self {
            RobotState::Idle => ControlState::Idle,
            RobotState::SetBlade(on) => ControlState::SetBlade(*on),
            RobotState::GotoPoints(points) => ControlState::GotoPoints(points@),
        }
    }
}

/// Everything the controller remembers between two ticks.
pub struct ControllerView {
    /// Instructions not yet begun, the next one first.
    pub queue: Seq<RobotInstruction>,
    pub state: ControlState,
    /// Ticks since the controller last took an instruction from the queue.
    pub steps_since_idle: nat,
}

/// The instruction interpreter.
pub struct RobotSimulation {
    instruction_queue: VecDeque<RobotInstruction>,
    state: RobotState,
    steps_since_idle: usize,
}

impl View for RobotSimulation {
    type V = ControllerView;

    closed spec fn view(&self) -> ControllerView {
        ControllerView {
            queue: self.instruction_queue@,
            state: self.state@,
            steps_since_idle: self.steps_since_idle as nat,
        }
    }
}

/// What the controller works out from the pose readings and its target.
#[derive(Clone, Copy, Debug)]
pub struct Steering {
    /// Distance from the robot to the target.
    pub distance: i64,
    /// Shortest signed rotation from the heading to the bearing of the target.
    pub error_angle: i64,
    pub motor_left: i64,
    pub motor_right: i64,
}

/// Power for turning on the spot: `sign(e) · min(|e|, 1)^0.7 / 1.5`.
pub open spec fn turn_power(error: int) -> int {
    let capped = if magnitude(error) > ONE {
        ONE as int
    } else {
        magnitude(error)
    };
    let power = div_spec(pow_seven_tenths_spec(capped), TURN_POWER_DIVISOR as int);
    if error < 0 {
        -power
    } else {
        power
    }
}

/// Power for advancing: `sqrt(min(distance, 2) / 2)`.
pub open spec fn forward_power(distance: int) -> int
    recommends
        distance >= 0,
{
    let capped = if distance > FULL_POWER_DISTANCE {
        FULL_POWER_DISTANCE as int
    } else {
        distance
    };
    sqrt_spec(capped / 2)
}

/// The control law. The bearing of the target is `atan2(dy, dx)` and the
/// heading error the shortest signed rotation toward it. Above
/// `DIRECTION_THRESHOLD` the wheels turn against each other with
/// `turn_power`; otherwise both advance with `forward_power`, corrected by
/// the error times `CORRECTION_FACTOR`, added on the right and subtracted
/// on the left.
pub open spec fn steering_spec(target: (i64, i64), params: RobotParameters) -> Steering {
    let dx = sub_spec(target.0 as int, params.gps_x as int);
    let dy = sub_spec(target.1 as int, params.gps_y as int);
    let distance = hypot_spec(dx, dy);
    let error = signed_angle_difference_spec(params.imu as int, atan2_spec(dy, dx));
    if magnitude(error) > DIRECTION_THRESHOLD {
        let power = turn_power(error);
        Steering {
            distance: distance as i64,
            error_angle: error as i64,
            motor_left: (-power) as i64,
            motor_right: power as i64,
        }
    } else {
        let power = forward_power(distance);
        Steering {
            distance: distance as i64,
            error_angle: error as i64,
            motor_left: add_spec(mul_spec(neg_spec(error), CORRECTION_FACTOR as int), power) as i64,
            motor_right: add_spec(mul_spec(error, CORRECTION_FACTOR as int), power) as i64,
        }
    }
}

/// Applies the control law to the pose readings in `params` and the active
/// target.
pub fn steer(target: (i64, i64), params: &RobotParameters) -> (s: Steering)
    ensures
        s == steering_spec(target, *params),
        s.distance >= 0,
        -PI < s.error_angle <= PI,
{
    let dx = fx_sub(target.0, params.gps_x);
    let dy = fx_sub(target.1, params.gps_y);
    let distance = fx_hypot(dx, dy);
    let angle = fx_atan2(dy, dx);
    let error_angle = signed_angle_difference(params.imu, angle);
    let error_size = fx_abs(error_angle);
    if error_size > DIRECTION_THRESHOLD {
        let capped = if error_size > ONE { ONE } else { error_size };
        let root = fx_pow_seven_tenths(capped);
        let power = fx_div(root, TURN_POWER_DIVISOR);
        proof {
            assert(0 <= root * ONE <= ONE * ONE) by (nonlinear_arith)
                requires
                    0 <= root <= ONE,
            ;
            assert(0 <= (root * ONE) / (TURN_POWER_DIVISOR as int) <= root * ONE);
        }
        let signed = if error_angle < 0 { -power } else { power };
        Steering { distance, error_angle, motor_left: -signed, motor_right: signed }
    } else {
        let capped = if distance > FULL_POWER_DISTANCE { FULL_POWER_DISTANCE } else { distance };
        let power = fx_sqrt(capped / 2);
        Steering {
            distance,
            error_angle,
            motor_left: fx_add(fx_mul(fx_neg(error_angle), CORRECTION_FACTOR), power),
            motor_right: fx_add(fx_mul(error_angle, CORRECTION_FACTOR), power),
        }
    }
}

/// An angle in degrees.
pub open spec fn degrees_spec(angle: int) -> int {
    mul_div_spec(angle, 180 * ONE, PI as int)
}

/// The message that opens every tick with work to do.
pub open spec fn steps_text(steps: nat) -> Seq<char> {
    "Steps since last idle: "@ + natural_text(steps)
}

/// The message with the position of the robot, to three places.
pub open spec fn position_text(x: int, y: int) -> Seq<char> {
    "Robot Position: ("@ + decimal_text(x, 3) + ", "@ + decimal_text(y, 3) + ")"@
}

/// The message with the heading of the robot in degrees, to one place.
pub open spec fn heading_text(heading: int) -> Seq<char> {
    "Robot Angle: "@ + decimal_text(degrees_spec(heading), 1)
}

/// The message with the active target, to two places.
pub open spec fn target_text(x: int, y: int) -> Seq<char> {
    "Target point: ("@ + decimal_text(x, 2) + ", "@ + decimal_text(y, 2) + ")"@
}

/// The message with the distance to the target, to four places.
pub open spec fn distance_text(distance: int) -> Seq<char> {
    "Distance to target: "@ + decimal_text(distance, 4)
}

/// The message with the heading error in degrees, to one place.
pub open spec fn error_text(error: int) -> Seq<char> {
    "Angle error to target: "@ + decimal_text(degrees_spec(error), 1)
}

/// The message with the power of the left motor, signed, to two places.
pub open spec fn left_power_text(power: int) -> Seq<char> {
    "Left Motor Power: "@ + signed_decimal_text(power, 2)
}

/// The message with the power of the right motor, signed, to two places.
pub open spec fn right_power_text(power: int) -> Seq<char> {
    "Right Motor Power: "@ + signed_decimal_text(power, 2)
}

/// The messages of a tick spent driving toward `target`: position, heading,
/// target, distance, heading error and both motor powers.
pub open spec fn pursuit_texts(target: (i64, i64), params: RobotParameters, s: Steering) -> Seq<
    Seq<char>,
> {
    seq![
        position_text(params.gps_x as int, params.gps_y as int),
        heading_text(params.imu as int),
        target_text(target.0 as int, target.1 as int),
        distance_text(s.distance as int),
        error_text(s.error_angle as int),
        left_power_text(s.motor_left as int),
        right_power_text(s.motor_right as int),
    ]
}

/// The line drawn from the target to the robot, in red.
pub open spec fn target_line_text(target: (i64, i64), params: RobotParameters) -> Seq<char> {
    line_text(
        (target.0 as int, target.1 as int),
        (params.gps_x as int, params.gps_y as int),
        TARGET_LINE_WIDTH as int,
        (255u8, 0u8, 0u8),
    )
}

/// The waypoint with index `n` of a sampled curve, at parameter
/// `n / BEZIER_STEPS`.
pub open spec fn bezier_waypoint(
    p0: (i64, i64),
    p1: (i64, i64),
    p2: (i64, i64),
    p3: (i64, i64),
    n: int,
) -> (i64, i64) {
    let point = cubic_bezier_spec(
        (p0.0 as int, p0.1 as int),
        (p1.0 as int, p1.1 as int),
        (p2.0 as int, p2.1 as int),
        (p3.0 as int, p3.1 as int),
        n * BEZIER_INCREMENT,
    );
    (point.0 as i64, point.1 as i64)
}

/// The state that takes up an instruction: a blade instruction becomes
/// `SetBlade`; a point becomes a run of one waypoint, a line a run of its
/// two ends, and a curve a run of `BEZIER_STEPS` samples that starts at
/// its first control point and stops one increment short of its last.
pub open spec fn expand_spec(instruction: RobotInstruction) -> ControlState {
    match instruction {
        RobotInstruction::BladeOff => ControlState::SetBlade(false),
        RobotInstruction::BladeOn => ControlState::SetBlade(true),
        RobotInstruction::GotoPoint(x, y) => ControlState::GotoPoints(seq![(x, y)]),
        RobotInstruction::Line { start, end } => ControlState::GotoPoints(seq![start, end]),
        RobotInstruction::CubicBezier { p0, p1, p2, p3 } => ControlState::GotoPoints(
            Seq::new(BEZIER_STEPS as nat, |n: int| bezier_waypoint(p0, p1, p2, p3, n)),
        ),
    }
}

/// `params` with both motors stopped.
pub open spec fn stopped(params: RobotParameters) -> RobotParameters {
    RobotParameters { motor_left: 0, motor_right: 0, ..params }
}

/// The result of one tick of the controller.
pub struct StepOutcome {
    pub controller: ControllerView,
    pub params: RobotParameters,
    pub end: bool,
    pub debug: DebugView,
}

/// The second half of a tick: the controller acts on `state`, which is
/// either the state it was left in or the one it has just entered.
///
/// `SetBlade` sets the blade flag and returns to `Idle`. A run without
/// waypoints returns to `Idle` and leaves the motors as they are. A run
/// with waypoints steers toward the first, records the pursuit messages
/// and the target line, and drops that waypoint once the distance to it is
/// below `DISTANCE_THRESHOLD`.
pub open spec fn act_spec(
    queue: Seq<RobotInstruction>,
    state: ControlState,
    steps: nat,
    params: RobotParameters,
) -> StepOutcome {
    let opening = seq![steps_text(steps)];
    match state {
        ControlState::Idle => StepOutcome {
            controller: ControllerView { queue, state: ControlState::Idle, steps_since_idle: steps },
            params,
            end: false,
            debug: DebugView { messages: opening, renderables: Seq::empty() },
        },
        ControlState::SetBlade(on) => StepOutcome {
            controller: ControllerView { queue, state: ControlState::Idle, steps_since_idle: steps },
            params: RobotParameters { blade_on: on, ..params },
            end: false,
            debug: DebugView { messages: opening, renderables: Seq::empty() },
        },
        ControlState::GotoPoints(points) => if points.len() == 0 {
            StepOutcome {
                controller: ControllerView {
                    queue,
                    state: ControlState::Idle,
                    steps_since_idle: steps,
                },
                params,
                end: false,
                debug: DebugView { messages: opening, renderables: Seq::empty() },
            }
        } else {
            let target = points[0];
            let s = steering_spec(target, params);
            let rest = if s.distance < DISTANCE_THRESHOLD {
                points.drop_first()
            } else {
                points
            };
            StepOutcome {
                controller: ControllerView {
                    queue,
                    state: ControlState::GotoPoints(rest),
                    steps_since_idle: steps,
                },
                params: RobotParameters {
                    motor_left: s.motor_left,
                    motor_right: s.motor_right,
                    ..params
                },
                end: false,
                debug: DebugView {
                    messages: opening + pursuit_texts(target, params, s),
                    renderables: seq![target_line_text(target, params)],
                },
            }
        },
    }
}

/// The tick counter after one more tick; it stops at the largest `usize`.
pub open spec fn next_count(steps: nat) -> nat {
    if steps < usize::MAX {
        steps + 1
    } else {
        steps
    }
}

/// One tick of the controller.
///
/// An idle controller stops both motors and resets its counter. With an
/// empty queue it then reports the end and stays idle; otherwise it takes
/// the next instruction, enters the state for it and acts on that state in
/// the same tick. A controller that is not idle counts the tick and acts
/// on its state.
pub open spec fn step_spec(c: ControllerView, params: RobotParameters) -> StepOutcome {
    if c.state is Idle {
        if c.queue.len() == 0 {
            StepOutcome {
                controller: ControllerView {
                    queue: c.queue,
                    state: ControlState::Idle,
                    steps_since_idle: 0,
                },
                params: stopped(params),
                end: true,
                debug: DebugView {
                    messages: seq!["No instructions remaining"@],
                    renderables: Seq::empty(),
                },
            }
        } else {
            act_spec(c.queue.drop_first(), expand_spec(c.queue[0]), 0, stopped(params))
        }
    } else {
        act_spec(c.queue, c.state, next_count(c.steps_since_idle), params)
    }
}

/// The message that opens every tick with work to do.
pub fn steps_message(steps: usize) -> (m: String)
    ensures
        m@ == steps_text(steps as nat),
{
    let mut m = String::from_str("Steps since last idle: ");
    push_natural(&mut m, steps as u128);
    m
}

fn position_message(x: i64, y: i64) -> (m: String)
    ensures
        m@ == position_text(x as int, y as int),
{
    let mut m = String::from_str("Robot Position: (");
    push_decimal(&mut m, x, 3);
    m.append(", ");
    push_decimal(&mut m, y, 3);
    m.append(")");
    m
}

fn degrees(angle: i64) -> (d: i64)
    ensures
        d as int == degrees_spec(angle as int),
{
    fx_mul_div(angle, 180 * ONE, PI)
}

fn heading_message(heading: i64) -> (m: String)
    ensures
        m@ == heading_text(heading as int),
{
    let mut m = String::from_str("Robot Angle: ");
    push_decimal(&mut m, degrees(heading), 1);
    m
}

fn target_message(x: i64, y: i64) -> (m: String)
    ensures
        m@ == target_text(x as int, y as int),
{
    let mut m = String::from_str("Target point: (");
    push_decimal(&mut m, x, 2);
    m.append(", ");
    push_decimal(&mut m, y, 2);
    m.append(")");
    m
}

fn distance_message(distance: i64) -> (m: String)
    ensures
        m@ == distance_text(distance as int),
{
    let mut m = String::from_str("Distance to target: ");
    push_decimal(&mut m, distance, 4);
    m
}

fn error_message(error: i64) -> (m: String)
    ensures
        m@ == error_text(error as int),
{
    let mut m = String::from_str("Angle error to target: ");
    push_decimal(&mut m, degrees(error), 1);
    m
}

fn left_power_message(power: i64) -> (m: String)
    ensures
        m@ == left_power_text(power as int),
{
    let mut m = String::from_str("Left Motor Power: ");
    push_signed_decimal(&mut m, power, 2);
    m
}

fn right_power_message(power: i64) -> (m: String)
    ensures
        m@ == right_power_text(power as int),
{
    let mut m = String::from_str("Right Motor Power: ");
    push_signed_decimal(&mut m, power, 2);
    m
}

fn bezier_run(p0: (i64, i64), p1: (i64, i64), p2: (i64, i64), p3: (i64, i64)) -> (points: VecDeque<
    (i64, i64),
>)
    ensures
        points@ == Seq::new(BEZIER_STEPS as nat, |n: int| bezier_waypoint(p0, p1, p2, p3, n)),
{
    let mut points: VecDeque<(i64, i64)> = VecDeque::new();
    let mut n: usize = 0;
    while n < BEZIER_STEPS
        invariant
            n <= BEZIER_STEPS,
            points@ == Seq::new(n as nat, |k: int| bezier_waypoint(p0, p1, p2, p3, k)),
        decreases BEZIER_STEPS - n,
    {
        let t = (n as i64) * BEZIER_INCREMENT;
        points.push_back(cubic_bezier(p0, p1, p2, p3, t));
        n = n + 1;
        assert(points@ =~= Seq::new(n as nat, |k: int| bezier_waypoint(p0, p1, p2, p3, k)));
    }
    points
}

fn expand(instruction: RobotInstruction) -> (state: RobotState)
    ensures
        state@ == expand_spec(instruction),
{
    match instruction {
        RobotInstruction::BladeOff => RobotState::SetBlade(false),
        RobotInstruction::BladeOn => RobotState::SetBlade(true),
        RobotInstruction::GotoPoint(x, y) => {
            let mut points: VecDeque<(i64, i64)> = VecDeque::new();
            points.push_back((x, y));
            assert(points@ =~= seq![(x, y)]);
            RobotState::GotoPoints(points)
        },
        RobotInstruction::Line { start, end } => {
            let mut points: VecDeque<(i64, i64)> = VecDeque::new();
            points.push_back(start);
            points.push_back(end);
            assert(points@ =~= seq![start, end]);
            RobotState::GotoPoints(points)
        },
        RobotInstruction::CubicBezier { p0, p1, p2, p3 } => RobotState::GotoPoints(
            bezier_run(p0, p1, p2, p3),
        ),
    }
}

/// Steers toward `target`: writes the motor powers and records the
/// target line and the pursuit messages.
pub fn pursue(target: (i64, i64), params: &mut RobotParameters, debug: &mut DebugInfo) -> (s: Steering)
    ensures
        s == steering_spec(target, *old(params)),
        *final(params) == (RobotParameters {
            motor_left: s.motor_left,
            motor_right: s.motor_right,
            ..*old(params)
        }),
        final(debug)@ == (DebugView {
            messages: old(debug)@.messages + pursuit_texts(target, *old(params), s),
            renderables: old(debug)@.renderables.push(target_line_text(target, *old(params))),
        }),
{
    let s = steer(target, params);
    params.motor_left = s.motor_left;
    params.motor_right = s.motor_right;
    debug.push_renderable(
        renderables::line(target, (params.gps_x, params.gps_y), TARGET_LINE_WIDTH, (255, 0, 0)),
    );
    debug.push_message(position_message(params.gps_x, params.gps_y));
    debug.push_message(heading_message(params.imu));
    debug.push_message(target_message(target.0, target.1));
    debug.push_message(distance_message(s.distance));
    debug.push_message(error_message(s.error_angle));
    debug.push_message(left_power_message(s.motor_left));
    debug.push_message(right_power_message(s.motor_right));
    assert(debug@.messages =~= old(debug)@.messages + pursuit_texts(target, *old(params), s));
    s
}

impl RobotSimulation {
    /// A controller that is idle, with `instructions` queued in their order.
    /// It comes with the telemetry of tick 0: one message.
    pub fn initialize(instructions: &[RobotInstruction]) -> (r: (RobotSimulation, DebugInfo))
        ensures
            r.0@ == (ControllerView {
                queue: instructions@,
                state: ControlState::Idle,
                steps_since_idle: 0,
            }),
            r.1@ == (DebugView {
                messages: seq!["Robot Initialized"@],
                renderables: Seq::empty(),
            }),
    {
        let mut debug = DebugInfo::default();
        let mut instruction_queue: VecDeque<RobotInstruction> = VecDeque::new();
        let mut i: usize = 0;
        while i < instructions.len()
            invariant
                i <= instructions.len(),
                instruction_queue@ == instructions@.subrange(0, i as int),
            decreases instructions.len() - i,
        {
            instruction_queue.push_back(instructions[i]);
            i = i + 1;
            assert(instruction_queue@ =~= instructions@.subrange(0, i as int));
        }
        assert(instruction_queue@ =~= instructions@);
        debug.push_message(String::from_str("Robot Initialized"));
        assert(debug@.messages =~= seq!["Robot Initialized"@]);
        (RobotSimulation { instruction_queue, state: RobotState::Idle, steps_since_idle: 0 }, debug)
    }

    /// Runs the controller for one tick: reads the pose readings in
    /// `params`, writes the motor powers and the blade flag there, and
    /// returns the end signal with the telemetry of the tick.
    pub fn step(&mut self, _delta_time: Duration, params: &mut RobotParameters) -> (ret: Step)
        ensures
            final(self)@ == step_spec(old(self)@, *old(params)).controller,
            *final(params) == step_spec(old(self)@, *old(params)).params,
            ret.end == step_spec(old(self)@, *old(params)).end,
            ret.debug@ == step_spec(old(self)@, *old(params)).debug,
    {
        let mut state = RobotState::Idle;
        core::mem::swap(&mut self.state, &mut state);

        if let RobotState::Idle = state {
            self.steps_since_idle = 0;

            params.motor_left = 0;
            params.motor_right = 0;

            match self.instruction_queue.pop_front() {
                Some(instruction) => {
                    state = expand(instruction);
                    assert(self.instruction_queue@ =~= old(self)@.queue.drop_first());
                },
                None => {
                    let mut debug = DebugInfo::default();
                    debug.push_message(String::from_str("No instructions remaining"));
                    assert(debug@.messages =~= seq!["No instructions remaining"@]);
                    return Step { end: true, debug };
                },
            }
        } else if self.steps_since_idle < usize::MAX {
            self.steps_since_idle = self.steps_since_idle + 1;
        }
        let debug = self.act(state, params);
        Step { end: false, debug }
    }

    /// Acts on `state` for the rest of the tick and leaves the controller
    /// in the state that follows.
    fn act(&mut self, state: RobotState, params: &mut RobotParameters) -> (debug: DebugInfo)
        requires
            old(self)@.state is Idle,
        ensures
            final(self)@ == act_spec(
                old(self)@.queue,
                state@,
                old(self)@.steps_since_idle,
                *old(params),
            ).controller,
            *final(params) == act_spec(
                old(self)@.queue,
                state@,
                old(self)@.steps_since_idle,
                *old(params),
            ).params,
            debug@ == act_spec(
                old(self)@.queue,
                state@,
                old(self)@.steps_since_idle,
                *old(params),
            ).debug,
    {
        let mut debug = DebugInfo::default();
        debug.push_message(steps_message(self.steps_since_idle));
        assert(debug@.messages =~= seq![steps_text(self.steps_since_idle as nat)]);
        match state {
            RobotState::Idle => {},
            RobotState::SetBlade(on) => {
                params.blade_on = on;
            },
            RobotState::GotoPoints(mut points) => {
                if points.len() > 0 {
                    let target = points[0];
                    let s = pursue(target, params, &mut debug);
                    if s.distance < DISTANCE_THRESHOLD {
                        let ghost all = points@;
                        points.pop_front();
                        assert(points@ =~= all.drop_first());
                    }
                    self.state = RobotState::GotoPoints(points);
                }
            },
        }
        debug
    }

    /// The state the controller is in.
    pub fn state(&self) -> (state: &RobotState)
        ensures
            state@ == self@.state,
    {
        &self.state
    }

    /// Ticks since the controller last took an instruction from the queue.
    pub fn steps_since_idle(&self) -> (steps: usize)
        ensures
            steps == self@.steps_since_idle,
    {
        self.steps_since_idle
    }

    /// Number of instructions not yet begun.
    pub fn remaining_instructions(&self) -> (count: usize)
        ensures
            count == self@.queue.len(),
    {
        self.instruction_queue.len()
    }
}

/// Whatever state a tick starts in, it does not end in `SetBlade`: that
/// state is resolved in the tick that enters it.
pub proof fn lemma_set_blade_is_transient(c: ControllerView, params: RobotParameters)
    ensures
        !(step_spec(c, params).controller.state is SetBlade),
{
}

/// A tick that starts with the active target within reach drops that
/// target and keeps the rest of the run.
pub proof fn lemma_waypoint_within_reach_is_dropped(c: ControllerView, params: RobotParameters)
    requires
        c.state is GotoPoints,
        c.state->GotoPoints_0.len() > 0,
        steering_spec(c.state->GotoPoints_0[0], params).distance < DISTANCE_THRESHOLD,
    ensures
        step_spec(c, params).controller.state == ControlState::GotoPoints(
            c.state->GotoPoints_0.drop_first(),
        ),
        step_spec(c, params).controller.queue == c.queue,
{
}

/// A tick that starts with a run that has no waypoints left returns the
/// controller to idle and leaves the channel as it is.
pub proof fn lemma_finished_run_goes_idle(c: ControllerView, params: RobotParameters)
    requires
        c.state is GotoPoints,
        c.state->GotoPoints_0.len() == 0,
    ensures
        step_spec(c, params).controller.state is Idle,
        step_spec(c, params).controller.queue == c.queue,
        step_spec(c, params).params == params,
        !step_spec(c, params).end,
{
}

/// A tick changes nothing in the channel but the motor powers and the
/// blade flag.
pub proof fn lemma_step_writes_actuators_only(c: ControllerView, params: RobotParameters)
    ensures
        writes_actuators_only(params, step_spec(c, params).params),
{
}

impl Simulation for RobotSimulation {
    type DebugInfo = DebugInfo;

    open spec fn initial_model(instructions: Seq<RobotInstruction>) -> (ControllerView, DebugView) {
        (
            ControllerView { queue: instructions, state: ControlState::Idle, steps_since_idle: 0 },
            DebugView { messages: seq!["Robot Initialized"@], renderables: Seq::empty() },
        )
    }

    open spec fn step_model(controller: ControllerView, params: RobotParameters) -> StepModel<
        ControllerView,
        DebugView,
    > {
        let outcome = step_spec(controller, params);
        StepModel {
            controller: outcome.controller,
            params: outcome.params,
            signal: if outcome.end {
                StepReturn::End
            } else {
                StepReturn::Nothing
            },
            debug: outcome.debug,
        }
    }

    fn initialize(instructions: SimulationInstructions<'_>) -> (r: (RobotSimulation, DebugInfo)) {
        RobotSimulation::initialize(instructions.points)
    }

    fn step(&mut self, delta_time: Duration, params: &mut RobotParameters) -> (r: (
        StepReturn,
        DebugInfo,
    )) {
        proof {
            lemma_step_writes_actuators_only(self@, *params);
        }
        let Step { end, debug } = RobotSimulation::step(self, delta_time, params);
        let signal = if end {
            StepReturn::End
        } else {
            StepReturn::Nothing
        };
        (signal, debug)
    }
}

} // verus!
