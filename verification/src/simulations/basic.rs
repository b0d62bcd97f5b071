//! A controller that drives to one point at a time.

use std::collections::VecDeque;
use std::time::Duration;
use vstd::prelude::*;
use vstd::string::StringExecFns;
use crate::debug::{DebugInfo, DebugView};
use crate::robot::{RobotInstruction, RobotParameters};
use crate::simulate::{Simulation, SimulationInstructions, StepModel, StepReturn};
use crate::simulation::{
    next_count, pursue, pursuit_texts, steering_spec, steps_message, steps_text, stopped,
    target_line_text,
};

verus! {

/// Distance below which the target counts as reached: 0.2 m.
pub const DISTANCE_THRESHOLD: i64 = 200_000_000;

/// The state of the controller between two ticks.
#[derive(Debug, Default, Clone, Copy)]
pub enum State {
    /// No instruction is active; the next tick takes one from the queue.
    #[default]
    Idle,
    /// The blade is about to be switched; resolved in the tick it is entered.
    SetBlade(bool),
    /// The point that the robot is driving to.
    TargetPoint(i64, i64),
}

/// A controller with the steering of the standard one and a single target:
/// of a line or a curve it visits only the point where it ends, and it
/// counts a target as reached from `DISTANCE_THRESHOLD` on.
pub struct BasicGoto {
    instruction_queue: VecDeque<RobotInstruction>,
    state: State,
    steps_since_idle: usize,
}

/// Everything the controller remembers between two ticks.
pub struct BasicGotoView {
    /// Instructions not yet begun, the next one first.
    pub queue: Seq<RobotInstruction>,
    pub state: State,
    /// Ticks since the controller last took an instruction from the queue.
    pub steps_since_idle: nat,
}

impl View for BasicGoto {
    type V = BasicGotoView;

    closed spec fn view(&self) -> BasicGotoView {
        BasicGotoView {
            queue: self.instruction_queue@,
            state: self.state,
            steps_since_idle: self.steps_since_idle as nat,
        }
    }
}

/// The state that takes up an instruction. Of a line or a curve only the
/// point where it ends is kept.
pub open spec fn entered_state(instruction: RobotInstruction) -> State {
    match instruction {
        RobotInstruction::BladeOff => State::SetBlade(false),
        RobotInstruction::BladeOn => State::SetBlade(true),
        RobotInstruction::GotoPoint(x, y) => State::TargetPoint(x, y),
        RobotInstruction::Line { start, end } => State::TargetPoint(end.0, end.1),
        RobotInstruction::CubicBezier { p0, p1, p2, p3 } => State::TargetPoint(p3.0, p3.1),
    }
}

/// The second half of a tick: the controller acts on `state`. `SetBlade`
/// sets the blade flag and returns to `Idle`. `TargetPoint` steers toward
/// the point, records the pursuit messages and the target line, and
/// returns to `Idle` once the distance is below `DISTANCE_THRESHOLD`.
pub open spec fn act_spec(
    queue: Seq<RobotInstruction>,
    state: State,
    steps: nat,
    params: RobotParameters,
) -> StepModel<BasicGotoView, DebugView> {
    let opening = seq![steps_text(steps)];
    match state {
        State::Idle => StepModel {
            controller: BasicGotoView { queue, state: State::Idle, steps_since_idle: steps },
            params,
            signal: StepReturn::Nothing,
            debug: DebugView { messages: opening, renderables: Seq::empty() },
        },
        State::SetBlade(on) => StepModel {
            controller: BasicGotoView { queue, state: State::Idle, steps_since_idle: steps },
            params: RobotParameters { blade_on: on, ..params },
            signal: StepReturn::Nothing,
            debug: DebugView { messages: opening, renderables: Seq::empty() },
        },
        State::TargetPoint(x, y) => {
            let s = steering_spec((x, y), params);
            let next = if s.distance < DISTANCE_THRESHOLD {
                State::Idle
            } else {
                State::TargetPoint(x, y)
            };
            StepModel {
                controller: BasicGotoView { queue, state: next, steps_since_idle: steps },
                params: RobotParameters {
                    motor_left: s.motor_left,
                    motor_right: s.motor_right,
                    ..params
                },
                signal: StepReturn::Nothing,
                debug: DebugView {
                    messages: opening + pursuit_texts((x, y), params, s),
                    renderables: seq![target_line_text((x, y), params)],
                },
            }
        },
    }
}

/// One tick of the controller. An idle controller stops both motors and
/// resets its counter; with an empty queue it then reports the end, and
/// otherwise it takes the next instruction and acts on it in the same
/// tick. A controller that is not idle counts the tick and acts on its
/// state.
pub open spec fn step_spec(c: BasicGotoView, params: RobotParameters) -> StepModel<
    BasicGotoView,
    DebugView,
> {
    if c.state is Idle {
        if c.queue.len() == 0 {
            StepModel {
                controller: BasicGotoView {
                    queue: c.queue,
                    state: State::Idle,
                    steps_since_idle: 0,
                },
                params: stopped(params),
                signal: StepReturn::End,
                debug: DebugView {
                    messages: seq!["No instructions remaining"@],
                    renderables: Seq::empty(),
                },
            }
        } else {
            act_spec(c.queue.drop_first(), entered_state(c.queue[0]), 0, stopped(params))
        }
    } else {
        act_spec(c.queue, c.state, next_count(c.steps_since_idle), params)
    }
}

fn enter(instruction: RobotInstruction) -> (state: State)
    ensures
        state == entered_state(instruction),
{
    match instruction {
        RobotInstruction::BladeOff => State::SetBlade(false),
        RobotInstruction::BladeOn => State::SetBlade(true),
        RobotInstruction::GotoPoint(x, y) => State::TargetPoint(x, y),
        RobotInstruction::Line { start, end } => State::TargetPoint(end.0, end.1),
        RobotInstruction::CubicBezier { p0, p1, p2, p3 } => State::TargetPoint(p3.0, p3.1),
    }
}

impl BasicGoto {
    /// Acts on the state for the rest of the tick.
    fn act(&mut self, params: &mut RobotParameters) -> (debug: DebugInfo)
        ensures
            final(self)@ == act_spec(
                old(self)@.queue,
                old(self)@.state,
                old(self)@.steps_since_idle,
                *old(params),
            ).controller,
            *final(params) == act_spec(
                old(self)@.queue,
                old(self)@.state,
                old(self)@.steps_since_idle,
                *old(params),
            ).params,
            debug@ == act_spec(
                old(self)@.queue,
                old(self)@.state,
                old(self)@.steps_since_idle,
                *old(params),
            ).debug,
    {
        let mut debug = DebugInfo::default();
        debug.push_message(steps_message(self.steps_since_idle));
        assert(debug@.messages =~= seq![steps_text(self.steps_since_idle as nat)]);
        match self.state {
            State::Idle => {},
            State::SetBlade(on) => {
                params.blade_on = on;
                self.state = State::Idle;
            },
            State::TargetPoint(x, y) => {
                let s = pursue((x, y), params, &mut debug);
                if s.distance < DISTANCE_THRESHOLD {
                    self.state = State::Idle;
                }
            },
        }
        debug
    }

    /// The state the controller is in.
    pub fn state(&self) -> (state: State)
        ensures
            state == self@.state,
    {
        self.state
    }
}

impl Simulation for BasicGoto {
    type DebugInfo = DebugInfo;

    open spec fn initial_model(instructions: Seq<RobotInstruction>) -> (BasicGotoView, DebugView) {
        (
            BasicGotoView { queue: instructions, state: State::Idle, steps_since_idle: 0 },
            DebugView { messages: seq!["Robot Initialized"@], renderables: Seq::empty() },
        )
    }

    open spec fn step_model(controller: BasicGotoView, params: RobotParameters) -> StepModel<
        BasicGotoView,
        DebugView,
    > {
        step_spec(controller, params)
    }

    fn initialize(instructions: SimulationInstructions<'_>) -> (r: (BasicGoto, DebugInfo)) {
        let mut debug = DebugInfo::default();
        let mut instruction_queue: VecDeque<RobotInstruction> = VecDeque::new();
        let mut i: usize = 0;
        while i < instructions.points.len()
            invariant
                i <= instructions.points.len(),
                instruction_queue@ == instructions.points@.subrange(0, i as int),
            decreases instructions.points.len() - i,
        {
            instruction_queue.push_back(instructions.points[i]);
            i = i + 1;
            assert(instruction_queue@ =~= instructions.points@.subrange(0, i as int));
        }
        assert(instruction_queue@ =~= instructions.points@);
        debug.push_message(String::from_str("Robot Initialized"));
        assert(debug@.messages =~= seq!["Robot Initialized"@]);
        (BasicGoto { instruction_queue, state: State::Idle, steps_since_idle: 0 }, debug)
    }

    fn step(&mut self, delta_time: Duration, params: &mut RobotParameters) -> (r: (
        StepReturn,
        DebugInfo,
    )) {
        if let State::Idle = self.state {
            self.steps_since_idle = 0;

            params.motor_left = 0;
            params.motor_right = 0;

            match self.instruction_queue.pop_front() {
                Some(instruction) => {
                    self.state = enter(instruction);
                    assert(self.instruction_queue@ =~= old(self)@.queue.drop_first());
                },
                None => {
                    let mut debug = DebugInfo::default();
                    debug.push_message(String::from_str("No instructions remaining"));
                    assert(debug@.messages =~= seq!["No instructions remaining"@]);
                    return (StepReturn::End, debug);
                },
            }
        } else if self.steps_since_idle < usize::MAX {
            self.steps_since_idle = self.steps_since_idle + 1;
        }
        let debug = self.act(params);
        (StepReturn::Nothing, debug)
    }
}

} // verus!
