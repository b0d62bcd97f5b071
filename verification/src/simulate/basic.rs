//! A placeholder controller that exercises the harness.

use std::collections::VecDeque;
use std::time::Duration;
use vstd::prelude::*;
use crate::robot::{RobotInstruction, RobotParameters};
use crate::simulate::{Simulation, SimulationInstructions, StepModel, StepReturn};

verus! {

/// Power that the placeholder puts on the left motor: 1.
pub const LEFT_POWER: i64 = 1_000_000_000;

/// Power that the placeholder puts on the right motor: 0.5.
pub const RIGHT_POWER: i64 = 500_000_000;

/// The state of the placeholder, which is also its telemetry.
#[derive(Debug, Default, Clone, Copy)]
pub enum State {
    /// No instruction was taken yet.
    #[default]
    Idle,
    /// A blade instruction was taken.
    SetBlade(bool),
    /// A motion instruction was taken; the point is where it ends.
    TargetPoint(i64, i64),
}

impl View for State {
    type V = State;

    open spec fn view(&self) -> State {
        *self
    }
}

/// A controller that takes the first instruction of its script and from
/// then on drives in a circle, with `LEFT_POWER` and `RIGHT_POWER` on the
/// motors. It never switches the blade and never takes a second instruction.
pub struct Basic {
    instruction_queue: VecDeque<RobotInstruction>,
    state: State,
}

/// Everything the placeholder remembers between two ticks.
pub struct BasicView {
    /// Instructions not yet taken, the next one first.
    pub queue: Seq<RobotInstruction>,
    pub state: State,
}

impl View for Basic {
    type V = BasicView;

    closed spec fn view(&self) -> BasicView {
        BasicView { queue: self.instruction_queue@, state: self.state }
    }
}

/// The state that takes up an instruction. Of a line or a curve only the
/// point where it ends is kept.
pub open spec fn entered_state(instruction: RobotInstruction) -> State {
    match instruction {
        RobotInstruction::BladeOff => State::SetBlade(false),
        RobotInstruction::BladeOn => State::SetBlade(true),
        RobotInstruction::GotoPoint(x, y) => State::TargetPoint(x, y),
        RobotInstruction::Line { start, end } => State::TargetPoint(end.0, end.1),
        RobotInstruction::CubicBezier { p0, p1, p2, p3 } => State::TargetPoint(p3.0, p3.1),
    }
}

/// `params` with the fixed powers of the placeholder on the motors.
pub open spec fn circling(params: RobotParameters) -> RobotParameters {
    RobotParameters { motor_left: LEFT_POWER, motor_right: RIGHT_POWER, ..params }
}

/// One tick of the placeholder. An idle placeholder with an empty queue
/// reports the end and touches nothing. Otherwise it takes the next
/// instruction if it is idle, sets the fixed motor powers and reports its
/// state.
pub open spec fn step_spec(c: BasicView, params: RobotParameters) -> StepModel<BasicView, State> {
    if c.state is Idle {
        if c.queue.len() == 0 {
            StepModel { controller: c, params, signal: StepReturn::End, debug: State::Idle }
        } else {
            let state = entered_state(c.queue[0]);
            StepModel {
                controller: BasicView { queue: c.queue.drop_first(), state },
                params: circling(params),
                signal: StepReturn::Nothing,
                debug: state,
            }
        }
    } else {
        StepModel {
            controller: c,
            params: circling(params),
            signal: StepReturn::Nothing,
            debug: c.state,
        }
    }
}

fn enter(instruction: RobotInstruction) -> (state: State)
    ensures
        state == entered_state(instruction),
{
    match instruction {
        RobotInstruction::BladeOff => State::SetBlade(false),
        RobotInstruction::BladeOn => State::SetBlade(true),
        RobotInstruction::GotoPoint(x, y) => State::TargetPoint(x, y),
        RobotInstruction::Line { start, end } => State::TargetPoint(end.0, end.1),
        RobotInstruction::CubicBezier { p0, p1, p2, p3 } => State::TargetPoint(p3.0, p3.1),
    }
}

impl Simulation for Basic {
    type DebugInfo = State;

    open spec fn initial_model(instructions: Seq<RobotInstruction>) -> (BasicView, State) {
        (BasicView { queue: instructions, state: State::Idle }, State::Idle)
    }

    open spec fn step_model(controller: BasicView, params: RobotParameters) -> StepModel<
        BasicView,
        State,
    > {
        step_spec(controller, params)
    }

    fn initialize(instructions: SimulationInstructions<'_>) -> (r: (Basic, State)) {
        let mut instruction_queue: VecDeque<RobotInstruction> = VecDeque::new();
        let mut i: usize = 0;
        while i < instructions.points.len()
            invariant
                i <= instructions.points.len(),
                instruction_queue@ == instructions.points@.subrange(0, i as int),
            decreases instructions.points.len() - i,
        {
            instruction_queue.push_back(instructions.points[i]);
            i = i + 1;
            assert(instruction_queue@ =~= instructions.points@.subrange(0, i as int));
        }
        assert(instruction_queue@ =~= instructions.points@);
        (Basic { instruction_queue, state: State::Idle }, State::Idle)
    }

    fn step(&mut self, delta_time: Duration, params: &mut RobotParameters) -> (r: (
        StepReturn,
        State,
    )) {
        if let State::Idle = self.state {
            match self.instruction_queue.pop_front() {
                Some(instruction) => {
                    self.state = enter(instruction);
                    assert(self.instruction_queue@ =~= old(self)@.queue.drop_first());
                },
                None => {
                    return (StepReturn::End, State::Idle);
                },
            }
        }
        params.motor_left = LEFT_POWER;
        params.motor_right = RIGHT_POWER;

        (StepReturn::Nothing, self.state)
    }
}

} // verus!
