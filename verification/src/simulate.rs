//! The harness: a tick loop that works with any controller.
//!
//! Every tick the harness writes the pose into the channel, lets the
//! controller step, clamps the motor powers, integrates the pose and
//! records it with the telemetry of the controller.

use std::time::Duration;
use vstd::prelude::*;
use crate::fixed::{saturate, ONE};
use crate::kinematics::{integrate, integrate_spec, RobotPose};
use crate::robot::RobotInstruction;
use crate::util::clamp;
use crate::{duration_nanos, SimInput};

pub mod basic;

pub use crate::robot::RobotParameters;
pub use crate::simulate::basic::Basic;
pub use crate::SimulationLength;

verus! {

/// The script handed to a controller when it is set up.
pub struct SimulationInstructions<'a> {
    pub points: &'a [RobotInstruction],
}

/// What a controller reports at the end of a tick.
#[derive(Clone, Copy, Debug, PartialEq, Eq)]
pub enum StepReturn {
    /// Nothing to report: the run goes on.
    Nothing,
    /// Nothing is left to do.
    End,
}

/// The result of one tick of a controller, as mathematical values.
pub struct StepModel<C, T> {
    pub controller: C,
    pub params: RobotParameters,
    pub signal: StepReturn,
    pub debug: T,
}

/// `after` differs from `before` in nothing but the motor powers and the
/// blade flag.
pub open spec fn writes_actuators_only(before: RobotParameters, after: RobotParameters) -> bool {
    after == (RobotParameters {
        motor_left: after.motor_left,
        motor_right: after.motor_right,
        blade_on: after.blade_on,
        ..before
    })
}

/// A controller that the harness can drive. What it does is a function of
/// what it remembers and of the channel, and of nothing else.
pub trait Simulation: Sized + View {
    /// The telemetry that the controller emits with every tick.
    type DebugInfo: View;

    /// The controller that `initialize` sets up, and its first telemetry.
    spec fn initial_model(instructions: Seq<RobotInstruction>) -> (
        Self::V,
        <Self::DebugInfo as View>::V,
    );

    /// One tick of the controller.
    spec fn step_model(controller: Self::V, params: RobotParameters) -> StepModel<
        Self::V,
        <Self::DebugInfo as View>::V,
    >;

    /// Sets the controller up with a script.
    fn initialize(instructions: SimulationInstructions<'_>) -> (r: (Self, Self::DebugInfo))
        ensures
            (r.0@, r.1@) == Self::initial_model(instructions.points@),
    ;

    /// Runs the controller for one tick: it reads the pose and the
    /// constants in `params` and writes the motor powers and the blade flag.
    fn step(&mut self, delta_time: Duration, params: &mut RobotParameters) -> (r: (
        StepReturn,
        Self::DebugInfo,
    ))
        ensures
            final(self)@ == Self::step_model(old(self)@, *old(params)).controller,
            *final(params) == Self::step_model(old(self)@, *old(params)).params,
            r.0 == Self::step_model(old(self)@, *old(params)).signal,
            r.1@ == Self::step_model(old(self)@, *old(params)).debug,
            writes_actuators_only(*old(params), *final(params)),
    ;
}

/// One entry of the trace.
#[derive(Debug, Clone)]
pub struct SimulationState<D> {
    pub robot_x: i64,
    pub robot_y: i64,
    pub robot_theta: i64,
    pub blade_on: bool,
    pub debug: D,
}

/// An entry of the trace with the view of its telemetry.
pub struct StateView<T> {
    pub pose: RobotPose,
    pub blade_on: bool,
    pub debug: T,
}

impl<D: View> View for SimulationState<D> {
    type V = StateView<D::V>;

    open spec fn view(&self) -> StateView<D::V> {
        StateView {
            pose: RobotPose { x: self.robot_x, y: self.robot_y, theta: self.robot_theta },
            blade_on: self.blade_on,
            debug: self.debug@,
        }
    }
}

/// The entries of a trace as views.
pub open spec fn entries<D: View>(states: Seq<SimulationState<D>>) -> Seq<StateView<D::V>> {
    Seq::new(states.len(), |i: int| states[i]@)
}

/// Everything that a run carries from one tick to the next.
pub struct HarnessView<C> {
    pub controller: C,
    /// The channel as the last tick left it.
    pub params: RobotParameters,
    pub pose: RobotPose,
}

/// The result of one tick of the harness.
pub struct TickOutcome<C, T> {
    pub harness: HarnessView<C>,
    /// Whether the controller reported the end.
    pub end: bool,
    /// The entry that the tick adds to the trace.
    pub entry: StateView<T>,
}

/// A motor power restricted to `[-1, 1]`.
pub open spec fn clamp_power(power: i64) -> i64 {
    if power < -ONE {
        (-ONE) as i64
    } else if power > ONE {
        ONE
    } else {
        power
    }
}

/// The length of a tick as a fixed-point number of seconds.
pub open spec fn tick_seconds(delta_time: Duration) -> int {
    saturate(duration_nanos(delta_time) as int)
}

/// One tick of the harness: the pose is written into the channel, the
/// controller steps, both motor powers are clamped, the pose is integrated
/// over `dt`, and the new pose is recorded with the blade flag and the
/// telemetry of the controller.
#[verifier::opaque]
pub open spec fn tick_spec<S: Simulation>(h: HarnessView<S::V>, dt: int) -> TickOutcome<
    S::V,
    <S::DebugInfo as View>::V,
> {
    let readings = RobotParameters {
        imu: h.pose.theta,
        gps_x: h.pose.x,
        gps_y: h.pose.y,
        ..h.params
    };
    let stepped = S::step_model(h.controller, readings);
    let params = RobotParameters {
        motor_left: clamp_power(stepped.params.motor_left),
        motor_right: clamp_power(stepped.params.motor_right),
        ..stepped.params
    };
    let pose = integrate_spec(h.pose, params, dt);
    TickOutcome {
        harness: HarnessView { controller: stepped.controller, params, pose },
        end: stepped.signal == StepReturn::End,
        entry: StateView { pose, blade_on: params.blade_on, debug: stepped.debug },
    }
}

/// The entries that the ticks of a run add to the trace: the harness runs
/// tick after tick from `h` and stops after `remaining` ticks, or earlier,
/// after a tick in which the controller reported the end, if `stop_on_end`
/// is set.
pub open spec fn ticks_spec<S: Simulation>(
    h: HarnessView<S::V>,
    dt: int,
    stop_on_end: bool,
    remaining: nat,
) -> Seq<StateView<<S::DebugInfo as View>::V>>
    decreases remaining,
{
    if remaining == 0 {
        Seq::empty()
    } else {
        let tick = tick_spec::<S>(h, dt);
        if remaining == 1 || (stop_on_end && tick.end) {
            seq![tick.entry]
        } else {
            seq![tick.entry] + ticks_spec::<S>(
                tick.harness,
                dt,
                stop_on_end,
                (remaining - 1) as nat,
            )
        }
    }
}

/// The number of ticks that a tick budget allows. The end of a run is
/// decided after a tick, so there is always one; and a trace has room for
/// `usize::MAX` entries, the first of which is taken before any tick.
pub open spec fn clip_ticks(budget: nat) -> nat {
    if budget < 1 {
        1
    } else if budget > usize::MAX - 1 {
        (usize::MAX - 1) as nat
    } else {
        budget
    }
}

/// The number of ticks of length `tick` that cover `span`, rounded up.
/// With ticks of no length nothing but an empty span is ever covered.
pub open spec fn ticks_covering(span: nat, tick: nat) -> nat {
    if tick == 0 {
        if span == 0 {
            0
        } else {
            usize::MAX as nat
        }
    } else {
        ((span + tick - 1) / (tick as int)) as nat
    }
}

/// The most ticks a run of the given length can have.
pub open spec fn tick_limit(length: SimulationLength, delta_time: Duration) -> nat {
    match length {
        SimulationLength::Indefinite => clip_ticks(usize::MAX as nat),
        SimulationLength::Timed(span) => clip_ticks(
            ticks_covering(duration_nanos(span), duration_nanos(delta_time)),
        ),
        SimulationLength::Steps(n) => clip_ticks(n as nat),
    }
}

/// The state of the harness before the first tick: the controller as it
/// was set up with the whole script, both motors stopped, the blade off,
/// and the robot at the origin with heading 0.
pub open spec fn initial_harness<S: Simulation>(input: SimInput) -> HarnessView<S::V> {
    HarnessView {
        controller: S::initial_model(input.instructions@).0,
        params: RobotParameters {
            motor_left: 0,
            motor_right: 0,
            blade_on: false,
            imu: 0,
            gps_x: 0,
            gps_y: 0,
            wheel_distance: input.wheel_distance,
            wheel_radius: input.wheel_radius,
            max_motor_speed: input.max_motor_speed,
        },
        pose: RobotPose { x: 0, y: 0, theta: 0 },
    }
}

/// The first entry of a trace: the robot at rest at the origin, with the
/// first telemetry of the controller.
pub open spec fn initial_entry<S: Simulation>(input: SimInput) -> StateView<
    <S::DebugInfo as View>::V,
> {
    StateView {
        pose: RobotPose { x: 0, y: 0, theta: 0 },
        blade_on: false,
        debug: S::initial_model(input.instructions@).1,
    }
}

/// The trace of a run: the initial entry, then one entry per tick until the
/// run ends. Only a run of indefinite length heeds the end signal of the
/// controller.
pub open spec fn trace_spec<S: Simulation>(input: SimInput) -> Seq<
    StateView<<S::DebugInfo as View>::V>,
> {
    seq![initial_entry::<S>(input)] + ticks_spec::<S>(
        initial_harness::<S>(input),
        tick_seconds(input.delta_time),
        input.sim_length is Indefinite,
        tick_limit(input.sim_length, input.delta_time),
    )
}

/// Rounding a quotient up adds one to it exactly when there is a remainder.
pub proof fn lemma_ticks_covering(span: nat, tick: nat)
    requires
        tick > 0,
    ensures
        ticks_covering(span, tick) == if span % tick == 0 {
            span / tick
        } else {
            span / tick + 1
        },
{
    let q = span / tick;
    let r = span % tick;
    assert(span == q * tick + r && 0 <= r < tick) by (nonlinear_arith)
        requires
            q == span / tick,
            r == span % tick,
            tick > 0,
    ;
    if r == 0 {
        assert((q * tick + tick - 1) / (tick as int) == q) by (nonlinear_arith)
            requires
                tick > 0,
                q >= 0,
        ;
    } else {
        assert((q * tick + r + tick - 1) / (tick as int) == q + 1) by (nonlinear_arith)
            requires
                tick > 0,
                q >= 0,
                0 < r < tick,
        ;
    }
}

fn tick_budget(length: &SimulationLength, delta_time: Duration) -> (limit: usize)
    ensures
        limit == tick_limit(*length, delta_time),
        1 <= limit < usize::MAX,
{
    let budget: usize = match length {
        SimulationLength::Indefinite => usize::MAX,
        SimulationLength::Timed(span) => {
            let span_nanos = span.as_nanos();
            let tick_nanos = delta_time.as_nanos();
            if tick_nanos == 0 {
                if span_nanos == 0 {
                    0
                } else {
                    usize::MAX
                }
            } else {
                let whole = span_nanos / tick_nanos;
                proof {
                    lemma_ticks_covering(span_nanos as nat, tick_nanos as nat);
                }
                if whole >= usize::MAX as u128 {
                    usize::MAX
                } else if span_nanos % tick_nanos == 0 {
                    whole as usize
                } else {
                    whole as usize + 1
                }
            }
        },
        SimulationLength::Steps(n) => *n,
    };
    if budget < 1 {
        1
    } else if budget > usize::MAX - 1 {
        usize::MAX - 1
    } else {
        budget
    }
}

fn tick_length(delta_time: Duration) -> (dt: i64)
    ensures
        dt as int == tick_seconds(delta_time),
{
    let nanos = delta_time.as_nanos();
    if nanos > i64::MAX as u128 {
        i64::MAX
    } else {
        nanos as i64
    }
}

/// One tick of the harness on the running state: returns the entry for
/// the trace and whether the controller reported the end.
fn tick<S: Simulation>(
    sim: &mut S,
    in_out: &mut RobotParameters,
    pose: &mut RobotPose,
    delta_time: Duration,
    dt: i64,
) -> (r: (SimulationState<S::DebugInfo>, bool))
    requires
        old(in_out).wheel_distance != 0,
    ensures
        (HarnessView { controller: final(sim)@, params: *final(in_out), pose: *final(pose) })
            == tick_spec::<S>(
            HarnessView { controller: old(sim)@, params: *old(in_out), pose: *old(pose) },
            dt as int,
        ).harness,
        r.0@ == tick_spec::<S>(
            HarnessView { controller: old(sim)@, params: *old(in_out), pose: *old(pose) },
            dt as int,
        ).entry,
        r.1 == tick_spec::<S>(
            HarnessView { controller: old(sim)@, params: *old(in_out), pose: *old(pose) },
            dt as int,
        ).end,
        final(in_out).wheel_distance == old(in_out).wheel_distance,
{
    reveal(tick_spec);
    in_out.imu = pose.theta;
    in_out.gps_x = pose.x;
    in_out.gps_y = pose.y;

    let (signal, debug) = sim.step(delta_time, in_out);
    in_out.motor_left = clamp(in_out.motor_left, (-ONE, ONE));
    in_out.motor_right = clamp(in_out.motor_right, (-ONE, ONE));

    *pose = integrate(*pose, in_out, dt);

    let end = match signal {
        StepReturn::End => true,
        StepReturn::Nothing => false,
    };
    (
        SimulationState {
            robot_x: pose.x,
            robot_y: pose.y,
            robot_theta: pose.theta,
            blade_on: in_out.blade_on,
            debug,
        },
        end,
    )
}

/// Runs the script of `input` from the origin with a controller of type
/// `S` and returns the trace.
pub fn run_simulation<S: Simulation>(input: &SimInput) -> (states: Vec<
    SimulationState<S::DebugInfo>,
>)
    requires
        input.wheel_distance != 0,
    ensures
        entries(states@) == trace_spec::<S>(*input),
{
    let (mut sim, debug) = S::initialize(
        SimulationInstructions { points: input.instructions.as_slice() },
    );

    let mut states: Vec<SimulationState<S::DebugInfo>> = Vec::new();
    let mut pose = RobotPose { x: 0, y: 0, theta: 0 };
    states.push(
        SimulationState { robot_x: 0, robot_y: 0, robot_theta: 0, blade_on: false, debug },
    );
    assert(entries(states@) =~= seq![initial_entry::<S>(*input)]);

    let limit = tick_budget(&input.sim_length, input.delta_time);
    let stop_on_end = match input.sim_length {
        SimulationLength::Indefinite => true,
        _ => false,
    };
    let dt = tick_length(input.delta_time);

    let mut in_out = RobotParameters {
        imu: 0,
        gps_x: 0,
        gps_y: 0,
        motor_left: 0,
        motor_right: 0,
        blade_on: false,
        wheel_distance: input.wheel_distance,
        wheel_radius: input.wheel_radius,
        max_motor_speed: input.max_motor_speed,
    };

    let mut step_count: usize = 0;
    loop
        invariant_except_break
            step_count < limit,
            trace_spec::<S>(*input) == entries(states@) + ticks_spec::<S>(
                HarnessView { controller: sim@, params: in_out, pose },
                dt as int,
                stop_on_end,
                (limit - step_count) as nat,
            ),
        invariant
            limit < usize::MAX,
            in_out.wheel_distance != 0,
        ensures
            entries(states@) == trace_spec::<S>(*input),
        decreases limit - step_count,
    {
        let ghost before = HarnessView { controller: sim@, params: in_out, pose };
        let ghost recorded = entries(states@);
        let (state, end) = tick(&mut sim, &mut in_out, &mut pose, input.delta_time, dt);
        states.push(state);
        step_count = step_count + 1;

        proof {
            let tick = tick_spec::<S>(before, dt as int);
            let rest = ticks_spec::<S>(
                tick.harness,
                dt as int,
                stop_on_end,
                (limit - step_count) as nat,
            );
            assert(entries(states@) =~= recorded + seq![tick.entry]);
            assert(recorded + (seq![tick.entry] + rest) =~= (recorded + seq![tick.entry]) + rest);
        }
        if (stop_on_end && end) || step_count >= limit {
            break;
        }
    }
    states
}

} // verus!
