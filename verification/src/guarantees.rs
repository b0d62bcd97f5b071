//! What holds of every run, proved from the definition of the trace.

use vstd::prelude::*;
use crate::kinematics::{lemma_integrate_at_rest, RobotPose};
use crate::robot::{RobotInstruction, RobotParameters};
use crate::simulate::{
    clamp_power, initial_entry, initial_harness, tick_limit, tick_seconds, tick_spec, ticks_spec,
    trace_spec, HarnessView, Simulation,
};
use crate::simulation::{lemma_set_blade_is_transient, RobotSimulation};
use crate::{SimInput, SimulationLength};

verus! {

/// A run that does not heed the end signal takes every tick it is allowed,
/// whatever the controller.
pub proof fn lemma_budgeted_ticks_length<S: Simulation>(
    h: HarnessView<S::V>,
    dt: int,
    remaining: nat,
)
    ensures
        ticks_spec::<S>(h, dt, false, remaining).len() == remaining,
    decreases remaining,
{
    if remaining > 1 {
        lemma_budgeted_ticks_length::<S>(tick_spec::<S>(h, dt).harness, dt, (remaining - 1) as nat);
    }
}

/// A run takes at least one tick and at most as many as it is allowed.
pub proof fn lemma_ticks_length_bounds<S: Simulation>(
    h: HarnessView<S::V>,
    dt: int,
    stop_on_end: bool,
    remaining: nat,
)
    requires
        remaining >= 1,
    ensures
        1 <= ticks_spec::<S>(h, dt, stop_on_end, remaining).len() <= remaining,
    decreases remaining,
{
    if remaining > 1 {
        lemma_ticks_length_bounds::<S>(
            tick_spec::<S>(h, dt).harness,
            dt,
            stop_on_end,
            (remaining - 1) as nat,
        );
    }
}

/// The trace of a run with a budget of `n` ticks has the initial entry and
/// one entry per tick, whatever the script and the controller.
pub proof fn lemma_trace_length_steps<S: Simulation>(input: SimInput, n: usize)
    requires
        input.sim_length == SimulationLength::Steps(n),
        1 <= n < usize::MAX,
    ensures
        trace_spec::<S>(input).len() == n + 1,
{
    lemma_budgeted_ticks_length::<S>(
        initial_harness::<S>(input),
        tick_seconds(input.delta_time),
        tick_limit(input.sim_length, input.delta_time),
    );
}

/// The trace of a run with any tick or time budget has one entry more than
/// the budget allows ticks.
pub proof fn lemma_trace_length_budgeted<S: Simulation>(input: SimInput)
    requires
        !(input.sim_length is Indefinite),
    ensures
        trace_spec::<S>(input).len() == tick_limit(input.sim_length, input.delta_time) + 1,
{
    lemma_budgeted_ticks_length::<S>(
        initial_harness::<S>(input),
        tick_seconds(input.delta_time),
        tick_limit(input.sim_length, input.delta_time),
    );
}

/// Every trace starts with the initial entry and has at least one more.
pub proof fn lemma_trace_start<S: Simulation>(input: SimInput)
    ensures
        trace_spec::<S>(input).len() >= 2,
        trace_spec::<S>(input)[0] == initial_entry::<S>(input),
{
    lemma_ticks_length_bounds::<S>(
        initial_harness::<S>(input),
        tick_seconds(input.delta_time),
        input.sim_length is Indefinite,
        tick_limit(input.sim_length, input.delta_time),
    );
}

/// The channel that the controller sees in a tick that starts from `h`.
pub open spec fn readings(h: HarnessView<<RobotSimulation as View>::V>) -> RobotParameters {
    RobotParameters { imu: h.pose.theta, gps_x: h.pose.x, gps_y: h.pose.y, ..h.params }
}

/// The channel after the motor powers that the controller chose in a tick
/// from `h` were clamped.
pub open spec fn clamped(h: HarnessView<<RobotSimulation as View>::V>) -> RobotParameters {
    let stepped = RobotSimulation::step_model(h.controller, readings(h));
    RobotParameters {
        motor_left: clamp_power(stepped.params.motor_left),
        motor_right: clamp_power(stepped.params.motor_right),
        ..stepped.params
    }
}

/// A tick that finds the standard controller idle and the queue empty
/// reports the end and moves nothing: both motors are stopped and the pose
/// stays.
pub proof fn lemma_tick_with_nothing_to_do(h: HarnessView<<RobotSimulation as View>::V>, dt: int)
    requires
        h.controller.state is Idle,
        h.controller.queue.len() == 0,
        h.params.wheel_distance != 0,
    ensures
        tick_spec::<RobotSimulation>(h, dt).end,
        tick_spec::<RobotSimulation>(h, dt).entry.pose == h.pose,
        tick_spec::<RobotSimulation>(h, dt).entry.blade_on == h.params.blade_on,
        tick_spec::<RobotSimulation>(h, dt).harness.pose == h.pose,
        tick_spec::<RobotSimulation>(h, dt).harness.controller.state is Idle,
        tick_spec::<RobotSimulation>(h, dt).harness.controller.queue.len() == 0,
{
    reveal(tick_spec);
    lemma_integrate_at_rest(h.pose, clamped(h), dt);
}

/// With an empty script a run of indefinite length ends after exactly one
/// tick, and the robot is still at the origin with heading 0.
pub proof fn lemma_empty_script_ends_at_once(input: SimInput)
    requires
        input.instructions@.len() == 0,
        input.sim_length is Indefinite,
        input.wheel_distance != 0,
    ensures
        trace_spec::<RobotSimulation>(input).len() == 2,
        trace_spec::<RobotSimulation>(input)[1].pose == (RobotPose { x: 0, y: 0, theta: 0 }),
        trace_spec::<RobotSimulation>(input)[1].blade_on == false,
{
    lemma_tick_with_nothing_to_do(
        initial_harness::<RobotSimulation>(input),
        tick_seconds(input.delta_time),
    );
}

/// A tick that finds the standard controller idle and a blade instruction
/// next in the queue carries the instruction out at once: the blade flag
/// is set as instructed, the controller is idle again, the instruction has
/// left the queue, and the pose stays.
pub proof fn lemma_blade_tick(h: HarnessView<<RobotSimulation as View>::V>, dt: int, on: bool)
    requires
        h.controller.state is Idle,
        h.controller.queue.len() > 0,
        h.controller.queue[0] == (if on {
            RobotInstruction::BladeOn
        } else {
            RobotInstruction::BladeOff
        }),
        h.params.wheel_distance != 0,
    ensures
        tick_spec::<RobotSimulation>(h, dt).entry.blade_on == on,
        tick_spec::<RobotSimulation>(h, dt).entry.pose == h.pose,
        tick_spec::<RobotSimulation>(h, dt).harness.pose == h.pose,
        tick_spec::<RobotSimulation>(h, dt).harness.controller.state is Idle,
        tick_spec::<RobotSimulation>(h, dt).harness.controller.queue
            == h.controller.queue.drop_first(),
        tick_spec::<RobotSimulation>(h, dt).harness.params.wheel_distance
            == h.params.wheel_distance,
        !tick_spec::<RobotSimulation>(h, dt).end,
{
    reveal(tick_spec);
    lemma_integrate_at_rest(h.pose, clamped(h), dt);
}

/// A script that switches the blade on and then off, run for two ticks:
/// the first tick leaves the blade on and the second leaves it off, and
/// after either the controller is idle again.
pub proof fn lemma_blade_on_then_off(input: SimInput)
    requires
        input.instructions@ == seq![RobotInstruction::BladeOn, RobotInstruction::BladeOff],
        input.sim_length == SimulationLength::Steps(2),
        input.wheel_distance != 0,
    ensures
        trace_spec::<RobotSimulation>(input).len() == 3,
        trace_spec::<RobotSimulation>(input)[1].blade_on,
        !trace_spec::<RobotSimulation>(input)[2].blade_on,
        ({
            let dt = tick_seconds(input.delta_time);
            let first = tick_spec::<RobotSimulation>(initial_harness::<RobotSimulation>(input), dt);
            let second = tick_spec::<RobotSimulation>(first.harness, dt);
            &&& first.harness.controller.state is Idle
            &&& second.harness.controller.state is Idle
            &&& trace_spec::<RobotSimulation>(input) == seq![
                initial_entry::<RobotSimulation>(input),
                first.entry,
                second.entry,
            ]
        }),
{
    let dt = tick_seconds(input.delta_time);
    let h0 = initial_harness::<RobotSimulation>(input);
    lemma_blade_tick(h0, dt, true);
    let first = tick_spec::<RobotSimulation>(h0, dt);
    lemma_blade_tick(first.harness, dt, false);
    let second = tick_spec::<RobotSimulation>(first.harness, dt);
    assert(ticks_spec::<RobotSimulation>(first.harness, dt, false, 1) == seq![second.entry]);
    assert(ticks_spec::<RobotSimulation>(h0, dt, false, 2) == seq![first.entry]
        + ticks_spec::<RobotSimulation>(first.harness, dt, false, 1));
    assert(trace_spec::<RobotSimulation>(input) =~= seq![
        initial_entry::<RobotSimulation>(input),
        first.entry,
        second.entry,
    ]);
}

/// After a tick of the harness the standard controller never rests in
/// `SetBlade`.
pub proof fn lemma_tick_resolves_blade(h: HarnessView<<RobotSimulation as View>::V>, dt: int)
    ensures
        !(tick_spec::<RobotSimulation>(h, dt).harness.controller.state is SetBlade),
{
    reveal(tick_spec);
    lemma_set_blade_is_transient(h.controller, readings(h));
}

} // verus!
