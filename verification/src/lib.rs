//! Deterministic simulation of a two-wheeled differential-drive robot that
//! follows a queue of motion instructions.
//!
//! All physical quantities are fixed-point numbers with nine decimal places
//! (see [`fixed`]); lengths are meters, angles radians and durations
//! seconds.

use std::time::Duration;
use vstd::prelude::*;

pub mod debug;
pub mod fixed;
pub mod guarantees;
pub mod kinematics;
pub mod robot;
pub mod simulate;
pub mod simulation;
pub mod simulations;
pub mod text;
pub mod trig;
pub mod util;

pub use crate::robot::{RobotInstruction, RobotParameters};
pub use crate::util::{clamp, cubic_bezier, invlerp, lerp, signed_angle_difference};

use crate::debug::DebugInfo;
use crate::simulate::{entries, trace_spec};
use crate::simulation::RobotSimulation;

verus! {

/// The length of a duration in nanoseconds.
pub uninterp spec fn duration_nanos(d: Duration) -> nat;

/// `Duration::as_nanos` of the standard library returns the whole length
/// of the duration in nanoseconds; the contract gives that number its
/// name and claims nothing else.
pub assume_specification[ Duration::as_nanos ](d: &Duration) -> (n: u128)
    ensures
        n == duration_nanos(*d),
;

/// The result of a run.
#[derive(Debug)]
pub struct SimOutput {
    /// The trace: the state before the first tick, then one state per tick.
    pub states: Vec<SimulationState>,
    pub delta_time: Duration,
    /// Unit: meters
    pub wheel_distance: i64,
    /// Unit: meters
    pub wheel_radius: i64,
    /// Unit: radians/second
    pub max_motor_speed: i64,
    /// Unit: meters
    pub blade_radius: i64,
}

/// The description of a run.
#[derive(Debug)]
pub struct SimInput {
    pub instructions: Vec<RobotInstruction>,
    pub sim_length: SimulationLength,
    /// Length of one tick.
    pub delta_time: Duration,
    /// Unit: meters
    pub wheel_distance: i64,
    /// Unit: meters
    pub wheel_radius: i64,
    /// Unit: radians/second
    pub max_motor_speed: i64,
    /// Unit: meters
    pub blade_radius: i64,
}

/// When a run ends.
#[derive(Debug, Clone, Copy)]
pub enum SimulationLength {
    /// When the controller reports that nothing is left to do.
    Indefinite,
    /// After the ticks that cover the given time, whatever the controller
    /// reports.
    Timed(Duration),
    /// After the given number of ticks, whatever the controller reports.
    Steps(usize),
}

/// One entry of the trace of a run with the standard controller.
pub type SimulationState = crate::simulate::SimulationState<DebugInfo>;

/// What one tick of the controller reports back to the harness.
pub struct Step {
    /// Whether the controller found nothing left to do.
    pub end: bool,
    /// The telemetry of the tick.
    pub debug: DebugInfo,
}

/// Runs the script of `input` from the origin with the standard controller
/// and returns the trace with the tick length and the physical constants
/// of the run.
pub fn run_simulation(input: SimInput) -> (out: SimOutput)
    requires
        input.wheel_distance != 0,
    ensures
        entries(out.states@) == trace_spec::<RobotSimulation>(input),
        out.delta_time == input.delta_time,
        out.wheel_distance == input.wheel_distance,
        out.wheel_radius == input.wheel_radius,
        out.max_motor_speed == input.max_motor_speed,
        out.blade_radius == input.blade_radius,
{
    let states = crate::simulate::run_simulation::<RobotSimulation>(&input);
    SimOutput {
        states,
        delta_time: input.delta_time,
        wheel_distance: input.wheel_distance,
        wheel_radius: input.wheel_radius,
        max_motor_speed: input.max_motor_speed,
        blade_radius: input.blade_radius,
    }
}

} // verus!
