//! The robot as the controller sees it, and the instructions it executes.

use vstd::prelude::*;

verus! {

/// The channel between the controller and the harness during one tick.
///
/// The harness writes the pose readings and keeps the physical constants;
/// the controller writes the motor powers and the blade flag. All numbers
/// are fixed-point quantities.
#[derive(Clone, Copy, Debug)]
pub struct RobotParameters {
    /// Power of the left motor; the harness clamps it to `[-1, 1]`.
    pub motor_left: i64,
    /// Power of the right motor; the harness clamps it to `[-1, 1]`.
    pub motor_right: i64,
    /// Whether the blade is running.
    pub blade_on: bool,
    /// Heading. Unit: radians
    pub imu: i64,
    /// Unit: meters
    pub gps_x: i64,
    /// Unit: meters
    pub gps_y: i64,
    /// Distance between the two wheels. Unit: meters
    pub wheel_distance: i64,
    /// Unit: meters
    pub wheel_radius: i64,
    /// Angular speed of a motor at full power. Unit: radians/second
    pub max_motor_speed: i64,
}

/// One command of a motion script. Coordinates are fixed-point meters in
/// the world frame.
#[derive(Clone, Copy, Debug)]
pub enum RobotInstruction {
    /// Start the blade.
    BladeOn,
    /// Stop the blade.
    BladeOff,
    /// Drive to the point `(x, y)`.
    GotoPoint(i64, i64),
    /// Drive to `start`, then to `end`.
    Line { start: (i64, i64), end: (i64, i64) },
    /// Follow the cubic Bézier curve through the four control points.
    CubicBezier { p0: (i64, i64), p1: (i64, i64), p2: (i64, i64), p3: (i64, i64) },
}

} // verus!
