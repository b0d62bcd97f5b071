//! Differential-drive kinematics: one forward-Euler step of the pose.

use vstd::prelude::*;
use crate::fixed::{
    add_spec, fx_add, fx_mul, fx_mul_div, fx_sub, lemma_mul_div_nonnegative, lemma_mul_div_zero,
    mul_div_spec, mul_spec, sub_spec, ONE,
};
use crate::robot::RobotParameters;
use crate::trig::{cos_spec, fx_cos, fx_sin, lemma_sin_cos_zero, sin_spec};

verus! {

/// Position and heading of the robot in the world frame.
#[derive(Clone, Copy, Debug)]
pub struct RobotPose {
    /// Unit: meters
    pub x: i64,
    /// Unit: meters
    pub y: i64,
    /// Unit: radians; never normalised, so it may exceed a full turn.
    pub theta: i64,
}

/// Angular speed of the left wheel: its motor power times the full speed.
pub open spec fn left_wheel_speed(params: RobotParameters) -> int {
    mul_spec(params.motor_left as int, params.max_motor_speed as int)
}

/// Angular speed of the right wheel.
pub open spec fn right_wheel_speed(params: RobotParameters) -> int {
    mul_spec(params.motor_right as int, params.max_motor_speed as int)
}

/// Rate of change of x: `(r·cos θ / 2)·(φ_l + φ_r)`.
pub open spec fn x_rate(theta: int, params: RobotParameters) -> int {
    mul_spec(
        mul_div_spec(params.wheel_radius as int, cos_spec(theta), 2 * ONE),
        add_spec(left_wheel_speed(params), right_wheel_speed(params)),
    )
}

/// Rate of change of y: `(r·sin θ / 2)·(φ_l + φ_r)`.
pub open spec fn y_rate(theta: int, params: RobotParameters) -> int {
    mul_spec(
        mul_div_spec(params.wheel_radius as int, sin_spec(theta), 2 * ONE),
        add_spec(left_wheel_speed(params), right_wheel_speed(params)),
    )
}

/// Rate of change of the heading: `(r / s)·(φ_r - φ_l)`.
pub open spec fn theta_rate(params: RobotParameters) -> int
    recommends
        params.wheel_distance != 0,
{
    mul_div_spec(
        params.wheel_radius as int,
        sub_spec(right_wheel_speed(params), left_wheel_speed(params)),
        params.wheel_distance as int,
    )
}

/// The pose after one tick of length `dt` with the motor powers and the
/// physical constants of `params`: each coordinate grows by its rate times
/// `dt`.
pub open spec fn integrate_spec(pose: RobotPose, params: RobotParameters, dt: int) -> RobotPose
    recommends
        params.wheel_distance != 0,
{
    RobotPose {
        x: add_spec(pose.x as int, mul_spec(x_rate(pose.theta as int, params), dt)) as i64,
        y: add_spec(pose.y as int, mul_spec(y_rate(pose.theta as int, params), dt)) as i64,
        theta: add_spec(pose.theta as int, mul_spec(theta_rate(params), dt)) as i64,
    }
}

/// Advances `pose` by one tick of `dt` seconds under the motor powers in
/// `params`. The pose readings in `params` are not consulted.
pub fn integrate(pose: RobotPose, params: &RobotParameters, dt: i64) -> (next: RobotPose)
    requires
        params.wheel_distance != 0,
    ensures
        next == integrate_spec(pose, *params, dt as int),
{
    let r = params.wheel_radius;
    let s = params.wheel_distance;
    let phi_l = fx_mul(params.motor_left, params.max_motor_speed);
    let phi_r = fx_mul(params.motor_right, params.max_motor_speed);
    let theta = pose.theta;

    let dx_dt = fx_mul(fx_mul_div(r, fx_cos(theta), 2 * ONE), fx_add(phi_l, phi_r));
    let dy_dt = fx_mul(fx_mul_div(r, fx_sin(theta), 2 * ONE), fx_add(phi_l, phi_r));
    let dtheta_dt = fx_mul_div(r, fx_sub(phi_r, phi_l), s);

    RobotPose {
        x: fx_add(pose.x, fx_mul(dx_dt, dt)),
        y: fx_add(pose.y, fx_mul(dy_dt, dt)),
        theta: fx_add(pose.theta, fx_mul(dtheta_dt, dt)),
    }
}

/// The pose after `ticks` ticks of length `dt` under unchanging motor
/// powers.
pub open spec fn drive_spec(pose: RobotPose, params: RobotParameters, dt: int, ticks: nat) -> RobotPose
    decreases ticks,
{
    if ticks == 0 {
        pose
    } else {
        integrate_spec(drive_spec(pose, params, dt, (ticks - 1) as nat), params, dt)
    }
}

/// With no power on either wheel one tick leaves the pose as it is.
pub proof fn lemma_integrate_at_rest(pose: RobotPose, params: RobotParameters, dt: int)
    requires
        params.motor_left == 0,
        params.motor_right == 0,
        params.wheel_distance != 0,
    ensures
        integrate_spec(pose, params, dt) == pose,
{
    lemma_mul_div_zero(params.max_motor_speed as int, ONE as int);
    lemma_mul_div_zero(params.wheel_radius as int, params.wheel_distance as int);
    lemma_mul_div_zero(mul_div_spec(params.wheel_radius as int, cos_spec(pose.theta as int), 2 * ONE), ONE as int);
    lemma_mul_div_zero(mul_div_spec(params.wheel_radius as int, sin_spec(pose.theta as int), 2 * ONE), ONE as int);
    lemma_mul_div_zero(dt, ONE as int);
}

/// With no power on either wheel the pose is the same after any number of
/// ticks.
pub proof fn lemma_drive_at_rest(pose: RobotPose, params: RobotParameters, dt: int, ticks: nat)
    requires
        params.motor_left == 0,
        params.motor_right == 0,
        params.wheel_distance != 0,
    ensures
        drive_spec(pose, params, dt, ticks) == pose,
    decreases ticks,
{
    if ticks > 0 {
        lemma_drive_at_rest(pose, params, dt, (ticks - 1) as nat);
        lemma_integrate_at_rest(pose, params, dt);
    }
}

/// The distance covered along x in one tick when the robot heads along the
/// x axis.
pub open spec fn straight_step(params: RobotParameters, dt: int) -> int {
    mul_spec(x_rate(0, params), dt)
}

/// With the same power on both wheels and heading 0, one tick keeps `y`
/// and the heading and moves `x` by `straight_step`.
pub proof fn lemma_integrate_straight(pose: RobotPose, params: RobotParameters, dt: int)
    requires
        params.motor_left == params.motor_right,
        pose.theta == 0,
        params.wheel_distance != 0,
    ensures
        integrate_spec(pose, params, dt).y == pose.y,
        integrate_spec(pose, params, dt).theta == 0,
        integrate_spec(pose, params, dt).x == add_spec(pose.x as int, straight_step(params, dt)),
{
    lemma_sin_cos_zero();
    lemma_mul_div_zero(params.wheel_radius as int, 2 * ONE);
    lemma_mul_div_zero(params.wheel_radius as int, params.wheel_distance as int);
    lemma_mul_div_zero(add_spec(left_wheel_speed(params), right_wheel_speed(params)), ONE as int);
    lemma_mul_div_zero(dt, ONE as int);
}

/// With the same power on both wheels and heading 0, `y` and the heading
/// stay unchanged over any number of ticks, and each further tick moves `x`
/// by `straight_step`.
pub proof fn lemma_drive_straight(pose: RobotPose, params: RobotParameters, dt: int, ticks: nat)
    requires
        params.motor_left == params.motor_right,
        pose.theta == 0,
        params.wheel_distance != 0,
    ensures
        drive_spec(pose, params, dt, ticks).y == pose.y,
        drive_spec(pose, params, dt, ticks).theta == 0,
        drive_spec(pose, params, dt, ticks + 1).x == add_spec(
            drive_spec(pose, params, dt, ticks).x as int,
            straight_step(params, dt),
        ),
    decreases ticks,
{
    if ticks > 0 {
        lemma_drive_straight(pose, params, dt, (ticks - 1) as nat);
        lemma_integrate_straight(drive_spec(pose, params, dt, (ticks - 1) as nat), params, dt);
    }
    lemma_integrate_straight(drive_spec(pose, params, dt, ticks), params, dt);
}

/// With positive power, speed, wheel radius and tick length the step along
/// x is not negative.
pub proof fn lemma_straight_step_forward(params: RobotParameters, dt: int)
    requires
        params.motor_left == params.motor_right,
        params.motor_left > 0,
        params.max_motor_speed > 0,
        params.wheel_radius > 0,
        dt > 0,
    ensures
        straight_step(params, dt) >= 0,
{
    lemma_sin_cos_zero();
    lemma_mul_div_nonnegative(params.motor_left as int, params.max_motor_speed as int, ONE as int);
    lemma_mul_div_nonnegative(params.wheel_radius as int, ONE as int, 2 * ONE);
    lemma_mul_div_nonnegative(
        mul_div_spec(params.wheel_radius as int, ONE as int, 2 * ONE),
        add_spec(left_wheel_speed(params), right_wheel_speed(params)),
        ONE as int,
    );
    lemma_mul_div_nonnegative(x_rate(0, params), dt, ONE as int);
}

/// With the same power on both wheels, heading 0 and a step along x that
/// is not negative, `x` never decreases from one tick to the next, and it
/// grows strictly whenever the step is at least one unit and the sum still
/// fits.
pub proof fn lemma_drive_straight_monotonic(
    pose: RobotPose,
    params: RobotParameters,
    dt: int,
    ticks: nat,
)
    requires
        params.motor_left == params.motor_right,
        params.wheel_distance != 0,
        pose.theta == 0,
        straight_step(params, dt) >= 0,
    ensures
        drive_spec(pose, params, dt, ticks + 1).x >= drive_spec(pose, params, dt, ticks).x,
        straight_step(params, dt) > 0 && drive_spec(pose, params, dt, ticks).x + straight_step(
            params,
            dt,
        ) <= i64::MAX ==> drive_spec(pose, params, dt, ticks + 1).x > drive_spec(
            pose,
            params,
            dt,
            ticks,
        ).x,
{
    lemma_drive_straight(pose, params, dt, ticks);
}

/// With equal positive power on both wheels, positive constants and heading
/// 0, `x` never decreases from one tick to the next.
pub proof fn lemma_drive_forward(pose: RobotPose, params: RobotParameters, dt: int, ticks: nat)
    requires
        params.motor_left == params.motor_right,
        params.motor_left > 0,
        params.max_motor_speed > 0,
        params.wheel_radius > 0,
        params.wheel_distance != 0,
        dt > 0,
        pose.theta == 0,
    ensures
        drive_spec(pose, params, dt, ticks + 1).x >= drive_spec(pose, params, dt, ticks).x,
        drive_spec(pose, params, dt, ticks).y == pose.y,
        drive_spec(pose, params, dt, ticks).theta == 0,
{
    lemma_straight_step_forward(params, dt);
    lemma_drive_straight_monotonic(pose, params, dt, ticks);
    lemma_drive_straight(pose, params, dt, ticks);
}

} // verus!
