use isp_sim::fixed::{HALF_PI, ONE};
use isp_sim::kinematics::{integrate, RobotPose};
use isp_sim::robot::RobotParameters;

fn drive_params(left: i64, right: i64) -> RobotParameters {
    RobotParameters {
        motor_left: left,
        motor_right: right,
        blade_on: false,
        imu: 0,
        gps_x: 0,
        gps_y: 0,
        wheel_distance: ONE / 2,
        wheel_radius: ONE / 5,
        max_motor_speed: 10 * ONE,
    }
}

fn same_pose(a: RobotPose, b: RobotPose) -> bool {
    a.x == b.x && a.y == b.y && a.theta == b.theta
}

#[test]
fn no_power_leaves_the_pose_unchanged() {
    let start = RobotPose { x: 3 * ONE, y: -2 * ONE, theta: 1_234_567_890 };
    let params = drive_params(0, 0);
    let mut pose = start;
    for _ in 0..1000 {
        pose = integrate(pose, &params, ONE / 100);
        assert!(same_pose(pose, start));
    }
}

#[test]
fn no_power_leaves_an_extreme_pose_unchanged() {
    let start = RobotPose { x: i64::MAX, y: i64::MIN, theta: i64::MIN };
    let params = drive_params(0, 0);
    let next = integrate(start, &params, i64::MAX);
    assert!(same_pose(next, start));
}

#[test]
fn equal_power_at_heading_zero_moves_along_x_only() {
    let params = drive_params(ONE / 3, ONE / 3);
    let mut pose = RobotPose { x: -ONE, y: 7 * ONE, theta: 0 };
    for _ in 0..500 {
        let next = integrate(pose, &params, ONE / 100);
        assert_eq!(next.y, 7 * ONE);
        assert_eq!(next.theta, 0);
        assert!(next.x > pose.x);
        pose = next;
    }
}

#[test]
fn equal_negative_power_at_heading_zero_moves_back_along_x() {
    let params = drive_params(-ONE, -ONE);
    let mut pose = RobotPose { x: 0, y: 0, theta: 0 };
    for _ in 0..100 {
        let next = integrate(pose, &params, ONE / 100);
        assert_eq!(next.y, 0);
        assert_eq!(next.theta, 0);
        assert!(next.x < pose.x);
        pose = next;
    }
}

#[test]
fn full_power_ahead_covers_radius_times_speed_times_time() {
    // (r/2)·(φ_l + φ_r) = 0.1 · 20 = 2 m/s, over 0.1 s.
    let params = drive_params(ONE, ONE);
    let next = integrate(RobotPose { x: 0, y: 0, theta: 0 }, &params, ONE / 10);
    assert_eq!(next.x, ONE / 5);
    assert_eq!(next.y, 0);
    assert_eq!(next.theta, 0);
}

#[test]
fn opposite_power_turns_on_the_spot() {
    // (r/s)·(φ_r − φ_l) = 0.4 · 20 = 8 rad/s, over 0.1 s.
    let params = drive_params(-ONE, ONE);
    let start = RobotPose { x: ONE, y: 2 * ONE, theta: 0 };
    let next = integrate(start, &params, ONE / 10);
    assert_eq!(next.x, ONE);
    assert_eq!(next.y, 2 * ONE);
    assert_eq!(next.theta, 4 * ONE / 5);
}

#[test]
fn heading_a_quarter_turn_moves_along_y() {
    let params = drive_params(ONE, ONE);
    let next = integrate(RobotPose { x: 0, y: 0, theta: HALF_PI }, &params, ONE / 10);
    assert!(next.x.abs() <= 2);
    assert_eq!(next.y, ONE / 5);
    assert_eq!(next.theta, HALF_PI);
}

#[test]
fn heading_is_not_normalised() {
    let params = drive_params(-ONE, ONE);
    let mut pose = RobotPose { x: 0, y: 0, theta: 0 };
    for _ in 0..10 {
        pose = integrate(pose, &params, ONE / 10);
    }
    assert_eq!(pose.theta, 8 * ONE);
}

#[test]
fn the_pose_readings_in_the_channel_are_not_consulted() {
    let mut params = drive_params(ONE / 2, ONE);
    let start = RobotPose { x: ONE, y: ONE, theta: ONE };
    let a = integrate(start, &params, ONE / 50);
    params.imu = 3 * ONE;
    params.gps_x = -9 * ONE;
    params.gps_y = 4 * ONE;
    let b = integrate(start, &params, ONE / 50);
    assert!(same_pose(a, b));
}

#[test]
fn a_step_that_does_not_fit_saturates() {
    let params = drive_params(ONE, ONE);
    let next = integrate(RobotPose { x: i64::MAX - 5, y: 0, theta: 0 }, &params, ONE);
    assert_eq!(next.x, i64::MAX);
}
