use isp_sim::debug::renderables;
use isp_sim::debug::DebugInfo;
use isp_sim::fixed::ONE;
use isp_sim::text::{push_decimal, push_natural, push_shortest, push_signed_decimal};

fn decimal(v: i64, places: u32) -> String {
    let mut s = String::new();
    push_decimal(&mut s, v, places);
    s
}

fn signed(v: i64, places: u32) -> String {
    let mut s = String::new();
    push_signed_decimal(&mut s, v, places);
    s
}

fn shortest(v: i64, keep_point: bool) -> String {
    let mut s = String::new();
    push_shortest(&mut s, v, keep_point);
    s
}

#[test]
fn whole_numbers_in_decimal() {
    let mut s = String::from("n = ");
    push_natural(&mut s, 0);
    s.push(' ');
    push_natural(&mut s, 7);
    s.push(' ');
    push_natural(&mut s, 1234567890);
    s.push(' ');
    push_natural(&mut s, u128::MAX);
    assert_eq!(s, "n = 0 7 1234567890 340282366920938463463374607431768211455");
}

#[test]
fn fixed_places() {
    assert_eq!(decimal(0, 3), "0.000");
    assert_eq!(decimal(5 * ONE, 2), "5.00");
    assert_eq!(decimal(1_234_567_890, 3), "1.235");
    assert_eq!(decimal(1_234_567_890, 1), "1.2");
    assert_eq!(decimal(1_234_567_890, 4), "1.2346");
    assert_eq!(decimal(1_234_567_890, 9), "1.234567890");
    assert_eq!(decimal(1_500_000_000, 0), "2");
    assert_eq!(decimal(90 * ONE, 1), "90.0");
    assert_eq!(decimal(1_050_000_000, 2), "1.05");
}

#[test]
fn fixed_places_round_half_away_from_zero() {
    assert_eq!(decimal(500_000, 3), "0.001");
    assert_eq!(decimal(499_999, 3), "0.000");
    assert_eq!(decimal(-500_000, 3), "-0.001");
    assert_eq!(decimal(999_999_999, 2), "1.00");
    assert_eq!(decimal(-999_999_999, 2), "-1.00");
}

#[test]
fn fixed_places_keep_the_sign_of_a_small_negative() {
    assert_eq!(decimal(-1, 3), "-0.000");
    assert_eq!(decimal(-12_340_000_000, 2), "-12.34");
}

#[test]
fn fixed_places_at_the_ends_of_the_range() {
    assert_eq!(decimal(i64::MAX, 3), "9223372036.855");
    assert_eq!(decimal(i64::MIN, 3), "-9223372036.855");
    assert_eq!(decimal(i64::MAX, 9), "9223372036.854775807");
}

#[test]
fn signed_fixed_places() {
    assert_eq!(signed(ONE / 2, 2), "+0.50");
    assert_eq!(signed(-ONE / 2, 2), "-0.50");
    assert_eq!(signed(0, 2), "+0.00");
    assert_eq!(signed(666_666_666, 2), "+0.67");
    assert_eq!(signed(-12 * ONE, 2), "-12.00");
}

#[test]
fn shortest_form() {
    assert_eq!(shortest(5 * ONE, true), "5.0");
    assert_eq!(shortest(5 * ONE, false), "5");
    assert_eq!(shortest(0, true), "0.0");
    assert_eq!(shortest(0, false), "0");
    assert_eq!(shortest(ONE / 10, true), "0.1");
    assert_eq!(shortest(ONE / 10, false), "0.1");
    assert_eq!(shortest(1_234_567_890, true), "1.23456789");
    assert_eq!(shortest(-ONE / 2, true), "-0.5");
    assert_eq!(shortest(1, true), "0.000000001");
    assert_eq!(shortest(-1_000_000_010, false), "-1.00000001");
    assert_eq!(shortest(i64::MIN, true), "-9223372036.854775808");
}

#[test]
fn line_description() {
    assert_eq!(
        renderables::line((5 * ONE, 0), (0, 0), 4 * ONE, (255, 0, 0)),
        "Line((5.0, 0.0), (0.0, 0.0), 4, (255, 0, 0))"
    );
    assert_eq!(
        renderables::line((-ONE / 4, 3 * ONE / 2), (ONE, 2 * ONE), ONE / 2, (1, 20, 3)),
        "Line((-0.25, 1.5), (1.0, 2.0), 0.5, (1, 20, 3))"
    );
}

#[test]
fn circle_description() {
    assert_eq!(
        renderables::circle((ONE, -2 * ONE), ONE / 2, (0, 128, 255)),
        "Circle((1.0, -2.0), 0.5, (0, 128, 255))"
    );
    assert_eq!(renderables::circle((0, 0), 3 * ONE, (9, 9, 9)), "Circle((0.0, 0.0), 3, (9, 9, 9))");
}

#[test]
fn telemetry_starts_empty_and_keeps_order() {
    let mut debug = DebugInfo::default();
    assert!(debug.messages.is_empty());
    assert!(debug.renderables.is_empty());
    debug.push_message(String::from("first"));
    debug.push_renderable(String::from("shape"));
    debug.push_message(String::from("second"));
    assert_eq!(debug.messages, vec![String::from("first"), String::from("second")]);
    assert_eq!(debug.renderables, vec![String::from("shape")]);
}
