//! Fixed-point math: exact values on the primitives.

use galangua_core::math::{
    atan2_lut, calc_velocity, clamp, diff_angle, isqrt, normalize_angle, quantize_angle, sin_lut,
    HALF_TURN, ONE, QUARTER_TURN,
};
use galangua_core::types::{round_up, Vec2I};

#[test]
fn clamp_basics() {
    assert_eq!(clamp(5, 0, 10), 5);
    assert_eq!(clamp(-5, 0, 10), 0);
    assert_eq!(clamp(15, 0, 10), 10);
}

#[test]
fn normalize_wraps() {
    assert_eq!(normalize_angle(0), 0);
    assert_eq!(normalize_angle(65536), 0);
    assert_eq!(normalize_angle(32768), -32768);
    assert_eq!(normalize_angle(-32769), 32767);
    assert_eq!(normalize_angle(98304), -32768);
}

#[test]
fn diff_angle_shortest_turn() {
    assert_eq!(diff_angle(100, 0), 100);
    assert_eq!(diff_angle(0, 100), -100);
    assert_eq!(diff_angle(-32700, 32700), 136);
}

#[test]
fn sin_cardinal_points() {
    assert_eq!(sin_lut(0), 0);
    assert_eq!(sin_lut(QUARTER_TURN), 256);
    assert_eq!(sin_lut(HALF_TURN), 0);
    assert_eq!(sin_lut(-QUARTER_TURN), -256);
}

#[test]
fn velocity_cardinal_points() {
    // angle 0: straight up
    let v = calc_velocity(0, 512);
    assert_eq!(v, Vec2I { x: 0, y: -512 });
    // a quarter turn: straight right
    let v = calc_velocity(QUARTER_TURN, 512);
    assert_eq!(v, Vec2I { x: 512, y: 0 });
    // half a turn: straight down
    let v = calc_velocity(HALF_TURN, 512);
    assert_eq!(v, Vec2I { x: 0, y: 512 });
    // zero speed never moves
    let v = calc_velocity(12345, 0);
    assert_eq!(v, Vec2I { x: 0, y: 0 });
}

#[test]
fn atan2_axes() {
    assert_eq!(atan2_lut(1, 0), 0);
    assert_eq!(atan2_lut(0, 1), QUARTER_TURN);
    assert_eq!(atan2_lut(-1, 0), -HALF_TURN);
    assert_eq!(atan2_lut(0, -1), -QUARTER_TURN);
    let diag = atan2_lut(1, 1);
    assert_eq!(diag, QUARTER_TURN / 2);
}

#[test]
fn quantize_rounds_to_grid() {
    assert_eq!(quantize_angle(100, 16), 0);
    assert_eq!(quantize_angle(4096, 16), 4096);
    assert_eq!(quantize_angle(4000, 16), 4096);
}

#[test]
fn isqrt_exact_brackets() {
    assert_eq!(isqrt(0), 0);
    assert_eq!(isqrt(1), 1);
    assert_eq!(isqrt(3), 1);
    assert_eq!(isqrt(4), 2);
    assert_eq!(isqrt(1000000), 1000);
    assert_eq!(isqrt(999999), 999);
}

#[test]
fn round_up_to_pixels() {
    let p = round_up(&Vec2I { x: 3 * ONE + 128, y: -3 * ONE - 129 });
    assert_eq!(p, Vec2I { x: 4, y: -4 });
    let p = round_up(&Vec2I { x: 127, y: -127 });
    assert_eq!(p, Vec2I { x: 0, y: 0 });
}
