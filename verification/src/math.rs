//! Fixed-point math primitives: unit and angle scales, clamping,
//! lookup-table trigonometry and integer square root.
//!
//! Positions, speeds and angles are fixed-point integers: `ONE` is the
//! unit scale (1 pixel = `ONE`), and a full turn spans `ANGLE * ONE`
//! angle units.  Angle 0 points up the screen (toward negative y) and
//! angles grow clockwise.

use vstd::prelude::*;

verus! {

/// Number of fractional bits of the fixed-point representation.
pub const ONE_BIT: i32 = 8;

/// Fixed-point unit scale: 1.0 is represented as `ONE`.
pub const ONE: i32 = 256;

/// Angle scale: a full turn is `ANGLE * ONE` angle units.
pub const ANGLE: i32 = 256;

/// A full turn in angle units (`ANGLE * ONE`).
pub const FULL_TURN: i32 = 65536;

/// Half a turn in angle units.
pub const HALF_TURN: i32 = 32768;

/// A quarter turn in angle units.
pub const QUARTER_TURN: i32 = 16384;

/// Largest coordinate magnitude the simulation keeps (fixed-point units).
pub const COORD_LIMIT: i32 = 16777216;

/// Largest speed magnitude the simulation uses (fixed-point units per tick).
pub const SPEED_LIMIT: i32 = 4096;

/// Largest angular-velocity magnitude (angle units per tick).
pub const VANGLE_LIMIT: i32 = 4096;

/// Bound accepted by the angle helpers; generous enough for any sum of
/// a bounded angle and a bounded angular velocity.
pub const ANGLE_ARG_LIMIT: i32 = 268435456;

/// What `clamp` returns.
pub open spec fn spec_clamp(value: int, min: int, max: int) -> int {
    if value < min {
        min
    } else if value > max {
        max
    } else {
        value
    }
}

/// Clamps `value` into `[min, max]`.
pub fn clamp(value: i32, min: i32, max: i32) -> (r: i32)
    requires
        min <= max,
    ensures
        r == spec_clamp(value as int, min as int, max as int),
{
    if value < min {
        min
    } else if value > max {
        max
    } else {
        value
    }
}

/// The representative of `a` modulo a full turn lying in
/// `[-HALF_TURN, HALF_TURN)`.
pub open spec fn spec_normalize_angle(a: int) -> int {
    (a + HALF_TURN) % (FULL_TURN as int) - HALF_TURN
}

/// Normalizes an angle into `[-HALF_TURN, HALF_TURN)`.
pub fn normalize_angle(a: i32) -> (r: i32)
    requires
        -ANGLE_ARG_LIMIT <= a <= ANGLE_ARG_LIMIT,
    ensures
        r == spec_normalize_angle(a as int),
        -HALF_TURN <= r < HALF_TURN,
{
    let m = (a + HALF_TURN) % FULL_TURN;
    let m = if m < 0 {
        m + FULL_TURN
    } else {
        m
    };
    m - HALF_TURN
}

/// The difference `target - angle`, brought into `[-HALF_TURN, HALF_TURN)`:
/// the shortest signed turn from `angle` to `target`.
pub open spec fn spec_diff_angle(target: int, angle: int) -> int {
    spec_normalize_angle(target - angle)
}

/// Signed shortest turn from `angle` to `target`.
pub fn diff_angle(target: i32, angle: i32) -> (r: i32)
    requires
        -ANGLE_ARG_LIMIT / 2 <= target <= ANGLE_ARG_LIMIT / 2,
        -ANGLE_ARG_LIMIT / 2 <= angle <= ANGLE_ARG_LIMIT / 2,
    ensures
        r == spec_diff_angle(target as int, angle as int),
        -HALF_TURN <= r < HALF_TURN,
{
    normalize_angle(target - angle)
}

/// What `quantize_angle` returns: `a` rounded to the nearest of `div`
/// directions, normalized.
pub open spec fn spec_quantize_angle(a: int, div: int) -> int
    recommends
        1 <= div <= ANGLE,
{
    let step = (FULL_TURN as int) / div;
    spec_normalize_angle(((a + step / 2) % (FULL_TURN as int)) / step * step)
}

/// Rounds an angle to the nearest of `div` equally spaced directions
/// (used when selecting a rotated sprite).
pub fn quantize_angle(a: i32, div: i32) -> (r: i32)
    requires
        -ANGLE_ARG_LIMIT <= a <= ANGLE_ARG_LIMIT,
        1 <= div <= ANGLE,
        FULL_TURN as int % (div as int) == 0,
    ensures
        r == spec_quantize_angle(a as int, div as int),
{
    let step = FULL_TURN / div;
    proof {
        vstd::arithmetic::div_mod::lemma_div_non_zero(FULL_TURN as int, div as int);
        vstd::arithmetic::div_mod::lemma_div_is_ordered_by_denominator(FULL_TURN as int, 1, div as int);
    }
    let m = (a + step / 2) % FULL_TURN;
    let m = if m < 0 {
        m + FULL_TURN
    } else {
        m
    };
    let q = m / step;
    proof {
        let mi = m as int;
        let si = step as int;
        vstd::arithmetic::div_mod::lemma_fundamental_div_mod(mi, si);
        vstd::arithmetic::div_mod::lemma_mod_bound(mi, si);
        vstd::arithmetic::div_mod::lemma_div_pos_is_pos(mi, si);
        assert(mi == si * (mi / si) + mi % si);
        assert(q as int == mi / si);
        assert(q as int * si == mi - mi % si) by (nonlinear_arith)
            requires
                mi == si * (mi / si) + mi % si,
                q as int == mi / si,
        ;
        assert(0 <= q * step <= m);
    }
    normalize_angle(q * step)
}

/// Floor division of `a` by positive `d` (rounds toward negative infinity,
/// like the spec-level `/` on `int`).
pub fn floor_div(a: i32, d: i32) -> (r: i32)
    requires
        1 <= d <= 0x1000_0000,
        -0x4000_0000 <= a <= 0x4000_0000,
    ensures
        r == a as int / d as int,
{
    if a >= 0 {
        a / d
    } else {
        let b = -a;
        let q = (b + (d - 1)) / d;
        proof {
            let bi = b as int;
            let di = d as int;
            let q0 = bi / di;
            let r0 = bi % di;
            vstd::arithmetic::div_mod::lemma_fundamental_div_mod(bi, di);
            vstd::arithmetic::mul::lemma_mul_is_distributive_add_other_way(di, q0, 1);
            vstd::arithmetic::mul::lemma_mul_is_distributive_add_other_way(di, -q0, -1);
            vstd::arithmetic::mul::lemma_mul_is_distributive_sub(di, 0, q0);
            vstd::arithmetic::mul::lemma_mul_is_distributive_sub(di, 0, q0 + 1);
            vstd::arithmetic::mul::lemma_mul_basics(di);
            if r0 == 0 {
                vstd::arithmetic::div_mod::lemma_fundamental_div_mod_converse(
                    bi + di - 1, di, q0, di - 1);
                vstd::arithmetic::div_mod::lemma_fundamental_div_mod_converse(-bi, di, -q0, 0);
            } else {
                vstd::arithmetic::div_mod::lemma_fundamental_div_mod_converse(
                    bi + di - 1, di, q0 + 1, r0 - 1);
                vstd::arithmetic::div_mod::lemma_fundamental_div_mod_converse(
                    -bi, di, -(q0 + 1), di - r0);
            }
        }
        -q
    }
}

/// Halves a bounded signed value, rounding toward zero (the way the
/// fixed-tick integrator splits an angular step).
pub open spec fn spec_half(v: int) -> int {
    if v >= 0 {
        v / 2
    } else {
        -((-v) / 2)
    }
}

/// Halves `v`, rounding toward zero.
pub fn half(v: i32) -> (r: i32)
    requires
        -0x4000_0000 <= v <= 0x4000_0000,
    ensures
        r == spec_half(v as int),
{
    if v >= 0 {
        v / 2
    } else {
        -((-v) / 2)
    }
}

/// Quarter-wave sine table: entry `k` is `sin(k / ANGLE * turn)` in `ONE`
/// scale, for `k` in `0 ..= ANGLE / 4`.
pub const SIN_QUARTER: [i32; 65] = [
    0, 6, 13, 19, 25, 31, 38, 44, 50, 56, 62, 68, 74, 80, 86, 92, 98, 104, 109, 115, 121, 126,
    132, 137, 142, 147, 152, 157, 162, 167, 172, 177, 181, 185, 190, 194, 198, 202, 206, 209,
    213, 216, 220, 223, 226, 229, 231, 234, 237, 239, 241, 243, 245, 247, 248, 250, 251, 252,
    253, 254, 255, 255, 256, 256, 256,
];

/// Every quarter-wave table entry lies in `[0, ONE]`.
pub proof fn lemma_sin_quarter_bounds()
    ensures
        forall|k: int| 0 <= k < 65 ==> 0 <= #[trigger] SIN_QUARTER@[k] <= 256,
{
    assert(forall|k: int| 0 <= k < 65 ==> 0 <= #[trigger] SIN_QUARTER@[k] <= 256) by {
        assert(SIN_QUARTER@ =~= seq![
            0i32, 6, 13, 19, 25, 31, 38, 44, 50, 56, 62, 68, 74, 80, 86, 92, 98, 104, 109, 115,
            121, 126, 132, 137, 142, 147, 152, 157, 162, 167, 172, 177, 181, 185, 190, 194, 198,
            202, 206, 209, 213, 216, 220, 223, 226, 229, 231, 234, 237, 239, 241, 243, 245, 247,
            248, 250, 251, 252, 253, 254, 255, 255, 256, 256, 256,
        ]);
    }
}

/// Sine at table step `k` (a full turn is `ANGLE` steps), in `ONE` scale,
/// read from the quarter-wave table by symmetry.
pub open spec fn spec_sin_step(k: int) -> int
    recommends
        0 <= k < ANGLE,
{
    if k <= 64 {
        SIN_QUARTER@[k] as int
    } else if k <= 128 {
        SIN_QUARTER@[128 - k] as int
    } else if k <= 192 {
        -(SIN_QUARTER@[k - 128] as int)
    } else {
        -(SIN_QUARTER@[256 - k] as int)
    }
}

/// Sine of an angle in angle units, in `ONE` scale.  The angle is
/// truncated to the table resolution of `ANGLE` steps per turn.
pub open spec fn spec_sin(a: int) -> int {
    spec_sin_step((a % (FULL_TURN as int)) / (ONE as int))
}

/// Cosine of an angle in angle units, in `ONE` scale.
pub open spec fn spec_cos(a: int) -> int {
    spec_sin(a + QUARTER_TURN)
}

/// Sine lookup: returns `spec_sin(a)`.
#[verifier::rlimit(60)]
pub fn sin_lut(a: i32) -> (r: i32)
    requires
        -ANGLE_ARG_LIMIT <= a <= ANGLE_ARG_LIMIT,
    ensures
        r == spec_sin(a as int),
        -256 <= r <= 256,
{
    proof {
        lemma_sin_quarter_bounds();
    }
    let m = a % FULL_TURN;
    let m = if m < 0 {
        m + FULL_TURN
    } else {
        m
    };
    let k = (m / 256) as usize;
    if k <= 64 {
        SIN_QUARTER[k]
    } else if k <= 128 {
        SIN_QUARTER[128 - k]
    } else if k <= 192 {
        -SIN_QUARTER[k - 128]
    } else {
        -SIN_QUARTER[256 - k]
    }
}

/// Cosine lookup: returns `spec_cos(a)`.
pub fn cos_lut(a: i32) -> (r: i32)
    requires
        -ANGLE_ARG_LIMIT + QUARTER_TURN <= a <= ANGLE_ARG_LIMIT - QUARTER_TURN,
    ensures
        r == spec_cos(a as int),
        -256 <= r <= 256,
{
    sin_lut(a + QUARTER_TURN)
}

/// Scales a nonnegative magnitude `s` by a trig factor `f` in `ONE` scale,
/// rounding the magnitude of the product down.
pub open spec fn spec_scale(f: int, s: int) -> int {
    if f >= 0 {
        f * s / 256
    } else {
        -((-f) * s / 256)
    }
}

/// Multiplies `s` by the fixed-point factor `f` (`|f| <= ONE`) and drops
/// the fraction; the result magnitude never exceeds `s`.
pub fn scale_trig(f: i32, s: i32) -> (r: i32)
    requires
        -256 <= f <= 256,
        0 <= s <= SPEED_LIMIT,
    ensures
        r == spec_scale(f as int, s as int),
        -s <= r <= s,
{
    let g: i32 = if f >= 0 {
        f
    } else {
        -f
    };
    proof {
        assert(0 <= g * s <= 256 * 4096) by (nonlinear_arith)
            requires
                0 <= g <= 256,
                0 <= s <= 4096,
        ;
        assert(g * s <= 256 * s) by (nonlinear_arith)
            requires
                0 <= g <= 256,
                0 <= s,
        ;
    }
    let p = (g * s) / 256;
    assert(p <= s);
    if f >= 0 {
        p
    } else {
        -p
    }
}

/// Tangent table: entry `k` is `tan(k / ANGLE * turn)` in `ONE` scale,
/// for `k` in `0 ..= ANGLE / 8` (one eighth of a turn).
pub const TAN_EIGHTH: [i32; 33] = [
    0, 6, 13, 19, 25, 32, 38, 44, 51, 57, 64, 71, 78, 85, 92, 99, 106, 113, 121, 129, 137, 145,
    153, 162, 171, 180, 190, 200, 210, 221, 232, 244, 256,
];

/// Every tangent table entry lies in `[0, ONE]`.
pub proof fn lemma_tan_eighth_bounds()
    ensures
        forall|k: int| 0 <= k < 33 ==> 0 <= #[trigger] TAN_EIGHTH@[k] <= 256,
{
    assert(forall|k: int| 0 <= k < 33 ==> 0 <= #[trigger] TAN_EIGHTH@[k] <= 256) by {
        assert(TAN_EIGHTH@ =~= seq![
            0i32, 6, 13, 19, 25, 32, 38, 44, 51, 57, 64, 71, 78, 85, 92, 99, 106, 113, 121, 129,
            137, 145, 153, 162, 171, 180, 190, 200, 210, 221, 232, 244, 256,
        ]);
    }
}

/// Table scan used by the arc-tangent lookup: starting at step `k`, the
/// first step whose successor's tangent exceeds `num / den`, or the last
/// step of the eighth-turn table.
pub open spec fn spec_atan_scan(num: int, den: int, k: int) -> int
    recommends
        0 <= k <= 32,
    decreases 32 - k,
{
    if k >= 32 {
        32
    } else if TAN_EIGHTH@[k + 1] * den > num * 256 {
        k
    } else {
        spec_atan_scan(num, den, k + 1)
    }
}

fn atan_scan(num: i64, den: i64, k: usize) -> (r: usize)
    requires
        0 <= num <= den,
        1 <= den <= 0x1_0000_0000i64,
        k <= 32,
    ensures
        r == spec_atan_scan(num as int, den as int, k as int),
        k <= r <= 32,
    decreases 32 - k,
{
    if k >= 32 {
        32
    } else {
        proof {
            lemma_tan_eighth_bounds();
        }
        let t = TAN_EIGHTH[k + 1] as i64;
        proof {
            assert(t * den <= 256 * 0x1_0000_0000i64) by (nonlinear_arith)
                requires
                    0 <= t <= 256,
                    0 <= den <= 0x1_0000_0000i64,
            ;
        }
        if t * den > num * 256 {
            k
        } else {
            atan_scan(num, den, k + 1)
        }
    }
}

/// Arc tangent of the ratio `num / den` (`0 <= num <= den`) in angle
/// units, truncated to the table resolution.
pub open spec fn spec_atan_ratio(num: int, den: int) -> int {
    spec_atan_scan(num, den, 0) * 256
}

/// Lookup-table arc tangent of a direction vector.  The first argument
/// is the component along the zero-angle axis (up the screen), the second
/// the component a quarter turn clockwise from it; the result is the
/// direction's angle in `[-HALF_TURN, HALF_TURN)`.
pub open spec fn spec_atan2(y: int, x: int) -> int {
    let ax = if x >= 0 { x } else { -x };
    let ay = if y >= 0 { y } else { -y };
    let t = if ax == 0 && ay == 0 {
        0
    } else if ax <= ay {
        spec_atan_ratio(ax, ay)
    } else {
        16384 - spec_atan_ratio(ay, ax)
    };
    let b = if y >= 0 { t } else { 32768 - t };
    spec_normalize_angle(if x >= 0 { b } else { -b })
}

/// Lookup-table arc tangent: returns `spec_atan2(y, x)`.
pub fn atan2_lut(y: i32, x: i32) -> (r: i32)
    requires
        -0x4000_0000 <= y <= 0x4000_0000,
        -0x4000_0000 <= x <= 0x4000_0000,
    ensures
        r == spec_atan2(y as int, x as int),
        -HALF_TURN <= r < HALF_TURN,
{
    let ax: i64 = if x >= 0 { x as i64 } else { -(x as i64) };
    let ay: i64 = if y >= 0 { y as i64 } else { -(y as i64) };
    let t: i32 = if ax == 0 && ay == 0 {
        0
    } else if ax <= ay {
        (atan_scan(ax, ay, 0) as i32) * 256
    } else {
        16384 - (atan_scan(ay, ax, 0) as i32) * 256
    };
    let b: i32 = if y >= 0 { t } else { 32768 - t };
    normalize_angle(if x >= 0 { b } else { -b })
}

/// Horizontal velocity component of motion at `angle` with `speed`:
/// angle 0 points up, so the horizontal share follows the sine.
pub open spec fn spec_calc_velocity_x(angle: int, speed: int) -> int {
    spec_scale(spec_sin(angle), speed)
}

/// Vertical velocity component of motion at `angle` with `speed`:
/// up the screen is negative y, so the vertical share is minus the cosine.
pub open spec fn spec_calc_velocity_y(angle: int, speed: int) -> int {
    -spec_scale(spec_cos(angle), speed)
}

/// Velocity vector of motion at `angle` with nonnegative `speed`; each
/// component's magnitude is at most `speed`.
pub fn calc_velocity(angle: i32, speed: i32) -> (r: crate::types::Vec2I)
    requires
        -ANGLE_ARG_LIMIT / 2 <= angle <= ANGLE_ARG_LIMIT / 2,
        0 <= speed <= SPEED_LIMIT,
    ensures
        r.x == spec_calc_velocity_x(angle as int, speed as int),
        r.y == spec_calc_velocity_y(angle as int, speed as int),
        -speed <= r.x <= speed,
        -speed <= r.y <= speed,
{
    let sn = sin_lut(angle);
    let cs = cos_lut(angle);
    let vx = scale_trig(sn, speed);
    let vy = scale_trig(cs, speed);
    crate::types::Vec2I { x: vx, y: -vy }
}

/// Integer square root: the greatest `r` with `r * r <= n`.
pub fn isqrt(n: i64) -> (r: i64)
    requires
        0 <= n < 0x1000_0000_0000_0000,
    ensures
        0 <= r,
        r * r <= n,
        (r + 1) * (r + 1) > n,
{
    let mut lo: i64 = 0;
    let mut hi: i64 = 0x4000_0000;
    // invariant: lo * lo <= n < hi * hi
    assert(hi * hi > n) by (nonlinear_arith)
        requires hi == 0x4000_0000i64 && n < 0x1000_0000_0000_0000;
    while lo + 1 < hi
        invariant
            0 <= lo < hi <= 0x4000_0000,
            lo * lo <= n,
            hi * hi > n,
        decreases hi - lo,
    {
        let mid = lo + (hi - lo) / 2;
        assert(lo < mid < hi);
        proof {
            assert(0 <= mid * mid <= 0x4000_0000i64 * 0x4000_0000) by (nonlinear_arith)
                requires
                    0 <= mid <= 0x4000_0000i64,
            ;
        }
        if mid * mid <= n {
            lo = mid;
        } else {
            hi = mid;
        }
    }
    lo
}

} // verus!
