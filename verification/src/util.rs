//! Leaf utilities of the flight model: angle conversion, rate-limited
//! actuators, clamping and piecewise-linear table lookup.

use vstd::prelude::*;
use crate::fixed::{
    fabs, fadd, fdiv, fmul, fsub, fx_abs, fx_add, fx_div, fx_mul, fx_sub, lemma_fdiv_of_part,
    lemma_fdiv_of_zero, lemma_fmul_by_fraction, lemma_fmul_by_zero, lemma_product_bound, quot,
    quot_wide, sat, saturate,
};

verus! {

/// Pi, in millionths.
pub const PI: i64 = 3_141_593;

/// Millionths of a degree in half a turn.
pub const HALF_TURN_DEGREES: i64 = 180_000_000;

/// Degrees to radians.
pub open spec fn rad_spec(f: i64) -> i64 {
    sat(quot(f * PI, HALF_TURN_DEGREES as int))
}

/// Radians to degrees.
pub open spec fn deg_spec(f: i64) -> i64 {
    sat(quot(f * HALF_TURN_DEGREES, PI as int))
}

/// One step of a rate-limited actuator.
pub open spec fn actuator_spec(value: i64, target: i64, down_speed: i64, up_speed: i64) -> i64 {
    if value + up_speed < target {
        sat(value + up_speed)
    } else if value + down_speed > target {
        sat(value + down_speed)
    } else {
        target
    }
}

/// The actuator after `n` steps toward a fixed target.
pub open spec fn actuator_steps(
    value: i64,
    target: i64,
    down_speed: i64,
    up_speed: i64,
    n: nat,
) -> i64
    decreases n,
{
    if n == 0 {
        value
    } else {
        actuator_spec(
            actuator_steps(value, target, down_speed, up_speed, (n - 1) as nat),
            target,
            down_speed,
            up_speed,
        )
    }
}

/// `input` held between `lower` and `upper`. Where the bounds cross, inputs
/// below `lower` yield `lower` and all others yield `upper`.
pub open spec fn limit_spec(input: i64, lower: i64, upper: i64) -> i64 {
    if input < lower {
        lower
    } else if input > upper {
        upper
    } else {
        input
    }
}

/// A signed fraction scaled by the magnitude of the bound on its side.
pub open spec fn rescale_spec(input: i64, min: i64, max: i64) -> i64 {
    if input >= 0 {
        fmul(input, fabs(max))
    } else {
        fmul(input, fabs(min))
    }
}

/// The blend `a + (b - a) * t`.
pub open spec fn lerp_spec(a: i64, b: i64, t: i64) -> i64 {
    fadd(a, fmul(fsub(b, a), t))
}

/// Segment `i` of the table brackets `x`.
pub open spec fn brackets(xs: Seq<i64>, x: i64, i: int) -> bool {
    0 <= i && i + 1 < xs.len() && xs[i] <= x < xs[i + 1]
}

/// The first segment at or after `from` that brackets `x`; the last index of
/// the table where there is none.
pub open spec fn first_bracket(xs: Seq<i64>, x: i64, from: int) -> int
    decreases xs.len() - from,
{
    if from < 0 || from + 1 >= xs.len() {
        xs.len() - 1
    } else if xs[from] <= x < xs[from + 1] {
        from
    } else {
        first_bracket(xs, x, from + 1)
    }
}

/// The value interpolated within segment `i`.
pub open spec fn segment_value(xs: Seq<i64>, ys: Seq<i64>, x: i64, i: int) -> i64 {
    lerp_spec(ys[i], ys[i + 1], fdiv(fsub(x, xs[i]), fsub(xs[i + 1], xs[i])))
}

/// Piecewise-linear lookup of `x` in the table `(xs, ys)`, clamped to the
/// end values outside the table's range.
pub open spec fn table_lerp_spec(xs: Seq<i64>, ys: Seq<i64>, x: i64) -> i64 {
    let n = xs.len() as int;
    if n == 0 {
        0
    } else if x <= xs[0] {
        ys[0]
    } else if x >= xs[n - 1] {
        ys[n - 1]
    } else {
        let i = first_bracket(xs, x, 0);
        if i + 1 < n {
            segment_value(xs, ys, x, i)
        } else {
            ys[n - 1]
        }
    }
}

/// The abscissas never decrease.
pub open spec fn sorted(xs: Seq<i64>) -> bool {
    forall|i: int, j: int| 0 <= i <= j < xs.len() ==> xs[i] <= xs[j]
}

pub fn rad(f: i64) -> (r: i64)
    ensures
        r == rad_spec(f),
{
    proof {
        lemma_product_bound(f as int, PI as int);
    }
    saturate(quot_wide((f as i128) * 3_141_593, 180_000_000))
}

pub fn deg(f: i64) -> (r: i64)
    ensures
        r == deg_spec(f),
{
    proof {
        lemma_product_bound(f as int, HALF_TURN_DEGREES as int);
    }
    saturate(quot_wide((f as i128) * 180_000_000, 3_141_593))
}

pub fn actuator(value: i64, target: i64, down_speed: i64, up_speed: i64) -> (next: i64)
    ensures
        next == actuator_spec(value, target, down_speed, up_speed),
{
    let up: i128 = value as i128 + up_speed as i128;
    let down: i128 = value as i128 + down_speed as i128;
    if up < target as i128 {
        saturate(up)
    } else if down > target as i128 {
        saturate(down)
    } else {
        target
    }
}

pub fn limit(input: i64, lower: i64, upper: i64) -> (r: i64)
    ensures
        r == limit_spec(input, lower, upper),
{
    if input < lower {
        lower
    } else if input > upper {
        upper
    } else {
        input
    }
}

pub fn rescale(input: i64, min: i64, max: i64) -> (r: i64)
    ensures
        r == rescale_spec(input, min, max),
{
    if input >= 0 {
        fx_mul(input, fx_abs(max))
    } else {
        fx_mul(input, fx_abs(min))
    }
}

pub fn lerp(a: i64, b: i64, t: i64) -> (r: i64)
    ensures
        r == lerp_spec(a, b, t),
{
    fx_add(a, fx_mul(fx_sub(b, a), t))
}

pub fn table_lerp(xs: &[i64], ys: &[i64], x: i64) -> (y: i64)
    requires
        xs@.len() == ys@.len(),
    ensures
        y == table_lerp_spec(xs@, ys@, x),
{
    let n: usize = xs.len();
    if n == 0 {
        return 0;
    }
    if x <= xs[0] {
        return ys[0];
    }
    if x >= xs[n - 1] {
        return ys[n - 1];
    }
    let mut i: usize = 0;
    while i < n - 1
        invariant
            n == xs@.len(),
            n == ys@.len(),
            n > 0,
            i <= n - 1,
            xs@[0] < x < xs@[n - 1],
            first_bracket(xs@, x, 0) == first_bracket(xs@, x, i as int),
        decreases n - i,
    {
        if xs[i] <= x && x < xs[i + 1] {
            let t: i64 = fx_div(fx_sub(x, xs[i]), fx_sub(xs[i + 1], xs[i]));
            return lerp(ys[i], ys[i + 1], t);
        }
        i = i + 1;
    }
    ys[n - 1]
}

/// The first bracket, where there is one, is a bracket, and the least one.
pub proof fn lemma_first_bracket(xs: Seq<i64>, x: i64, from: int)
    requires
        0 <= from,
    ensures
        from < xs.len() ==> from <= first_bracket(xs, x, from) < xs.len(),
        first_bracket(xs, x, from) + 1 < xs.len() ==> brackets(
            xs,
            x,
            first_bracket(xs, x, from),
        ),
        forall|j: int| from <= j < first_bracket(xs, x, from) ==> !brackets(xs, x, j),
        first_bracket(xs, x, from) + 1 >= xs.len() ==> forall|j: int|
            from <= j ==> !brackets(xs, x, j),
    decreases xs.len() - from,
{
    if from + 1 >= xs.len() {
    } else if xs[from] <= x < xs[from + 1] {
    } else {
        lemma_first_bracket(xs, x, from + 1);
    }
}

/// In a sorted table, a query strictly inside the table's range is
/// bracketed by some segment.
pub proof fn lemma_sorted_has_bracket(xs: Seq<i64>, x: i64, from: int)
    requires
        sorted(xs),
        0 <= from < xs.len(),
        xs[from] <= x < xs[xs.len() - 1],
    ensures
        first_bracket(xs, x, from) + 1 < xs.len(),
    decreases xs.len() - from,
{
    if from + 1 >= xs.len() {
    } else if xs[from] <= x < xs[from + 1] {
    } else {
        lemma_sorted_has_bracket(xs, x, from + 1);
    }
}

/// Looking up a sample point of a sorted table returns its sample value,
/// provided every sample that shares the abscissa holds the same value.
pub proof fn lemma_table_lerp_at_sample(xs: Seq<i64>, ys: Seq<i64>, i: int)
    requires
        xs.len() == ys.len(),
        sorted(xs),
        0 <= i < xs.len(),
        forall|j: int| 0 <= j < xs.len() && xs[j] == xs[i] ==> ys[j] == ys[i],
    ensures
        table_lerp_spec(xs, ys, xs[i]) == ys[i],
{
    let n = xs.len() as int;
    let x = xs[i];
    if x <= xs[0] {
        assert(xs[0] <= xs[i]);
    } else if x >= xs[n - 1] {
        assert(xs[i] <= xs[n - 1]);
    } else {
        lemma_sorted_has_bracket(xs, x, 0);
        lemma_first_bracket(xs, x, 0);
        let k = first_bracket(xs, x, 0);
        assert(brackets(xs, x, k));
        if xs[k] < x {
            if i <= k {
                assert(xs[i] <= xs[k]);
            } else {
                assert(xs[k + 1] <= xs[i]);
            }
        }
        assert(xs[k] == x);
        lemma_fdiv_of_zero(fsub(xs[k + 1], xs[k]));
        lemma_fmul_by_zero(fsub(ys[k + 1], ys[k]));
    }
}

/// A step toward the target moves by the full rate or lands on the target,
/// whichever is nearer: it neither overshoots nor retreats.
pub proof fn lemma_actuator_step(value: i64, target: i64, down_speed: i64, up_speed: i64)
    requires
        down_speed <= 0 <= up_speed,
    ensures
        value <= target ==> actuator_spec(value, target, down_speed, up_speed) == (if value
            + up_speed < target {
            value + up_speed
        } else {
            target as int
        }),
        value >= target ==> actuator_spec(value, target, down_speed, up_speed) == (if value
            + down_speed > target {
            value + down_speed
        } else {
            target as int
        }),
        value <= target ==> value <= actuator_spec(value, target, down_speed, up_speed) <= target,
        value >= target ==> target <= actuator_spec(value, target, down_speed, up_speed) <= value,
{
}

/// Where the actuator stands after `n` steps toward a fixed target: `n`
/// full steps from the start, cut off at the target.
pub proof fn lemma_actuator_steps(
    value: i64,
    target: i64,
    down_speed: i64,
    up_speed: i64,
    n: nat,
)
    requires
        down_speed <= 0 <= up_speed,
    ensures
        value <= target ==> actuator_steps(value, target, down_speed, up_speed, n) == (if value
            + n * up_speed < target {
            value + n * up_speed
        } else {
            target as int
        }),
        value >= target ==> actuator_steps(value, target, down_speed, up_speed, n) == (if value
            + n * down_speed > target {
            value + n * down_speed
        } else {
            target as int
        }),
    decreases n,
{
    if n == 0 {
        assert(0 * up_speed == 0 && 0 * down_speed == 0) by (nonlinear_arith);
    } else {
        let m = (n - 1) as nat;
        lemma_actuator_steps(value, target, down_speed, up_speed, m);
        let prev = actuator_steps(value, target, down_speed, up_speed, m);
        lemma_actuator_step(prev, target, down_speed, up_speed);
        assert(n * up_speed == m * up_speed + up_speed && m * up_speed >= 0) by (nonlinear_arith)
            requires
                n == m + 1,
                up_speed >= 0,
        ;
        assert(n * down_speed == m * down_speed + down_speed && m * down_speed <= 0)
            by (nonlinear_arith)
            requires
                n == m + 1,
                down_speed <= 0,
        ;
    }
}

/// Repeated steps toward a fixed target approach it monotonically and never
/// pass it.
pub proof fn lemma_actuator_monotone(
    value: i64,
    target: i64,
    down_speed: i64,
    up_speed: i64,
    n: nat,
)
    requires
        down_speed <= 0 <= up_speed,
    ensures
        value <= target ==> value <= actuator_steps(value, target, down_speed, up_speed, n)
            <= actuator_steps(value, target, down_speed, up_speed, n + 1) <= target,
        value >= target ==> value >= actuator_steps(value, target, down_speed, up_speed, n)
            >= actuator_steps(value, target, down_speed, up_speed, n + 1) >= target,
{
    lemma_actuator_steps(value, target, down_speed, up_speed, n);
    let here = actuator_steps(value, target, down_speed, up_speed, n);
    assert(n * up_speed >= 0 && n * down_speed <= 0) by (nonlinear_arith)
        requires
            down_speed <= 0 <= up_speed,
    ;
    lemma_actuator_step(here, target, down_speed, up_speed);
    assert(actuator_steps(value, target, down_speed, up_speed, n + 1) == actuator_spec(
        here,
        target,
        down_speed,
        up_speed,
    ));
}

/// The actuator stands on its target once the steps taken, at the rate of
/// the direction of travel, cover the initial distance: that is, after the
/// distance divided by the rate, rounded up, and ever after.
pub proof fn lemma_actuator_reaches_target(
    value: i64,
    target: i64,
    down_speed: i64,
    up_speed: i64,
    n: nat,
)
    requires
        down_speed <= 0 <= up_speed,
        value < target ==> n * up_speed >= target - value,
        value > target ==> n * (-down_speed) >= value - target,
    ensures
        actuator_steps(value, target, down_speed, up_speed, n) == target,
{
    lemma_actuator_steps(value, target, down_speed, up_speed, n);
    assert(n * (-down_speed) == -(n * down_speed)) by (nonlinear_arith);
    assert(n * up_speed >= 0 && n * down_speed <= 0) by (nonlinear_arith)
        requires
            down_speed <= 0 <= up_speed,
    ;
}

/// A blend by a fraction between zero and one lies between its two ends.
pub proof fn lemma_lerp_between(a: i64, b: i64, t: i64)
    requires
        0 <= t <= crate::fixed::SCALE,
    ensures
        a <= b ==> a <= lerp_spec(a, b, t) <= b,
        b <= a ==> b <= lerp_spec(a, b, t) <= a,
{
    lemma_fmul_by_fraction(fsub(b, a), t);
}

/// The lookup never leaves the range of the table's values: it does not
/// extrapolate, and within a segment it stays between the segment's ends.
pub proof fn lemma_table_lerp_bounded(xs: Seq<i64>, ys: Seq<i64>, x: i64, lo: i64, hi: i64)
    requires
        xs.len() == ys.len(),
        xs.len() > 0,
        forall|i: int| 0 <= i < ys.len() ==> lo <= #[trigger] ys[i] <= hi,
    ensures
        lo <= table_lerp_spec(xs, ys, x) <= hi,
{
    let n = xs.len() as int;
    if x <= xs[0] {
    } else if x >= xs[n - 1] {
    } else {
        lemma_first_bracket(xs, x, 0);
        let i = first_bracket(xs, x, 0);
        if i + 1 < n {
            assert(brackets(xs, x, i));
            let part = fsub(x, xs[i]);
            let whole = fsub(xs[i + 1], xs[i]);
            lemma_fdiv_of_part(part, whole);
            lemma_lerp_between(ys[i], ys[i + 1], fdiv(part, whole));
        }
    }
}

/// Outside the table's range the lookup returns the end values.
pub proof fn lemma_table_lerp_clamps(xs: Seq<i64>, ys: Seq<i64>, x: i64)
    requires
        xs.len() == ys.len(),
        xs.len() > 0,
    ensures
        x <= xs[0] ==> table_lerp_spec(xs, ys, x) == ys[0],
        x > xs[0] && x >= xs[xs.len() - 1] ==> table_lerp_spec(xs, ys, x) == ys[xs.len() - 1],
{
}

} // verus!
