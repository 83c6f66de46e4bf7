//! Fixed-point trigonometry: sine and cosine by a truncated power series on
//! a folded argument, arctangent by a series on a reduced argument. Angles
//! are in millionths of a radian.

use vstd::prelude::*;
use crate::fixed::{
    fabs, fadd, fdiv, fmul, fsqrt, fsub, fx_abs, fx_add, fx_div, fx_mul, fx_sqrt, fx_sub,
    lemma_fmul_bounds, lemma_fmul_by_fraction, quot, SCALE,
};
use crate::util::{limit, limit_spec, PI};

verus! {

/// A full turn.
pub const TWO_PI: i64 = 6_283_185;

/// A quarter turn.
pub const HALF_PI: i64 = 1_570_796;

/// An eighth of a turn.
pub const QUARTER_PI: i64 = 785_398;

/// The tangent of a sixteenth of a turn: arguments above it are reduced
/// before the arctangent series is summed.
pub const TAN_EIGHTH_PI: i64 = 414_214;

/// An angle brought into `[-PI, PI]` by whole turns.
pub open spec fn wrap_angle(x: i64) -> i64 {
    let r: int = if x >= 0 {
        x as int % TWO_PI as int
    } else {
        -((-x) % TWO_PI as int)
    };
    if r > PI {
        (r - TWO_PI) as i64
    } else if r < -PI {
        (r + TWO_PI) as i64
    } else {
        r as i64
    }
}

/// An angle of `[-PI, PI]` reflected into the quarter turns around zero,
/// where it has the same sine.
pub open spec fn fold_angle(r: i64) -> i64 {
    if r > HALF_PI {
        fsub(PI, r)
    } else if r < -HALF_PI {
        fsub(-PI as i64, r)
    } else {
        r
    }
}

/// The sine series up to the eleventh power, in nested form.
pub open spec fn sin_series(r: i64) -> i64 {
    let z = fmul(r, r);
    let c11 = fsub(SCALE, fmul(z, 9_091));
    let c9 = fsub(SCALE, fmul(fmul(z, 13_889), c11));
    let c7 = fsub(SCALE, fmul(fmul(z, 23_810), c9));
    let c5 = fsub(SCALE, fmul(fmul(z, 50_000), c7));
    let c3 = fsub(SCALE, fmul(fmul(z, 166_667), c5));
    fmul(r, c3)
}

/// The sine of `x`.
pub open spec fn sin_spec(x: i64) -> i64 {
    limit_spec(sin_series(fold_angle(wrap_angle(x))), -SCALE as i64, SCALE)
}

/// The cosine of `x`: the sine of what the wrapped angle lacks of a
/// quarter turn, so that an angle and its complement give the same pair of
/// values.
pub open spec fn cos_spec(x: i64) -> i64 {
    limit_spec(sin_series(fsub(HALF_PI, fabs(wrap_angle(x)))), -SCALE as i64, SCALE)
}

/// The arctangent series up to the eleventh power.
pub open spec fn atan_series(u: i64) -> i64 {
    let w = fmul(u, u);
    let s5 = fsub(111_111, fmul(w, 90_909));
    let s4 = fsub(142_857, fmul(w, s5));
    let s3 = fsub(200_000, fmul(w, s4));
    let s2 = fsub(333_333, fmul(w, s3));
    let s1 = fsub(SCALE, fmul(w, s2));
    fmul(u, s1)
}

/// The arctangent of a ratio `a` of `[0, 1]`, held within `[0, QUARTER_PI]`.
pub open spec fn atan_unit(a: i64) -> i64 {
    let raw = if a > TAN_EIGHTH_PI {
        fadd(QUARTER_PI, atan_series(fdiv(fsub(a, SCALE), fadd(a, SCALE))))
    } else {
        atan_series(a)
    };
    limit_spec(raw, 0, QUARTER_PI)
}

/// The angle of the point `(x, y)` from the positive x axis, within
/// `[-PI, PI]`; zero at the origin.
pub open spec fn atan2_spec(y: i64, x: i64) -> i64 {
    let ax = fabs(x);
    let ay = fabs(y);
    if ax == 0 && ay == 0 {
        0
    } else {
        let ratio = if ay <= ax {
            fdiv(ay, ax)
        } else {
            fdiv(ax, ay)
        };
        let eighth = atan_unit(ratio);
        let quarter = if ay > ax {
            (HALF_PI - eighth) as i64
        } else {
            eighth
        };
        let half = if x < 0 {
            (PI - quarter) as i64
        } else {
            quarter
        };
        if y < 0 {
            (-half) as i64
        } else {
            half
        }
    }
}

/// The arcsine of `v`, with `v` held to `[-1, 1]`.
pub open spec fn asin_spec(v: i64) -> i64 {
    let s = limit_spec(v, -SCALE as i64, SCALE);
    atan2_spec(s, fsqrt(fsub(SCALE, fmul(s, s))))
}

fn wrap(x: i64) -> (r: i64)
    ensures
        r == wrap_angle(x),
        -PI <= r <= PI,
{
    let m: u128 = if x >= 0 {
        x as u128
    } else {
        (-(x as i128)) as u128
    };
    let rm: u128 = m % 6_283_185;
    let r: i64 = if x >= 0 {
        rm as i64
    } else {
        -(rm as i64)
    };
    if r > PI {
        r - TWO_PI
    } else if r < -PI {
        r + TWO_PI
    } else {
        r
    }
}

fn sum_sin_series(r: i64) -> (s: i64)
    ensures
        s == sin_series(r),
{
    let z: i64 = fx_mul(r, r);
    let c11: i64 = fx_sub(SCALE, fx_mul(z, 9_091));
    let c9: i64 = fx_sub(SCALE, fx_mul(fx_mul(z, 13_889), c11));
    let c7: i64 = fx_sub(SCALE, fx_mul(fx_mul(z, 23_810), c9));
    let c5: i64 = fx_sub(SCALE, fx_mul(fx_mul(z, 50_000), c7));
    let c3: i64 = fx_sub(SCALE, fx_mul(fx_mul(z, 166_667), c5));
    fx_mul(r, c3)
}

pub fn sin(x: i64) -> (r: i64)
    ensures
        r == sin_spec(x),
        -SCALE <= r <= SCALE,
{
    let w: i64 = wrap(x);
    let folded: i64 = if w > HALF_PI {
        fx_sub(PI, w)
    } else if w < -HALF_PI {
        fx_sub(-PI, w)
    } else {
        w
    };
    limit(sum_sin_series(folded), -SCALE, SCALE)
}

pub fn cos(x: i64) -> (r: i64)
    ensures
        r == cos_spec(x),
        -SCALE <= r <= SCALE,
{
    limit(sum_sin_series(fx_sub(HALF_PI, fx_abs(wrap(x)))), -SCALE, SCALE)
}

fn sum_atan_series(u: i64) -> (s: i64)
    ensures
        s == atan_series(u),
{
    let w: i64 = fx_mul(u, u);
    let s5: i64 = fx_sub(111_111, fx_mul(w, 90_909));
    let s4: i64 = fx_sub(142_857, fx_mul(w, s5));
    let s3: i64 = fx_sub(200_000, fx_mul(w, s4));
    let s2: i64 = fx_sub(333_333, fx_mul(w, s3));
    let s1: i64 = fx_sub(SCALE, fx_mul(w, s2));
    fx_mul(u, s1)
}

fn atan_of_ratio(a: i64) -> (r: i64)
    ensures
        r == atan_unit(a),
        0 <= r <= QUARTER_PI,
{
    let raw: i64 = if a > TAN_EIGHTH_PI {
        fx_add(QUARTER_PI, sum_atan_series(fx_div(fx_sub(a, SCALE), fx_add(a, SCALE))))
    } else {
        sum_atan_series(a)
    };
    limit(raw, 0, QUARTER_PI)
}

pub fn atan2(y: i64, x: i64) -> (r: i64)
    ensures
        r == atan2_spec(y, x),
        -PI <= r <= PI,
{
    let ax: i64 = fx_abs(x);
    let ay: i64 = fx_abs(y);
    if ax == 0 && ay == 0 {
        return 0;
    }
    let ratio: i64 = if ay <= ax {
        fx_div(ay, ax)
    } else {
        fx_div(ax, ay)
    };
    let eighth: i64 = atan_of_ratio(ratio);
    let quarter: i64 = if ay > ax {
        HALF_PI - eighth
    } else {
        eighth
    };
    let half: i64 = if x < 0 {
        PI - quarter
    } else {
        quarter
    };
    if y < 0 {
        -half
    } else {
        half
    }
}

pub fn asin(v: i64) -> (r: i64)
    ensures
        r == asin_spec(v),
        -HALF_PI <= r <= HALF_PI,
{
    let s: i64 = limit(v, -SCALE, SCALE);
    atan2(s, fx_sqrt(fx_sub(SCALE, fx_mul(s, s))))
}

/// On the quarter turns about zero the sine series keeps the sign of its
/// argument, and beyond an eighth of a turn from zero it exceeds 0.46 in
/// magnitude.
pub proof fn lemma_sin_series_bound(r: i64)
    requires
        -HALF_PI - 1 <= r <= HALF_PI + 1,
    ensures
        r >= 785_000 ==> sin_series(r) >= 461_000,
        r <= -785_000 ==> sin_series(r) <= -461_000,
{
    reveal(fmul);
    let z = fmul(r, r);
    let rr = r * r;
    assert(0 <= rr <= 1_570_797 * 1_570_797) by (nonlinear_arith)
        requires
            rr == r * r,
            -1_570_797 <= r <= 1_570_797,
    ;
    assert(0 <= z <= 2_467_404);
    lemma_fmul_bounds(z, 9_091, 2_467_404, 9_091);
    let c11 = fsub(SCALE, fmul(z, 9_091));
    assert(0 <= c11 <= SCALE);
    lemma_fmul_bounds(z, 13_889, 2_467_404, 13_889);
    lemma_fmul_by_fraction(fmul(z, 13_889), c11);
    let c9 = fsub(SCALE, fmul(fmul(z, 13_889), c11));
    assert(0 <= c9 <= SCALE);
    lemma_fmul_bounds(z, 23_810, 2_467_404, 23_810);
    lemma_fmul_by_fraction(fmul(z, 23_810), c9);
    let c7 = fsub(SCALE, fmul(fmul(z, 23_810), c9));
    assert(0 <= c7 <= SCALE);
    lemma_fmul_bounds(z, 50_000, 2_467_404, 50_000);
    lemma_fmul_by_fraction(fmul(z, 50_000), c7);
    let c5 = fsub(SCALE, fmul(fmul(z, 50_000), c7));
    assert(0 <= c5 <= SCALE);
    lemma_fmul_bounds(z, 166_667, 2_467_404, 166_667);
    lemma_fmul_by_fraction(fmul(z, 166_667), c5);
    let c3 = fsub(SCALE, fmul(fmul(z, 166_667), c5));
    assert(588_000 <= c3 <= SCALE);
    assert(sin_series(r) == fmul(r, c3));
    let p = r * c3;
    if r >= 785_000 {
        assert(p >= 785_000 * 588_000) by (nonlinear_arith)
            requires
                p == r * c3,
                r >= 785_000,
                c3 >= 588_000,
        ;
        assert(p <= 1_570_797 * 1_000_000) by (nonlinear_arith)
            requires
                p == r * c3,
                0 <= r <= 1_570_797,
                0 <= c3 <= 1_000_000,
        ;
        assert(461_580_000_000 <= p <= 1_570_797_000_000);
        assert(quot(p, SCALE as int) == p / 1_000_000);
        assert(fmul(r, c3) >= 461_580);
    }
    if r <= -785_000 {
        assert(-p >= 785_000 * 588_000) by (nonlinear_arith)
            requires
                p == r * c3,
                r <= -785_000,
                c3 >= 588_000,
        ;
        assert(-p <= 1_570_797 * 1_000_000) by (nonlinear_arith)
            requires
                p == r * c3,
                -1_570_797 <= r <= 0,
                0 <= c3 <= 1_000_000,
        ;
        assert(461_580_000_000 <= -p <= 1_570_797_000_000);
        assert(quot(p, SCALE as int) == -((-p) / 1_000_000));
        assert(fmul(r, c3) <= -461_580);
    }
}

/// At an eighth of a turn the sine and the cosine are the same.
pub proof fn lemma_eighth_turn()
    ensures
        sin_spec(785_398) == 707_107,
        cos_spec(785_398) == 707_107,
{
    reveal(fmul);
    assert(wrap_angle(785_398) == 785_398);
    assert(fold_angle(785_398) == 785_398);
    assert(fmul(785_398, 785_398) == 616_850);
    assert(fmul(616_850, 9_091) == 5_607);
    assert(fmul(616_850, 13_889) == 8_567);
    assert(fmul(8_567, 994_393) == 8_518);
    assert(fmul(616_850, 23_810) == 14_687);
    assert(fmul(14_687, 991_482) == 14_561);
    assert(fmul(616_850, 50_000) == 30_842);
    assert(fmul(30_842, 985_439) == 30_392);
    assert(fmul(616_850, 166_667) == 102_808);
    assert(fmul(102_808, 969_608) == 99_683);
    assert(fmul(785_398, 900_317) == 707_107);
    assert(sin_series(785_398) == 707_107);
}

/// Of the sine and the cosine of an angle, at least one exceeds 0.46 in
/// magnitude.
pub proof fn lemma_sin_or_cos_large(h: i64)
    ensures
        sin_spec(h) >= 461_000 || sin_spec(h) <= -461_000 || cos_spec(h) >= 461_000 || cos_spec(h)
            <= -461_000,
{
    let w = wrap_angle(h);
    assert(-PI <= w <= PI);
    lemma_sin_series_bound(fold_angle(w));
    lemma_sin_series_bound(fsub(HALF_PI, fabs(w)));
}

} // verus!
