//! Saturating fixed-point scalars: an `i64` holds a quantity in millionths.

use vstd::prelude::*;

verus! {

/// Raw units per whole unit.
pub const SCALE: i64 = 1_000_000;

/// One half.
pub const HALF: i64 = 500_000;

/// Two.
pub const TWO: i64 = 2_000_000;

/// The nearest `i64` to `v`.
pub open spec fn sat(v: int) -> i64 {
    if v < i64::MIN {
        i64::MIN
    } else if v > i64::MAX {
        i64::MAX
    } else {
        v as i64
    }
}

/// Integer quotient rounded toward zero.
pub open spec fn quot(a: int, b: int) -> int
    recommends
        b != 0,
{
    if b > 0 {
        if a >= 0 {
            a / b
        } else {
            -((-a) / b)
        }
    } else {
        if a >= 0 {
            -(a / (-b))
        } else {
            (-a) / (-b)
        }
    }
}

/// Integer quotient by a positive divisor rounded to the nearest integer,
/// halves away from zero.
pub open spec fn round_quot(a: int, b: int) -> int
    recommends
        b > 0,
{
    if a >= 0 {
        (2 * a + b) / (2 * b)
    } else {
        -((2 * (-a) + b) / (2 * b))
    }
}

/// Saturating sum.
pub open spec fn fadd(a: i64, b: i64) -> i64 {
    sat(a + b)
}

/// Saturating difference.
pub open spec fn fsub(a: i64, b: i64) -> i64 {
    sat(a - b)
}

/// Saturating negation.
pub open spec fn fneg(a: i64) -> i64 {
    sat(-a)
}

/// Saturating absolute value.
pub open spec fn fabs(a: i64) -> i64 {
    if a >= 0 {
        a
    } else {
        sat(-a)
    }
}

/// The lesser of two quantities.
pub open spec fn fmin(a: i64, b: i64) -> i64 {
    if a <= b {
        a
    } else {
        b
    }
}

/// The greater of two quantities.
pub open spec fn fmax(a: i64, b: i64) -> i64 {
    if a >= b {
        a
    } else {
        b
    }
}

/// Fixed-point product: the exact product of the two quantities, rounded
/// toward zero to a millionth and saturated.
#[verifier::opaque]
pub open spec fn fmul(a: i64, b: i64) -> i64 {
    sat(quot(a * b, SCALE as int))
}

/// Fixed-point quotient, rounded toward zero and saturated. Dividing by zero
/// saturates in the direction of the dividend's sign; zero over zero is zero.
#[verifier::opaque]
pub open spec fn fdiv(a: i64, b: i64) -> i64 {
    if b == 0 {
        if a > 0 {
            i64::MAX
        } else if a < 0 {
            i64::MIN
        } else {
            0
        }
    } else {
        sat(quot(a * SCALE, b as int))
    }
}

/// The `n`-th power by repeated multiplication, each product rounded.
pub open spec fn fpow(x: i64, n: nat) -> i64
    decreases n,
{
    if n == 0 {
        SCALE
    } else {
        fmul(fpow(x, (n - 1) as nat), x)
    }
}

/// `r` is the integer square root of `n`, rounded down.
pub open spec fn is_floor_sqrt(n: int, r: int) -> bool {
    r >= 0 && r * r <= n < (r + 1) * (r + 1)
}

/// The integer square root of `n`, rounded down (for `n >= 0`).
pub open spec fn floor_sqrt(n: int) -> int {
    choose|r: int| is_floor_sqrt(n, r)
}

/// Fixed-point square root, rounded down; zero for negative arguments.
pub open spec fn fsqrt(a: i64) -> i64 {
    if a <= 0 {
        0
    } else {
        floor_sqrt(a * SCALE) as i64
    }
}

/// At most one number is the rounded-down square root of `n`.
pub proof fn lemma_floor_sqrt_unique(n: int, r1: int, r2: int)
    requires
        is_floor_sqrt(n, r1),
        is_floor_sqrt(n, r2),
    ensures
        r1 == r2,
{
    if r1 < r2 {
        assert((r1 + 1) * (r1 + 1) <= r2 * r2) by (nonlinear_arith)
            requires
                0 <= r1 + 1 <= r2,
        ;
    } else if r2 < r1 {
        assert((r2 + 1) * (r2 + 1) <= r1 * r1) by (nonlinear_arith)
            requires
                0 <= r2 + 1 <= r1,
        ;
    }
}

/// Every natural number has a rounded-down square root.
pub proof fn lemma_floor_sqrt_exists(n: int)
    requires
        n >= 0,
    ensures
        is_floor_sqrt(n, floor_sqrt(n)),
    decreases n,
{
    if n == 0 {
        assert(is_floor_sqrt(0, 0));
    } else {
        lemma_floor_sqrt_exists(n - 1);
        let r = floor_sqrt(n - 1);
        if (r + 1) * (r + 1) <= n {
            assert((r + 2) * (r + 2) > n) by (nonlinear_arith)
                requires
                    r >= 0,
                    n - 1 < (r + 1) * (r + 1),
            ;
            assert(is_floor_sqrt(n, r + 1));
        } else {
            assert(is_floor_sqrt(n, r));
        }
    }
}

/// Any witness of `is_floor_sqrt` is the value of `floor_sqrt`.
pub proof fn lemma_floor_sqrt_is(n: int, r: int)
    requires
        is_floor_sqrt(n, r),
    ensures
        floor_sqrt(n) == r,
{
    let c = floor_sqrt(n);
    assert(is_floor_sqrt(n, c));
    lemma_floor_sqrt_unique(n, c, r);
}

/// A product with zero is zero.
pub proof fn lemma_fmul_by_zero(a: i64)
    ensures
        fmul(a, 0) == 0,
        fmul(0, a) == 0,
{
    reveal(fmul);
    assert(a * 0 == 0 && 0 * a == 0) by (nonlinear_arith);
    lemma_quot_of_zero(SCALE as int);
}

/// Zero divided by anything is zero.
pub proof fn lemma_fdiv_of_zero(b: i64)
    ensures
        fdiv(0, b) == 0,
{
    reveal(fdiv);
    if b != 0 {
        assert(0 * SCALE == 0) by (nonlinear_arith);
        lemma_quot_of_zero(b as int);
    }
}

/// Multiplying by one changes nothing.
pub proof fn lemma_fmul_by_one(a: i64)
    ensures
        fmul(a, SCALE) == a,
        fmul(SCALE, a) == a,
{
    reveal(fmul);
    assert(SCALE * a == a * SCALE) by (nonlinear_arith);
    if a >= 0 {
        assert((a * SCALE) / (SCALE as int) == a) by (nonlinear_arith);
    } else {
        assert((-(a * SCALE)) / (SCALE as int) == -a) by (nonlinear_arith);
    }
}

/// A fraction of a quantity lies between zero and the quantity.
pub proof fn lemma_fmul_by_fraction(e: i64, t: i64)
    requires
        0 <= t <= SCALE,
    ensures
        e >= 0 ==> 0 <= fmul(e, t) <= e,
        e <= 0 ==> e <= fmul(e, t) <= 0,
{
    reveal(fmul);
    let p = e * t;
    if e >= 0 {
        assert(0 <= p <= e * 1_000_000) by (nonlinear_arith)
            requires
                p == e * t,
                e >= 0,
                0 <= t <= 1_000_000,
        ;
    } else {
        assert(e * 1_000_000 <= p <= 0) by (nonlinear_arith)
            requires
                p == e * t,
                e <= 0,
                0 <= t <= 1_000_000,
        ;
    }
}

/// The quotient of a part by its whole lies between zero and one.
pub proof fn lemma_fdiv_of_part(n: i64, d: i64)
    requires
        0 <= n <= d,
        d > 0,
    ensures
        0 <= fdiv(n, d) <= SCALE,
{
    reveal(fdiv);
    let p = n * SCALE;
    assert(0 <= p / (d as int) <= 1_000_000) by (nonlinear_arith)
        requires
            p == n * 1_000_000,
            0 <= n <= d,
            d > 0,
    ;
}

/// The product of two quantities that are not negative is not negative and
/// at most the product of their bounds.
pub proof fn lemma_fmul_bounds(a: i64, b: i64, amax: int, bmax: int)
    requires
        0 <= a <= amax,
        0 <= b <= bmax,
        amax * bmax <= 9_000_000_000_000_000_000_000_000,
    ensures
        0 <= fmul(a, b) <= (amax * bmax) / 1_000_000,
{
    reveal(fmul);
    let p = a * b;
    let pmax = amax * bmax;
    assert(0 <= p <= pmax) by (nonlinear_arith)
        requires
            p == a * b,
            pmax == amax * bmax,
            0 <= a <= amax,
            0 <= b <= bmax,
    ;
}

/// The product of two quantities of at most two in magnitude is the exact
/// product to within a millionth.
pub proof fn lemma_fmul_near(a: i64, b: i64)
    requires
        -2_000_000 <= a <= 2_000_000,
        -2_000_000 <= b <= 2_000_000,
    ensures
        a * b - 1_000_000 < fmul(a, b) * 1_000_000 < a * b + 1_000_000,
        -4_000_000 <= fmul(a, b) <= 4_000_000,
{
    reveal(fmul);
    let p = a * b;
    assert(-4_000_000_000_000 <= p <= 4_000_000_000_000) by (nonlinear_arith)
        requires
            p == a * b,
            -2_000_000 <= a <= 2_000_000,
            -2_000_000 <= b <= 2_000_000,
    ;
}

/// The product of two quantities of at most one in magnitude is at most
/// one in magnitude, and at least 0.23 where the one is at least one half
/// and the other at least 0.461.
pub proof fn lemma_fmul_unit(a: i64, b: i64)
    requires
        -1_000_000 <= a <= 1_000_000,
        -1_000_000 <= b <= 1_000_000,
    ensures
        -1_000_000 <= fmul(a, b) <= 1_000_000,
        (a >= 500_000 || a <= -500_000) && (b >= 461_000 || b <= -461_000) ==> fmul(a, b)
            >= 230_000 || fmul(a, b) <= -230_000,
{
    reveal(fmul);
    let p = a * b;
    assert(-1_000_000_000_000 <= p <= 1_000_000_000_000) by (nonlinear_arith)
        requires
            p == a * b,
            -1_000_000 <= a <= 1_000_000,
            -1_000_000 <= b <= 1_000_000,
    ;
    if (a >= 500_000 || a <= -500_000) && (b >= 461_000 || b <= -461_000) {
        assert(p >= 230_500_000_000 || p <= -230_500_000_000) by (nonlinear_arith)
            requires
                p == a * b,
                a >= 500_000 || a <= -500_000,
                b >= 461_000 || b <= -461_000,
        ;
    }
}

/// The product of two bounded numbers is bounded by the product of the
/// bounds.
pub proof fn lemma_bounded_product(c: int, e: int, cmax: int, emax: int)
    requires
        -cmax <= c <= cmax,
        -emax <= e <= emax,
    ensures
        -(cmax * emax) <= c * e <= cmax * emax,
{
    assert(-(cmax * emax) <= c * e <= cmax * emax) by (nonlinear_arith)
        requires
            -cmax <= c <= cmax,
            -emax <= e <= emax,
    ;
}

/// A square is not negative.
pub proof fn lemma_square_nonneg(a: int)
    ensures
        a * a >= 0,
{
    assert(a * a >= 0) by (nonlinear_arith);
}

/// A rounded quotient times its divisor is within half the divisor of the
/// dividend.
pub proof fn lemma_round_quot_near(a: int, b: int)
    requires
        b > 0,
    ensures
        -b <= 2 * (round_quot(a, b) * b - a) <= b,
{
    let m = if a >= 0 {
        a
    } else {
        -a
    };
    let t = 2 * m + b;
    let d = 2 * b;
    let r = t / d;
    assert(r * d <= t < r * d + d && r >= 0) by (nonlinear_arith)
        requires
            r == t / d,
            d > 0,
            t >= 0,
    ;
    assert(r * d == 2 * (r * b)) by (nonlinear_arith)
        requires
            d == 2 * b,
    ;
    if a < 0 {
        assert((-r) * b == -(r * b)) by (nonlinear_arith);
    }
}

/// The rounded quotient of a dividend that lies less than the divisor away
/// from a multiple of the divisor is within one of the multiplier.
pub proof fn lemma_round_quot_between(a: int, b: int, v: int)
    requires
        b > 0,
        -b < a - b * v < b,
    ensures
        v - 1 <= round_quot(a, b) <= v + 1,
{
    lemma_round_quot_near(a, b);
    let r = round_quot(a, b);
    let rb = r * b;
    let vb = b * v;
    // 2 |rb - a| <= b and |a - vb| < b give |rb - vb| < 2 b.
    if r >= v + 2 {
        assert(rb >= vb + 2 * b) by (nonlinear_arith)
            requires
                rb == r * b,
                vb == b * v,
                r >= v + 2,
                b > 0,
        ;
    }
    if r <= v - 2 {
        assert(rb <= vb - 2 * b) by (nonlinear_arith)
            requires
                rb == r * b,
                vb == b * v,
                r <= v - 2,
                b > 0,
        ;
    }
}

/// The rounded quotient of a dividend that lies less than `k` divisors
/// away from a multiple of the divisor is within `k` of the multiplier.
pub proof fn lemma_round_quot_within(a: int, b: int, v: int, k: int)
    requires
        b > 0,
        k >= 1,
        -(k * b) < a - b * v < k * b,
    ensures
        v - k <= round_quot(a, b) <= v + k,
{
    lemma_round_quot_near(a, b);
    let r = round_quot(a, b);
    let rb = r * b;
    let vb = b * v;
    let kb = k * b;
    if r >= v + k + 1 {
        assert(rb >= vb + kb + b) by (nonlinear_arith)
            requires
                rb == r * b,
                vb == b * v,
                kb == k * b,
                r >= v + k + 1,
                b > 0,
        ;
    }
    if r <= v - k - 1 {
        assert(rb <= vb - kb - b) by (nonlinear_arith)
            requires
                rb == r * b,
                vb == b * v,
                kb == k * b,
                r <= v - k - 1,
                b > 0,
        ;
    }
}

/// The rounded quotient of an exact multiple is the multiplier.
pub proof fn lemma_round_quot_exact(v: int, b: int)
    requires
        b > 0,
    ensures
        round_quot(b * v, b) == v,
{
    let a = b * v;
    lemma_round_quot_near(a, b);
    let r = round_quot(a, b);
    let rb = r * b;
    if r >= v + 1 {
        assert(rb >= a + b) by (nonlinear_arith)
            requires
                rb == r * b,
                a == b * v,
                r >= v + 1,
                b > 0,
        ;
    }
    if r <= v - 1 {
        assert(rb <= a - b) by (nonlinear_arith)
            requires
                rb == r * b,
                a == b * v,
                r <= v - 1,
                b > 0,
        ;
    }
}

/// Zero divided by a nonzero integer is zero.
pub proof fn lemma_quot_of_zero(b: int)
    requires
        b != 0,
    ensures
        quot(0, b) == 0,
{
    let m = if b > 0 {
        b
    } else {
        -b
    };
    assert(0int / m == 0) by (nonlinear_arith)
        requires
            m > 0,
    ;
}

/// Clamps a wide intermediate result into `i64`.
pub fn saturate(v: i128) -> (r: i64)
    ensures
        r == sat(v as int),
{
    if v < i64::MIN as i128 {
        i64::MIN
    } else if v > i64::MAX as i128 {
        i64::MAX
    } else {
        v as i64
    }
}

pub fn fx_add(a: i64, b: i64) -> (r: i64)
    ensures
        r == fadd(a, b),
{
    saturate(a as i128 + b as i128)
}

pub fn fx_sub(a: i64, b: i64) -> (r: i64)
    ensures
        r == fsub(a, b),
{
    saturate(a as i128 - b as i128)
}

pub fn fx_neg(a: i64) -> (r: i64)
    ensures
        r == fneg(a),
{
    saturate(-(a as i128))
}

pub fn fx_abs(a: i64) -> (r: i64)
    ensures
        r == fabs(a),
{
    if a >= 0 {
        a
    } else {
        saturate(-(a as i128))
    }
}

pub fn fx_min(a: i64, b: i64) -> (r: i64)
    ensures
        r == fmin(a, b),
{
    if a <= b {
        a
    } else {
        b
    }
}

pub fn fx_max(a: i64, b: i64) -> (r: i64)
    ensures
        r == fmax(a, b),
{
    if a >= b {
        a
    } else {
        b
    }
}

/// The product of two `i64` values fits in an `i128` with room to spare.
pub proof fn lemma_product_bound(a: int, b: int)
    requires
        -0x8000_0000_0000_0000 <= a <= 0x8000_0000_0000_0000,
        -0x8000_0000_0000_0000 <= b <= 0x8000_0000_0000_0000,
    ensures
        -0x4000_0000_0000_0000_0000_0000_0000_0000 <= a * b
            <= 0x4000_0000_0000_0000_0000_0000_0000_0000,
{
    assert(-0x4000_0000_0000_0000_0000_0000_0000_0000 <= a * b
        <= 0x4000_0000_0000_0000_0000_0000_0000_0000) by (nonlinear_arith)
        requires
            -0x8000_0000_0000_0000 <= a <= 0x8000_0000_0000_0000,
            -0x8000_0000_0000_0000 <= b <= 0x8000_0000_0000_0000,
    ;
}

/// Divides a wide intermediate result, rounding toward zero.
pub fn quot_wide(p: i128, b: i128) -> (r: i128)
    requires
        b != 0,
        p > i128::MIN,
        b > i128::MIN,
    ensures
        r == quot(p as int, b as int),
{
    let pm: u128 = if p >= 0 {
        p as u128
    } else {
        (-p) as u128
    };
    let bm: u128 = if b >= 0 {
        b as u128
    } else {
        (-b) as u128
    };
    let q: u128 = pm / bm;
    assert(q <= pm) by (nonlinear_arith)
        requires
            q == pm / bm,
            bm >= 1,
    ;
    if (p >= 0) == (b > 0) {
        q as i128
    } else {
        -(q as i128)
    }
}

/// Divides a wide intermediate result by a positive divisor, rounding to
/// the nearest integer, halves away from zero.
pub fn round_quot_wide(a: i128, b: i128) -> (r: i128)
    requires
        0 < b <= 0x1000_0000_0000_0000,
        -0x2000_0000_0000_0000_0000_0000_0000_0000 <= a
            <= 0x2000_0000_0000_0000_0000_0000_0000_0000,
    ensures
        r == round_quot(a as int, b as int),
{
    let m: u128 = if a >= 0 {
        a as u128
    } else {
        (-a) as u128
    };
    let d: u128 = 2 * (b as u128);
    let t: u128 = 2 * m + (b as u128);
    let q: u128 = t / d;
    assert(q <= t) by (nonlinear_arith)
        requires
            q == t / d,
            d >= 1,
    ;
    if a >= 0 {
        q as i128
    } else {
        -(q as i128)
    }
}

pub fn fx_mul(a: i64, b: i64) -> (r: i64)
    ensures
        r == fmul(a, b),
{
    proof {
        reveal(fmul);
        lemma_product_bound(a as int, b as int);
    }
    let p: i128 = (a as i128) * (b as i128);
    saturate(quot_wide(p, 1_000_000))
}

pub fn fx_div(a: i64, b: i64) -> (r: i64)
    ensures
        r == fdiv(a, b),
{
    proof {
        reveal(fdiv);
    }
    if b == 0 {
        if a > 0 {
            i64::MAX
        } else if a < 0 {
            i64::MIN
        } else {
            0
        }
    } else {
        proof {
            lemma_product_bound(a as int, SCALE as int);
        }
        let p: i128 = (a as i128) * 1_000_000;
        saturate(quot_wide(p, b as i128))
    }
}

pub fn fx_pow(x: i64, n: u32) -> (r: i64)
    ensures
        r == fpow(x, n as nat),
{
    let mut r: i64 = SCALE;
    let mut i: u32 = 0;
    while i < n
        invariant
            i <= n,
            r == fpow(x, i as nat),
        decreases n - i,
    {
        r = fx_mul(r, x);
        i = i + 1;
    }
    r
}

/// Integer square root, rounded down.
pub fn isqrt(n: u128) -> (r: u64)
    ensures
        is_floor_sqrt(n as int, r as int),
        r as int == floor_sqrt(n as int),
{
    let mut lo: u128 = 0;
    let mut hi: u128 = 0x1_0000_0000_0000_0000;
    assert(n < hi * hi) by (nonlinear_arith)
        requires
            hi == 0x1_0000_0000_0000_0000,
            n <= 0xffff_ffff_ffff_ffff_ffff_ffff_ffff_ffff,
    ;
    while hi - lo > 1
        invariant
            lo < hi <= 0x1_0000_0000_0000_0000,
            lo * lo <= n < hi * hi,
        decreases hi - lo,
    {
        let mid: u128 = lo + (hi - lo) / 2;
        assert(mid * mid <= 0xffff_ffff_ffff_ffff_ffff_ffff_ffff_ffff) by (nonlinear_arith)
            requires
                0 <= mid <= 0xffff_ffff_ffff_ffff,
        ;
        if mid * mid <= n {
            lo = mid;
        } else {
            hi = mid;
        }
    }
    proof {
        lemma_floor_sqrt_is(n as int, lo as int);
    }
    lo as u64
}

pub fn fx_sqrt(a: i64) -> (r: i64)
    ensures
        r == fsqrt(a),
        r >= 0,
{
    if a <= 0 {
        0
    } else {
        let n: u128 = (a as u128) * 1_000_000;
        let root: u64 = isqrt(n);
        proof {
            let r = root as int;
            if r > 0x7fff_ffff_ffff_ffff {
                assert(r * r > n) by (nonlinear_arith)
                    requires
                        r > 0x7fff_ffff_ffff_ffff,
                        n <= 0x7fff_ffff_ffff_ffff * 1_000_000,
                ;
            }
        }
        root as i64
    }
}

} // verus!
