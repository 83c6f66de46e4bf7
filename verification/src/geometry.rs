//! Vectors, orientations and placements in fixed-point arithmetic.

use vstd::prelude::*;
use crate::fixed::{
    fadd, fdiv, floor_sqrt, fmul, fneg, fsub, fx_add, fx_div, fx_mul, fx_neg, fx_sub, isqrt,
    lemma_bounded_product, lemma_floor_sqrt_exists, lemma_product_bound, lemma_square_nonneg,
    quot, round_quot, round_quot_wide, sat, saturate, HALF, SCALE, TWO,
};
use crate::trig::{asin, asin_spec, atan2, atan2_spec, cos, cos_spec, sin, sin_spec};

verus! {

/// A vector of three fixed-point components.
#[derive(Clone, Copy, Debug, PartialEq, Eq, Structural)]
pub struct Vec3 {
    pub x: i64,
    pub y: i64,
    pub z: i64,
}

/// An orientation as a quaternion `w + xi + yj + zk`.
#[derive(Clone, Copy, Debug, PartialEq, Eq, Structural)]
pub struct Quat {
    pub x: i64,
    pub y: i64,
    pub z: i64,
    pub w: i64,
}

/// Where a body is and how it is turned, in the world frame.
#[derive(Clone, Copy, Debug, PartialEq, Eq, Structural)]
pub struct Transform {
    pub translation: Vec3,
    pub rotation: Quat,
}

/// Heading, pitch and roll: the turns about the z, y and x axes, applied in
/// that order, in radians.
#[derive(Clone, Copy, Debug, PartialEq, Eq, Structural)]
pub struct Euler {
    pub heading: i64,
    pub pitch: i64,
    pub roll: i64,
}

/// The vector with the given components.
pub open spec fn vec3(x: i64, y: i64, z: i64) -> Vec3 {
    Vec3 { x, y, z }
}

/// The zero vector.
pub open spec fn vzero() -> Vec3 {
    Vec3 { x: 0, y: 0, z: 0 }
}

/// The sum, component by component.
pub open spec fn vadd(a: Vec3, b: Vec3) -> Vec3 {
    Vec3 { x: fadd(a.x, b.x), y: fadd(a.y, b.y), z: fadd(a.z, b.z) }
}

/// The difference, component by component.
pub open spec fn vsub(a: Vec3, b: Vec3) -> Vec3 {
    Vec3 { x: fsub(a.x, b.x), y: fsub(a.y, b.y), z: fsub(a.z, b.z) }
}

/// The opposite vector.
pub open spec fn vneg(a: Vec3) -> Vec3 {
    Vec3 { x: fneg(a.x), y: fneg(a.y), z: fneg(a.z) }
}

/// The vector scaled by `s`.
pub open spec fn vscale(a: Vec3, s: i64) -> Vec3 {
    Vec3 { x: fmul(a.x, s), y: fmul(a.y, s), z: fmul(a.z, s) }
}

/// The vector divided by `s`.
pub open spec fn vdiv(a: Vec3, s: i64) -> Vec3 {
    Vec3 { x: fdiv(a.x, s), y: fdiv(a.y, s), z: fdiv(a.z, s) }
}

/// The dot product.
pub open spec fn vdot(a: Vec3, b: Vec3) -> i64 {
    fadd(fadd(fmul(a.x, b.x), fmul(a.y, b.y)), fmul(a.z, b.z))
}

/// The cross product, right-handed.
pub open spec fn vcross(a: Vec3, b: Vec3) -> Vec3 {
    Vec3 {
        x: fsub(fmul(a.y, b.z), fmul(b.y, a.z)),
        y: fsub(fmul(a.z, b.x), fmul(b.z, a.x)),
        z: fsub(fmul(a.x, b.y), fmul(b.x, a.y)),
    }
}

/// The squared length, as a fixed-point quantity.
pub open spec fn vlen_sq(a: Vec3) -> i64 {
    vdot(a, a)
}

/// The length: the exact Euclidean norm of the raw components, rounded down.
pub open spec fn vlen(a: Vec3) -> i64 {
    sat(floor_sqrt(a.x * a.x + a.y * a.y + a.z * a.z))
}

/// The vector scaled to unit length; the zero vector stays zero.
pub open spec fn vnormalize(a: Vec3) -> Vec3 {
    vdiv(a, vlen(a))
}

/// The quaternion that turns nothing.
pub open spec fn qidentity() -> Quat {
    Quat { x: 0, y: 0, z: 0, w: SCALE }
}

/// The norm of the quaternion's raw components, rounded down.
pub open spec fn qlen(q: Quat) -> i64 {
    sat(floor_sqrt(q.x * q.x + q.y * q.y + q.z * q.z + q.w * q.w))
}

/// The quaternion scaled to unit norm; the zero quaternion becomes the
/// identity.
pub open spec fn qnormalize(q: Quat) -> Quat {
    let l = qlen(q);
    if l == 0 {
        qidentity()
    } else {
        Quat { x: fdiv(q.x, l), y: fdiv(q.y, l), z: fdiv(q.z, l), w: fdiv(q.w, l) }
    }
}

/// The conjugate, which inverts a unit quaternion.
pub open spec fn qconj(q: Quat) -> Quat {
    Quat { x: fneg(q.x), y: fneg(q.y), z: fneg(q.z), w: q.w }
}

/// The Hamilton product `a * b`: the rotation `b` followed by `a`.
pub open spec fn qmul(a: Quat, b: Quat) -> Quat {
    Quat {
        x: fsub(fadd(fadd(fmul(a.w, b.x), fmul(a.x, b.w)), fmul(a.y, b.z)), fmul(a.z, b.y)),
        y: fadd(fadd(fsub(fmul(a.w, b.y), fmul(a.x, b.z)), fmul(a.y, b.w)), fmul(a.z, b.x)),
        z: fadd(fsub(fadd(fmul(a.w, b.z), fmul(a.x, b.y)), fmul(a.y, b.x)), fmul(a.z, b.w)),
        w: fsub(fsub(fsub(fmul(a.w, b.w), fmul(a.x, b.x)), fmul(a.y, b.y)), fmul(a.z, b.z)),
    }
}

/// The greatest magnitude of a component with which a quaternion turns
/// vectors: greater quaternions are halved until they fit.
pub const TURN_LIMIT: i64 = 536_870_912;

/// No component exceeds the turning limit.
pub open spec fn qfits(q: Quat) -> bool {
    &&& -TURN_LIMIT <= q.x <= TURN_LIMIT
    &&& -TURN_LIMIT <= q.y <= TURN_LIMIT
    &&& -TURN_LIMIT <= q.z <= TURN_LIMIT
    &&& -TURN_LIMIT <= q.w <= TURN_LIMIT
}

/// The quaternion with every component halved, toward zero.
pub open spec fn qhalve(q: Quat) -> Quat {
    Quat {
        x: quot(q.x as int, 2) as i64,
        y: quot(q.y as int, 2) as i64,
        z: quot(q.z as int, 2) as i64,
        w: quot(q.w as int, 2) as i64,
    }
}

/// The quaternion halved until it fits, at most `k` times.
pub open spec fn qreduce_from(q: Quat, k: nat) -> Quat
    decreases k,
{
    if k == 0 || qfits(q) {
        q
    } else {
        qreduce_from(qhalve(q), (k - 1) as nat)
    }
}

/// The quaternion of the same direction with which vectors are turned: the
/// quaternion itself where it fits, else halved until it does.
pub open spec fn qreduce(q: Quat) -> Quat {
    qreduce_from(q, 34)
}

/// The squared length of a quaternion, exactly.
pub open spec fn norm_sq(q: Quat) -> int {
    q.w * q.w + q.x * q.x + q.y * q.y + q.z * q.z
}

/// The rows of the matrix that turns vectors by `q`, times the squared
/// length of `q`, exactly.
pub open spec fn rows_of(q: Quat) -> ((int, int, int), (int, int, int), (int, int, int)) {
    let (x, y, z, w) = (q.x as int, q.y as int, q.z as int, q.w as int);
    (
        (w * w + x * x - y * y - z * z, 2 * (x * y) - 2 * (w * z), 2 * (x * z) + 2 * (w * y)),
        (2 * (x * y) + 2 * (w * z), w * w - x * x + y * y - z * z, 2 * (y * z) - 2 * (w * x)),
        (2 * (x * z) - 2 * (w * y), 2 * (y * z) + 2 * (w * x), w * w - x * x - y * y + z * z),
    )
}

/// A row of a turning matrix applied to a vector and divided by the
/// squared length `n`: rounded once, to the nearest millionth.
#[verifier::opaque]
pub open spec fn turn_row(row: (int, int, int), v: Vec3, n: int) -> i64 {
    sat(round_quot(row.0 * v.x + row.1 * v.y + row.2 * v.z, n))
}

/// The vector `v` turned by the quaternion `q`, which need not be of unit
/// length: the exact turn, rounded once. The zero quaternion turns nothing.
pub open spec fn qrotate(q: Quat, v: Vec3) -> Vec3 {
    let r = qreduce(q);
    let m = rows_of(r);
    let n = norm_sq(r);
    if n == 0 {
        v
    } else {
        Vec3 { x: turn_row(m.0, v, n), y: turn_row(m.1, v, n), z: turn_row(m.2, v, n) }
    }
}

/// The vector `v` turned back by the quaternion `q`: turned by the
/// transposed matrix, which is the matrix of the opposite turn.
pub open spec fn qrotate_back(q: Quat, v: Vec3) -> Vec3 {
    let r = qreduce(q);
    let m = rows_of(r);
    let n = norm_sq(r);
    if n == 0 {
        v
    } else {
        Vec3 {
            x: turn_row((m.0.0, m.1.0, m.2.0), v, n),
            y: turn_row((m.0.1, m.1.1, m.2.1), v, n),
            z: turn_row((m.0.2, m.1.2, m.2.2), v, n),
        }
    }
}

/// The rotation by `angle` about the unit vector `axis`.
pub open spec fn qaxis_angle(axis: Vec3, angle: i64) -> Quat {
    let half = fmul(angle, HALF);
    let s = sin_spec(half);
    Quat { x: fmul(axis.x, s), y: fmul(axis.y, s), z: fmul(axis.z, s), w: cos_spec(half) }
}

/// The rotation by `angle` about the x axis.
pub open spec fn qrotation_x(angle: i64) -> Quat {
    let half = fmul(angle, HALF);
    Quat { x: sin_spec(half), y: 0, z: 0, w: cos_spec(half) }
}

/// The rotation by `angle` about the y axis.
pub open spec fn qrotation_y(angle: i64) -> Quat {
    let half = fmul(angle, HALF);
    Quat { x: 0, y: sin_spec(half), z: 0, w: cos_spec(half) }
}

/// Heading, pitch and roll of an orientation.
pub open spec fn qeuler(q: Quat) -> Euler {
    Euler {
        heading: atan2_spec(
            fmul(TWO, fadd(fmul(q.x, q.y), fmul(q.w, q.z))),
            fsub(SCALE, fmul(TWO, fadd(fmul(q.y, q.y), fmul(q.z, q.z)))),
        ),
        pitch: asin_spec(fmul(TWO, fsub(fmul(q.w, q.y), fmul(q.x, q.z)))),
        roll: atan2_spec(
            fmul(TWO, fadd(fmul(q.y, q.z), fmul(q.w, q.x))),
            fsub(SCALE, fmul(TWO, fadd(fmul(q.x, q.x), fmul(q.y, q.y)))),
        ),
    }
}

/// A body-frame vector expressed in the world frame.
pub open spec fn local_to_global_spec(local_vec: Vec3, world_rot: Quat) -> Vec3 {
    qrotate(world_rot, local_vec)
}

/// A world-frame vector expressed in the body frame.
pub open spec fn global_to_local_spec(global_vec: Vec3, world_rot: Quat) -> Vec3 {
    qrotate_back(world_rot, global_vec)
}

/// The square of a raw component, which always fits.
fn square(a: i64) -> (r: u128)
    ensures
        r == a * a,
        r <= 0x4000_0000_0000_0000_0000_0000_0000_0000,
{
    proof {
        lemma_product_bound(a as int, a as int);
        assert(a * a >= 0) by (nonlinear_arith);
    }
    let wide: i128 = (a as i128) * (a as i128);
    wide as u128
}

/// Clamps a root into `i64`.
fn saturate_root(r: u64) -> (s: i64)
    ensures
        s == sat(r as int),
{
    if r > 0x7fff_ffff_ffff_ffff {
        i64::MAX
    } else {
        r as i64
    }
}

/// The rows of a turning matrix, times the squared length `n` of its
/// quaternion.
pub struct TurnMatrix {
    pub a11: i128,
    pub a12: i128,
    pub a13: i128,
    pub a21: i128,
    pub a22: i128,
    pub a23: i128,
    pub a31: i128,
    pub a32: i128,
    pub a33: i128,
    pub n: i128,
}

impl TurnMatrix {
    /// Every entry is small enough for a row to be applied without
    /// overflow.
    pub open spec fn bounded(self) -> bool {
        &&& 0 <= self.n <= 0x1000_0000_0000_0000
        &&& -0x1000_0000_0000_0000 <= self.a11 <= 0x1000_0000_0000_0000
        &&& -0x1000_0000_0000_0000 <= self.a12 <= 0x1000_0000_0000_0000
        &&& -0x1000_0000_0000_0000 <= self.a13 <= 0x1000_0000_0000_0000
        &&& -0x1000_0000_0000_0000 <= self.a21 <= 0x1000_0000_0000_0000
        &&& -0x1000_0000_0000_0000 <= self.a22 <= 0x1000_0000_0000_0000
        &&& -0x1000_0000_0000_0000 <= self.a23 <= 0x1000_0000_0000_0000
        &&& -0x1000_0000_0000_0000 <= self.a31 <= 0x1000_0000_0000_0000
        &&& -0x1000_0000_0000_0000 <= self.a32 <= 0x1000_0000_0000_0000
        &&& -0x1000_0000_0000_0000 <= self.a33 <= 0x1000_0000_0000_0000
    }
}

/// The greatest magnitude that `k` halvings bring within the turning
/// limit.
pub open spec fn span(k: nat) -> int
    decreases k,
{
    if k == 0 {
        TURN_LIMIT as int
    } else {
        2 * span((k - 1) as nat)
    }
}

/// Thirty-four halvings bring every number within the turning limit.
pub proof fn lemma_span_of_the_number_range()
    ensures
        span(34) == 0x8000_0000_0000_0000,
{
    reveal_with_fuel(span, 35);
}

/// Applies a row of a turning matrix to a vector.
fn apply_row(a: i128, b: i128, c: i128, v: Vec3, n: i128) -> (r: i64)
    requires
        0 < n <= 0x1000_0000_0000_0000,
        -0x1000_0000_0000_0000 <= a <= 0x1000_0000_0000_0000,
        -0x1000_0000_0000_0000 <= b <= 0x1000_0000_0000_0000,
        -0x1000_0000_0000_0000 <= c <= 0x1000_0000_0000_0000,
    ensures
        r == turn_row((a as int, b as int, c as int), v, n as int),
{
    proof {
        reveal(turn_row);
        lemma_bounded_product(a as int, v.x as int, 0x1000_0000_0000_0000, 0x8000_0000_0000_0000);
        lemma_bounded_product(b as int, v.y as int, 0x1000_0000_0000_0000, 0x8000_0000_0000_0000);
        lemma_bounded_product(c as int, v.z as int, 0x1000_0000_0000_0000, 0x8000_0000_0000_0000);
        assert(0x1000_0000_0000_0000 * 0x8000_0000_0000_0000
            == 0x800_0000_0000_0000_0000_0000_0000_0000int);
    }
    let sum: i128 = a * (v.x as i128) + b * (v.y as i128) + c * (v.z as i128);
    saturate(round_quot_wide(sum, n))
}

impl Vec3 {
    pub fn new(x: i64, y: i64, z: i64) -> (v: Vec3)
        ensures
            v == vec3(x, y, z),
    {
        Vec3 { x, y, z }
    }

    pub fn zero() -> (v: Vec3)
        ensures
            v == vzero(),
    {
        Vec3 { x: 0, y: 0, z: 0 }
    }

    pub fn plus(self, other: Vec3) -> (v: Vec3)
        ensures
            v == vadd(self, other),
    {
        Vec3 {
            x: fx_add(self.x, other.x),
            y: fx_add(self.y, other.y),
            z: fx_add(self.z, other.z),
        }
    }

    pub fn minus(self, other: Vec3) -> (v: Vec3)
        ensures
            v == vsub(self, other),
    {
        Vec3 {
            x: fx_sub(self.x, other.x),
            y: fx_sub(self.y, other.y),
            z: fx_sub(self.z, other.z),
        }
    }

    pub fn negated(self) -> (v: Vec3)
        ensures
            v == vneg(self),
    {
        Vec3 { x: fx_neg(self.x), y: fx_neg(self.y), z: fx_neg(self.z) }
    }

    pub fn scaled(self, s: i64) -> (v: Vec3)
        ensures
            v == vscale(self, s),
    {
        Vec3 { x: fx_mul(self.x, s), y: fx_mul(self.y, s), z: fx_mul(self.z, s) }
    }

    pub fn divided(self, s: i64) -> (v: Vec3)
        ensures
            v == vdiv(self, s),
    {
        Vec3 { x: fx_div(self.x, s), y: fx_div(self.y, s), z: fx_div(self.z, s) }
    }

    pub fn dot(self, other: Vec3) -> (d: i64)
        ensures
            d == vdot(self, other),
    {
        fx_add(
            fx_add(fx_mul(self.x, other.x), fx_mul(self.y, other.y)),
            fx_mul(self.z, other.z),
        )
    }

    pub fn cross(self, other: Vec3) -> (v: Vec3)
        ensures
            v == vcross(self, other),
    {
        Vec3 {
            x: fx_sub(fx_mul(self.y, other.z), fx_mul(other.y, self.z)),
            y: fx_sub(fx_mul(self.z, other.x), fx_mul(other.z, self.x)),
            z: fx_sub(fx_mul(self.x, other.y), fx_mul(other.x, self.y)),
        }
    }

    pub fn length_squared(self) -> (l: i64)
        ensures
            l == vlen_sq(self),
    {
        self.dot(self)
    }

    pub fn length(self) -> (l: i64)
        ensures
            l == vlen(self),
            l >= 0,
            l == 0 <==> self == vzero(),
    {
        let n: u128 = square(self.x) + square(self.y) + square(self.z);
        let r: u64 = isqrt(n);
        proof {
            if self.x != 0 {
                assert(self.x * self.x >= 1) by (nonlinear_arith)
                    requires
                        self.x != 0,
                ;
            }
            if self.y != 0 {
                assert(self.y * self.y >= 1) by (nonlinear_arith)
                    requires
                        self.y != 0,
                ;
            }
            if self.z != 0 {
                assert(self.z * self.z >= 1) by (nonlinear_arith)
                    requires
                        self.z != 0,
                ;
            }
            if r == 0 {
                assert((r + 1) * (r + 1) == 1) by (nonlinear_arith)
                    requires
                        r == 0,
                ;
            } else {
                assert(r * r >= 1) by (nonlinear_arith)
                    requires
                        r >= 1,
                ;
            }
        }
        saturate_root(r)
    }

    pub fn normalized(self) -> (v: Vec3)
        ensures
            v == vnormalize(self),
    {
        self.divided(self.length())
    }
}

impl Quat {
    pub fn new(x: i64, y: i64, z: i64, w: i64) -> (q: Quat)
        ensures
            q == (Quat { x, y, z, w }),
    {
        Quat { x, y, z, w }
    }

    pub fn identity() -> (q: Quat)
        ensures
            q == qidentity(),
    {
        Quat { x: 0, y: 0, z: 0, w: SCALE }
    }

    pub fn length(self) -> (l: i64)
        ensures
            l == qlen(self),
            l >= 0,
    {
        let three: u128 = square(self.x) + square(self.y) + square(self.z);
        let last: u128 = square(self.w);
        if three > 0xffff_ffff_ffff_ffff_ffff_ffff_ffff_ffff - last {
            proof {
                let n = self.x * self.x + self.y * self.y + self.z * self.z + self.w * self.w;
                let r = floor_sqrt(n);
                assert(n >= 0x1_0000_0000_0000_0000_0000_0000_0000_0000);
                lemma_floor_sqrt_exists(n);
                if r <= 0x7fff_ffff_ffff_ffff {
                    assert((r + 1) * (r + 1) <= 0x8000_0000_0000_0000 * 0x8000_0000_0000_0000)
                        by (nonlinear_arith)
                        requires
                            0 <= r <= 0x7fff_ffff_ffff_ffff,
                    ;
                }
            }
            i64::MAX
        } else {
            saturate_root(isqrt(three + last))
        }
    }

    pub fn normalized(self) -> (q: Quat)
        ensures
            q == qnormalize(self),
    {
        let l: i64 = self.length();
        if l == 0 {
            Quat::identity()
        } else {
            Quat {
                x: fx_div(self.x, l),
                y: fx_div(self.y, l),
                z: fx_div(self.z, l),
                w: fx_div(self.w, l),
            }
        }
    }

    pub fn conjugate(self) -> (q: Quat)
        ensures
            q == qconj(self),
    {
        Quat { x: fx_neg(self.x), y: fx_neg(self.y), z: fx_neg(self.z), w: self.w }
    }

    pub fn times(self, b: Quat) -> (q: Quat)
        ensures
            q == qmul(self, b),
    {
        let a: Quat = self;
        Quat {
            x: fx_sub(
                fx_add(fx_add(fx_mul(a.w, b.x), fx_mul(a.x, b.w)), fx_mul(a.y, b.z)),
                fx_mul(a.z, b.y),
            ),
            y: fx_add(
                fx_add(fx_sub(fx_mul(a.w, b.y), fx_mul(a.x, b.z)), fx_mul(a.y, b.w)),
                fx_mul(a.z, b.x),
            ),
            z: fx_add(
                fx_sub(fx_add(fx_mul(a.w, b.z), fx_mul(a.x, b.y)), fx_mul(a.y, b.x)),
                fx_mul(a.z, b.w),
            ),
            w: fx_sub(
                fx_sub(fx_sub(fx_mul(a.w, b.w), fx_mul(a.x, b.x)), fx_mul(a.y, b.y)),
                fx_mul(a.z, b.z),
            ),
        }
    }

    /// The quaternion with which vectors are turned.
    pub fn reduced(self) -> (r: Quat)
        ensures
            r == qreduce(self),
            qfits(r),
    {
        let mut r: Quat = self;
        let mut k: u32 = 34;
        proof {
            lemma_span_of_the_number_range();
        }
        while k > 0 && !(-TURN_LIMIT <= r.x && r.x <= TURN_LIMIT && -TURN_LIMIT <= r.y && r.y
            <= TURN_LIMIT && -TURN_LIMIT <= r.z && r.z <= TURN_LIMIT && -TURN_LIMIT <= r.w && r.w
            <= TURN_LIMIT)
            invariant
                k <= 34,
                qreduce_from(r, k as nat) == qreduce(self),
                -span(k as nat) <= r.x <= span(k as nat),
                -span(k as nat) <= r.y <= span(k as nat),
                -span(k as nat) <= r.z <= span(k as nat),
                -span(k as nat) <= r.w <= span(k as nat),
            decreases k,
        {
            r = Quat { x: r.x / 2, y: r.y / 2, z: r.z / 2, w: r.w / 2 };
            k = k - 1;
        }
        r
    }

    /// The rows of the turning matrix of a quaternion that fits, and its
    /// squared length.
    fn rows(self) -> (m: TurnMatrix)
        requires
            qfits(self),
        ensures
            (m.a11 as int, m.a12 as int, m.a13 as int) == rows_of(self).0,
            (m.a21 as int, m.a22 as int, m.a23 as int) == rows_of(self).1,
            (m.a31 as int, m.a32 as int, m.a33 as int) == rows_of(self).2,
            m.n == norm_sq(self),
            m.bounded(),
    {
        let (x, y, z, w): (i128, i128, i128, i128) = (
            self.x as i128,
            self.y as i128,
            self.z as i128,
            self.w as i128,
        );
        proof {
            lemma_bounded_product(x as int, x as int, TURN_LIMIT as int, TURN_LIMIT as int);
            lemma_bounded_product(y as int, y as int, TURN_LIMIT as int, TURN_LIMIT as int);
            lemma_bounded_product(z as int, z as int, TURN_LIMIT as int, TURN_LIMIT as int);
            lemma_bounded_product(w as int, w as int, TURN_LIMIT as int, TURN_LIMIT as int);
            lemma_bounded_product(x as int, y as int, TURN_LIMIT as int, TURN_LIMIT as int);
            lemma_bounded_product(x as int, z as int, TURN_LIMIT as int, TURN_LIMIT as int);
            lemma_bounded_product(y as int, z as int, TURN_LIMIT as int, TURN_LIMIT as int);
            lemma_bounded_product(w as int, x as int, TURN_LIMIT as int, TURN_LIMIT as int);
            lemma_bounded_product(w as int, y as int, TURN_LIMIT as int, TURN_LIMIT as int);
            lemma_bounded_product(w as int, z as int, TURN_LIMIT as int, TURN_LIMIT as int);
            lemma_square_nonneg(x as int);
            lemma_square_nonneg(y as int);
            lemma_square_nonneg(z as int);
            lemma_square_nonneg(w as int);
            assert(TURN_LIMIT * TURN_LIMIT == 0x400_0000_0000_0000);
        }
        let (ww, xx, yy, zz): (i128, i128, i128, i128) = (w * w, x * x, y * y, z * z);
        let (xy, xz, yz): (i128, i128, i128) = (x * y, x * z, y * z);
        let (wx, wy, wz): (i128, i128, i128) = (w * x, w * y, w * z);
        TurnMatrix {
            a11: ww + xx - yy - zz,
            a12: 2 * xy - 2 * wz,
            a13: 2 * xz + 2 * wy,
            a21: 2 * xy + 2 * wz,
            a22: ww - xx + yy - zz,
            a23: 2 * yz - 2 * wx,
            a31: 2 * xz - 2 * wy,
            a32: 2 * yz + 2 * wx,
            a33: ww - xx - yy + zz,
            n: ww + xx + yy + zz,
        }
    }

    /// Turns a vector by the quaternion, which need not be of unit length.
    pub fn rotate(self, v: Vec3) -> (r: Vec3)
        ensures
            r == qrotate(self, v),
    {
        let m: TurnMatrix = self.reduced().rows();
        if m.n == 0 {
            v
        } else {
            Vec3 {
                x: apply_row(m.a11, m.a12, m.a13, v, m.n),
                y: apply_row(m.a21, m.a22, m.a23, v, m.n),
                z: apply_row(m.a31, m.a32, m.a33, v, m.n),
            }
        }
    }

    /// Turns a vector back by the quaternion: the opposite turn.
    pub fn rotate_back(self, v: Vec3) -> (r: Vec3)
        ensures
            r == qrotate_back(self, v),
    {
        let m: TurnMatrix = self.reduced().rows();
        if m.n == 0 {
            v
        } else {
            Vec3 {
                x: apply_row(m.a11, m.a21, m.a31, v, m.n),
                y: apply_row(m.a12, m.a22, m.a32, v, m.n),
                z: apply_row(m.a13, m.a23, m.a33, v, m.n),
            }
        }
    }

    pub fn from_axis_angle(axis: Vec3, angle: i64) -> (q: Quat)
        ensures
            q == qaxis_angle(axis, angle),
    {
        let half: i64 = fx_mul(angle, HALF);
        let s: i64 = sin(half);
        Quat { x: fx_mul(axis.x, s), y: fx_mul(axis.y, s), z: fx_mul(axis.z, s), w: cos(half) }
    }

    pub fn from_rotation_x(angle: i64) -> (q: Quat)
        ensures
            q == qrotation_x(angle),
    {
        let half: i64 = fx_mul(angle, HALF);
        Quat { x: sin(half), y: 0, z: 0, w: cos(half) }
    }

    pub fn from_rotation_y(angle: i64) -> (q: Quat)
        ensures
            q == qrotation_y(angle),
    {
        let half: i64 = fx_mul(angle, HALF);
        Quat { x: 0, y: sin(half), z: 0, w: cos(half) }
    }

    pub fn to_euler(self) -> (e: Euler)
        ensures
            e == qeuler(self),
    {
        let q: Quat = self;
        Euler {
            heading: atan2(
                fx_mul(TWO, fx_add(fx_mul(q.x, q.y), fx_mul(q.w, q.z))),
                fx_sub(SCALE, fx_mul(TWO, fx_add(fx_mul(q.y, q.y), fx_mul(q.z, q.z)))),
            ),
            pitch: asin(fx_mul(TWO, fx_sub(fx_mul(q.w, q.y), fx_mul(q.x, q.z)))),
            roll: atan2(
                fx_mul(TWO, fx_add(fx_mul(q.y, q.z), fx_mul(q.w, q.x))),
                fx_sub(SCALE, fx_mul(TWO, fx_add(fx_mul(q.x, q.x), fx_mul(q.y, q.y)))),
            ),
        }
    }
}

/// Expresses a body-frame vector in the world frame.
pub fn local_to_global(local_vec: Vec3, world_rot: Quat) -> (v: Vec3)
    ensures
        v == local_to_global_spec(local_vec, world_rot),
{
    world_rot.rotate(local_vec)
}

/// Expresses a world-frame vector in the body frame.
pub fn global_to_local(global_vec: Vec3, world_rot: Quat) -> (v: Vec3)
    ensures
        v == global_to_local_spec(global_vec, world_rot),
{
    world_rot.rotate_back(global_vec)
}

/// The identity has unit length, and normalizing it or taking its
/// conjugate leaves it as it is.
pub proof fn lemma_identity_is_normal()
    ensures
        qlen(qidentity()) == SCALE,
        qnormalize(qidentity()) == qidentity(),
        qconj(qidentity()) == qidentity(),
{
    let q = qidentity();
    assert(q.x * q.x + q.y * q.y + q.z * q.z + q.w * q.w == 1_000_000_000_000) by (nonlinear_arith)
        requires
            q.x == 0,
            q.y == 0,
            q.z == 0,
            q.w == 1_000_000,
    ;
    assert(crate::fixed::is_floor_sqrt(1_000_000_000_000, 1_000_000)) by (nonlinear_arith);
    crate::fixed::lemma_floor_sqrt_is(1_000_000_000_000, 1_000_000);
    assert(qlen(q) == SCALE);
    crate::fixed::lemma_fdiv_of_zero(SCALE);
    assert(fdiv(SCALE, SCALE) == SCALE) by {
        reveal(fdiv);
    }
}

} // verus!
