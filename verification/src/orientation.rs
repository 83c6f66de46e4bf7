//! Why orientations stay of unit length: normalizing a quaternion that is
//! not tiny yields one of nearly unit length, and the product of a turn
//! with an orientation of nearly unit length is not tiny.

use vstd::prelude::*;
use crate::fixed::{
    fdiv, floor_sqrt, fmul, lemma_bounded_product, lemma_floor_sqrt_exists, lemma_fmul_near,
    lemma_fmul_unit, lemma_square_nonneg, HALF, SCALE,
};
use crate::geometry::{qaxis_angle, qlen, qmul, qnormalize, vlen, vnormalize, Quat, Vec3};
use crate::trig::{lemma_sin_or_cos_large, sin_spec};

verus! {

/// The magnitude of an integer.
pub open spec fn mag(a: int) -> int {
    if a >= 0 {
        a
    } else {
        -a
    }
}

/// A number times a sum of four products.
proof fn lemma_row(c: int, m1: int, m2: int, m3: int, m4: int, d1: int, d2: int, d3: int, d4: int)
    ensures
        c * (m1 * d1 + m2 * d2 + m3 * d3 + m4 * d4) == (c * m1) * d1 + (c * m2) * d2 + (c * m3) * d3
            + (c * m4) * d4,
{
    let t1 = m1 * d1;
    let t2 = m2 * d2;
    let t3 = m3 * d3;
    let t4 = m4 * d4;
    assert(c * (t1 + t2 + t3 + t4) == c * t1 + c * t2 + c * t3 + c * t4) by (nonlinear_arith);
    assert(c * t1 == (c * m1) * d1) by (nonlinear_arith)
        requires
            t1 == m1 * d1,
    ;
    assert(c * t2 == (c * m2) * d2) by (nonlinear_arith)
        requires
            t2 == m2 * d2,
    ;
    assert(c * t3 == (c * m3) * d3) by (nonlinear_arith)
        requires
            t3 == m3 * d3,
    ;
    assert(c * t4 == (c * m4) * d4) by (nonlinear_arith)
        requires
            t4 == m4 * d4,
    ;
}

/// A sum of four numbers times a number.
proof fn lemma_column(a1: int, a2: int, a3: int, a4: int, d: int)
    ensures
        a1 * d + a2 * d + a3 * d + a4 * d == (a1 + a2 + a3 + a4) * d,
{
    assert(a1 * d + a2 * d + a3 * d + a4 * d == (a1 + a2 + a3 + a4) * d) by (nonlinear_arith);
}

/// A combination of the rows of a matrix applied to a vector is the
/// combination of the matrix's columns applied to the vector.
proof fn lemma_combination(
    c1: int, c2: int, c3: int, c4: int,
    m11: int, m12: int, m13: int, m14: int,
    m21: int, m22: int, m23: int, m24: int,
    m31: int, m32: int, m33: int, m34: int,
    m41: int, m42: int, m43: int, m44: int,
    d1: int, d2: int, d3: int, d4: int,
)
    ensures
        c1 * (m11 * d1 + m12 * d2 + m13 * d3 + m14 * d4) + c2 * (m21 * d1 + m22 * d2 + m23 * d3
            + m24 * d4) + c3 * (m31 * d1 + m32 * d2 + m33 * d3 + m34 * d4) + c4 * (m41 * d1 + m42
            * d2 + m43 * d3 + m44 * d4) == (c1 * m11 + c2 * m21 + c3 * m31 + c4 * m41) * d1 + (c1
            * m12 + c2 * m22 + c3 * m32 + c4 * m42) * d2 + (c1 * m13 + c2 * m23 + c3 * m33 + c4
            * m43) * d3 + (c1 * m14 + c2 * m24 + c3 * m34 + c4 * m44) * d4,
{
    lemma_row(c1, m11, m12, m13, m14, d1, d2, d3, d4);
    lemma_row(c2, m21, m22, m23, m24, d1, d2, d3, d4);
    lemma_row(c3, m31, m32, m33, m34, d1, d2, d3, d4);
    lemma_row(c4, m41, m42, m43, m44, d1, d2, d3, d4);
    lemma_column(c1 * m11, c2 * m21, c3 * m31, c4 * m41, d1);
    lemma_column(c1 * m12, c2 * m22, c3 * m32, c4 * m42, d2);
    lemma_column(c1 * m13, c2 * m23, c3 * m33, c4 * m43, d3);
    lemma_column(c1 * m14, c2 * m24, c3 * m34, c4 * m44, d4);
}

/// A component of a vector is no longer than the vector.
pub proof fn lemma_magnitude_within(c: i64, n: int, l: int)
    requires
        l >= 0,
        c * c <= n < (l + 1) * (l + 1),
    ensures
        -l <= c <= l,
{
    if c > l {
        assert(c * c >= (l + 1) * (l + 1)) by (nonlinear_arith)
            requires
                c >= l + 1,
                l >= 0,
        ;
    }
    if c < -l {
        assert(c * c >= (l + 1) * (l + 1)) by (nonlinear_arith)
            requires
                -c >= l + 1,
                l >= 0,
        ;
    }
}

/// The magnitude `v` of a component divided by the length of its vector,
/// bracketed by the division. The length is at least as great as the
/// component, unless it stands at the end of the number range.
proof fn lemma_quotient_magnitude(c: i64, l: i64) -> (v: int)
    requires
        l > 0,
        -l <= c <= l || l == i64::MAX,
    ensures
        0 <= v <= 1_000_000,
        fdiv(c, l) == v || fdiv(c, l) == -v,
        c >= 0 ==> v * l <= c * 1_000_000 < v * l + l,
        c < 0 ==> v * l <= (-c) * 1_000_000 < v * l + l,
{
    reveal(fdiv);
    let m: int = if c >= 0 {
        c as int
    } else {
        -c
    };
    let n = m * 1_000_000;
    let v = n / (l as int);
    assert(v >= 0 && v * l <= n < v * l + l) by (nonlinear_arith)
        requires
            v == n / (l as int),
            n == m * 1_000_000,
            0 <= m,
            l > 0,
    ;
    assert(v <= 1_000_000) by (nonlinear_arith)
        requires
            v * l <= n,
            n == m * 1_000_000,
            v >= 0,
            l > 0,
            0 <= m <= l || (m <= l + 1 && l >= 2_000_000),
    ;
    v
}

/// What the brackets of a component's quotient give for its square, with
/// `m` the component's magnitude and `v` the quotient's.
proof fn lemma_component_square(m: int, v: int, l: int)
    requires
        m >= 0,
        v >= 0,
        l > 0,
        v * l <= m * SCALE < v * l + l,
    ensures
        v * v * (l * l) <= m * m * 1_000_000_000_000,
        v * v * (l * l) >= m * m * 1_000_000_000_000 - 2 * l * (m * 1_000_000),
{
    let a = v * l;
    let b = m * 1_000_000;
    assert(a * a <= b * b) by (nonlinear_arith)
        requires
            0 <= a <= b,
    ;
    assert(a * a >= b * b - 2 * l * b) by (nonlinear_arith)
        requires
            0 <= a,
            0 <= b,
            l > 0,
            a > b - l,
    ;
    assert(a * a == v * v * (l * l)) by (nonlinear_arith)
        requires
            a == v * l,
    ;
    assert(b * b == m * m * 1_000_000_000_000) by (nonlinear_arith)
        requires
            b == m * 1_000_000,
    ;
}

/// The sum of four magnitudes is at most twice the length of their vector.
proof fn lemma_sum_of_four(a: int, b: int, c: int, d: int, l: int)
    requires
        a >= 0,
        b >= 0,
        c >= 0,
        d >= 0,
        l >= 0,
        a * a + b * b + c * c + d * d < (l + 1) * (l + 1),
    ensures
        a + b + c + d < 2 * (l + 1),
{
    let s = a + b + c + d;
    assert(s * s <= 4 * (a * a + b * b + c * c + d * d)) by (nonlinear_arith)
        requires
            s == a + b + c + d,
    ;
    if s >= 2 * (l + 1) {
        assert(s * s >= 4 * ((l + 1) * (l + 1))) by (nonlinear_arith)
            requires
                s >= 2 * (l + 1),
                l >= 0,
        ;
    }
}

/// From the bounds on the scaled sum of squared quotients to bounds on
/// the sum itself.
proof fn lemma_unit_bounds(n: int, n1: int, l: int, sum: int)
    requires
        l >= 10_000,
        l * l <= n < (l + 1) * (l + 1),
        0 <= sum < 2 * (l + 1),
        n1 * (l * l) <= n * 1_000_000_000_000,
        n1 * (l * l) >= n * 1_000_000_000_000 - 2_000_000 * (l * sum),
    ensures
        999_997 * 999_997 <= n1 < 1_000_100 * 1_000_100,
{
    let ll = l * l;
    assert(ll > 0) by (nonlinear_arith)
        requires
            l >= 10_000,
            ll == l * l,
    ;
    // Above: n1 * l^2 < (10^6 (l + 1))^2 <= (1000100 l)^2.
    if n1 >= 1_000_100 * 1_000_100 {
        assert(n1 * ll >= 1_000_100 * 1_000_100 * ll) by (nonlinear_arith)
            requires
                n1 >= 1_000_100 * 1_000_100,
                ll > 0,
        ;
        assert(1_000_100 * 1_000_100 * ll >= (l + 1) * (l + 1) * 1_000_000_000_000)
            by (nonlinear_arith)
            requires
                l >= 10_000,
                ll == l * l,
        ;
        assert(n * 1_000_000_000_000 < (l + 1) * (l + 1) * 1_000_000_000_000);
    }
    // Below: n1 * l^2 >= 10^12 l^2 - 4 * 10^6 l (l + 1) > (999997 l)^2 - l^2.
    if n1 < 999_997 * 999_997 {
        assert(n1 * ll <= (999_997 * 999_997 - 1) * ll) by (nonlinear_arith)
            requires
                n1 <= 999_997 * 999_997 - 1,
                ll > 0,
        ;
        assert(l * sum <= l * (2 * l + 1)) by (nonlinear_arith)
            requires
                l >= 0,
                sum <= 2 * l + 1,
        ;
        assert(n * 1_000_000_000_000 >= ll * 1_000_000_000_000);
        assert(ll * 1_000_000_000_000 - 2_000_000 * (l * (2 * l + 1)) > (999_997 * 999_997 - 1)
            * ll) by (nonlinear_arith)
            requires
                l >= 10_000,
                ll == l * l,
        ;
    }
}

/// Normalizing a quaternion that is neither tiny nor beyond the number
/// range yields one whose length is within a ten-thousandth of one.
pub proof fn lemma_normalized_is_unit(q: Quat)
    requires
        10_000 <= qlen(q) < i64::MAX,
    ensures
        SCALE - 3 <= qlen(qnormalize(q)) <= SCALE + 100,
{
    let n = q.x * q.x + q.y * q.y + q.z * q.z + q.w * q.w;
    let l = qlen(q);
    assert(q.x * q.x >= 0 && q.y * q.y >= 0 && q.z * q.z >= 0 && q.w * q.w >= 0)
        by (nonlinear_arith);
    lemma_floor_sqrt_exists(n);
    assert(l == floor_sqrt(n));
    assert(l * l <= n < (l + 1) * (l + 1));
    lemma_magnitude_within(q.x, n, l as int);
    lemma_magnitude_within(q.y, n, l as int);
    lemma_magnitude_within(q.z, n, l as int);
    lemma_magnitude_within(q.w, n, l as int);
    let vx = lemma_quotient_magnitude(q.x, l);
    let vy = lemma_quotient_magnitude(q.y, l);
    let vz = lemma_quotient_magnitude(q.z, l);
    let vw = lemma_quotient_magnitude(q.w, l);
    let mx = mag(q.x as int);
    let my = mag(q.y as int);
    let mz = mag(q.z as int);
    let mw = mag(q.w as int);
    assert(mx * mx == q.x * q.x && my * my == q.y * q.y && mz * mz == q.z * q.z && mw * mw
        == q.w * q.w) by (nonlinear_arith)
        requires
            mx == q.x || mx == -q.x,
            my == q.y || my == -q.y,
            mz == q.z || mz == -q.z,
            mw == q.w || mw == -q.w,
    ;
    lemma_component_square(mx, vx, l as int);
    lemma_component_square(my, vy, l as int);
    lemma_component_square(mz, vz, l as int);
    lemma_component_square(mw, vw, l as int);
    lemma_sum_of_four(mx, my, mz, mw, l as int);
    let unit = qnormalize(q);
    let n1 = unit.x * unit.x + unit.y * unit.y + unit.z * unit.z + unit.w * unit.w;
    assert(n1 == vx * vx + vy * vy + vz * vz + vw * vw) by (nonlinear_arith)
        requires
            n1 == unit.x * unit.x + unit.y * unit.y + unit.z * unit.z + unit.w * unit.w,
            unit.x == vx || unit.x == -vx,
            unit.y == vy || unit.y == -vy,
            unit.z == vz || unit.z == -vz,
            unit.w == vw || unit.w == -vw,
    ;
    let ll = l * l;
    let big = 1_000_000_000_000int;
    // The sum of the squared quotients, scaled by the squared length.
    assert(n1 * ll == vx * vx * ll + vy * vy * ll + vz * vz * ll + vw * vw * ll)
        by (nonlinear_arith)
        requires
            n1 == vx * vx + vy * vy + vz * vz + vw * vw,
    ;
    assert(n * big == mx * mx * big + my * my * big + mz * mz * big + mw * mw * big)
        by (nonlinear_arith)
        requires
            n == mx * mx + my * my + mz * mz + mw * mw,
    ;
    assert(n1 * ll <= n * big);
    let sum = mx + my + mz + mw;
    assert(2 * l * (mx * 1_000_000) + 2 * l * (my * 1_000_000) + 2 * l * (mz * 1_000_000) + 2 * l
        * (mw * 1_000_000) == 2_000_000 * (l * sum)) by (nonlinear_arith)
        requires
            sum == mx + my + mz + mw,
    ;
    assert(n1 * ll >= n * big - 2_000_000 * (l * sum));
    lemma_unit_bounds(n, n1, l as int, sum);
    lemma_floor_sqrt_exists(n1);
    let r = floor_sqrt(n1);
    assert(r < 1_000_100) by {
        if r >= 1_000_100 {
            assert(r * r >= 1_000_100 * 1_000_100) by (nonlinear_arith)
                requires
                    r >= 1_000_100,
            ;
        }
    }
    assert(r >= 999_997) by {
        if r < 999_997 {
            assert((r + 1) * (r + 1) <= 999_997 * 999_997) by (nonlinear_arith)
                requires
                    0 <= r + 1 <= 999_997,
            ;
        }
    }
}

/// Where the magnitude `m` of a component is at least half the length,
/// its quotient by the length is at least one half.
proof fn lemma_half_quotient(m: int, v: int, l: int)
    requires
        l > 0,
        l < 2 * m,
        m * 1_000_000 < v * l + l,
    ensures
        v >= 500_000,
{
    if v < 500_000 {
        assert(v * l + l <= 500_000 * l) by (nonlinear_arith)
            requires
                v + 1 <= 500_000,
                l > 0,
        ;
    }
}

/// The length of a vector is less than twice its greatest component.
proof fn lemma_length_below_twice(m: int, x: int, y: int, z: int, l: int)
    requires
        l >= 0,
        m >= 0,
        -m <= x <= m,
        -m <= y <= m,
        -m <= z <= m,
        l * l <= x * x + y * y + z * z,
        l > 0,
    ensures
        l < 2 * m,
{
    assert(x * x <= m * m && y * y <= m * m && z * z <= m * m) by (nonlinear_arith)
        requires
            -m <= x <= m,
            -m <= y <= m,
            -m <= z <= m,
    ;
    if l >= 2 * m {
        assert(l * l >= 4 * (m * m)) by (nonlinear_arith)
            requires
                l >= 2 * m,
                m >= 0,
        ;
        assert(m * m <= 0);
        assert(l * l > 0) by (nonlinear_arith)
            requires
                l > 0,
        ;
    }
}

/// A vector that is not zero, scaled to unit length, has no component
/// beyond one and one of at least one half.
pub proof fn lemma_axis_component(spin: Vec3)
    requires
        vlen(spin) > 0,
    ensures
        ({
            let a = vnormalize(spin);
            &&& -1_000_000 <= a.x <= 1_000_000
            &&& -1_000_000 <= a.y <= 1_000_000
            &&& -1_000_000 <= a.z <= 1_000_000
            &&& (a.x >= 500_000 || a.x <= -500_000 || a.y >= 500_000 || a.y <= -500_000 || a.z
                >= 500_000 || a.z <= -500_000)
        }),
{
    let n = spin.x * spin.x + spin.y * spin.y + spin.z * spin.z;
    let l = vlen(spin);
    lemma_square_nonneg(spin.x as int);
    lemma_square_nonneg(spin.y as int);
    lemma_square_nonneg(spin.z as int);
    lemma_floor_sqrt_exists(n);
    let root = floor_sqrt(n);
    assert(l * l <= n) by {
        assert(l * l <= root * root) by (nonlinear_arith)
            requires
                0 <= l <= root,
        ;
    }
    if l < i64::MAX {
        lemma_magnitude_within(spin.x, n, l as int);
        lemma_magnitude_within(spin.y, n, l as int);
        lemma_magnitude_within(spin.z, n, l as int);
    }
    let vx = lemma_quotient_magnitude(spin.x, l);
    let vy = lemma_quotient_magnitude(spin.y, l);
    let vz = lemma_quotient_magnitude(spin.z, l);
    let mx = mag(spin.x as int);
    let my = mag(spin.y as int);
    let mz = mag(spin.z as int);
    let m = if mx >= my && mx >= mz {
        mx
    } else if my >= mz {
        my
    } else {
        mz
    };
    lemma_length_below_twice(m, spin.x as int, spin.y as int, spin.z as int, l as int);
    if mx >= my && mx >= mz {
        lemma_half_quotient(mx, vx, l as int);
    } else if my >= mz {
        lemma_half_quotient(my, vy, l as int);
    } else {
        lemma_half_quotient(mz, vz, l as int);
    }
}

/// The quaternion of a turn about an axis with no component beyond one and
/// one of at least one half has no component beyond one and one of at
/// least a fifth.
pub proof fn lemma_delta_component(a: Vec3, angle: i64)
    requires
        -1_000_000 <= a.x <= 1_000_000,
        -1_000_000 <= a.y <= 1_000_000,
        -1_000_000 <= a.z <= 1_000_000,
        a.x >= 500_000 || a.x <= -500_000 || a.y >= 500_000 || a.y <= -500_000 || a.z >= 500_000
            || a.z <= -500_000,
    ensures
        ({
            let d = qaxis_angle(a, angle);
            &&& -1_000_000 <= d.x <= 1_000_000
            &&& -1_000_000 <= d.y <= 1_000_000
            &&& -1_000_000 <= d.z <= 1_000_000
            &&& -1_000_000 <= d.w <= 1_000_000
            &&& (d.x >= 200_000 || d.x <= -200_000 || d.y >= 200_000 || d.y <= -200_000 || d.z
                >= 200_000 || d.z <= -200_000 || d.w >= 200_000 || d.w <= -200_000)
        }),
{
    let half = fmul(angle, HALF);
    lemma_sin_or_cos_large(half);
    let s = sin_spec(half);
    lemma_fmul_unit(a.x, s);
    lemma_fmul_unit(a.y, s);
    lemma_fmul_unit(a.z, s);
}

/// The matrix of the product by `r` on the right: the rows that take the
/// components of the left factor to the exact components of the product.
/// Each row, combined with the matching column, gives the squared length
/// of `r` times a component of the left factor.
proof fn lemma_conjugate_identity(
    dx: int, dy: int, dz: int, dw: int,
    rx: int, ry: int, rz: int, rw: int,
)
    ensures
        ({
            let ex = rw * dx + rz * dy + (-ry) * dz + rx * dw;
            let ey = (-rz) * dx + rw * dy + rx * dz + ry * dw;
            let ez = ry * dx + (-rx) * dy + rw * dz + rz * dw;
            let ew = (-rx) * dx + (-ry) * dy + (-rz) * dz + rw * dw;
            let n = rx * rx + ry * ry + rz * rz + rw * rw;
            &&& rw * ex + (-rz) * ey + ry * ez + (-rx) * ew == n * dx
            &&& rz * ex + rw * ey + (-rx) * ez + (-ry) * ew == n * dy
            &&& (-ry) * ex + rx * ey + rw * ez + (-rz) * ew == n * dz
            &&& rx * ex + ry * ey + rz * ez + rw * ew == n * dw
        }),
{
    let n = rx * rx + ry * ry + rz * rz + rw * rw;
    let (ax, ay, az) = (-rx, -ry, -rz);
    // Column x against every column.
    lemma_combination(
        rw, az, ry, ax,
        rw, rz, ay, rx,
        az, rw, rx, ry,
        ry, ax, rw, rz,
        ax, ay, az, rw,
        dx, dy, dz, dw,
    );
    assert(rw * rw + az * az + ry * ry + ax * ax == n && rw * rz + az * rw + ry * ax + ax * ay == 0
        && rw * ay + az * rx + ry * rw + ax * az == 0 && rw * rx + az * ry + ry * rz + ax * rw
        == 0) by (nonlinear_arith)
        requires
            n == rx * rx + ry * ry + rz * rz + rw * rw,
            ax == -rx,
            ay == -ry,
            az == -rz,
    ;
    // Column y.
    lemma_combination(
        rz, rw, ax, ay,
        rw, rz, ay, rx,
        az, rw, rx, ry,
        ry, ax, rw, rz,
        ax, ay, az, rw,
        dx, dy, dz, dw,
    );
    assert(rz * rw + rw * az + ax * ry + ay * ax == 0 && rz * rz + rw * rw + ax * ax + ay * ay == n
        && rz * ay + rw * rx + ax * rw + ay * az == 0 && rz * rx + rw * ry + ax * rz + ay * rw
        == 0) by (nonlinear_arith)
        requires
            n == rx * rx + ry * ry + rz * rz + rw * rw,
            ax == -rx,
            ay == -ry,
            az == -rz,
    ;
    // Column z.
    lemma_combination(
        ay, rx, rw, az,
        rw, rz, ay, rx,
        az, rw, rx, ry,
        ry, ax, rw, rz,
        ax, ay, az, rw,
        dx, dy, dz, dw,
    );
    assert(ay * rw + rx * az + rw * ry + az * ax == 0 && ay * rz + rx * rw + rw * ax + az * ay == 0
        && ay * ay + rx * rx + rw * rw + az * az == n && ay * rx + rx * ry + rw * rz + az * rw
        == 0) by (nonlinear_arith)
        requires
            n == rx * rx + ry * ry + rz * rz + rw * rw,
            ax == -rx,
            ay == -ry,
            az == -rz,
    ;
    // Column w.
    lemma_combination(
        rx, ry, rz, rw,
        rw, rz, ay, rx,
        az, rw, rx, ry,
        ry, ax, rw, rz,
        ax, ay, az, rw,
        dx, dy, dz, dw,
    );
    assert(rx * rw + ry * az + rz * ry + rw * ax == 0 && rx * rz + ry * rw + rz * ax + rw * ay == 0
        && rx * ay + ry * rx + rz * rw + rw * az == 0 && rx * rx + ry * ry + rz * rz + rw * rw
        == n) by (nonlinear_arith)
        requires
            n == rx * rx + ry * ry + rz * rz + rw * rw,
            ax == -rx,
            ay == -ry,
            az == -rz,
    ;
    assert(0 * dx == 0 && 0 * dy == 0 && 0 * dz == 0 && 0 * dw == 0) by (nonlinear_arith);
}

/// The exact components of the product `d * r`, in millionths of
/// millionths.
pub open spec fn exact_product(d: Quat, r: Quat) -> (int, int, int, int) {
    (
        r.w * d.x + r.z * d.y + (-r.y) * d.z + r.x * d.w,
        (-r.z) * d.x + r.w * d.y + r.x * d.z + r.y * d.w,
        r.y * d.x + (-r.x) * d.y + r.w * d.z + r.z * d.w,
        (-r.x) * d.x + (-r.y) * d.y + (-r.z) * d.z + r.w * d.w,
    )
}

/// Each component of the product of two quaternions with components of at
/// most two in magnitude is the exact component to within four millionths.
proof fn lemma_product_near(d: Quat, r: Quat)
    requires
        -2_000_000 <= d.x <= 2_000_000,
        -2_000_000 <= d.y <= 2_000_000,
        -2_000_000 <= d.z <= 2_000_000,
        -2_000_000 <= d.w <= 2_000_000,
        -2_000_000 <= r.x <= 2_000_000,
        -2_000_000 <= r.y <= 2_000_000,
        -2_000_000 <= r.z <= 2_000_000,
        -2_000_000 <= r.w <= 2_000_000,
    ensures
        ({
            let p = qmul(d, r);
            let e = exact_product(d, r);
            &&& e.0 - 4_000_000 < p.x * 1_000_000 < e.0 + 4_000_000
            &&& e.1 - 4_000_000 < p.y * 1_000_000 < e.1 + 4_000_000
            &&& e.2 - 4_000_000 < p.z * 1_000_000 < e.2 + 4_000_000
            &&& e.3 - 4_000_000 < p.w * 1_000_000 < e.3 + 4_000_000
            &&& -16_000_000 <= p.x <= 16_000_000
            &&& -16_000_000 <= p.y <= 16_000_000
            &&& -16_000_000 <= p.z <= 16_000_000
            &&& -16_000_000 <= p.w <= 16_000_000
        }),
{
    lemma_fmul_near(d.w, r.x);
    lemma_fmul_near(d.x, r.w);
    lemma_fmul_near(d.y, r.z);
    lemma_fmul_near(d.z, r.y);
    lemma_fmul_near(d.w, r.y);
    lemma_fmul_near(d.x, r.z);
    lemma_fmul_near(d.y, r.w);
    lemma_fmul_near(d.z, r.x);
    lemma_fmul_near(d.w, r.z);
    lemma_fmul_near(d.x, r.y);
    lemma_fmul_near(d.y, r.x);
    lemma_fmul_near(d.z, r.w);
    lemma_fmul_near(d.w, r.w);
    lemma_fmul_near(d.x, r.x);
    lemma_fmul_near(d.y, r.y);
    lemma_fmul_near(d.z, r.z);
    let e = exact_product(d, r);
    assert(e.0 == d.w * r.x + d.x * r.w + d.y * r.z - d.z * r.y) by (nonlinear_arith)
        requires
            e.0 == r.w * d.x + r.z * d.y + (-r.y) * d.z + r.x * d.w,
    ;
    assert(e.1 == d.w * r.y - d.x * r.z + d.y * r.w + d.z * r.x) by (nonlinear_arith)
        requires
            e.1 == (-r.z) * d.x + r.w * d.y + r.x * d.z + r.y * d.w,
    ;
    assert(e.2 == d.w * r.z + d.x * r.y - d.y * r.x + d.z * r.w) by (nonlinear_arith)
        requires
            e.2 == r.y * d.x + (-r.x) * d.y + r.w * d.z + r.z * d.w,
    ;
    assert(e.3 == d.w * r.w - d.x * r.x - d.y * r.y - d.z * r.z) by (nonlinear_arith)
        requires
            e.3 == (-r.x) * d.x + (-r.y) * d.y + (-r.z) * d.z + r.w * d.w,
    ;
}

/// A number whose product with nearly a million million is below a fifth
/// of that is below a fifth.
proof fn lemma_factor_small(n: int, d: int)
    requires
        n >= 999_997 * 999_997,
        -196_019_600_000_000_000 <= n * d <= 196_019_600_000_000_000,
    ensures
        -200_000 < d < 200_000,
{
    if d >= 200_000 {
        assert(n * d >= 999_997 * 999_997 * 200_000) by (nonlinear_arith)
            requires
                n >= 999_997 * 999_997,
                d >= 200_000,
        ;
    }
    if d <= -200_000 {
        assert(n * d <= -(999_997 * 999_997 * 200_000)) by (nonlinear_arith)
            requires
                n >= 999_997 * 999_997,
                d <= -200_000,
        ;
    }
}

/// Where every exact component of a product by a quaternion of nearly unit
/// length is small, every component of the other factor is small.
proof fn lemma_small_product_small_factor(d: Quat, r: Quat, n: int)
    requires
        n == r.x * r.x + r.y * r.y + r.z * r.z + r.w * r.w,
        n >= 999_997 * 999_997,
        -1_000_100 <= r.x <= 1_000_100,
        -1_000_100 <= r.y <= 1_000_100,
        -1_000_100 <= r.z <= 1_000_100,
        -1_000_100 <= r.w <= 1_000_100,
        -49_000_000_000 <= exact_product(d, r).0 <= 49_000_000_000,
        -49_000_000_000 <= exact_product(d, r).1 <= 49_000_000_000,
        -49_000_000_000 <= exact_product(d, r).2 <= 49_000_000_000,
        -49_000_000_000 <= exact_product(d, r).3 <= 49_000_000_000,
    ensures
        -200_000 < d.x < 200_000,
        -200_000 < d.y < 200_000,
        -200_000 < d.z < 200_000,
        -200_000 < d.w < 200_000,
{
    let e = exact_product(d, r);
    let (ex, ey, ez, ew) = (e.0, e.1, e.2, e.3);
    lemma_conjugate_identity(
        d.x as int,
        d.y as int,
        d.z as int,
        d.w as int,
        r.x as int,
        r.y as int,
        r.z as int,
        r.w as int,
    );
    let rmax = 1_000_100int;
    let emax = 49_000_000_000int;
    let bound = rmax * emax;
    lemma_bounded_product(r.w as int, ex, rmax, emax);
    lemma_bounded_product(-r.z, ey, rmax, emax);
    lemma_bounded_product(r.y as int, ez, rmax, emax);
    lemma_bounded_product(-r.x, ew, rmax, emax);
    lemma_bounded_product(r.z as int, ex, rmax, emax);
    lemma_bounded_product(r.w as int, ey, rmax, emax);
    lemma_bounded_product(-r.x, ez, rmax, emax);
    lemma_bounded_product(-r.y, ew, rmax, emax);
    lemma_bounded_product(-r.y, ex, rmax, emax);
    lemma_bounded_product(r.x as int, ey, rmax, emax);
    lemma_bounded_product(r.w as int, ez, rmax, emax);
    lemma_bounded_product(-r.z, ew, rmax, emax);
    lemma_bounded_product(r.x as int, ex, rmax, emax);
    lemma_bounded_product(r.y as int, ey, rmax, emax);
    lemma_bounded_product(r.z as int, ez, rmax, emax);
    lemma_bounded_product(r.w as int, ew, rmax, emax);
    assert(bound == 49_004_900_000_000_000);
    assert(-4 * bound <= n * d.x <= 4 * bound);
    assert(-4 * bound <= n * d.y <= 4 * bound);
    assert(-4 * bound <= n * d.z <= 4 * bound);
    assert(-4 * bound <= n * d.w <= 4 * bound);
    lemma_factor_small(n, d.x as int);
    lemma_factor_small(n, d.y as int);
    lemma_factor_small(n, d.z as int);
    lemma_factor_small(n, d.w as int);
}

/// The product of a quaternion with a component of at least a fifth in
/// magnitude, and none beyond one, by a quaternion of nearly unit length is
/// neither tiny nor beyond the number range.
pub proof fn lemma_product_not_small(d: Quat, r: Quat)
    requires
        -1_000_000 <= d.x <= 1_000_000,
        -1_000_000 <= d.y <= 1_000_000,
        -1_000_000 <= d.z <= 1_000_000,
        -1_000_000 <= d.w <= 1_000_000,
        d.x >= 200_000 || d.x <= -200_000 || d.y >= 200_000 || d.y <= -200_000 || d.z >= 200_000
            || d.z <= -200_000 || d.w >= 200_000 || d.w <= -200_000,
        SCALE - 3 <= qlen(r) <= SCALE + 100,
    ensures
        10_000 <= qlen(qmul(d, r)) < i64::MAX,
{
    let n = r.x * r.x + r.y * r.y + r.z * r.z + r.w * r.w;
    let l = qlen(r) as int;
    lemma_square_nonneg(r.x as int);
    lemma_square_nonneg(r.y as int);
    lemma_square_nonneg(r.z as int);
    lemma_square_nonneg(r.w as int);
    lemma_floor_sqrt_exists(n);
    assert(l == floor_sqrt(n));
    lemma_magnitude_within(r.x, n, l);
    lemma_magnitude_within(r.y, n, l);
    lemma_magnitude_within(r.z, n, l);
    lemma_magnitude_within(r.w, n, l);
    assert(n >= 999_997 * 999_997) by (nonlinear_arith)
        requires
            l * l <= n,
            l >= 999_997,
    ;
    lemma_product_near(d, r);
    let p = qmul(d, r);
    let e = exact_product(d, r);
    if -49_000_000_000 <= e.0 <= 49_000_000_000 && -49_000_000_000 <= e.1 <= 49_000_000_000
        && -49_000_000_000 <= e.2 <= 49_000_000_000 && -49_000_000_000 <= e.3 <= 49_000_000_000 {
        lemma_small_product_small_factor(d, r, n);
    }
    // Some exact component exceeds 0.049 in magnitude, so the rounded one
    // exceeds 0.048.
    let big: int = if p.x >= 48_000 || p.x <= -48_000 {
        p.x as int
    } else if p.y >= 48_000 || p.y <= -48_000 {
        p.y as int
    } else if p.z >= 48_000 || p.z <= -48_000 {
        p.z as int
    } else {
        p.w as int
    };
    assert(big >= 48_000 || big <= -48_000);
    let np = p.x * p.x + p.y * p.y + p.z * p.z + p.w * p.w;
    lemma_square_nonneg(p.x as int);
    lemma_square_nonneg(p.y as int);
    lemma_square_nonneg(p.z as int);
    lemma_square_nonneg(p.w as int);
    assert(big * big >= 48_000 * 48_000) by (nonlinear_arith)
        requires
            big >= 48_000 || big <= -48_000,
    ;
    assert(np >= 48_000 * 48_000);
    assert(p.x * p.x <= 16_000_000 * 16_000_000 && p.y * p.y <= 16_000_000 * 16_000_000 && p.z
        * p.z <= 16_000_000 * 16_000_000 && p.w * p.w <= 16_000_000 * 16_000_000)
        by (nonlinear_arith)
        requires
            -16_000_000 <= p.x <= 16_000_000,
            -16_000_000 <= p.y <= 16_000_000,
            -16_000_000 <= p.z <= 16_000_000,
            -16_000_000 <= p.w <= 16_000_000,
    ;
    lemma_floor_sqrt_exists(np);
    let root = floor_sqrt(np);
    if root < 10_000 {
        assert((root + 1) * (root + 1) <= 10_000 * 10_000) by (nonlinear_arith)
            requires
                0 <= root + 1 <= 10_000,
        ;
    }
    if root >= 100_000_000 {
        assert(root * root >= 100_000_000 * 100_000_000) by (nonlinear_arith)
            requires
                root >= 100_000_000,
        ;
    }
}

} // verus!
