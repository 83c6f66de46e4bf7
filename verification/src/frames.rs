//! Why converting a vector into the body frame and back returns it: the
//! rows of the turning matrix are at right angles, and each conversion
//! rounds once.

use vstd::prelude::*;
use crate::fixed::{
    fmul, fneg, HALF, lemma_bounded_product, lemma_round_quot_between, lemma_round_quot_exact,
    lemma_round_quot_near, lemma_round_quot_within, lemma_square_nonneg, round_quot, SCALE,
};
use crate::geometry::{
    global_to_local_spec, lemma_span_of_the_number_range, local_to_global_spec, norm_sq, qfits,
    qhalve, qidentity, qreduce, qreduce_from, qrotation_x, Quat, rows_of, span, TURN_LIMIT,
    turn_row, Vec3,
};
use crate::trig::{lemma_eighth_turn, HALF_PI};

verus! {

/// The rows of the turning matrix of a quaternion are at right angles and
/// each as long as the quaternion's length squared.
pub proof fn lemma_rows(x: int, y: int, z: int, w: int)
    ensures
        ({
            let n = w * w + x * x + y * y + z * z;
            let a11 = w * w + x * x - y * y - z * z;
            let a12 = 2 * (x * y) - 2 * (w * z);
            let a13 = 2 * (x * z) + 2 * (w * y);
            let a21 = 2 * (x * y) + 2 * (w * z);
            let a22 = w * w - x * x + y * y - z * z;
            let a23 = 2 * (y * z) - 2 * (w * x);
            let a31 = 2 * (x * z) - 2 * (w * y);
            let a32 = 2 * (y * z) + 2 * (w * x);
            let a33 = w * w - x * x - y * y + z * z;
            &&& a11 * a11 + a12 * a12 + a13 * a13 == n * n
            &&& a21 * a21 + a22 * a22 + a23 * a23 == n * n
            &&& a31 * a31 + a32 * a32 + a33 * a33 == n * n
            &&& a11 * a21 + a12 * a22 + a13 * a23 == 0
            &&& a11 * a31 + a12 * a32 + a13 * a33 == 0
            &&& a21 * a31 + a22 * a32 + a23 * a33 == 0
        }),
{
    // Every product of two entries is written out over the products of
    // pairs of components; products of the same four components are then
    // identified, and what is left is a sum.
    let ww = w * w;
    let xx = x * x;
    let yy = y * y;
    let zz = z * z;
    let xy = x * y;
    let xz = x * z;
    let yz = y * z;
    let wx = w * x;
    let wy = w * y;
    let wz = w * z;
    let a11 = ww + xx - yy - zz;
    let a12 = 2 * xy - 2 * wz;
    let a13 = 2 * xz + 2 * wy;
    let a21 = 2 * xy + 2 * wz;
    let a22 = ww - xx + yy - zz;
    let a23 = 2 * yz - 2 * wx;
    let a31 = 2 * xz - 2 * wy;
    let a32 = 2 * yz + 2 * wx;
    let a33 = ww - xx - yy + zz;
    let n = ww + xx + yy + zz;
    let p_ww_ww = ww * ww;
    let p_ww_xx = ww * xx;
    let p_ww_yy = ww * yy;
    let p_ww_zz = ww * zz;
    let p_ww_xy = ww * xy;
    let p_ww_xz = ww * xz;
    let p_ww_yz = ww * yz;
    let p_ww_wx = ww * wx;
    let p_ww_wy = ww * wy;
    let p_ww_wz = ww * wz;
    let p_xx_xx = xx * xx;
    let p_xx_yy = xx * yy;
    let p_xx_zz = xx * zz;
    let p_xx_xy = xx * xy;
    let p_xx_xz = xx * xz;
    let p_xx_yz = xx * yz;
    let p_xx_wx = xx * wx;
    let p_xx_wy = xx * wy;
    let p_xx_wz = xx * wz;
    let p_yy_yy = yy * yy;
    let p_yy_zz = yy * zz;
    let p_yy_xy = yy * xy;
    let p_yy_xz = yy * xz;
    let p_yy_yz = yy * yz;
    let p_yy_wx = yy * wx;
    let p_yy_wy = yy * wy;
    let p_yy_wz = yy * wz;
    let p_zz_zz = zz * zz;
    let p_zz_xy = zz * xy;
    let p_zz_xz = zz * xz;
    let p_zz_yz = zz * yz;
    let p_zz_wx = zz * wx;
    let p_zz_wy = zz * wy;
    let p_zz_wz = zz * wz;
    let p_xy_xy = xy * xy;
    let p_xy_xz = xy * xz;
    let p_xy_yz = xy * yz;
    let p_xy_wx = xy * wx;
    let p_xy_wy = xy * wy;
    let p_xy_wz = xy * wz;
    let p_xz_xz = xz * xz;
    let p_xz_yz = xz * yz;
    let p_xz_wx = xz * wx;
    let p_xz_wy = xz * wy;
    let p_xz_wz = xz * wz;
    let p_yz_yz = yz * yz;
    let p_yz_wx = yz * wx;
    let p_yz_wy = yz * wy;
    let p_yz_wz = yz * wz;
    let p_wx_wx = wx * wx;
    let p_wx_wy = wx * wy;
    let p_wx_wz = wx * wz;
    let p_wy_wy = wy * wy;
    let p_wy_wz = wy * wz;
    let p_wz_wz = wz * wz;
    assert(p_xy_xy == p_xx_yy) by (nonlinear_arith)
        requires
            p_xy_xy == xy * xy,
            p_xx_yy == xx * yy,
            xx == x * x,
            xy == x * y,
            yy == y * y,
    ;
    assert(p_xy_xz == p_xx_yz) by (nonlinear_arith)
        requires
            p_xy_xz == xy * xz,
            p_xx_yz == xx * yz,
            xx == x * x,
            xy == x * y,
            xz == x * z,
            yz == y * z,
    ;
    assert(p_xy_yz == p_yy_xz) by (nonlinear_arith)
        requires
            p_xy_yz == xy * yz,
            p_yy_xz == yy * xz,
            xy == x * y,
            xz == x * z,
            yy == y * y,
            yz == y * z,
    ;
    assert(p_xy_wx == p_xx_wy) by (nonlinear_arith)
        requires
            p_xy_wx == xy * wx,
            p_xx_wy == xx * wy,
            wx == w * x,
            wy == w * y,
            xx == x * x,
            xy == x * y,
    ;
    assert(p_xy_wy == p_yy_wx) by (nonlinear_arith)
        requires
            p_xy_wy == xy * wy,
            p_yy_wx == yy * wx,
            wx == w * x,
            wy == w * y,
            xy == x * y,
            yy == y * y,
    ;
    assert(p_xz_xz == p_xx_zz) by (nonlinear_arith)
        requires
            p_xz_xz == xz * xz,
            p_xx_zz == xx * zz,
            xx == x * x,
            xz == x * z,
            zz == z * z,
    ;
    assert(p_xz_yz == p_zz_xy) by (nonlinear_arith)
        requires
            p_xz_yz == xz * yz,
            p_zz_xy == zz * xy,
            xy == x * y,
            xz == x * z,
            yz == y * z,
            zz == z * z,
    ;
    assert(p_xz_wx == p_xx_wz) by (nonlinear_arith)
        requires
            p_xz_wx == xz * wx,
            p_xx_wz == xx * wz,
            wx == w * x,
            wz == w * z,
            xx == x * x,
            xz == x * z,
    ;
    assert(p_xz_wy == p_xy_wz) by (nonlinear_arith)
        requires
            p_xz_wy == xz * wy,
            p_xy_wz == xy * wz,
            wy == w * y,
            wz == w * z,
            xy == x * y,
            xz == x * z,
    ;
    assert(p_xz_wz == p_zz_wx) by (nonlinear_arith)
        requires
            p_xz_wz == xz * wz,
            p_zz_wx == zz * wx,
            wx == w * x,
            wz == w * z,
            xz == x * z,
            zz == z * z,
    ;
    assert(p_yz_yz == p_yy_zz) by (nonlinear_arith)
        requires
            p_yz_yz == yz * yz,
            p_yy_zz == yy * zz,
            yy == y * y,
            yz == y * z,
            zz == z * z,
    ;
    assert(p_yz_wx == p_xy_wz) by (nonlinear_arith)
        requires
            p_yz_wx == yz * wx,
            p_xy_wz == xy * wz,
            wx == w * x,
            wz == w * z,
            xy == x * y,
            yz == y * z,
    ;
    assert(p_yz_wy == p_yy_wz) by (nonlinear_arith)
        requires
            p_yz_wy == yz * wy,
            p_yy_wz == yy * wz,
            wy == w * y,
            wz == w * z,
            yy == y * y,
            yz == y * z,
    ;
    assert(p_yz_wz == p_zz_wy) by (nonlinear_arith)
        requires
            p_yz_wz == yz * wz,
            p_zz_wy == zz * wy,
            wy == w * y,
            wz == w * z,
            yz == y * z,
            zz == z * z,
    ;
    assert(p_wx_wx == p_ww_xx) by (nonlinear_arith)
        requires
            p_wx_wx == wx * wx,
            p_ww_xx == ww * xx,
            ww == w * w,
            wx == w * x,
            xx == x * x,
    ;
    assert(p_wx_wy == p_ww_xy) by (nonlinear_arith)
        requires
            p_wx_wy == wx * wy,
            p_ww_xy == ww * xy,
            ww == w * w,
            wx == w * x,
            wy == w * y,
            xy == x * y,
    ;
    assert(p_wx_wz == p_ww_xz) by (nonlinear_arith)
        requires
            p_wx_wz == wx * wz,
            p_ww_xz == ww * xz,
            ww == w * w,
            wx == w * x,
            wz == w * z,
            xz == x * z,
    ;
    assert(p_wy_wy == p_ww_yy) by (nonlinear_arith)
        requires
            p_wy_wy == wy * wy,
            p_ww_yy == ww * yy,
            ww == w * w,
            wy == w * y,
            yy == y * y,
    ;
    assert(p_wy_wz == p_ww_yz) by (nonlinear_arith)
        requires
            p_wy_wz == wy * wz,
            p_ww_yz == ww * yz,
            ww == w * w,
            wy == w * y,
            wz == w * z,
            yz == y * z,
    ;
    assert(p_wz_wz == p_ww_zz) by (nonlinear_arith)
        requires
            p_wz_wz == wz * wz,
            p_ww_zz == ww * zz,
            ww == w * w,
            wz == w * z,
            zz == z * z,
    ;
    assert(a11 * a11 == p_ww_ww + 2 * p_ww_xx - 2 * p_ww_yy - 2 * p_ww_zz + p_xx_xx - 2 * p_xx_yy
        - 2 * p_xx_zz + p_yy_yy + 2 * p_yy_zz + p_zz_zz) by (nonlinear_arith)
        requires
            a11 == ww + xx - yy - zz,
            p_ww_ww == ww * ww,
            p_ww_xx == ww * xx,
            p_ww_yy == ww * yy,
            p_ww_zz == ww * zz,
            p_xx_xx == xx * xx,
            p_xx_yy == xx * yy,
            p_xx_zz == xx * zz,
            p_yy_yy == yy * yy,
            p_yy_zz == yy * zz,
            p_zz_zz == zz * zz,
    ;
    assert(a12 * a12 == 4 * p_xy_xy - 8 * p_xy_wz + 4 * p_wz_wz) by (nonlinear_arith)
        requires
            a12 == 2 * xy - 2 * wz,
            p_xy_xy == xy * xy,
            p_xy_wz == xy * wz,
            p_wz_wz == wz * wz,
    ;
    assert(a13 * a13 == 4 * p_xz_xz + 8 * p_xz_wy + 4 * p_wy_wy) by (nonlinear_arith)
        requires
            a13 == 2 * xz + 2 * wy,
            p_xz_xz == xz * xz,
            p_xz_wy == xz * wy,
            p_wy_wy == wy * wy,
    ;
    assert(a21 * a21 == 4 * p_xy_xy + 8 * p_xy_wz + 4 * p_wz_wz) by (nonlinear_arith)
        requires
            a21 == 2 * xy + 2 * wz,
            p_xy_xy == xy * xy,
            p_xy_wz == xy * wz,
            p_wz_wz == wz * wz,
    ;
    assert(a22 * a22 == p_ww_ww - 2 * p_ww_xx + 2 * p_ww_yy - 2 * p_ww_zz + p_xx_xx - 2 * p_xx_yy
        + 2 * p_xx_zz + p_yy_yy - 2 * p_yy_zz + p_zz_zz) by (nonlinear_arith)
        requires
            a22 == ww - xx + yy - zz,
            p_ww_ww == ww * ww,
            p_ww_xx == ww * xx,
            p_ww_yy == ww * yy,
            p_ww_zz == ww * zz,
            p_xx_xx == xx * xx,
            p_xx_yy == xx * yy,
            p_xx_zz == xx * zz,
            p_yy_yy == yy * yy,
            p_yy_zz == yy * zz,
            p_zz_zz == zz * zz,
    ;
    assert(a23 * a23 == 4 * p_yz_yz - 8 * p_yz_wx + 4 * p_wx_wx) by (nonlinear_arith)
        requires
            a23 == 2 * yz - 2 * wx,
            p_yz_yz == yz * yz,
            p_yz_wx == yz * wx,
            p_wx_wx == wx * wx,
    ;
    assert(a31 * a31 == 4 * p_xz_xz - 8 * p_xz_wy + 4 * p_wy_wy) by (nonlinear_arith)
        requires
            a31 == 2 * xz - 2 * wy,
            p_xz_xz == xz * xz,
            p_xz_wy == xz * wy,
            p_wy_wy == wy * wy,
    ;
    assert(a32 * a32 == 4 * p_yz_yz + 8 * p_yz_wx + 4 * p_wx_wx) by (nonlinear_arith)
        requires
            a32 == 2 * yz + 2 * wx,
            p_yz_yz == yz * yz,
            p_yz_wx == yz * wx,
            p_wx_wx == wx * wx,
    ;
    assert(a33 * a33 == p_ww_ww - 2 * p_ww_xx - 2 * p_ww_yy + 2 * p_ww_zz + p_xx_xx + 2 * p_xx_yy
        - 2 * p_xx_zz + p_yy_yy - 2 * p_yy_zz + p_zz_zz) by (nonlinear_arith)
        requires
            a33 == ww - xx - yy + zz,
            p_ww_ww == ww * ww,
            p_ww_xx == ww * xx,
            p_ww_yy == ww * yy,
            p_ww_zz == ww * zz,
            p_xx_xx == xx * xx,
            p_xx_yy == xx * yy,
            p_xx_zz == xx * zz,
            p_yy_yy == yy * yy,
            p_yy_zz == yy * zz,
            p_zz_zz == zz * zz,
    ;
    assert(a11 * a21 == 2 * p_ww_xy + 2 * p_ww_wz + 2 * p_xx_xy + 2 * p_xx_wz - 2 * p_yy_xy - 2 * p_yy_wz
        - 2 * p_zz_xy - 2 * p_zz_wz) by (nonlinear_arith)
        requires
            a11 == ww + xx - yy - zz,
            a21 == 2 * xy + 2 * wz,
            p_ww_xy == ww * xy,
            p_ww_wz == ww * wz,
            p_xx_xy == xx * xy,
            p_xx_wz == xx * wz,
            p_yy_xy == yy * xy,
            p_yy_wz == yy * wz,
            p_zz_xy == zz * xy,
            p_zz_wz == zz * wz,
    ;
    assert(a12 * a22 == 2 * p_ww_xy - 2 * p_xx_xy + 2 * p_yy_xy - 2 * p_zz_xy - 2 * p_ww_wz + 2 * p_xx_wz
        - 2 * p_yy_wz + 2 * p_zz_wz) by (nonlinear_arith)
        requires
            a12 == 2 * xy - 2 * wz,
            a22 == ww - xx + yy - zz,
            p_ww_xy == ww * xy,
            p_xx_xy == xx * xy,
            p_yy_xy == yy * xy,
            p_zz_xy == zz * xy,
            p_ww_wz == ww * wz,
            p_xx_wz == xx * wz,
            p_yy_wz == yy * wz,
            p_zz_wz == zz * wz,
    ;
    assert(a13 * a23 == 4 * p_xz_yz - 4 * p_xz_wx + 4 * p_yz_wy - 4 * p_wx_wy) by (nonlinear_arith)
        requires
            a13 == 2 * xz + 2 * wy,
            a23 == 2 * yz - 2 * wx,
            p_xz_yz == xz * yz,
            p_xz_wx == xz * wx,
            p_yz_wy == yz * wy,
            p_wx_wy == wx * wy,
    ;
    assert(a11 * a31 == 2 * p_ww_xz - 2 * p_ww_wy + 2 * p_xx_xz - 2 * p_xx_wy - 2 * p_yy_xz + 2 * p_yy_wy
        - 2 * p_zz_xz + 2 * p_zz_wy) by (nonlinear_arith)
        requires
            a11 == ww + xx - yy - zz,
            a31 == 2 * xz - 2 * wy,
            p_ww_xz == ww * xz,
            p_ww_wy == ww * wy,
            p_xx_xz == xx * xz,
            p_xx_wy == xx * wy,
            p_yy_xz == yy * xz,
            p_yy_wy == yy * wy,
            p_zz_xz == zz * xz,
            p_zz_wy == zz * wy,
    ;
    assert(a12 * a32 == 4 * p_xy_yz + 4 * p_xy_wx - 4 * p_yz_wz - 4 * p_wx_wz) by (nonlinear_arith)
        requires
            a12 == 2 * xy - 2 * wz,
            a32 == 2 * yz + 2 * wx,
            p_xy_yz == xy * yz,
            p_xy_wx == xy * wx,
            p_yz_wz == yz * wz,
            p_wx_wz == wx * wz,
    ;
    assert(a13 * a33 == 2 * p_ww_xz - 2 * p_xx_xz - 2 * p_yy_xz + 2 * p_zz_xz + 2 * p_ww_wy - 2 * p_xx_wy
        - 2 * p_yy_wy + 2 * p_zz_wy) by (nonlinear_arith)
        requires
            a13 == 2 * xz + 2 * wy,
            a33 == ww - xx - yy + zz,
            p_ww_xz == ww * xz,
            p_xx_xz == xx * xz,
            p_yy_xz == yy * xz,
            p_zz_xz == zz * xz,
            p_ww_wy == ww * wy,
            p_xx_wy == xx * wy,
            p_yy_wy == yy * wy,
            p_zz_wy == zz * wy,
    ;
    assert(a21 * a31 == 4 * p_xy_xz - 4 * p_xy_wy + 4 * p_xz_wz - 4 * p_wy_wz) by (nonlinear_arith)
        requires
            a21 == 2 * xy + 2 * wz,
            a31 == 2 * xz - 2 * wy,
            p_xy_xz == xy * xz,
            p_xy_wy == xy * wy,
            p_xz_wz == xz * wz,
            p_wy_wz == wy * wz,
    ;
    assert(a22 * a32 == 2 * p_ww_yz + 2 * p_ww_wx - 2 * p_xx_yz - 2 * p_xx_wx + 2 * p_yy_yz + 2 * p_yy_wx
        - 2 * p_zz_yz - 2 * p_zz_wx) by (nonlinear_arith)
        requires
            a22 == ww - xx + yy - zz,
            a32 == 2 * yz + 2 * wx,
            p_ww_yz == ww * yz,
            p_ww_wx == ww * wx,
            p_xx_yz == xx * yz,
            p_xx_wx == xx * wx,
            p_yy_yz == yy * yz,
            p_yy_wx == yy * wx,
            p_zz_yz == zz * yz,
            p_zz_wx == zz * wx,
    ;
    assert(a23 * a33 == 2 * p_ww_yz - 2 * p_xx_yz - 2 * p_yy_yz + 2 * p_zz_yz - 2 * p_ww_wx + 2 * p_xx_wx
        + 2 * p_yy_wx - 2 * p_zz_wx) by (nonlinear_arith)
        requires
            a23 == 2 * yz - 2 * wx,
            a33 == ww - xx - yy + zz,
            p_ww_yz == ww * yz,
            p_xx_yz == xx * yz,
            p_yy_yz == yy * yz,
            p_zz_yz == zz * yz,
            p_ww_wx == ww * wx,
            p_xx_wx == xx * wx,
            p_yy_wx == yy * wx,
            p_zz_wx == zz * wx,
    ;
    assert(n * n == p_ww_ww + 2 * p_ww_xx + 2 * p_ww_yy + 2 * p_ww_zz + p_xx_xx + 2 * p_xx_yy + 2 * p_xx_zz
        + p_yy_yy + 2 * p_yy_zz + p_zz_zz) by (nonlinear_arith)
        requires
            n == ww + xx + yy + zz,
            p_ww_ww == ww * ww,
            p_ww_xx == ww * xx,
            p_ww_yy == ww * yy,
            p_ww_zz == ww * zz,
            p_xx_xx == xx * xx,
            p_xx_yy == xx * yy,
            p_xx_zz == xx * zz,
            p_yy_yy == yy * yy,
            p_yy_zz == yy * zz,
            p_zz_zz == zz * zz,
    ;
}

/// A quaternion halved until it fits does fit.
pub proof fn lemma_reduce_fits(q: Quat, k: nat)
    requires
        -span(k) <= q.x <= span(k),
        -span(k) <= q.y <= span(k),
        -span(k) <= q.z <= span(k),
        -span(k) <= q.w <= span(k),
    ensures
        qfits(qreduce_from(q, k)),
    decreases k,
{
    if k == 0 || qfits(q) {
    } else {
        lemma_reduce_fits(qhalve(q), (k - 1) as nat);
    }
}

/// The quaternion with which vectors are turned fits.
pub proof fn lemma_reduced_fits(q: Quat)
    ensures
        qfits(qreduce(q)),
{
    lemma_span_of_the_number_range();
    lemma_reduce_fits(q, 34);
}

/// A number times a sum of three products.
proof fn lemma_row3(c: int, m1: int, m2: int, m3: int, d1: int, d2: int, d3: int)
    ensures
        c * (m1 * d1 + m2 * d2 + m3 * d3) == (c * m1) * d1 + (c * m2) * d2 + (c * m3) * d3,
{
    let t1 = m1 * d1;
    let t2 = m2 * d2;
    let t3 = m3 * d3;
    assert(c * (t1 + t2 + t3) == c * t1 + c * t2 + c * t3) by (nonlinear_arith);
    assert(c * t1 == (c * m1) * d1) by (nonlinear_arith)
        requires
            t1 == m1 * d1,
    ;
    assert(c * t2 == (c * m2) * d2) by (nonlinear_arith)
        requires
            t2 == m2 * d2,
    ;
    assert(c * t3 == (c * m3) * d3) by (nonlinear_arith)
        requires
            t3 == m3 * d3,
    ;
}

/// A sum of three numbers times a number.
proof fn lemma_column3(a1: int, a2: int, a3: int, d: int)
    ensures
        a1 * d + a2 * d + a3 * d == (a1 + a2 + a3) * d,
{
    assert(a1 * d + a2 * d + a3 * d == (a1 + a2 + a3) * d) by (nonlinear_arith);
}

/// The magnitudes of three numbers whose squares sum to the square of `n`
/// sum to less than twice `n`, and none exceeds `n`.
proof fn lemma_row_magnitudes(r1: int, r2: int, r3: int, n: int) -> (m: (int, int, int))
    requires
        n > 0,
        r1 * r1 + r2 * r2 + r3 * r3 == n * n,
    ensures
        m.0 == r1 || m.0 == -r1,
        m.1 == r2 || m.1 == -r2,
        m.2 == r3 || m.2 == -r3,
        0 <= m.0 <= n,
        0 <= m.1 <= n,
        0 <= m.2 <= n,
        -m.0 <= r1 <= m.0,
        -m.1 <= r2 <= m.1,
        -m.2 <= r3 <= m.2,
        m.0 + m.1 + m.2 < 2 * n,
{
    let m1 = if r1 >= 0 {
        r1
    } else {
        -r1
    };
    let m2 = if r2 >= 0 {
        r2
    } else {
        -r2
    };
    let m3 = if r3 >= 0 {
        r3
    } else {
        -r3
    };
    assert(m1 * m1 == r1 * r1 && m2 * m2 == r2 * r2 && m3 * m3 == r3 * r3) by (nonlinear_arith)
        requires
            m1 == r1 || m1 == -r1,
            m2 == r2 || m2 == -r2,
            m3 == r3 || m3 == -r3,
    ;
    lemma_square_nonneg(m1);
    lemma_square_nonneg(m2);
    lemma_square_nonneg(m3);
    let nn = n * n;
    if m1 > n {
        assert(m1 * m1 > nn) by (nonlinear_arith)
            requires
                m1 > n,
                n > 0,
                nn == n * n,
        ;
    }
    if m2 > n {
        assert(m2 * m2 > nn) by (nonlinear_arith)
            requires
                m2 > n,
                n > 0,
                nn == n * n,
        ;
    }
    if m3 > n {
        assert(m3 * m3 > nn) by (nonlinear_arith)
            requires
                m3 > n,
                n > 0,
                nn == n * n,
        ;
    }
    let s = m1 + m2 + m3;
    assert(s * s <= 3 * (m1 * m1 + m2 * m2 + m3 * m3)) by (nonlinear_arith)
        requires
            s == m1 + m2 + m3,
    ;
    if s >= 2 * n {
        assert(s * s >= 4 * nn) by (nonlinear_arith)
            requires
                s >= 2 * n,
                n > 0,
                nn == n * n,
        ;
        assert(nn > 0) by (nonlinear_arith)
            requires
                n > 0,
                nn == n * n,
        ;
    }
    (m1, m2, m3)
}

/// One component of the way back: where `u` is the vector `v` turned by
/// the transposed matrix, rounded and then moved by less than `k` units
/// to either side, the row `r` applied to `u` lies less than `k` times `n`
/// from `n` times the component `vi` of `v` that the row belongs to.
proof fn lemma_component_back(
    r1: int, r2: int, r3: int,
    c11: int, c12: int, c13: int,
    c21: int, c22: int, c23: int,
    c31: int, c32: int, c33: int,
    v1: int, v2: int, v3: int,
    u1: int, u2: int, u3: int,
    n: int,
    vi: int,
    k: int,
)
    requires
        n > 0,
        k >= 1,
        r1 * r1 + r2 * r2 + r3 * r3 == n * n,
        -(k * n) <= 2 * (u1 * n - (c11 * v1 + c12 * v2 + c13 * v3)) <= k * n,
        -(k * n) <= 2 * (u2 * n - (c21 * v1 + c22 * v2 + c23 * v3)) <= k * n,
        -(k * n) <= 2 * (u3 * n - (c31 * v1 + c32 * v2 + c33 * v3)) <= k * n,
        (r1 * c11 + r2 * c21 + r3 * c31) * v1 + (r1 * c12 + r2 * c22 + r3 * c32) * v2 + (r1 * c13
            + r2 * c23 + r3 * c33) * v3 == n * n * vi,
    ensures
        -(k * n) < r1 * u1 + r2 * u2 + r3 * u3 - n * vi < k * n,
{
    let t1 = c11 * v1 + c12 * v2 + c13 * v3;
    let t2 = c21 * v1 + c22 * v2 + c23 * v3;
    let t3 = c31 * v1 + c32 * v2 + c33 * v3;
    lemma_row3(r1, c11, c12, c13, v1, v2, v3);
    lemma_row3(r2, c21, c22, c23, v1, v2, v3);
    lemma_row3(r3, c31, c32, c33, v1, v2, v3);
    lemma_column3(r1 * c11, r2 * c21, r3 * c31, v1);
    lemma_column3(r1 * c12, r2 * c22, r3 * c32, v2);
    lemma_column3(r1 * c13, r2 * c23, r3 * c33, v3);
    let nn = n * n;
    assert(r1 * t1 + r2 * t2 + r3 * t3 == nn * vi);
    let e1 = 2 * (u1 * n - t1);
    let e2 = 2 * (u2 * n - t2);
    let e3 = 2 * (u3 * n - t3);
    let m = lemma_row_magnitudes(r1, r2, r3, n);
    let kn = k * n;
    lemma_bounded_product(r1, e1, m.0, kn);
    lemma_bounded_product(r2, e2, m.1, kn);
    lemma_bounded_product(r3, e3, m.2, kn);
    let big = r1 * u1 + r2 * u2 + r3 * u3;
    // 2 n big = 2 (r . t) + r . e
    assert(r1 * e1 == 2 * ((r1 * u1) * n) - 2 * (r1 * t1)) by (nonlinear_arith)
        requires
            e1 == 2 * (u1 * n - t1),
    ;
    assert(r2 * e2 == 2 * ((r2 * u2) * n) - 2 * (r2 * t2)) by (nonlinear_arith)
        requires
            e2 == 2 * (u2 * n - t2),
    ;
    assert(r3 * e3 == 2 * ((r3 * u3) * n) - 2 * (r3 * t3)) by (nonlinear_arith)
        requires
            e3 == 2 * (u3 * n - t3),
    ;
    lemma_column3(r1 * u1, r2 * u2, r3 * u3, n);
    assert(2 * n * big == 2 * (big * n)) by (nonlinear_arith);
    assert(2 * n * big == 2 * (r1 * t1 + r2 * t2 + r3 * t3) + (r1 * e1 + r2 * e2 + r3 * e3));
    assert(m.0 * kn + m.1 * kn + m.2 * kn == (m.0 + m.1 + m.2) * kn) by (nonlinear_arith);
    let knn = 2 * (kn * n);
    assert((m.0 + m.1 + m.2) * kn < knn) by (nonlinear_arith)
        requires
            m.0 + m.1 + m.2 < 2 * n,
            kn == k * n,
            k >= 1,
            n > 0,
            knn == 2 * (kn * n),
    ;
    let err = r1 * e1 + r2 * e2 + r3 * e3;
    assert(-knn < err < knn);
    let diff = big - n * vi;
    assert(2 * n * diff == err) by (nonlinear_arith)
        requires
            2 * n * big == 2 * (nn * vi) + err,
            diff == big - n * vi,
            nn == n * n,
    ;
    if diff >= kn {
        assert(2 * n * diff >= knn) by (nonlinear_arith)
            requires
                diff >= kn,
                n > 0,
                knn == 2 * (kn * n),
        ;
    }
    if diff <= -kn {
        assert(2 * n * diff <= -knn) by (nonlinear_arith)
            requires
                diff <= -kn,
                n > 0,
                knn == 2 * (kn * n),
        ;
    }
}

/// A row of entries no greater than `n` applied to a vector of components
/// no greater than `bound`, divided by `n` and rounded, is at most three
/// times `bound` and one.
proof fn lemma_row_result_bound(
    a1: int, a2: int, a3: int,
    v1: int, v2: int, v3: int,
    n: int,
    bound: int,
)
    requires
        n > 0,
        bound >= 0,
        -n <= a1 <= n,
        -n <= a2 <= n,
        -n <= a3 <= n,
        -bound <= v1 <= bound,
        -bound <= v2 <= bound,
        -bound <= v3 <= bound,
    ensures
        -(3 * bound + 1) <= round_quot(a1 * v1 + a2 * v2 + a3 * v3, n) <= 3 * bound + 1,
{
    let p1 = a1 * v1;
    let p2 = a2 * v2;
    let p3 = a3 * v3;
    let t = p1 + p2 + p3;
    let nb = n * bound;
    lemma_bounded_product(a1, v1, n, bound);
    lemma_bounded_product(a2, v2, n, bound);
    lemma_bounded_product(a3, v3, n, bound);
    assert(-nb <= p1 <= nb && -nb <= p2 <= nb && -nb <= p3 <= nb);
    assert(-3 * nb <= t <= 3 * nb);
    lemma_round_quot_near(t, n);
    let r = round_quot(t, n);
    let rn = r * n;
    if r >= 3 * bound + 2 {
        assert(rn >= 3 * nb + 2 * n) by (nonlinear_arith)
            requires
                rn == r * n,
                nb == n * bound,
                r >= 3 * bound + 2,
                n > 0,
        ;
    }
    if r <= -(3 * bound + 2) {
        assert(rn <= -(3 * nb + 2 * n)) by (nonlinear_arith)
            requires
                rn == r * n,
                nb == n * bound,
                r <= -(3 * bound + 2),
                n > 0,
        ;
    }
}

/// The identity turns no vector, forth or back: for an aircraft in the
/// identity orientation the body frame is the world frame, and converting
/// a vector either way returns it exactly.
pub proof fn lemma_identity_orientation_converts_nothing(v: Vec3)
    ensures
        local_to_global_spec(v, qidentity()) == v,
        global_to_local_spec(v, qidentity()) == v,
        local_to_global_spec(global_to_local_spec(v, qidentity()), qidentity()) == v,
{
    reveal(turn_row);
    let q = qidentity();
    assert(qfits(q));
    assert(qreduce(q) == q);
    let s = SCALE as int;
    let n = norm_sq(q);
    assert(n == 1_000_000_000_000 && q.w * q.w == 1_000_000_000_000 && q.x * q.x == 0 && q.y
        * q.y == 0 && q.z * q.z == 0 && q.x * q.y == 0 && q.x * q.z == 0 && q.y * q.z == 0 && q.w
        * q.x == 0 && q.w * q.y == 0 && q.w * q.z == 0) by (nonlinear_arith)
        requires
            n == q.w * q.w + q.x * q.x + q.y * q.y + q.z * q.z,
            q.x == 0,
            q.y == 0,
            q.z == 0,
            q.w == 1_000_000,
    ;
    let m = rows_of(q);
    assert(m == ((n, 0int, 0int), (0int, n, 0int), (0int, 0int, n)));
    assert(0 * v.x == 0 && 0 * v.y == 0 && 0 * v.z == 0) by (nonlinear_arith);
    lemma_round_quot_exact(v.x as int, n);
    lemma_round_quot_exact(v.y as int, n);
    lemma_round_quot_exact(v.z as int, n);
}

/// A vector converted into the body frame and back into the world frame
/// comes back to within a millionth in each component, whatever the
/// orientation: it need not be of unit length, and may even be zero. The
/// vector's components must not exceed a quarter of the number range.
pub proof fn lemma_frame_round_trip(v: Vec3, q: Quat)
    requires
        -0x2000_0000_0000_0000 <= v.x <= 0x2000_0000_0000_0000,
        -0x2000_0000_0000_0000 <= v.y <= 0x2000_0000_0000_0000,
        -0x2000_0000_0000_0000 <= v.z <= 0x2000_0000_0000_0000,
    ensures
        ({
            let back = local_to_global_spec(global_to_local_spec(v, q), q);
            &&& -1 <= back.x - v.x <= 1
            &&& -1 <= back.y - v.y <= 1
            &&& -1 <= back.z - v.z <= 1
        }),
{
    reveal(turn_row);
    let r = qreduce(q);
    lemma_reduced_fits(q);
    let (x, y, z, w) = (r.x as int, r.y as int, r.z as int, r.w as int);
    let n = norm_sq(r);
    lemma_square_nonneg(x);
    lemma_square_nonneg(y);
    lemma_square_nonneg(z);
    lemma_square_nonneg(w);
    if n != 0 {
        let m = rows_of(r);
        let (a11, a12, a13) = m.0;
        let (a21, a22, a23) = m.1;
        let (a31, a32, a33) = m.2;
        lemma_rows(x, y, z, w);
        let nn = n * n;
        let m1 = lemma_row_magnitudes(a11, a12, a13, n);
        let m2 = lemma_row_magnitudes(a21, a22, a23, n);
        let m3 = lemma_row_magnitudes(a31, a32, a33, n);
        let (v1, v2, v3) = (v.x as int, v.y as int, v.z as int);
        let bound = 0x2000_0000_0000_0000int;
        // Into the body frame: the columns applied.
        let t1 = a11 * v1 + a21 * v2 + a31 * v3;
        let t2 = a12 * v1 + a22 * v2 + a32 * v3;
        let t3 = a13 * v1 + a23 * v2 + a33 * v3;
        lemma_row_result_bound(a11, a21, a31, v1, v2, v3, n, bound);
        lemma_row_result_bound(a12, a22, a32, v1, v2, v3, n, bound);
        lemma_row_result_bound(a13, a23, a33, v1, v2, v3, n, bound);
        lemma_round_quot_near(t1, n);
        lemma_round_quot_near(t2, n);
        lemma_round_quot_near(t3, n);
        let u = global_to_local_spec(v, q);
        let (u1, u2, u3) = (u.x as int, u.y as int, u.z as int);
        assert(u1 == round_quot(t1, n) && u2 == round_quot(t2, n) && u3 == round_quot(t3, n));
        // The rows applied to the columns give the products of the rows.
        assert(a11 * a11 + a12 * a12 + a13 * a13 == nn);
        assert((a21 * a11 + a22 * a12 + a23 * a13 == 0) && (a31 * a11 + a32 * a12 + a33 * a13
            == 0) && (a31 * a21 + a32 * a22 + a33 * a23 == 0)) by (nonlinear_arith)
            requires
                a11 * a21 + a12 * a22 + a13 * a23 == 0,
                a11 * a31 + a12 * a32 + a13 * a33 == 0,
                a21 * a31 + a22 * a32 + a23 * a33 == 0,
        ;
        assert(0 * v1 == 0 && 0 * v2 == 0 && 0 * v3 == 0) by (nonlinear_arith);
        assert(nn * v1 == n * n * v1 && nn * v2 == n * n * v2 && nn * v3 == n * n * v3);
        lemma_component_back(
            a11, a12, a13,
            a11, a21, a31,
            a12, a22, a32,
            a13, a23, a33,
            v1, v2, v3,
            u1, u2, u3,
            n,
            v1,
            1,
        );
        lemma_component_back(
            a21, a22, a23,
            a11, a21, a31,
            a12, a22, a32,
            a13, a23, a33,
            v1, v2, v3,
            u1, u2, u3,
            n,
            v2,
            1,
        );
        lemma_component_back(
            a31, a32, a33,
            a11, a21, a31,
            a12, a22, a32,
            a13, a23, a33,
            v1, v2, v3,
            u1, u2, u3,
            n,
            v3,
            1,
        );
        assert(n * v1 == n * v1);
        lemma_round_quot_between(a11 * u1 + a12 * u2 + a13 * u3, n, v1);
        lemma_round_quot_between(a21 * u1 + a22 * u2 + a23 * u3, n, v2);
        lemma_round_quot_between(a31 * u1 + a32 * u2 + a33 * u3, n, v3);
    }
}

/// With the nose pitched a quarter turn up, what comes from below in the
/// world comes from behind in the body: a world vector `(x, y, z)` is the
/// body vector `(x, z, -y)`, exactly. The quaternion of the pitch has equal
/// vector and scalar parts, of any length within the turning limit.
pub proof fn lemma_quarter_pitch_frame(v: Vec3, a: i64)
    requires
        0 < a <= TURN_LIMIT,
    ensures
        global_to_local_spec(v, Quat { x: a, y: 0, z: 0, w: a }) == (Vec3 {
            x: v.x,
            y: v.z,
            z: fneg(v.y),
        }),
{
    reveal(turn_row);
    let q = Quat { x: a, y: 0, z: 0, w: a };
    assert(qfits(q));
    assert(qreduce(q) == q);
    let aa = a * a;
    let n = norm_sq(q);
    assert(aa > 0 && q.w * q.w == aa && q.x * q.x == aa && q.w * q.x == aa && q.y * q.y == 0
        && q.z * q.z == 0 && q.x * q.y == 0 && q.x * q.z == 0 && q.y * q.z == 0 && q.w * q.y == 0
        && q.w * q.z == 0) by (nonlinear_arith)
        requires
            aa == a * a,
            a > 0,
            q.x == a,
            q.w == a,
            q.y == 0,
            q.z == 0,
    ;
    assert(n == 2 * aa);
    let m = rows_of(q);
    assert(m == ((n, 0int, 0int), (0int, 0int, -n), (0int, n, 0int)));
    assert(0 * v.x == 0 && 0 * v.y == 0 && 0 * v.z == 0) by (nonlinear_arith);
    assert((-n) * v.y == n * (-v.y)) by (nonlinear_arith);
    lemma_round_quot_exact(v.x as int, n);
    lemma_round_quot_exact(v.z as int, n);
    lemma_round_quot_exact(-v.y, n);
}

/// An aircraft with its nose pitched a quarter turn up sees gravity come
/// from straight behind, exactly.
pub proof fn lemma_nose_up_sees_gravity()
    ensures
        qrotation_x(HALF_PI) == (Quat { x: 707_107, y: 0, z: 0, w: 707_107 }),
        global_to_local_spec(
            Vec3 { x: 0, y: (-9_810_000) as i64, z: 0 },
            qrotation_x(HALF_PI),
        ) == (Vec3 {
            x: 0,
            y: 0,
            z: 9_810_000,
        }),
{
    lemma_eighth_turn();
    assert(fmul(HALF_PI, HALF) == 785_398) by {
        reveal(fmul);
    }
    lemma_quarter_pitch_frame(Vec3 { x: 0, y: (-9_810_000) as i64, z: 0 }, 707_107);
}

/// The zero vector stays zero in either frame.
pub proof fn lemma_frame_of_zero(q: Quat)
    ensures
        local_to_global_spec(Vec3 { x: 0, y: 0, z: 0 }, q) == (Vec3 { x: 0, y: 0, z: 0 }),
        global_to_local_spec(Vec3 { x: 0, y: 0, z: 0 }, q) == (Vec3 { x: 0, y: 0, z: 0 }),
{
    reveal(turn_row);
    let r = qreduce(q);
    let n = norm_sq(r);
    lemma_square_nonneg(r.x as int);
    lemma_square_nonneg(r.y as int);
    lemma_square_nonneg(r.z as int);
    lemma_square_nonneg(r.w as int);
    if n != 0 {
        let m = rows_of(r);
        assert(m.0.0 * 0 == 0 && m.0.1 * 0 == 0 && m.0.2 * 0 == 0 && m.1.0 * 0 == 0 && m.1.1 * 0
            == 0 && m.1.2 * 0 == 0 && m.2.0 * 0 == 0 && m.2.1 * 0 == 0 && m.2.2 * 0 == 0)
            by (nonlinear_arith);
        assert(n * 0 == 0) by (nonlinear_arith);
        lemma_round_quot_exact(0, n);
    }
}

/// A vector with no component beyond `bound` has, in the body frame, no
/// component beyond three times `bound` and one.
pub proof fn lemma_frame_bound(v: Vec3, q: Quat, bound: int)
    requires
        0 <= bound <= 0x2000_0000_0000_0000,
        -bound <= v.x <= bound,
        -bound <= v.y <= bound,
        -bound <= v.z <= bound,
    ensures
        ({
            let u = global_to_local_spec(v, q);
            &&& -(3 * bound + 1) <= u.x <= 3 * bound + 1
            &&& -(3 * bound + 1) <= u.y <= 3 * bound + 1
            &&& -(3 * bound + 1) <= u.z <= 3 * bound + 1
        }),
{
    reveal(turn_row);
    let r = qreduce(q);
    lemma_reduced_fits(q);
    let n = norm_sq(r);
    lemma_square_nonneg(r.x as int);
    lemma_square_nonneg(r.y as int);
    lemma_square_nonneg(r.z as int);
    lemma_square_nonneg(r.w as int);
    if n != 0 {
        let m = rows_of(r);
        lemma_rows(r.x as int, r.y as int, r.z as int, r.w as int);
        let m1 = lemma_row_magnitudes(m.0.0, m.0.1, m.0.2, n);
        let m2 = lemma_row_magnitudes(m.1.0, m.1.1, m.1.2, n);
        let m3 = lemma_row_magnitudes(m.2.0, m.2.1, m.2.2, n);
        lemma_row_result_bound(m.0.0, m.1.0, m.2.0, v.x as int, v.y as int, v.z as int, n, bound);
        lemma_row_result_bound(m.0.1, m.1.1, m.2.1, v.x as int, v.y as int, v.z as int, n, bound);
        lemma_row_result_bound(m.0.2, m.1.2, m.2.2, v.x as int, v.y as int, v.z as int, n, bound);
    }
}

/// A vector converted into the body frame, moved there by at most two
/// millionths in each component, and converted back comes back to within
/// five millionths in each component.
pub proof fn lemma_frame_round_trip_near(v: Vec3, moved: Vec3, q: Quat)
    requires
        -0x2000_0000_0000_0000 <= v.x <= 0x2000_0000_0000_0000,
        -0x2000_0000_0000_0000 <= v.y <= 0x2000_0000_0000_0000,
        -0x2000_0000_0000_0000 <= v.z <= 0x2000_0000_0000_0000,
        -2 <= moved.x - global_to_local_spec(v, q).x <= 2,
        -2 <= moved.y - global_to_local_spec(v, q).y <= 2,
        -2 <= moved.z - global_to_local_spec(v, q).z <= 2,
    ensures
        ({
            let back = local_to_global_spec(moved, q);
            &&& -5 <= back.x - v.x <= 5
            &&& -5 <= back.y - v.y <= 5
            &&& -5 <= back.z - v.z <= 5
        }),
{
    reveal(turn_row);
    let r = qreduce(q);
    lemma_reduced_fits(q);
    let (x, y, z, w) = (r.x as int, r.y as int, r.z as int, r.w as int);
    let n = norm_sq(r);
    lemma_square_nonneg(x);
    lemma_square_nonneg(y);
    lemma_square_nonneg(z);
    lemma_square_nonneg(w);
    if n != 0 {
        let m = rows_of(r);
        let (a11, a12, a13) = m.0;
        let (a21, a22, a23) = m.1;
        let (a31, a32, a33) = m.2;
        lemma_rows(x, y, z, w);
        let nn = n * n;
        let m1 = lemma_row_magnitudes(a11, a12, a13, n);
        let m2 = lemma_row_magnitudes(a21, a22, a23, n);
        let m3 = lemma_row_magnitudes(a31, a32, a33, n);
        let (v1, v2, v3) = (v.x as int, v.y as int, v.z as int);
        let bound = 0x2000_0000_0000_0000int;
        let t1 = a11 * v1 + a21 * v2 + a31 * v3;
        let t2 = a12 * v1 + a22 * v2 + a32 * v3;
        let t3 = a13 * v1 + a23 * v2 + a33 * v3;
        lemma_row_result_bound(a11, a21, a31, v1, v2, v3, n, bound);
        lemma_row_result_bound(a12, a22, a32, v1, v2, v3, n, bound);
        lemma_row_result_bound(a13, a23, a33, v1, v2, v3, n, bound);
        lemma_round_quot_near(t1, n);
        lemma_round_quot_near(t2, n);
        lemma_round_quot_near(t3, n);
        let u = global_to_local_spec(v, q);
        assert(u.x == round_quot(t1, n) && u.y == round_quot(t2, n) && u.z == round_quot(t3, n));
        let (u1, u2, u3) = (moved.x as int, moved.y as int, moved.z as int);
        assert(u1 * n - u.x * n == (u1 - u.x) * n && u2 * n - u.y * n == (u2 - u.y) * n && u3 * n
            - u.z * n == (u3 - u.z) * n) by (nonlinear_arith);
        lemma_bounded_product(u1 - u.x, n, 2, n);
        lemma_bounded_product(u2 - u.y, n, 2, n);
        lemma_bounded_product(u3 - u.z, n, 2, n);
        assert((a21 * a11 + a22 * a12 + a23 * a13 == 0) && (a31 * a11 + a32 * a12 + a33 * a13
            == 0) && (a31 * a21 + a32 * a22 + a33 * a23 == 0)) by (nonlinear_arith)
            requires
                a11 * a21 + a12 * a22 + a13 * a23 == 0,
                a11 * a31 + a12 * a32 + a13 * a33 == 0,
                a21 * a31 + a22 * a32 + a23 * a33 == 0,
        ;
        assert(0 * v1 == 0 && 0 * v2 == 0 && 0 * v3 == 0) by (nonlinear_arith);
        lemma_component_back(
            a11, a12, a13,
            a11, a21, a31,
            a12, a22, a32,
            a13, a23, a33,
            v1, v2, v3,
            u1, u2, u3,
            n,
            v1,
            5,
        );
        lemma_component_back(
            a21, a22, a23,
            a11, a21, a31,
            a12, a22, a32,
            a13, a23, a33,
            v1, v2, v3,
            u1, u2, u3,
            n,
            v2,
            5,
        );
        lemma_component_back(
            a31, a32, a33,
            a11, a21, a31,
            a12, a22, a32,
            a13, a23, a33,
            v1, v2, v3,
            u1, u2, u3,
            n,
            v3,
            5,
        );
        lemma_round_quot_within(a11 * u1 + a12 * u2 + a13 * u3, n, v1, 5);
        lemma_round_quot_within(a21 * u1 + a22 * u2 + a23 * u3, n, v2, 5);
        lemma_round_quot_within(a31 * u1 + a32 * u2 + a33 * u3, n, v3, 5);
    }
}

/// The columns of the turning matrix of a quaternion are at right angles
/// and each as long as the quaternion's length squared.
pub proof fn lemma_columns(x: int, y: int, z: int, w: int)
    ensures
        ({
            let n = w * w + x * x + y * y + z * z;
            let a11 = w * w + x * x - y * y - z * z;
            let a12 = 2 * (x * y) - 2 * (w * z);
            let a13 = 2 * (x * z) + 2 * (w * y);
            let a21 = 2 * (x * y) + 2 * (w * z);
            let a22 = w * w - x * x + y * y - z * z;
            let a23 = 2 * (y * z) - 2 * (w * x);
            let a31 = 2 * (x * z) - 2 * (w * y);
            let a32 = 2 * (y * z) + 2 * (w * x);
            let a33 = w * w - x * x - y * y + z * z;
            &&& a11 * a11 + a21 * a21 + a31 * a31 == n * n
            &&& a12 * a12 + a22 * a22 + a32 * a32 == n * n
            &&& a13 * a13 + a23 * a23 + a33 * a33 == n * n
            &&& a11 * a12 + a21 * a22 + a31 * a32 == 0
            &&& a11 * a13 + a21 * a23 + a31 * a33 == 0
            &&& a12 * a13 + a22 * a23 + a32 * a33 == 0
        }),
{
    // The columns are the rows of the matrix of the opposite turn.
    lemma_rows(-x, -y, -z, w);
    assert((-x) * (-x) == x * x && (-y) * (-y) == y * y && (-z) * (-z) == z * z && (-x) * (-y)
        == x * y && (-x) * (-z) == x * z && (-y) * (-z) == y * z && w * (-x) == -(w * x) && w
        * (-y) == -(w * y) && w * (-z) == -(w * z)) by (nonlinear_arith);
}

/// A vector converted into the world frame and back into the body frame
/// comes back to within a millionth in each component, whatever the
/// orientation. The vector's components must not exceed a quarter of the
/// number range.
pub proof fn lemma_frame_round_trip_from_local(v: Vec3, q: Quat)
    requires
        -0x2000_0000_0000_0000 <= v.x <= 0x2000_0000_0000_0000,
        -0x2000_0000_0000_0000 <= v.y <= 0x2000_0000_0000_0000,
        -0x2000_0000_0000_0000 <= v.z <= 0x2000_0000_0000_0000,
    ensures
        ({
            let back = global_to_local_spec(local_to_global_spec(v, q), q);
            &&& -1 <= back.x - v.x <= 1
            &&& -1 <= back.y - v.y <= 1
            &&& -1 <= back.z - v.z <= 1
        }),
{
    reveal(turn_row);
    let r = qreduce(q);
    lemma_reduced_fits(q);
    let (x, y, z, w) = (r.x as int, r.y as int, r.z as int, r.w as int);
    let n = norm_sq(r);
    lemma_square_nonneg(x);
    lemma_square_nonneg(y);
    lemma_square_nonneg(z);
    lemma_square_nonneg(w);
    if n != 0 {
        let m = rows_of(r);
        let (a11, a12, a13) = m.0;
        let (a21, a22, a23) = m.1;
        let (a31, a32, a33) = m.2;
        lemma_rows(x, y, z, w);
        lemma_columns(x, y, z, w);
        let nn = n * n;
        let m1 = lemma_row_magnitudes(a11, a12, a13, n);
        let m2 = lemma_row_magnitudes(a21, a22, a23, n);
        let m3 = lemma_row_magnitudes(a31, a32, a33, n);
        let (v1, v2, v3) = (v.x as int, v.y as int, v.z as int);
        let bound = 0x2000_0000_0000_0000int;
        // Into the world frame: the rows applied.
        let t1 = a11 * v1 + a12 * v2 + a13 * v3;
        let t2 = a21 * v1 + a22 * v2 + a23 * v3;
        let t3 = a31 * v1 + a32 * v2 + a33 * v3;
        lemma_row_result_bound(a11, a12, a13, v1, v2, v3, n, bound);
        lemma_row_result_bound(a21, a22, a23, v1, v2, v3, n, bound);
        lemma_row_result_bound(a31, a32, a33, v1, v2, v3, n, bound);
        lemma_round_quot_near(t1, n);
        lemma_round_quot_near(t2, n);
        lemma_round_quot_near(t3, n);
        let u = local_to_global_spec(v, q);
        let (u1, u2, u3) = (u.x as int, u.y as int, u.z as int);
        assert(u1 == round_quot(t1, n) && u2 == round_quot(t2, n) && u3 == round_quot(t3, n));
        // The columns applied to the rows give the products of the columns.
        assert((a12 * a11 + a22 * a21 + a32 * a31 == 0) && (a13 * a11 + a23 * a21 + a33 * a31
            == 0) && (a13 * a12 + a23 * a22 + a33 * a32 == 0)) by (nonlinear_arith)
            requires
                a11 * a12 + a21 * a22 + a31 * a32 == 0,
                a11 * a13 + a21 * a23 + a31 * a33 == 0,
                a12 * a13 + a22 * a23 + a32 * a33 == 0,
        ;
        assert(0 * v1 == 0 && 0 * v2 == 0 && 0 * v3 == 0) by (nonlinear_arith);
        lemma_component_back(
            a11, a21, a31,
            a11, a12, a13,
            a21, a22, a23,
            a31, a32, a33,
            v1, v2, v3,
            u1, u2, u3,
            n,
            v1,
            1,
        );
        lemma_component_back(
            a12, a22, a32,
            a11, a12, a13,
            a21, a22, a23,
            a31, a32, a33,
            v1, v2, v3,
            u1, u2, u3,
            n,
            v2,
            1,
        );
        lemma_component_back(
            a13, a23, a33,
            a11, a12, a13,
            a21, a22, a23,
            a31, a32, a33,
            v1, v2, v3,
            u1, u2, u3,
            n,
            v3,
            1,
        );
        lemma_round_quot_between(a11 * u1 + a21 * u2 + a31 * u3, n, v1);
        lemma_round_quot_between(a12 * u1 + a22 * u2 + a32 * u3, n, v2);
        lemma_round_quot_between(a13 * u1 + a23 * u2 + a33 * u3, n, v3);
    }
}

} // verus!
