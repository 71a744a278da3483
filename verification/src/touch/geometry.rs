//! Saturating pixel geometry shared by the calibration and the swipe cases.
use vstd::prelude::*;

use crate::arith::{sat_add_i32, sat_i32, sat_mul_i32, sat_sub_i32};

verus! {

/// Squared distance between two points, each step saturating at the `i32`
/// bounds.
pub open spec fn sq_dist(ax: int, ay: int, bx: int, by: int) -> int {
    let dx = sat_i32(ax - bx);
    let dy = sat_i32(ay - by);
    sat_i32(sat_i32(dx * dx) + sat_i32(dy * dy))
}

/// Squared distance of two points with saturating arithmetic.
pub fn squared_distance_i32(ax: i32, ay: i32, bx: i32, by: i32) -> (r: i32)
    ensures
        r == sq_dist(ax as int, ay as int, bx as int, by as int),
{
    let dx = sat_sub_i32(ax, bx);
    let dy = sat_sub_i32(ay, by);
    sat_add_i32(sat_mul_i32(dx, dx), sat_mul_i32(dy, dy))
}

/// On points with coordinates in `0..32768` (every `u16` pixel the panel can
/// report fits) no step saturates: the result is the exact squared distance.
pub proof fn lemma_squared_distance_exact(ax: int, ay: int, bx: int, by: int)
    requires
        0 <= ax < 32768,
        0 <= ay < 32768,
        0 <= bx < 32768,
        0 <= by < 32768,
    ensures
        sq_dist(ax, ay, bx, by) == (ax - bx) * (ax - bx) + (ay - by) * (ay - by),
{
    let dx = ax - bx;
    let dy = ay - by;
    assert(0 <= dx * dx <= 32767 * 32767) by (nonlinear_arith)
        requires
            -32767 <= dx <= 32767,
    ;
    assert(0 <= dy * dy <= 32767 * 32767) by (nonlinear_arith)
        requires
            -32767 <= dy <= 32767,
    ;
}

/// The squared distance is symmetric, never negative, and zero exactly on
/// equal points.
pub proof fn lemma_squared_distance_metric(ax: int, ay: int, bx: int, by: int)
    ensures
        sq_dist(ax, ay, bx, by) == sq_dist(bx, by, ax, ay),
        sq_dist(ax, ay, bx, by) >= 0,
        sq_dist(ax, ay, bx, by) == 0 <==> (ax == bx && ay == by),
{
    let dx = sat_i32(ax - bx);
    let dy = sat_i32(ay - by);
    let ex = sat_i32(bx - ax);
    let ey = sat_i32(by - ay);
    assert(dx * dx >= 0 && ex * ex >= 0 && dy * dy >= 0 && ey * ey >= 0) by (nonlinear_arith);
    assert(dx * dx == 0 <==> dx == 0) by (nonlinear_arith);
    assert(dy * dy == 0 <==> dy == 0) by (nonlinear_arith);
    assert(sat_i32(dx * dx) == sat_i32(ex * ex)) by {
        if -0x8000_0000 < ax - bx < 0x8000_0000 {
            assert(ex == -dx);
            assert(dx * dx == ex * ex) by (nonlinear_arith)
                requires
                    ex == -dx,
            ;
        } else {
            assert(dx * dx >= 0x7fff_ffff * 0x7fff_ffff) by (nonlinear_arith)
                requires
                    dx >= 0x7fff_ffff || dx <= -0x8000_0000,
            ;
            assert(ex * ex >= 0x7fff_ffff * 0x7fff_ffff) by (nonlinear_arith)
                requires
                    ex >= 0x7fff_ffff || ex <= -0x8000_0000,
            ;
        }
    }
    assert(sat_i32(dy * dy) == sat_i32(ey * ey)) by {
        if -0x8000_0000 < ay - by < 0x8000_0000 {
            assert(ey == -dy);
            assert(dy * dy == ey * ey) by (nonlinear_arith)
                requires
                    ey == -dy,
            ;
        } else {
            assert(dy * dy >= 0x7fff_ffff * 0x7fff_ffff) by (nonlinear_arith)
                requires
                    dy >= 0x7fff_ffff || dy <= -0x8000_0000,
            ;
            assert(ey * ey >= 0x7fff_ffff * 0x7fff_ffff) by (nonlinear_arith)
                requires
                    ey >= 0x7fff_ffff || ey <= -0x8000_0000,
            ;
        }
    }
}

} // verus!
