//! Saturating and truncating integer arithmetic on `i32`, stated over `int`.
use vstd::prelude::*;

verus! {

/// Clamps a mathematical integer into the `i32` range.
pub open spec fn sat_i32(v: int) -> int {
    if v > i32::MAX as int {
        i32::MAX as int
    } else if v < i32::MIN as int {
        i32::MIN as int
    } else {
        v
    }
}

/// Division that rounds toward zero, as Rust's `/` on signed integers does.
pub open spec fn trunc_div(n: int, d: int) -> int
    recommends
        d > 0,
{
    if n >= 0 {
        n / d
    } else {
        -((-n) / d)
    }
}

/// `a.saturating_add(b)` on `i32`.
pub fn sat_add_i32(a: i32, b: i32) -> (r: i32)
    ensures
        r == sat_i32(a + b),
{
    let wide: i64 = a as i64 + b as i64;
    if wide > i32::MAX as i64 {
        i32::MAX
    } else if wide < i32::MIN as i64 {
        i32::MIN
    } else {
        wide as i32
    }
}

/// `a.saturating_sub(b)` on `i32`.
pub fn sat_sub_i32(a: i32, b: i32) -> (r: i32)
    ensures
        r == sat_i32(a - b),
{
    let wide: i64 = a as i64 - b as i64;
    if wide > i32::MAX as i64 {
        i32::MAX
    } else if wide < i32::MIN as i64 {
        i32::MIN
    } else {
        wide as i32
    }
}

/// `a.saturating_mul(b)` on `i32`.
pub fn sat_mul_i32(a: i32, b: i32) -> (r: i32)
    ensures
        r == sat_i32(a * b),
{
    proof {
        assert(-0x8000_0000 * 0x8000_0000 <= a * b <= 0x8000_0000 * 0x8000_0000) by (nonlinear_arith)
            requires
                -0x8000_0000 <= a <= 0x7fff_ffff,
                -0x8000_0000 <= b <= 0x7fff_ffff,
        ;
    }
    let wide: i64 = a as i64 * b as i64;
    if wide > i32::MAX as i64 {
        i32::MAX
    } else if wide < i32::MIN as i64 {
        i32::MIN
    } else {
        wide as i32
    }
}

/// Signed division by a positive divisor, rounding toward zero.
pub fn trunc_div_i64(n: i64, d: i64) -> (r: i64)
    requires
        d > 0,
        n > i64::MIN,
    ensures
        r == trunc_div(n as int, d as int),
{
    if n >= 0 {
        n / d
    } else {
        let m: i64 = -n;
        -(m / d)
    }
}

/// `a.min(b)` on `i32`.
pub fn min_i32(a: i32, b: i32) -> (r: i32)
    ensures
        r == (if a <= b { a } else { b }),
{
    if a <= b { a } else { b }
}

/// `a.max(b)` on `i32`.
pub fn max_i32(a: i32, b: i32) -> (r: i32)
    ensures
        r == (if a >= b { a } else { b }),
{
    if a >= b { a } else { b }
}

} // verus!
