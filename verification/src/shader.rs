//! The marbling shader: what a scene looks like at a point of the shading
//! plane, built from `I16F16` arithmetic on raw bits.
//!
//! `I16F16` panics in a debug build where an operation overflows, divides
//! by zero or negates the smallest number. Each step is therefore stated as
//! a partial function: `None` exactly where the step panics, else the
//! exact bits it gives. A composite is `None` as soon as one of its steps
//! is, so "the shading of a pixel is `Some`" is precisely "shading that
//! pixel does not panic".
use vstd::prelude::*;

use crate::graphics::{
    clamp_gray4_level, dither_threshold, dither_threshold_bits, dither_threshold_u8, gray4_level, gray4_pixel_on,
    DitherMode, RenderMode, RgssMode, blue_noise_cell, blue_noise_threshold_u8, hash_to_unit01_bits, hash_xy, hash_xy_spec, DitherTables};
use crate::marbling::{
    fx_div, fx_div_ok, fx_mul, fx_mul_ok, fx_mul_spec, fx_quotient, fx_sqrt, isqrt, trunc_div, DropOperator, FlowCombOperator, Fx, MarblingScene, Operator,
    SceneModel, SwirlOperator, Vec2Fx,
    FX_EPSILON_BITS, FX_HALF_BITS, FX_ONE_BITS,
};

verus! {

/// Fixed-point constants of the shader, in bits.
pub const FX_TWO_BITS: i32 = 0x2_0000;
pub const FX_THREE_BITS: i32 = 0x3_0000;
pub const FX_SIX_BITS: i32 = 0x6_0000;
pub const FX_FIFTEEN_BITS: i32 = 0xF_0000;
pub const FX_TWENTY_BITS: i32 = 0x14_0000;
pub const FX_TWENTY_FOUR_BITS: i32 = 0x18_0000;
pub const FX_FORTY_BITS: i32 = 0x28_0000;
pub const FX_HUNDRED_BITS: i32 = 0x64_0000;
pub const FX_HUNDRED_FIFTY_BITS: i32 = 0x96_0000;
/// Pi and two pi.
pub const FX_PI_BITS: i32 = 205_887;
pub const FX_TAU_BITS: i32 = 411_775;
pub const FX_0_15_BITS: i32 = 9_830;
pub const FX_0_45_BITS: i32 = 29_491;
pub const FX_0_55_BITS: i32 = 36_045;
pub const FX_0_9_BITS: i32 = 58_982;
/// The cosine and sine of one half, which turn the noise between octaves.
pub const NOISE_ROT_COS_BITS: i32 = 57_513;
pub const NOISE_ROT_SIN_BITS: i32 = 31_420;
/// Paper grain is hashed on a grid this fine, in bits (4096).
pub const GRAIN_QUANTUM_BITS: i32 = 0x1000_0000;
pub const GRAIN_HASH_SEED: u32 = 0x6E2F_28A5;

// ---------------------------------------------------------------------------
// Partial arithmetic.

pub open spec fn add_o(a: Option<Fx>, b: Option<Fx>) -> Option<Fx> {
    match (a, b) {
        (Some(a), Some(b)) => if i32::MIN <= a.0 + b.0 <= i32::MAX {
            Some(Fx((a.0 + b.0) as i32))
        } else {
            None
        },
        _ => None,
    }
}

pub open spec fn sub_o(a: Option<Fx>, b: Option<Fx>) -> Option<Fx> {
    match (a, b) {
        (Some(a), Some(b)) => if i32::MIN <= a.0 - b.0 <= i32::MAX {
            Some(Fx((a.0 - b.0) as i32))
        } else {
            None
        },
        _ => None,
    }
}

pub open spec fn mul_o(a: Option<Fx>, b: Option<Fx>) -> Option<Fx> {
    match (a, b) {
        (Some(a), Some(b)) => if fx_mul_ok(a, b) {
            Some(Fx(fx_mul_spec(a, b)))
        } else {
            None
        },
        _ => None,
    }
}

pub open spec fn div_o(a: Option<Fx>, b: Option<Fx>) -> Option<Fx> {
    match (a, b) {
        (Some(a), Some(b)) => if fx_div_ok(a, b) {
            Some(Fx(trunc_div(a.0 * 65536, b.0 as int) as i32))
        } else {
            None
        },
        _ => None,
    }
}

pub open spec fn neg_o(a: Option<Fx>) -> Option<Fx> {
    match a {
        Some(a) => if a.0 != i32::MIN {
            Some(Fx((-a.0) as i32))
        } else {
            None
        },
        None => None,
    }
}

pub open spec fn abs_o(a: Option<Fx>) -> Option<Fx> {
    match a {
        Some(a) => if a.0 != i32::MIN {
            Some(Fx(if a.0 < 0 { (-a.0) as i32 } else { a.0 }))
        } else {
            None
        },
        None => None,
    }
}

pub open spec fn max_o(a: Option<Fx>, b: Option<Fx>) -> Option<Fx> {
    match (a, b) {
        (Some(a), Some(b)) => Some(if a.0 >= b.0 { a } else { b }),
        _ => None,
    }
}

/// Clamped to `[0, 1]`.
pub open spec fn clamp01_o(a: Option<Fx>) -> Option<Fx> {
    match a {
        Some(a) => Some(
            if a.0 < 0 {
                Fx(0)
            } else if a.0 > FX_ONE_BITS {
                Fx(FX_ONE_BITS)
            } else {
                a
            },
        ),
        None => None,
    }
}

/// The square root of the number raised to zero: the integer square root
/// of its bits, moved back into place.
pub open spec fn sqrt_o(a: Option<Fx>) -> Option<Fx> {
    match a {
        Some(a) => Some(Fx((isqrt(if a.0 >= 0 { a.0 as int } else { 0 }) * 256) as i32)),
        None => None,
    }
}

pub open spec fn vec_o(x: Option<Fx>, y: Option<Fx>) -> Option<Vec2Fx> {
    match (x, y) {
        (Some(x), Some(y)) => Some(Vec2Fx { x, y }),
        _ => None,
    }
}

pub open spec fn vx(v: Option<Vec2Fx>) -> Option<Fx> {
    match v {
        Some(v) => Some(v.x),
        None => None,
    }
}

pub open spec fn vy(v: Option<Vec2Fx>) -> Option<Fx> {
    match v {
        Some(v) => Some(v.y),
        None => None,
    }
}

pub open spec fn vadd_o(a: Option<Vec2Fx>, b: Option<Vec2Fx>) -> Option<Vec2Fx> {
    vec_o(add_o(vx(a), vx(b)), add_o(vy(a), vy(b)))
}

pub open spec fn vsub_o(a: Option<Vec2Fx>, b: Option<Vec2Fx>) -> Option<Vec2Fx> {
    vec_o(sub_o(vx(a), vx(b)), sub_o(vy(a), vy(b)))
}

pub open spec fn vscale_o(v: Option<Vec2Fx>, s: Option<Fx>) -> Option<Vec2Fx> {
    vec_o(mul_o(vx(v), s), mul_o(vy(v), s))
}

pub open spec fn dot_o(a: Option<Vec2Fx>, b: Option<Vec2Fx>) -> Option<Fx> {
    add_o(mul_o(vx(a), vx(b)), mul_o(vy(a), vy(b)))
}

/// The length: zero where the squared length is not positive.
pub open spec fn norm_o(v: Option<Vec2Fx>) -> Option<Fx> {
    match dot_o(v, v) {
        Some(n2) => if n2.0 <= 0 {
            Some(Fx(0))
        } else {
            sqrt_o(Some(n2))
        },
        None => None,
    }
}

fn ck_add(a: Fx, b: Fx) -> (r: Option<Fx>)
    ensures
        r == add_o(Some(a), Some(b)),
{
    let s: i64 = a.0 as i64 + b.0 as i64;
    if i32::MIN as i64 <= s && s <= i32::MAX as i64 {
        Some(Fx(s as i32))
    } else {
        None
    }
}

fn ck_sub(a: Fx, b: Fx) -> (r: Option<Fx>)
    ensures
        r == sub_o(Some(a), Some(b)),
{
    let s: i64 = a.0 as i64 - b.0 as i64;
    if i32::MIN as i64 <= s && s <= i32::MAX as i64 {
        Some(Fx(s as i32))
    } else {
        None
    }
}

fn ck_mul(a: Fx, b: Fx) -> (r: Option<Fx>)
    ensures
        r == mul_o(Some(a), Some(b)),
{
    proof {
        assert(-0x4000_0000_0000_0000 <= a.0 * b.0 <= 0x4000_0000_0000_0000) by (nonlinear_arith)
            requires
                i32::MIN <= a.0 <= i32::MAX,
                i32::MIN <= b.0 <= i32::MAX,
        ;
    }
    let p: i64 = (a.0 as i64) * (b.0 as i64);
    if -0x8000_0000_0000 <= p && p < 0x8000_0000_0000 {
        Some(fx_mul(a, b))
    } else {
        None
    }
}

fn ck_div(a: Fx, b: Fx) -> (r: Option<Fx>)
    ensures
        r == div_o(Some(a), Some(b)),
{
    if b.0 == 0 {
        return None;
    }
    let q = fx_quotient(a, b);
    if i32::MIN as i64 <= q && q <= i32::MAX as i64 {
        Some(fx_div(a, b))
    } else {
        None
    }
}

fn ck_neg(a: Fx) -> (r: Option<Fx>)
    ensures
        r == neg_o(Some(a)),
{
    if a.0 != i32::MIN {
        Some(Fx(-a.0))
    } else {
        None
    }
}

fn ck_abs(a: Fx) -> (r: Option<Fx>)
    ensures
        r == abs_o(Some(a)),
{
    if a.0 == i32::MIN {
        None
    } else if a.0 < 0 {
        Some(Fx(-a.0))
    } else {
        Some(a)
    }
}

fn max_fx(a: Fx, b: Fx) -> (r: Fx)
    ensures
        Some(r) == max_o(Some(a), Some(b)),
{
    if a.0 >= b.0 {
        a
    } else {
        b
    }
}

fn clamp01(a: Fx) -> (r: Fx)
    ensures
        Some(r) == clamp01_o(Some(a)),
{
    if a.0 < 0 {
        Fx(0)
    } else if a.0 > FX_ONE_BITS {
        Fx(FX_ONE_BITS)
    } else {
        a
    }
}

fn sqrt_fx(a: Fx) -> (r: Fx)
    ensures
        Some(r) == sqrt_o(Some(a)),
{
    let m = if a.0 >= 0 { a } else { Fx(0) };
    fx_sqrt(m)
}

fn ck_vadd(a: Vec2Fx, b: Vec2Fx) -> (r: Option<Vec2Fx>)
    ensures
        r == vadd_o(Some(a), Some(b)),
{
    let x = ck_add(a.x, b.x)?;
    let y = ck_add(a.y, b.y)?;
    Some(Vec2Fx { x, y })
}

fn ck_vsub(a: Vec2Fx, b: Vec2Fx) -> (r: Option<Vec2Fx>)
    ensures
        r == vsub_o(Some(a), Some(b)),
{
    let x = ck_sub(a.x, b.x)?;
    let y = ck_sub(a.y, b.y)?;
    Some(Vec2Fx { x, y })
}

fn ck_vscale(v: Vec2Fx, s: Fx) -> (r: Option<Vec2Fx>)
    ensures
        r == vscale_o(Some(v), Some(s)),
{
    let x = ck_mul(v.x, s)?;
    let y = ck_mul(v.y, s)?;
    Some(Vec2Fx { x, y })
}

fn ck_dot(a: Vec2Fx, b: Vec2Fx) -> (r: Option<Fx>)
    ensures
        r == dot_o(Some(a), Some(b)),
{
    let xx = ck_mul(a.x, b.x)?;
    let yy = ck_mul(a.y, b.y)?;
    ck_add(xx, yy)
}

fn ck_norm(v: Vec2Fx) -> (r: Option<Fx>)
    ensures
        r == norm_o(Some(v)),
{
    let n2 = ck_dot(v, v)?;
    if n2.0 <= 0 {
        Some(Fx(0))
    } else {
        Some(sqrt_fx(n2))
    }
}

// ---------------------------------------------------------------------------
// Shaping curves.

/// `a + (b - a) * t`.
pub open spec fn lerp_o(a: Option<Fx>, b: Option<Fx>, t: Option<Fx>) -> Option<Fx> {
    add_o(a, mul_o(sub_o(b, a), t))
}

/// The smooth step `t * t * (3 - 2 * t)` of `t` clamped to `[0, 1]`.
pub open spec fn smoothstep01_o(t: Option<Fx>) -> Option<Fx> {
    let t = clamp01_o(t);
    mul_o(mul_o(t, t), sub_o(Some(Fx(FX_THREE_BITS)), mul_o(Some(Fx(FX_TWO_BITS)), t)))
}

/// The smooth step of `x` between two edges; a step at `edge1` where the
/// edges are no more than the smallest step apart.
pub open spec fn smoothstep_edges_o(edge0: Option<Fx>, edge1: Option<Fx>, x: Option<Fx>) -> Option<Fx> {
    let delta = sub_o(edge1, edge0);
    match (abs_o(delta), x, edge1) {
        (Some(ad), Some(xv), Some(e1)) => if ad.0 <= FX_EPSILON_BITS {
            Some(if xv.0 >= e1.0 { Fx(FX_ONE_BITS) } else { Fx(0) })
        } else {
            smoothstep01_o(clamp01_o(div_o(sub_o(x, edge0), delta)))
        },
        _ => None,
    }
}

fn lerp(a: Fx, b: Fx, t: Fx) -> (r: Option<Fx>)
    ensures
        r == lerp_o(Some(a), Some(b), Some(t)),
{
    let d = ck_sub(b, a)?;
    let m = ck_mul(d, t)?;
    ck_add(a, m)
}

fn smoothstep01(t: Fx) -> (r: Option<Fx>)
    ensures
        r == smoothstep01_o(Some(t)),
{
    let t = clamp01(t);
    let tt = ck_mul(t, t)?;
    let twice = ck_mul(Fx(FX_TWO_BITS), t)?;
    let rest = ck_sub(Fx(FX_THREE_BITS), twice)?;
    ck_mul(tt, rest)
}

fn smoothstep_edges(edge0: Fx, edge1: Fx, x: Fx) -> (r: Option<Fx>)
    ensures
        r == smoothstep_edges_o(Some(edge0), Some(edge1), Some(x)),
{
    let delta = ck_sub(edge1, edge0)?;
    let ad = ck_abs(delta)?;
    if ad.0 <= FX_EPSILON_BITS {
        return Some(if x.0 >= edge1.0 { Fx(FX_ONE_BITS) } else { Fx(0) });
    }
    let dx = ck_sub(x, edge0)?;
    let q = ck_div(dx, delta)?;
    smoothstep01(clamp01(q))
}

// ---------------------------------------------------------------------------
// Angles.

/// `a` brought to at most pi by whole turns.
pub open spec fn wrap_above(a: int) -> int
    decreases (if a > FX_PI_BITS { a - FX_PI_BITS } else { 0 }),
{
    if a > FX_PI_BITS {
        wrap_above(a - FX_TAU_BITS)
    } else {
        a
    }
}

/// `a` brought to at least minus pi by whole turns.
pub open spec fn wrap_below(a: int) -> int
    decreases (if a < -FX_PI_BITS { -FX_PI_BITS - a } else { 0 }),
{
    if a < -FX_PI_BITS {
        wrap_below(a + FX_TAU_BITS)
    } else {
        a
    }
}

/// An angle wrapped into `[-pi, pi]`.
pub open spec fn wrap_pi_spec(a: i32) -> i32 {
    wrap_below(wrap_above(a as int)) as i32
}

proof fn lemma_wrap_above_range(a: int)
    requires
        i32::MIN <= a <= i32::MAX,
    ensures
        wrap_above(a) <= FX_PI_BITS,
        a > FX_PI_BITS ==> -FX_PI_BITS <= wrap_above(a),
        a <= FX_PI_BITS ==> wrap_above(a) == a,
    decreases (if a > FX_PI_BITS { a - FX_PI_BITS } else { 0 }),
{
    if a > FX_PI_BITS {
        lemma_wrap_above_range(a - FX_TAU_BITS);
    }
}

proof fn lemma_wrap_below_range(a: int)
    requires
        a <= FX_PI_BITS,
    ensures
        -FX_PI_BITS <= wrap_below(a) <= FX_PI_BITS,
    decreases (if a < -FX_PI_BITS { -FX_PI_BITS - a } else { 0 }),
{
    if a < -FX_PI_BITS {
        lemma_wrap_below_range(a + FX_TAU_BITS);
    }
}

/// Wraps an angle into `[-pi, pi]` by whole turns.
fn wrap_pi(angle: Fx) -> (r: Fx)
    ensures
        r.0 == wrap_pi_spec(angle.0),
        -FX_PI_BITS <= r.0 <= FX_PI_BITS,
{
    let mut a = angle.0;
    while a > FX_PI_BITS
        invariant
            wrap_above(a as int) == wrap_above(angle.0 as int),
        decreases a - i32::MIN,
    {
        a = a - FX_TAU_BITS;
    }
    proof {
        lemma_wrap_above_range(angle.0 as int);
        lemma_wrap_above_range(a as int);
    }
    let ghost above = a;
    while a < -FX_PI_BITS
        invariant
            wrap_below(a as int) == wrap_below(above as int),
            a <= FX_PI_BITS,
            above <= FX_PI_BITS,
            above as int == wrap_above(angle.0 as int),
        decreases i32::MAX - a,
    {
        a = a + FX_TAU_BITS;
    }
    proof {
        lemma_wrap_below_range(above as int);
    }
    Fx(a)
}

/// The polynomial sine of the wrapped angle, `x * (1 - x^2 / 6)`.
pub open spec fn sin_o(angle: Option<Fx>) -> Option<Fx> {
    match angle {
        Some(a) => {
            let x = Some(Fx(wrap_pi_spec(a.0)));
            let x2 = mul_o(x, x);
            mul_o(x, sub_o(Some(Fx(FX_ONE_BITS)), div_o(x2, Some(Fx(FX_SIX_BITS)))))
        },
        None => None,
    }
}

/// The polynomial cosine of the wrapped angle, `1 - x^2 / 2 + x^4 / 24`.
pub open spec fn cos_o(angle: Option<Fx>) -> Option<Fx> {
    match angle {
        Some(a) => {
            let x = Some(Fx(wrap_pi_spec(a.0)));
            let x2 = mul_o(x, x);
            add_o(
                sub_o(Some(Fx(FX_ONE_BITS)), div_o(x2, Some(Fx(FX_TWO_BITS)))),
                div_o(mul_o(x2, x2), Some(Fx(FX_TWENTY_FOUR_BITS))),
            )
        },
        None => None,
    }
}

/// `v` turned by `angle`.
pub open spec fn rotate_o(v: Option<Vec2Fx>, angle: Option<Fx>) -> Option<Vec2Fx> {
    let s = sin_o(angle);
    let c = cos_o(angle);
    vec_o(sub_o(mul_o(vx(v), c), mul_o(vy(v), s)), add_o(mul_o(vx(v), s), mul_o(vy(v), c)))
}

fn sin_cos(angle: Fx) -> (r: Option<(Fx, Fx)>)
    ensures
        r matches Some(sc) ==> Some(sc.0) == sin_o(Some(angle)) && Some(sc.1) == cos_o(Some(angle)),
        r is None ==> sin_o(Some(angle)) is None || cos_o(Some(angle)) is None,
{
    let x = wrap_pi(angle);
    let x2 = ck_mul(x, x)?;
    let sixth = ck_div(x2, Fx(FX_SIX_BITS))?;
    let sin_rest = ck_sub(Fx(FX_ONE_BITS), sixth)?;
    let sin = ck_mul(x, sin_rest)?;
    let half = ck_div(x2, Fx(FX_TWO_BITS))?;
    let x4 = ck_mul(x2, x2)?;
    let quarter = ck_div(x4, Fx(FX_TWENTY_FOUR_BITS))?;
    let head = ck_sub(Fx(FX_ONE_BITS), half)?;
    let cos = ck_add(head, quarter)?;
    Some((sin, cos))
}

fn rotate(v: Vec2Fx, angle: Fx) -> (r: Option<Vec2Fx>)
    ensures
        r == rotate_o(Some(v), Some(angle)),
{
    let (s, c) = sin_cos(angle)?;
    let xc = ck_mul(v.x, c)?;
    let ys = ck_mul(v.y, s)?;
    let x = ck_sub(xc, ys)?;
    let xs = ck_mul(v.x, s)?;
    let yc = ck_mul(v.y, c)?;
    let y = ck_add(xs, yc)?;
    Some(Vec2Fx { x, y })
}

// ---------------------------------------------------------------------------
// Noise.

/// The blue-noise tile at the integer part of `st`, as a fraction: the
/// tile's byte over 256.
pub open spec fn blue_noise01_o(t: DitherTables, st: Option<Vec2Fx>) -> Option<Fx> {
    match st {
        Some(s) => Some(
            Fx(
                ((blue_noise_cell(t.blue_noise_32@, (s.x.0 >> 16u32) as int, (s.y.0 >> 16u32) as int) as int)
                    * 256) as i32,
            ),
        ),
        None => None,
    }
}

/// The rest of a fractal sum of `n` blue-noise octaves: each adds the
/// noise at `p` weighted by `amp`, then turns `p` by one half radian,
/// doubles it and moves it on, and halves `amp`. The sum is clamped to
/// `[0, 1]`.
pub open spec fn fbm_steps(t: DitherTables, n: nat, value: Fx, amp: Fx, p: Vec2Fx) -> Option<Fx>
    decreases n,
{
    if n == 0 {
        clamp01_o(Some(value))
    } else {
        let value2 = add_o(Some(value), mul_o(Some(amp), blue_noise01_o(t, Some(p))));
        let c = Some(Fx(NOISE_ROT_COS_BITS));
        let s = Some(Fx(NOISE_ROT_SIN_BITS));
        let xr = add_o(mul_o(Some(p.x), c), mul_o(Some(p.y), s));
        let yr = add_o(mul_o(neg_o(Some(p.x)), s), mul_o(Some(p.y), c));
        let p2 = vec_o(
            add_o(mul_o(xr, Some(Fx(FX_TWO_BITS))), Some(Fx(FX_HUNDRED_BITS))),
            add_o(mul_o(yr, Some(Fx(FX_TWO_BITS))), Some(Fx(FX_FORTY_BITS))),
        );
        let amp2 = mul_o(Some(amp), Some(Fx(FX_HALF_BITS)));
        match (value2, amp2, p2) {
            (Some(v), Some(a), Some(q)) => fbm_steps(t, (n - 1) as nat, v, a, q),
            _ => None,
        }
    }
}

/// Four octaves of blue noise at `p`.
pub open spec fn fbm_o(t: DitherTables, p: Option<Vec2Fx>) -> Option<Fx> {
    match p {
        Some(p) => fbm_steps(t, 4, Fx(0), Fx(FX_HALF_BITS), p),
        None => None,
    }
}

/// Hashed grain at `st`: the point quantized to a fine grid, hashed, and
/// the hash's top sixteen bits taken as a fraction.
pub open spec fn random01_o(st: Option<Vec2Fx>) -> Option<Fx> {
    match (mul_o(vx(st), Some(Fx(GRAIN_QUANTUM_BITS))), mul_o(vy(st), Some(Fx(GRAIN_QUANTUM_BITS)))) {
        (Some(a), Some(b)) => Some(Fx((hash_xy_spec(a.0 >> 16u32, b.0 >> 16u32, GRAIN_HASH_SEED) / 65536) as i32)),
        _ => None,
    }
}

fn blue_noise01(tables: &DitherTables, st: Vec2Fx) -> (r: Fx)
    requires
        tables.wf(),
    ensures
        Some(r) == blue_noise01_o(*tables, Some(st)),
{
    let x = st.x.0 >> 16u32;
    let y = st.y.0 >> 16u32;
    let cell = blue_noise_threshold_u8(x, y, tables);
    Fx((cell as i32) * 256)
}

fn blue_noise_fbm(tables: &DitherTables, p0: Vec2Fx) -> (r: Option<Fx>)
    requires
        tables.wf(),
    ensures
        r == fbm_o(*tables, Some(p0)),
{
    let mut value = Fx(0);
    let mut amp = Fx(FX_HALF_BITS);
    let mut p = p0;
    let mut i: u32 = 0;
    while i < 4
        invariant
            i <= 4,
            tables.wf(),
            fbm_steps(*tables, (4 - i) as nat, value, amp, p) == fbm_steps(*tables, 4, Fx(0), Fx(FX_HALF_BITS), p0),
        decreases 4 - i,
    {
        let noise = blue_noise01(tables, p);
        let weighted = ck_mul(amp, noise)?;
        value = ck_add(value, weighted)?;
        let xc = ck_mul(p.x, Fx(NOISE_ROT_COS_BITS))?;
        let ys = ck_mul(p.y, Fx(NOISE_ROT_SIN_BITS))?;
        let xr = ck_add(xc, ys)?;
        let nx = ck_neg(p.x)?;
        let xs = ck_mul(nx, Fx(NOISE_ROT_SIN_BITS))?;
        let yc = ck_mul(p.y, Fx(NOISE_ROT_COS_BITS))?;
        let yr = ck_add(xs, yc)?;
        let x2 = ck_mul(xr, Fx(FX_TWO_BITS))?;
        let y2 = ck_mul(yr, Fx(FX_TWO_BITS))?;
        let px = ck_add(x2, Fx(FX_HUNDRED_BITS))?;
        let py = ck_add(y2, Fx(FX_FORTY_BITS))?;
        p = Vec2Fx { x: px, y: py };
        amp = ck_mul(amp, Fx(FX_HALF_BITS))?;
        i = i + 1;
    }
    Some(clamp01(value))
}

fn random01(st: Vec2Fx) -> (r: Option<Fx>)
    ensures
        r == random01_o(Some(st)),
{
    let a = ck_mul(st.x, Fx(GRAIN_QUANTUM_BITS))?;
    let b = ck_mul(st.y, Fx(GRAIN_QUANTUM_BITS))?;
    let h = hash_xy(a.0 >> 16u32, b.0 >> 16u32, GRAIN_HASH_SEED);
    Some(Fx(hash_to_unit01_bits(h)))
}

// ---------------------------------------------------------------------------
// Ink and operators.

/// The shade of ink at `p` inside a drop of `radius`, `dist_sq` from its
/// center: the drop's edge softened and frayed by fibrous noise, its body
/// clouded and grained, a darker rim, all blended from paper to ink.
pub open spec fn shade_black_drop_o(m: SceneModel, p: Vec2Fx, radius: Fx, dist_sq: Fx) -> Option<Fx> {
    let one = Some(Fx(FX_ONE_BITS));
    let dist = sqrt_o(max_o(Some(dist_sq), Some(Fx(0))));
    let norm_dist = div_o(dist, max_o(Some(radius), Some(Fx(FX_EPSILON_BITS))));
    let fibers = fbm_o(m.tables, vscale_o(Some(p), Some(Fx(FX_TWENTY_BITS))));
    let perturbed = add_o(norm_dist, mul_o(Some(m.sumi.fiber_strength), sub_o(fibers, Some(Fx(FX_HALF_BITS)))));
    let alpha = smoothstep_edges_o(one, sub_o(one, Some(m.sumi.edge_softness)), perturbed);
    let cloud = fbm_o(m.tables, vscale_o(Some(p), Some(Fx(FX_SIX_BITS))));
    let grain = blue_noise01_o(m.tables, vscale_o(Some(p), Some(Fx(FX_HUNDRED_FIFTY_BITS))));
    let density = lerp_o(cloud, grain, Some(m.sumi.ink_grain));
    let rim = mul_o(
        smoothstep_edges_o(Some(Fx(0)), Some(Fx(FX_0_15_BITS)), perturbed),
        smoothstep_edges_o(one, Some(Fx(FX_0_9_BITS)), perturbed),
    );
    let density = add_o(density, mul_o(Some(m.sumi.rim_strength), rim));
    let density = clamp01_o(add_o(Some(Fx(FX_0_45_BITS)), mul_o(Some(Fx(FX_0_55_BITS)), density)));
    lerp_o(Some(m.paper_luma), Some(m.ink_luma), mul_o(alpha, density))
}

fn shade_black_drop(scene: &MarblingScene, p: Vec2Fx, radius: Fx, dist_sq: Fx) -> (r: Option<Fx>)
    requires
        scene.tables.wf(),
    ensures
        r == shade_black_drop_o(scene@, p, radius, dist_sq),
{
    let one = Fx(FX_ONE_BITS);
    let dist = sqrt_fx(max_fx(dist_sq, Fx(0)));
    let norm_dist = ck_div(dist, max_fx(radius, Fx(FX_EPSILON_BITS)))?;
    let fiber_p = ck_vscale(p, Fx(FX_TWENTY_BITS))?;
    let fibers = blue_noise_fbm(&scene.tables, fiber_p)?;
    let centered = ck_sub(fibers, Fx(FX_HALF_BITS))?;
    let fray = ck_mul(scene.sumi.fiber_strength, centered)?;
    let perturbed = ck_add(norm_dist, fray)?;
    let inner_edge = ck_sub(one, scene.sumi.edge_softness)?;
    let alpha = smoothstep_edges(one, inner_edge, perturbed)?;
    let cloud_p = ck_vscale(p, Fx(FX_SIX_BITS))?;
    let cloud = blue_noise_fbm(&scene.tables, cloud_p)?;
    let grain_p = ck_vscale(p, Fx(FX_HUNDRED_FIFTY_BITS))?;
    let grain = blue_noise01(&scene.tables, grain_p);
    let density = lerp(cloud, grain, scene.sumi.ink_grain)?;
    let rim_in = smoothstep_edges(Fx(0), Fx(FX_0_15_BITS), perturbed)?;
    let rim_out = smoothstep_edges(one, Fx(FX_0_9_BITS), perturbed)?;
    let rim = ck_mul(rim_in, rim_out)?;
    let rim_ink = ck_mul(scene.sumi.rim_strength, rim)?;
    let density = ck_add(density, rim_ink)?;
    let scaled = ck_mul(Fx(FX_0_55_BITS), density)?;
    let lifted = ck_add(Fx(FX_0_45_BITS), scaled)?;
    let density = clamp01(lifted);
    let coverage = ck_mul(alpha, density)?;
    lerp(scene.paper_luma, scene.ink_luma, coverage)
}

/// What an operator does to a sample point when it is undone: the point
/// lies under a drop and takes a shade, or it moves on.
#[derive(Clone, Copy, Debug, PartialEq, Eq, Structural)]
pub enum Shade {
    Covered(Fx),
    Moved(Vec2Fx),
}

/// An operator's center on the shading plane (x stretched by the aspect
/// ratio).
pub open spec fn center_o(m: SceneModel, c: Vec2Fx) -> Option<Vec2Fx> {
    vec_o(mul_o(Some(c.x), Some(m.aspect)), Some(c.y))
}

/// Undoing a drop at `p`: inside its radius the point takes the drop's
/// ink (or bare paper); farther than the smallest step from its center it
/// is pulled back toward the center, as the drop pushed it out.
pub open spec fn drop_step_o(m: SceneModel, d: DropOperator, p: Vec2Fx) -> Option<Shade> {
    let center = center_o(m, d.center);
    let v = vsub_o(Some(p), center);
    let dist_sq = dot_o(v, v);
    let r_sq = mul_o(Some(d.radius), Some(d.radius));
    match (center, v, dist_sq, r_sq) {
        (Some(c), Some(vv), Some(ds), Some(rs)) => if ds.0 < rs.0 {
            if d.ink_on {
                match shade_black_drop_o(m, p, d.radius, ds) {
                    Some(g) => Some(Shade::Covered(g)),
                    None => None,
                }
            } else {
                Some(Shade::Covered(m.paper_luma))
            }
        } else if ds.0 > FX_EPSILON_BITS {
            let inner = max_o(sub_o(Some(Fx(FX_ONE_BITS)), div_o(Some(rs), Some(ds))), Some(Fx(0)));
            match vadd_o(Some(c), vscale_o(Some(vv), sqrt_o(inner))) {
                Some(q) => Some(Shade::Moved(q)),
                None => None,
            }
        } else {
            Some(Shade::Moved(p))
        },
        _ => None,
    }
}

/// Undoing a swirl at `p`: within its radius the point turns back by the
/// swirl's strength times the square of how far inside it lies.
pub open spec fn swirl_step_o(m: SceneModel, w: SwirlOperator, p: Vec2Fx) -> Option<Shade> {
    let center = center_o(m, w.center);
    let v = vsub_o(Some(p), center);
    let dist = norm_o(v);
    match (center, v, dist) {
        (Some(c), Some(vv), Some(dd)) => if dd.0 < w.radius.0 {
            let pct = div_o(sub_o(Some(w.radius), dist), Some(w.radius));
            let angle = mul_o(mul_o(Some(w.strength), pct), pct);
            match vadd_o(Some(c), rotate_o(Some(vv), neg_o(angle))) {
                Some(q) => Some(Shade::Moved(q)),
                None => None,
            }
        } else {
            Some(Shade::Moved(p))
        },
        _ => None,
    }
}

/// Undoing a flow comb at `p`: within its radius of the comb's line the
/// point is drawn back along the comb's direction.
pub open spec fn comb_step_o(m: SceneModel, f: FlowCombOperator, p: Vec2Fx) -> Option<Shade> {
    let center = center_o(m, f.center);
    let v = vsub_o(Some(p), center);
    let perp = vec_o(neg_o(Some(f.dir.y)), Some(f.dir.x));
    let dist = abs_o(dot_o(v, perp));
    match (center, v, dist) {
        (Some(c), Some(vv), Some(dd)) => if dd.0 < f.radius.0 {
            let pct = div_o(sub_o(Some(f.radius), dist), Some(f.radius));
            let disp = mul_o(mul_o(Some(f.strength), pct), pct);
            match vsub_o(Some(p), vscale_o(Some(f.dir), disp)) {
                Some(q) => Some(Shade::Moved(q)),
                None => None,
            }
        } else {
            Some(Shade::Moved(p))
        },
        _ => None,
    }
}

pub open spec fn op_step_o(m: SceneModel, op: Operator, p: Vec2Fx) -> Option<Shade> {
    match op {
        Operator::Drop(d) => drop_step_o(m, d, p),
        Operator::Swirl(w) => swirl_step_o(m, w, p),
        Operator::FlowComb(f) => comb_step_o(m, f, p),
    }
}

fn center_of(scene: &MarblingScene, c: Vec2Fx) -> (r: Option<Vec2Fx>)
    ensures
        r == center_o(scene@, c),
{
    let x = ck_mul(c.x, scene.aspect)?;
    Some(Vec2Fx { x, y: c.y })
}

fn drop_step(scene: &MarblingScene, d: DropOperator, p: Vec2Fx) -> (r: Option<Shade>)
    requires
        scene.tables.wf(),
    ensures
        r == drop_step_o(scene@, d, p),
{
    let center = center_of(scene, d.center)?;
    let v = ck_vsub(p, center)?;
    let dist_sq = ck_dot(v, v)?;
    let r_sq = ck_mul(d.radius, d.radius)?;
    if dist_sq.0 < r_sq.0 {
        if d.ink_on {
            let g = shade_black_drop(scene, p, d.radius, dist_sq)?;
            Some(Shade::Covered(g))
        } else {
            Some(Shade::Covered(scene.paper_luma))
        }
    } else if dist_sq.0 > FX_EPSILON_BITS {
        let ratio = ck_div(r_sq, dist_sq)?;
        let rest = ck_sub(Fx(FX_ONE_BITS), ratio)?;
        let factor = sqrt_fx(max_fx(rest, Fx(0)));
        let pulled = ck_vscale(v, factor)?;
        let q = ck_vadd(center, pulled)?;
        Some(Shade::Moved(q))
    } else {
        Some(Shade::Moved(p))
    }
}

fn swirl_step(scene: &MarblingScene, w: SwirlOperator, p: Vec2Fx) -> (r: Option<Shade>)
    ensures
        r == swirl_step_o(scene@, w, p),
{
    let center = center_of(scene, w.center)?;
    let v = ck_vsub(p, center)?;
    let dist = ck_norm(v)?;
    if dist.0 < w.radius.0 {
        let inside = ck_sub(w.radius, dist)?;
        let pct = ck_div(inside, w.radius)?;
        let sp = ck_mul(w.strength, pct)?;
        let angle = ck_mul(sp, pct)?;
        let back = ck_neg(angle)?;
        let turned = rotate(v, back)?;
        let q = ck_vadd(center, turned)?;
        Some(Shade::Moved(q))
    } else {
        Some(Shade::Moved(p))
    }
}

fn comb_step(scene: &MarblingScene, f: FlowCombOperator, p: Vec2Fx) -> (r: Option<Shade>)
    ensures
        r == comb_step_o(scene@, f, p),
{
    let center = center_of(scene, f.center)?;
    let v = ck_vsub(p, center)?;
    let px = ck_neg(f.dir.y)?;
    let perp = Vec2Fx { x: px, y: f.dir.x };
    let along = ck_dot(v, perp)?;
    let dist = ck_abs(along)?;
    if dist.0 < f.radius.0 {
        let inside = ck_sub(f.radius, dist)?;
        let pct = ck_div(inside, f.radius)?;
        let sp = ck_mul(f.strength, pct)?;
        let disp = ck_mul(sp, pct)?;
        let shift = ck_vscale(f.dir, disp)?;
        let q = ck_vsub(p, shift)?;
        Some(Shade::Moved(q))
    } else {
        Some(Shade::Moved(p))
    }
}

fn op_step(scene: &MarblingScene, op: Operator, p: Vec2Fx) -> (r: Option<Shade>)
    requires
        scene.tables.wf(),
    ensures
        r == op_step_o(scene@, op, p),
{
    match op {
        Operator::Drop(d) => drop_step(scene, d, p),
        Operator::Swirl(w) => swirl_step(scene, w, p),
        Operator::FlowComb(f) => comb_step(scene, f, p),
    }
}

// ---------------------------------------------------------------------------
// A sample point.

/// The operators undone from the `k`th down to the first, until a drop
/// covers the point.
pub open spec fn apply_ops(m: SceneModel, k: nat, p: Vec2Fx) -> Option<Shade>
    decreases k,
{
    if k == 0 {
        Some(Shade::Moved(p))
    } else {
        match op_step_o(m, m.ops[k - 1], p) {
            Some(Shade::Moved(q)) => apply_ops(m, (k - 1) as nat, q),
            other => other,
        }
    }
}

/// The finished inverse luminance: paper stays exactly the paper's shade;
/// anything darker loses the paper grain hashed at `st`, clamped to
/// `[0, 1]`.
pub open spec fn finish_o(m: SceneModel, st: Vec2Fx, gray: Fx) -> Option<Fx> {
    match sub_o(Some(m.paper_luma), Some(Fx(FX_EPSILON_BITS))) {
        Some(t) => if gray.0 < t.0 {
            let grain = mul_o(random01_o(vscale_o(Some(st), Some(m.grain_scale))), Some(m.grain_strength));
            clamp01_o(sub_o(Some(gray), grain))
        } else {
            Some(m.paper_luma)
        },
        None => None,
    }
}

/// The scene's inverse luminance at `p` (`st` being the same point in
/// unit coordinates): every operator undone from the last to the first
/// until a drop covers the point, else bare paper.
pub open spec fn inverse_luma_o(m: SceneModel, st: Vec2Fx, p: Vec2Fx) -> Option<Fx> {
    match apply_ops(m, m.ops.len(), p) {
        Some(Shade::Covered(g)) => finish_o(m, st, g),
        Some(Shade::Moved(_)) => finish_o(m, st, m.paper_luma),
        None => None,
    }
}

/// Untouched paper stays exactly the paper's shade: where every operator
/// only moves a point and no drop covers it, the point's inverse
/// luminance is the paper's, with no grain.
pub proof fn lemma_uncovered_point_is_paper(m: SceneModel, st: Vec2Fx, p: Vec2Fx)
    requires
        apply_ops(m, m.ops.len(), p) matches Some(Shade::Moved(_)),
        i32::MIN + FX_EPSILON_BITS <= m.paper_luma.0,
    ensures
        inverse_luma_o(m, st, p) == Some(m.paper_luma),
{
}

/// A scene without operators covers and moves no point.
pub proof fn lemma_blank_scene_leaves_points(m: SceneModel, p: Vec2Fx)
    requires
        m.ops.len() == 0,
    ensures
        apply_ops(m, m.ops.len(), p) == Some(Shade::Moved(p)),
{
}

fn apply_operators(scene: &MarblingScene, p0: Vec2Fx) -> (r: Option<Shade>)
    requires
        scene.tables.wf(),
    ensures
        r == apply_ops(scene@, scene@.ops.len(), p0),
{
    let mut k = scene.ops.len();
    let mut p = p0;
    while k > 0
        invariant
            k <= scene.ops@.len(),
            scene.tables.wf(),
            apply_ops(scene@, k as nat, p) == apply_ops(scene@, scene@.ops.len(), p0),
        decreases k,
    {
        match op_step(scene, scene.ops.get(k - 1), p) {
            Some(Shade::Moved(q)) => {
                p = q;
                k = k - 1;
            },
            other => {
                return other;
            },
        }
    }
    Some(Shade::Moved(p))
}

fn finish(scene: &MarblingScene, st: Vec2Fx, gray: Fx) -> (r: Option<Fx>)
    ensures
        r == finish_o(scene@, st, gray),
{
    let t = ck_sub(scene.paper_luma, Fx(FX_EPSILON_BITS))?;
    if gray.0 < t.0 {
        let grain_st = ck_vscale(st, scene.grain_scale)?;
        let noise = random01(grain_st)?;
        let grain = ck_mul(noise, scene.grain_strength)?;
        let grained = ck_sub(gray, grain)?;
        Some(clamp01(grained))
    } else {
        Some(scene.paper_luma)
    }
}

fn inverse_luma(scene: &MarblingScene, st: Vec2Fx, p: Vec2Fx) -> (r: Option<Fx>)
    requires
        scene.tables.wf(),
    ensures
        r == inverse_luma_o(scene@, st, p),
{
    match apply_operators(scene, p)? {
        Shade::Covered(g) => finish(scene, st, g),
        Shade::Moved(_) => finish(scene, st, scene.paper_luma),
    }
}

// ---------------------------------------------------------------------------
// Pixels.

/// Samples per pixel.
pub open spec fn sample_count_spec(mode: RgssMode) -> int {
    match mode {
        RgssMode::X1 => 1,
        RgssMode::X4 => 4,
        RgssMode::X8 => 8,
    }
}

/// The `i`th rotated-grid sample of a pixel, as its offset from the
/// pixel's corner in fractions of a pixel.
pub open spec fn rgss_offset_bits(mode: RgssMode, i: int) -> (i32, i32) {
    match mode {
        RgssMode::X1 => (32_768, 32_768),
        RgssMode::X4 => if i == 0 {
            (8_192, 24_576)
        } else if i == 1 {
            (24_576, 57_344)
        } else if i == 2 {
            (40_960, 8_192)
        } else {
            (57_344, 40_960)
        },
        RgssMode::X8 => if i == 0 {
            (4_096, 36_864)
        } else if i == 1 {
            (12_288, 4_096)
        } else if i == 2 {
            (20_480, 53_248)
        } else if i == 3 {
            (28_672, 20_480)
        } else if i == 4 {
            (36_864, 61_440)
        } else if i == 5 {
            (45_056, 28_672)
        } else if i == 6 {
            (53_248, 45_056)
        } else {
            (61_440, 12_288)
        },
    }
}

pub open spec fn rgss_offset(mode: RgssMode, i: int) -> Vec2Fx {
    Vec2Fx { x: Fx(rgss_offset_bits(mode, i).0), y: Fx(rgss_offset_bits(mode, i).1) }
}

fn rgss_offset_at(mode: RgssMode, i: usize) -> (r: Vec2Fx)
    ensures
        r == rgss_offset(mode, i as int),
{
    let (x, y): (i32, i32) = match mode {
        RgssMode::X1 => (32_768, 32_768),
        RgssMode::X4 => if i == 0 {
            (8_192, 24_576)
        } else if i == 1 {
            (24_576, 57_344)
        } else if i == 2 {
            (40_960, 8_192)
        } else {
            (57_344, 40_960)
        },
        RgssMode::X8 => if i == 0 {
            (4_096, 36_864)
        } else if i == 1 {
            (12_288, 4_096)
        } else if i == 2 {
            (20_480, 53_248)
        } else if i == 3 {
            (28_672, 20_480)
        } else if i == 4 {
            (36_864, 61_440)
        } else if i == 5 {
            (45_056, 28_672)
        } else if i == 6 {
            (53_248, 45_056)
        } else {
            (61_440, 12_288)
        },
    };
    Vec2Fx { x: Fx(x), y: Fx(y) }
}

/// Pixel `(x, y)` plus `off`, in unit coordinates (`st`, over the scene's
/// size, each side at least one) and on the shading plane (`p`, x
/// stretched by the aspect ratio).
pub open spec fn shader_point_o(m: SceneModel, x: i32, y: i32, off: Vec2Fx) -> Option<(Vec2Fx, Vec2Fx)> {
    let w = Fx((if m.width >= 1 { m.width } else { 1 }) << 16u32);
    let h = Fx((if m.height >= 1 { m.height } else { 1 }) << 16u32);
    let st = vec_o(
        div_o(add_o(Some(Fx(x << 16u32)), Some(off.x)), Some(w)),
        div_o(add_o(Some(Fx(y << 16u32)), Some(off.y)), Some(h)),
    );
    let p = vec_o(mul_o(vx(st), Some(m.aspect)), vy(st));
    match (st, p) {
        (Some(s), Some(q)) => Some((s, q)),
        _ => None,
    }
}

/// The inverse luminance of one sample of pixel `(x, y)`.
#[verifier::opaque]
pub open spec fn sample_at_o(m: SceneModel, x: i32, y: i32, off: Vec2Fx) -> Option<Fx> {
    match shader_point_o(m, x, y, off) {
        Some((st, p)) => inverse_luma_o(m, st, p),
        None => None,
    }
}

/// The running sum of a pixel's samples from the `i`th on, `acc` the sum
/// so far.
pub open spec fn gray_sum_from(m: SceneModel, x: i32, y: i32, rgss: RgssMode, i: nat, acc: Fx) -> Option<Fx>
    decreases sample_count_spec(rgss) - i,
{
    if i >= sample_count_spec(rgss) {
        Some(acc)
    } else {
        match add_o(Some(acc), sample_at_o(m, x, y, rgss_offset(rgss, i as int))) {
            Some(a) => gray_sum_from(m, x, y, rgss, i + 1, a),
            None => None,
        }
    }
}

/// The gray of pixel `(x, y)`: the mean of its samples' inverse
/// luminance.
#[verifier::opaque]
pub open spec fn pixel_gray_o(m: SceneModel, x: i32, y: i32, rgss: RgssMode) -> Option<Fx> {
    match gray_sum_from(m, x, y, rgss, 0, Fx(0)) {
        Some(sum) => div_o(Some(sum), Some(Fx((sample_count_spec(rgss) * 65536) as i32))),
        None => None,
    }
}

/// Shading pixel `(x, y)` goes through without a fixed-point panic.
pub open spec fn shade_ok(m: SceneModel, x: i32, y: i32, rgss: RgssMode) -> bool {
    pixel_gray_o(m, x, y, rgss) is Some
}

/// The 4-bit level of pixel `(x, y)`: its gray clamped to `[0, 1]`, times
/// fifteen, plus the pixel's dither threshold as a fraction, rounded down
/// and kept to `0..=15`.
pub open spec fn gray4_level_spec(m: SceneModel, x: i32, y: i32, rgss: RgssMode, dither: DitherMode) -> u8 {
    let g = clamp01_o(pixel_gray_o(m, x, y, rgss));
    let level = fx_mul_spec(g->0, Fx(FX_FIFTEEN_BITS)) + dither_threshold(m.tables, x, y, dither) as int * 256;
    gray4_level(level / 65536)
}

/// Whether pixel `(x, y)` is black: one bit straight from the gray below
/// the dither threshold, or the 4-bit level above the threshold's top four
/// bits.
pub open spec fn binary_pixel_spec(
    m: SceneModel,
    x: i32,
    y: i32,
    rgss: RgssMode,
    mode: RenderMode,
    dither: DitherMode,
) -> bool {
    match mode {
        RenderMode::Mono1 => (pixel_gray_o(m, x, y, rgss)->0).0 < dither_threshold(m.tables, x, y, dither) as int
            * 256,
        RenderMode::Gray4 => gray4_level_spec(m, x, y, rgss, dither) > dither_threshold(m.tables, x, y, dither) / 16,
    }
}

fn shader_point(scene: &MarblingScene, x: i32, y: i32, off: Vec2Fx) -> (r: Option<(Vec2Fx, Vec2Fx)>)
    ensures
        r == shader_point_o(scene@, x, y, off),
{
    let w = Fx((if scene.width >= 1 { scene.width } else { 1 }) << 16u32);
    let h = Fx((if scene.height >= 1 { scene.height } else { 1 }) << 16u32);
    let sx = ck_add(Fx(x << 16u32), off.x)?;
    let sy = ck_add(Fx(y << 16u32), off.y)?;
    let st = Vec2Fx { x: ck_div(sx, w)?, y: ck_div(sy, h)? };
    let px = ck_mul(st.x, scene.aspect)?;
    Some((st, Vec2Fx { x: px, y: st.y }))
}

fn sample_at(scene: &MarblingScene, x: i32, y: i32, off: Vec2Fx) -> (r: Option<Fx>)
    requires
        scene.tables.wf(),
    ensures
        r == sample_at_o(scene@, x, y, off),
{
    reveal(sample_at_o);
    let (st, p) = shader_point(scene, x, y, off)?;
    inverse_luma(scene, st, p)
}

fn gray_sum(scene: &MarblingScene, x: i32, y: i32, rgss: RgssMode) -> (r: Option<Fx>)
    requires
        scene.tables.wf(),
    ensures
        r == gray_sum_from(scene@, x, y, rgss, 0, Fx(0)),
{
    let count = rgss.sample_count();
    let mut sum = Fx(0);
    let mut i: usize = 0;
    while i < count
        invariant
            count == sample_count_spec(rgss),
            i <= count,
            scene.tables.wf(),
            gray_sum_from(scene@, x, y, rgss, i as nat, sum) == gray_sum_from(scene@, x, y, rgss, 0, Fx(0)),
        decreases count - i,
    {
        let luma = sample_at(scene, x, y, rgss_offset_at(rgss, i))?;
        sum = ck_add(sum, luma)?;
        i = i + 1;
    }
    Some(sum)
}

fn pixel_gray(scene: &MarblingScene, x: i32, y: i32, rgss: RgssMode) -> (r: Option<Fx>)
    requires
        scene.tables.wf(),
    ensures
        r == pixel_gray_o(scene@, x, y, rgss),
{
    reveal(pixel_gray_o);
    let count = rgss.sample_count();
    let sum = gray_sum(scene, x, y, rgss)?;
    ck_div(sum, Fx((count as i32) * 65536))
}

/// Whether shading pixel `(x, y)` goes through: the test to make before
/// sampling it.
pub fn pixel_shades(scene: &MarblingScene, x: i32, y: i32, rgss: RgssMode) -> (r: bool)
    requires
        scene.tables.wf(),
    ensures
        r == shade_ok(scene@, x, y, rgss),
{
    pixel_gray(scene, x, y, rgss).is_some()
}

/// The 4-bit gray level of pixel `(x, y)`.
pub fn sample_gray4_level(scene: &MarblingScene, x: i32, y: i32, rgss: RgssMode, dither: DitherMode) -> (r: u8)
    requires
        scene.tables.wf(),
        shade_ok(scene@, x, y, rgss),
    ensures
        r == gray4_level_spec(scene@, x, y, rgss, dither),
        r < 16,
{
    let g = clamp01(pixel_gray(scene, x, y, rgss).unwrap());
    let t = dither_threshold_bits(x, y, dither, &scene.tables);
    proof {
        assert(0 <= g.0 * FX_FIFTEEN_BITS <= 0x1_0000 * 0xF_0000) by (nonlinear_arith)
            requires
                0 <= g.0 <= 0x1_0000,
        ;
    }
    let scaled = fx_mul(g, Fx(FX_FIFTEEN_BITS));
    proof {
        let gb: i32 = g.0;
        let prod: i64 = (gb * FX_FIFTEEN_BITS) as i64;
        assert(0 <= (prod >> 16u32) <= 0x10_0000) by (bit_vector)
            requires
                0 <= prod <= 0x1_0000 * 0xF_0000,
        ;
    }
    let level_bits = scaled.0 + t;
    let level = level_bits >> 16u32;
    assert(level == level_bits / 65536) by (bit_vector)
        requires
            level == level_bits >> 16u32,
            level_bits >= 0,
    ;
    clamp_gray4_level(level)
}

/// Whether pixel `(x, y)` is black under `mode`.
pub fn sample_binary_pixel(
    scene: &MarblingScene,
    x: i32,
    y: i32,
    rgss: RgssMode,
    mode: RenderMode,
    dither: DitherMode,
) -> (r: bool)
    requires
        scene.tables.wf(),
        shade_ok(scene@, x, y, rgss),
    ensures
        r == binary_pixel_spec(scene@, x, y, rgss, mode, dither),
{
    match mode {
        RenderMode::Mono1 => {
            let gray = pixel_gray(scene, x, y, rgss).unwrap();
            gray.0 < dither_threshold_bits(x, y, dither, &scene.tables)
        },
        RenderMode::Gray4 => {
            let level = sample_gray4_level(scene, x, y, rgss, dither);
            gray4_pixel_on(level, dither_threshold_u8(x, y, dither, &scene.tables))
        },
    }
}

} // verus!
