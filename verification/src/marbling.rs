//! The marbling scene: 16.16 fixed-point numbers as raw bits, with the
//! arithmetic of the `fixed` crate's `I16F16`, plane vectors, the list of
//! marbling operators a scene applies (ink drops, swirls and flow combs),
//! and the seeded generator that builds a scene. Sampling the scene is the
//! shader's work.
//!
//! Each operation is stated on the inputs on which `I16F16` does not panic
//! in a debug build: there its result is exactly the one given here.
use vstd::prelude::*;

use fixed::types::I16F16;
use fixed_sqrt::FastSqrt;
use heapless::Vec as BoundedVec;

use crate::graphics::{mulberry_output, mulberry_state_after, DitherTables, Mulberry32, MULBERRY_STEP};

verus! {

/// A 16.16 fixed-point number, by its raw bits: the value is `bits / 65536`.
#[derive(Clone, Copy, Debug, PartialEq, Eq, Structural)]
pub struct Fx(pub i32);

/// The fixed-point number `v` (its integer part shifted into place, as
/// `I16F16::from_bits(v << 16)`; bits shifted out are lost).
pub open spec fn fx_int_spec(v: i32) -> i32 {
    v << 16u32
}

/// `a + b` of two fixed-point numbers.
pub fn fx_add(a: Fx, b: Fx) -> (r: Fx)
    requires
        i32::MIN <= a.0 + b.0 <= i32::MAX,
    ensures
        r.0 == a.0 + b.0,
{
    Fx(a.0 + b.0)
}

/// `a - b` of two fixed-point numbers.
pub fn fx_sub(a: Fx, b: Fx) -> (r: Fx)
    requires
        i32::MIN <= a.0 - b.0 <= i32::MAX,
    ensures
        r.0 == a.0 - b.0,
{
    Fx(a.0 - b.0)
}

/// `I16F16` multiplies in 64 bits, `a` times `b` shifted left 16, and keeps
/// the upper 32 bits; a debug build panics only when that 64-bit product
/// overflows.
pub open spec fn fx_mul_ok(a: Fx, b: Fx) -> bool {
    -0x8000_0000_0000 <= a.0 * b.0 < 0x8000_0000_0000
}

/// The product: the exact product of the bits, floored to 16 fraction bits
/// and kept to its low 32 bits.
pub open spec fn fx_mul_spec(a: Fx, b: Fx) -> i32 {
    (((a.0 * b.0) as i64) >> 16u32) as i32
}

/// `a * b` of two fixed-point numbers.
pub fn fx_mul(a: Fx, b: Fx) -> (r: Fx)
    requires
        fx_mul_ok(a, b),
    ensures
        r.0 == fx_mul_spec(a, b),
{
    let p: i64 = (a.0 as i64) * (b.0 as i64);
    Fx((p >> 16u32) as i32)
}

/// Division truncating toward zero, as Rust's integer division.
pub open spec fn trunc_div(a: int, b: int) -> int {
    if (a >= 0) == (b > 0) {
        if a >= 0 { a / b } else { (-a) / (-b) }
    } else {
        if a >= 0 { -(a / (-b)) } else { -((-a) / b) }
    }
}

/// `I16F16` divides `a` shifted left 16 by `b` in 64 bits, truncating; it
/// panics on a zero divisor, and a debug build panics when the quotient
/// does not fit.
pub open spec fn fx_div_ok(a: Fx, b: Fx) -> bool {
    b.0 != 0 && i32::MIN <= trunc_div(a.0 * 65536, b.0 as int) <= i32::MAX
}

/// The quotient `I16F16` forms for `a / b`: `a` shifted left 16 over `b`
/// in 64 bits, truncated toward zero.
pub(crate) fn fx_quotient(a: Fx, b: Fx) -> (q: i64)
    requires
        b.0 != 0,
    ensures
        q == trunc_div(a.0 * 65536, b.0 as int),
{
    let n: i64 = (a.0 as i64) * 65536;
    let d: i64 = b.0 as i64;
    let mag_n: u64 = if n < 0 { (-n) as u64 } else { n as u64 };
    let mag_d: u64 = if d < 0 { (-d) as u64 } else { d as u64 };
    let mag_q: u64 = mag_n / mag_d;
    proof {
        assert(mag_q <= mag_n) by (nonlinear_arith)
            requires
                mag_d >= 1,
                mag_q == mag_n / mag_d,
        ;
    }
    let q: i64 = if (n >= 0) == (d > 0) { mag_q as i64 } else { -(mag_q as i64) };
    proof {
        assert(q == trunc_div(n as int, b.0 as int));
    }
    q
}

/// `a / b` of two fixed-point numbers.
pub fn fx_div(a: Fx, b: Fx) -> (r: Fx)
    requires
        fx_div_ok(a, b),
    ensures
        r.0 == trunc_div(a.0 * 65536, b.0 as int),
{
    Fx(fx_quotient(a, b) as i32)
}

/// The larger of two fixed-point numbers.
pub fn fx_max(a: Fx, b: Fx) -> (r: Fx)
    ensures
        r.0 == (if a.0 >= b.0 { a.0 } else { b.0 }),
{
    if a.0 >= b.0 {
        a
    } else {
        b
    }
}

/// The integer part, rounded down (`floor` then `to_num::<i32>()`).
pub fn fx_floor_int(a: Fx) -> (r: i32)
    ensures
        r == a.0 >> 16u32,
{
    a.0 >> 16u32
}

/// The integer square root of a non-negative `n`: the `s >= 0` with
/// `s * s <= n < (s + 1) * (s + 1)`.
pub open spec fn isqrt(n: int) -> int {
    choose|s: int| is_isqrt(n, s)
}

/// `s` is the integer square root of `n`.
pub open spec fn is_isqrt(n: int, s: int) -> bool {
    0 <= s && s * s <= n < (s + 1) * (s + 1)
}

/// The bits of a product shifted down sixteen places lie within the
/// shifted bounds of the product.
proof fn lemma_shr16_floor(p: i64)
    ensures
        ((p >> 16u32) as int) * 65536 <= p < ((p >> 16u32) as int) * 65536 + 65536,
{
    assert(((p >> 16u32) as int) * 65536 <= p < ((p >> 16u32) as int) * 65536 + 65536) by (bit_vector);
}

/// The square root of a non-negative number as `fixed-sqrt`'s `fast_sqrt`
/// gives it for `I16F16`: the integer square root of the raw bits, moved
/// back into place by eight bits. (It panics on a negative number.)
#[verifier::external_body]
pub(crate) fn fx_sqrt(a: Fx) -> (r: Fx)
    requires
        a.0 >= 0,
    ensures
        r.0 == isqrt(a.0 as int) * 256,
{
    Fx(I16F16::from_bits(a.0).fast_sqrt().to_bits())
}

/// The smallest positive fixed-point step the renderer tells apart from
/// zero, in bits.
pub const FX_EPSILON_BITS: i32 = 16;
/// One half and one, in bits.
pub const FX_HALF_BITS: i32 = 0x8000;
pub const FX_ONE_BITS: i32 = 0x1_0000;
/// The most operators a scene holds.
pub const MAX_OPERATORS: usize = 64;

/// A vector of the shading plane.
#[derive(Clone, Copy, Debug, PartialEq, Eq, Structural)]
pub struct Vec2Fx {
    pub x: Fx,
    pub y: Fx,
}

/// The dot product can be formed without a panic.
pub open spec fn dot_ok(a: Vec2Fx, b: Vec2Fx) -> bool {
    &&& fx_mul_ok(a.x, b.x)
    &&& fx_mul_ok(a.y, b.y)
    &&& i32::MIN <= fx_mul_spec(a.x, b.x) + fx_mul_spec(a.y, b.y) <= i32::MAX
}

pub open spec fn dot_spec(a: Vec2Fx, b: Vec2Fx) -> i32 {
    (fx_mul_spec(a.x, b.x) + fx_mul_spec(a.y, b.y)) as i32
}

/// The length of a vector: zero when its squared length is not positive,
/// else the fixed-point square root of the squared length.
pub open spec fn norm_spec(v: Vec2Fx) -> i32 {
    let n2 = dot_spec(v, v);
    if n2 <= 0 { 0 } else { (isqrt(n2 as int) * 256) as i32 }
}

impl Vec2Fx {
    /// The dot product.
    pub fn dot(self, other: Self) -> (r: Fx)
        requires
            dot_ok(self, other),
        ensures
            r.0 == dot_spec(self, other),
    {
        fx_add(fx_mul(self.x, other.x), fx_mul(self.y, other.y))
    }

    /// The length.
    pub fn norm(self) -> (r: Fx)
        requires
            dot_ok(self, self),
        ensures
            r.0 == norm_spec(self),
    {
        let n2 = self.dot(self);
        if n2.0 <= 0 {
            Fx(0)
        } else {
            fx_sqrt(n2)
        }
    }
}

/// An ink drop: inside its radius the paper takes the drop's ink (or is
/// cleared), outside it pushes the pattern outward.
#[derive(Clone, Copy, Debug, PartialEq, Eq, Structural)]
pub struct DropOperator {
    /// Normalized to `[0, 1]` of the source.
    pub center: Vec2Fx,
    /// Normalized by the height.
    pub radius: Fx,
    pub ink_on: bool,
}

/// A swirl: within its radius the pattern turns, most at the center.
#[derive(Clone, Copy, Debug, PartialEq, Eq, Structural)]
pub struct SwirlOperator {
    pub center: Vec2Fx,
    /// In radians.
    pub strength: Fx,
    pub radius: Fx,
}

/// A flow comb: along a line through its center the pattern is dragged in
/// the comb's direction.
#[derive(Clone, Copy, Debug, PartialEq, Eq, Structural)]
pub struct FlowCombOperator {
    pub center: Vec2Fx,
    /// A unit direction of the shading plane.
    pub dir: Vec2Fx,
    pub strength: Fx,
    pub radius: Fx,
}

#[derive(Clone, Copy, Debug, PartialEq, Eq, Structural)]
pub enum Operator {
    Drop(DropOperator),
    Swirl(SwirlOperator),
    FlowComb(FlowCombOperator),
}

/// The operators of a scene, in the bounded vector of the `heapless` crate,
/// with room for `MAX_OPERATORS`.
#[verifier::external_body]
pub struct OperatorList {
    list: BoundedVec<Operator, MAX_OPERATORS>,
}

/// What an operator list holds, in order.
pub uninterp spec fn listed_ops(l: OperatorList) -> Seq<Operator>;

impl View for OperatorList {
    type V = Seq<Operator>;

    open spec fn view(&self) -> Seq<Operator> {
        listed_ops(*self)
    }
}

impl OperatorList {
    /// `heapless::Vec::new`: an empty list.
    #[verifier::external_body]
    pub(crate) fn new() -> (r: Self)
        ensures
            listed_ops(r) == Seq::<Operator>::empty(),
    {
        OperatorList { list: BoundedVec::new() }
    }

    /// `heapless::Vec::len`: how many operators the list holds, never
    /// more than its room.
    #[verifier::external_body]
    pub(crate) fn len(&self) -> (r: usize)
        ensures
            r == listed_ops(*self).len(),
            r <= MAX_OPERATORS,
    {
        self.list.len()
    }

    /// Indexing a `heapless::Vec` (through its slice): the `i`th operator.
    #[verifier::external_body]
    pub(crate) fn get(&self, i: usize) -> (r: Operator)
        requires
            i < listed_ops(*self).len(),
        ensures
            r == listed_ops(*self)[i as int],
    {
        self.list[i]
    }

    /// `heapless::Vec::push`: appends `op` when there is room, and says
    /// whether it did (`Ok`); a full list is left as it was.
    #[verifier::external_body]
    pub(crate) fn push(&mut self, op: Operator) -> (r: bool)
        ensures
            r == (listed_ops(*old(self)).len() < MAX_OPERATORS),
            r ==> listed_ops(*final(self)) == listed_ops(*old(self)).push(op),
            !r ==> listed_ops(*final(self)) == listed_ops(*old(self)),
    {
        self.list.push(op).is_ok()
    }
}

/// The shading parameters of sumi ink.
#[derive(Clone, Copy, Debug, PartialEq, Eq, Structural)]
pub struct SumiInkParams {
    pub edge_softness: Fx,
    pub fiber_strength: Fx,
    pub ink_grain: Fx,
    pub rim_strength: Fx,
}

/// A scene: its size, paper and ink, and the operators applied in order.
pub struct MarblingScene {
    pub width: i32,
    pub height: i32,
    /// Width over height.
    pub aspect: Fx,
    pub paper_luma: Fx,
    pub ink_luma: Fx,
    pub grain_scale: Fx,
    pub grain_strength: Fx,
    pub sumi: SumiInkParams,
    pub ops: OperatorList,
    pub tables: DitherTables,
}

/// What a scene is, for the contracts: its fields, with the operators as a
/// sequence.
pub struct SceneModel {
    pub width: i32,
    pub height: i32,
    pub aspect: Fx,
    pub paper_luma: Fx,
    pub ink_luma: Fx,
    pub grain_scale: Fx,
    pub grain_strength: Fx,
    pub sumi: SumiInkParams,
    pub ops: Seq<Operator>,
    pub tables: DitherTables,
}

impl View for MarblingScene {
    type V = SceneModel;

    open spec fn view(&self) -> SceneModel {
        SceneModel {
            width: self.width,
            height: self.height,
            aspect: self.aspect,
            paper_luma: self.paper_luma,
            ink_luma: self.ink_luma,
            grain_scale: self.grain_scale,
            grain_strength: self.grain_strength,
            sumi: self.sumi,
            ops: self.ops@,
            tables: self.tables,
        }
    }
}

/// Luminance weights (Rec. 601), in bits.
pub const FX_LUMA_R_BITS: i32 = 19_595;
pub const FX_LUMA_G_BITS: i32 = 38_470;
pub const FX_LUMA_B_BITS: i32 = 7_471;

/// The luminance of a colour whose channels lie in `[0, 1]`.
pub open spec fn luminance_spec(r: Fx, g: Fx, b: Fx) -> i32 {
    (fx_mul_spec(r, Fx(FX_LUMA_R_BITS)) + fx_mul_spec(g, Fx(FX_LUMA_G_BITS)) + fx_mul_spec(b, Fx(FX_LUMA_B_BITS))) as i32
}

/// The luminance of a colour.
pub fn luminance(r: Fx, g: Fx, b: Fx) -> (l: Fx)
    requires
        0 <= r.0 <= FX_ONE_BITS,
        0 <= g.0 <= FX_ONE_BITS,
        0 <= b.0 <= FX_ONE_BITS,
    ensures
        l.0 == luminance_spec(r, g, b),
{
    let rr = fx_mul(r, Fx(FX_LUMA_R_BITS));
    let gg = fx_mul(g, Fx(FX_LUMA_G_BITS));
    let bb = fx_mul(b, Fx(FX_LUMA_B_BITS));
    proof {
        lemma_shr16_floor((r.0 * FX_LUMA_R_BITS) as i64);
        lemma_shr16_floor((g.0 * FX_LUMA_G_BITS) as i64);
        lemma_shr16_floor((b.0 * FX_LUMA_B_BITS) as i64);
        assert(0 <= r.0 * FX_LUMA_R_BITS <= 0x1_0000 * 19_595) by (nonlinear_arith)
            requires
                0 <= r.0 <= 0x1_0000,
        ;
        assert(0 <= g.0 * FX_LUMA_G_BITS <= 0x1_0000 * 38_470) by (nonlinear_arith)
            requires
                0 <= g.0 <= 0x1_0000,
        ;
        assert(0 <= b.0 * FX_LUMA_B_BITS <= 0x1_0000 * 7_471) by (nonlinear_arith)
            requires
                0 <= b.0 <= 0x1_0000,
        ;
    }
    fx_add(fx_add(rr, gg), bb)
}

impl MarblingScene {
    pub open spec fn wf(&self) -> bool {
        self.ops@.len() <= MAX_OPERATORS
    }

    /// Everything but the operators is the same as in `other`.
    pub open spec fn same_setup(&self, other: Self) -> bool {
        &&& self.width == other.width && self.height == other.height
        &&& self.aspect == other.aspect
        &&& self.paper_luma == other.paper_luma && self.ink_luma == other.ink_luma
        &&& self.grain_scale == other.grain_scale && self.grain_strength == other.grain_strength
        &&& self.sumi == other.sumi
        &&& self.tables == other.tables
    }

    /// How many operators the scene holds.
    pub fn operator_count(&self) -> (r: usize)
        ensures
            r == self@.ops.len(),
    {
        self.ops.len()
    }

    /// The `i`th operator, in the order they were added.
    pub fn operator(&self, i: usize) -> (r: Operator)
        requires
            i < self@.ops.len(),
        ensures
            r == self@.ops[i as int],
    {
        self.ops.get(i)
    }

    /// Pushes `op` when there is room; says whether it did.
    fn push_op(&mut self, op: Operator) -> (r: bool)
        requires
            old(self).wf(),
        ensures
            final(self).wf(),
            r == (old(self).ops@.len() < MAX_OPERATORS),
            r ==> final(self).ops@ == old(self).ops@.push(op),
            !r ==> final(self).ops@ == old(self).ops@,
            final(self).same_setup(*old(self)),
    {
        self.ops.push(op)
    }

    /// Adds an ink drop (or a clearing drop when `ink_on` is off), its
    /// radius raised to the smallest step; false, and nothing added, when
    /// the scene is full.
    pub fn push_drop(&mut self, center: Vec2Fx, radius: Fx, ink_on: bool) -> (r: bool)
        requires
            old(self).wf(),
        ensures
            final(self).wf(),
            r == (old(self).ops@.len() < MAX_OPERATORS),
            r ==> final(self).ops@ == old(self).ops@.push(
                Operator::Drop(
                    DropOperator {
                        center,
                        radius: Fx(if radius.0 >= FX_EPSILON_BITS { radius.0 } else { FX_EPSILON_BITS }),
                        ink_on,
                    },
                ),
            ),
            !r ==> final(self).ops@ == old(self).ops@,
            final(self).same_setup(*old(self)),
    {
        self.push_op(Operator::Drop(DropOperator { center, radius: fx_max(radius, Fx(FX_EPSILON_BITS)), ink_on }))
    }

    /// Adds a swirl, its radius raised to the smallest step; false, and
    /// nothing added, when the scene is full.
    pub fn push_swirl(&mut self, center: Vec2Fx, strength: Fx, radius: Fx) -> (r: bool)
        requires
            old(self).wf(),
        ensures
            final(self).wf(),
            r == (old(self).ops@.len() < MAX_OPERATORS),
            r ==> final(self).ops@ == old(self).ops@.push(
                Operator::Swirl(
                    SwirlOperator {
                        center,
                        strength,
                        radius: Fx(if radius.0 >= FX_EPSILON_BITS { radius.0 } else { FX_EPSILON_BITS }),
                    },
                ),
            ),
            !r ==> final(self).ops@ == old(self).ops@,
            final(self).same_setup(*old(self)),
    {
        self.push_op(Operator::Swirl(SwirlOperator { center, strength, radius: fx_max(radius, Fx(FX_EPSILON_BITS)) }))
    }
}

/// The direction a flow comb keeps: the unit vector along `dir`, or the x
/// axis when `dir` is too short to have one.
pub open spec fn comb_direction(dir: Vec2Fx) -> Vec2Fx {
    let n = norm_spec(dir);
    if n <= FX_EPSILON_BITS {
        Vec2Fx { x: Fx(FX_ONE_BITS), y: Fx(0) }
    } else {
        Vec2Fx { x: Fx(trunc_div(dir.x.0 * 65536, n as int) as i32), y: Fx(trunc_div(dir.y.0 * 65536, n as int) as i32) }
    }
}

/// Normalizing `dir` does not panic.
pub open spec fn comb_direction_ok(dir: Vec2Fx) -> bool {
    &&& dot_ok(dir, dir)
    &&& norm_spec(dir) > FX_EPSILON_BITS ==> fx_div_ok(dir.x, Fx(norm_spec(dir))) && fx_div_ok(dir.y, Fx(norm_spec(dir)))
}

impl MarblingScene {
    /// Adds a flow comb along the unit direction of `dir`, its radius raised
    /// to the smallest step; false, and nothing added, when the scene is
    /// full.
    pub fn push_flow_comb(&mut self, center: Vec2Fx, dir: Vec2Fx, strength: Fx, radius: Fx) -> (r: bool)
        requires
            old(self).wf(),
            comb_direction_ok(dir),
        ensures
            final(self).wf(),
            r == (old(self).ops@.len() < MAX_OPERATORS),
            r ==> final(self).ops@ == old(self).ops@.push(
                Operator::FlowComb(
                    FlowCombOperator {
                        center,
                        dir: comb_direction(dir),
                        strength,
                        radius: Fx(if radius.0 >= FX_EPSILON_BITS { radius.0 } else { FX_EPSILON_BITS }),
                    },
                ),
            ),
            !r ==> final(self).ops@ == old(self).ops@,
            final(self).same_setup(*old(self)),
    {
        let norm = dir.norm();
        let unit = if norm.0 <= FX_EPSILON_BITS {
            Vec2Fx { x: Fx(FX_ONE_BITS), y: Fx(0) }
        } else {
            Vec2Fx { x: fx_div(dir.x, norm), y: fx_div(dir.y, norm) }
        };
        self.push_op(
            Operator::FlowComb(FlowCombOperator { center, dir: unit, strength, radius: fx_max(radius, Fx(FX_EPSILON_BITS)) }),
        )
    }
}

/// Defaults of a scene, in bits: paper grain is off, ink grain on.
pub const DEFAULT_GRAIN_SCALE_BITS: i32 = 0x3_0000;
pub const DEFAULT_GRAIN_STRENGTH_BITS: i32 = 1_966;
pub const SUMINAGASHI_ENABLE_PAPER_GRAIN: bool = false;
pub const SUMINAGASHI_ENABLE_INK_GRAIN: bool = true;
pub const DEFAULT_SUMI_EDGE_BITS: i32 = 20_972;
pub const DEFAULT_SUMI_FIBERS_BITS: i32 = 12_452;
pub const DEFAULT_SUMI_GRAIN_BITS: i32 = 0x8000;
pub const DEFAULT_SUMI_RIM_BITS: i32 = 19_661;
/// The ink colour, in bits (white paper is all ones).
pub const DEFAULT_INK_R_BITS: i32 = 7_864;
pub const DEFAULT_INK_G_BITS: i32 = 7_209;
pub const DEFAULT_INK_B_BITS: i32 = 6_554;

/// The aspect ratio of a `width` by `height` scene: both raised to at
/// least one pixel and taken as fixed-point integers.
pub open spec fn aspect_inputs(width: u32, height: u32) -> (Fx, Fx) {
    let w = width as i32;
    let h = height as i32;
    (Fx(fx_int_spec(if w >= 1 { w } else { 1 })), Fx(fx_int_spec(if h >= 1 { h } else { 1 })))
}

/// A fresh scene of that size: the aspect ratio, white paper, the ink's
/// luminance, the default grain and sumi parameters, and no operators.
pub open spec fn fresh_setup(s: MarblingScene, width: u32, height: u32) -> bool {
    let (w, h) = aspect_inputs(width, height);
    &&& s.width == width as i32 && s.height == height as i32
    &&& s.aspect.0 == trunc_div(w.0 * 65536, h.0 as int)
    &&& s.paper_luma.0 == luminance_spec(Fx(FX_ONE_BITS), Fx(FX_ONE_BITS), Fx(FX_ONE_BITS))
    &&& s.ink_luma.0 == luminance_spec(Fx(DEFAULT_INK_R_BITS), Fx(DEFAULT_INK_G_BITS), Fx(DEFAULT_INK_B_BITS))
    &&& s.grain_scale == Fx(DEFAULT_GRAIN_SCALE_BITS)
    &&& s.grain_strength == Fx(if SUMINAGASHI_ENABLE_PAPER_GRAIN { DEFAULT_GRAIN_STRENGTH_BITS } else { 0 })
    &&& s.sumi == (SumiInkParams {
        edge_softness: Fx(DEFAULT_SUMI_EDGE_BITS),
        fiber_strength: Fx(DEFAULT_SUMI_FIBERS_BITS),
        ink_grain: Fx(if SUMINAGASHI_ENABLE_INK_GRAIN { DEFAULT_SUMI_GRAIN_BITS } else { 0 }),
        rim_strength: Fx(DEFAULT_SUMI_RIM_BITS),
    })
}

/// Forming the aspect ratio does not panic.
pub open spec fn scene_size_ok(width: u32, height: u32) -> bool {
    let (w, h) = aspect_inputs(width, height);
    fx_div_ok(w, h)
}

impl MarblingScene {
    /// An empty scene of `width` by `height` pixels.
    pub fn new(width: u32, height: u32, tables: DitherTables) -> (r: Self)
        requires
            scene_size_ok(width, height),
        ensures
            r.wf(),
            fresh_setup(r, width, height),
            r.ops@ == Seq::<Operator>::empty(),
            r.tables == tables,
    {
        #[verifier::truncate]
        let w = width as i32;
        #[verifier::truncate]
        let h = height as i32;
        let safe_w = if w >= 1 { w } else { 1 };
        let safe_h = if h >= 1 { h } else { 1 };
        let aspect = fx_div(Fx(safe_w << 16u32), Fx(safe_h << 16u32));
        let paper_luma = luminance(Fx(FX_ONE_BITS), Fx(FX_ONE_BITS), Fx(FX_ONE_BITS));
        let ink_luma = luminance(Fx(DEFAULT_INK_R_BITS), Fx(DEFAULT_INK_G_BITS), Fx(DEFAULT_INK_B_BITS));
        MarblingScene {
            width: w,
            height: h,
            aspect,
            paper_luma,
            ink_luma,
            grain_scale: Fx(DEFAULT_GRAIN_SCALE_BITS),
            grain_strength: Fx(if SUMINAGASHI_ENABLE_PAPER_GRAIN { DEFAULT_GRAIN_STRENGTH_BITS } else { 0 }),
            sumi: SumiInkParams {
                edge_softness: Fx(DEFAULT_SUMI_EDGE_BITS),
                fiber_strength: Fx(DEFAULT_SUMI_FIBERS_BITS),
                ink_grain: Fx(if SUMINAGASHI_ENABLE_INK_GRAIN { DEFAULT_SUMI_GRAIN_BITS } else { 0 }),
                rim_strength: Fx(DEFAULT_SUMI_RIM_BITS),
            },
            ops: OperatorList::new(),
            tables,
        }
    }
}

/// The generator's defaults: how many drops, how much entropy (the number
/// of swirls and their strength) and how much flow, in bits where they are
/// fixed-point.
pub const DEFAULT_GEN_DENSITY: usize = 19;
pub const DEFAULT_GEN_ENTROPY_BITS: i32 = 13_107;
pub const DEFAULT_GEN_FLOW_BITS: i32 = 6_554;
/// Fixed-point constants of the generator, in bits.
pub const FX_0_05_BITS: i32 = 3_277;
pub const FX_0_1_BITS: i32 = 6_554;
pub const FX_0_2_BITS: i32 = 13_107;
pub const FX_0_3_BITS: i32 = 19_661;
pub const FX_EIGHT_BITS: i32 = 0x8_0000;
pub const FX_40_BITS: i32 = 2_621_440;

/// The `k`th draw of a generator seeded with `seed`, as a fraction in
/// `[0, 1)` in bits.
pub open spec fn draw_bits(seed: u32, k: nat) -> i32 {
    (mulberry_output(mulberry_state_after(seed, k + 1)) / 65536) as i32
}

/// The `i`th ink drop of a seeded scene: three draws, the first two
/// drifting its center by up to 0.15 from the middle, the third setting its
/// radius between 0.05 and 0.15; drops alternate ink and paper, starting
/// with ink.
pub open spec fn seeded_drop(seed: u32, i: nat) -> Operator {
    let ux = draw_bits(seed, 3 * i);
    let uy = draw_bits(seed, 3 * i + 1);
    let ur = draw_bits(seed, 3 * i + 2);
    let dx = fx_mul_spec(Fx((ux - FX_HALF_BITS) as i32), Fx(FX_0_3_BITS));
    let dy = fx_mul_spec(Fx((uy - FX_HALF_BITS) as i32), Fx(FX_0_3_BITS));
    let radius = (FX_0_05_BITS + fx_mul_spec(Fx(ur), Fx(FX_0_1_BITS))) as i32;
    Operator::Drop(
        DropOperator {
            center: Vec2Fx { x: Fx((FX_HALF_BITS + dx) as i32), y: Fx((FX_HALF_BITS + dy) as i32) },
            radius: Fx(if radius >= FX_EPSILON_BITS { radius } else { FX_EPSILON_BITS }),
            ink_on: i % 2 == 0,
        },
    )
}

/// The swirl that follows the drops: four draws for its center, its
/// strength (up to twenty radians times the entropy either way) and its
/// radius (between 0.2 and 0.5).
pub open spec fn seeded_swirl(seed: u32, k: nat) -> Operator {
    let cx = draw_bits(seed, k);
    let cy = draw_bits(seed, k + 1);
    let us = draw_bits(seed, k + 2);
    let ur = draw_bits(seed, k + 3);
    let t = fx_mul_spec(Fx((us - FX_HALF_BITS) as i32), Fx(FX_40_BITS));
    let strength = fx_mul_spec(Fx(t), Fx(DEFAULT_GEN_ENTROPY_BITS));
    let radius = (FX_0_2_BITS + fx_mul_spec(Fx(ur), Fx(FX_0_3_BITS))) as i32;
    Operator::Swirl(
        SwirlOperator {
            center: Vec2Fx { x: Fx(cx), y: Fx(cy) },
            strength: Fx(strength),
            radius: Fx(if radius >= FX_EPSILON_BITS { radius } else { FX_EPSILON_BITS }),
        },
    )
}

/// The operators of a seeded scene: the drops, then one swirl (the
/// entropy times eight, rounded down). With the default flow no comb is
/// added.
pub open spec fn seeded_ops(seed: u32) -> Seq<Operator> {
    Seq::new(DEFAULT_GEN_DENSITY as nat, |i: int| seeded_drop(seed, i as nat)).push(
        seeded_swirl(seed, 3 * DEFAULT_GEN_DENSITY as nat),
    )
}

/// The scene a seed describes for a `width` by `height` target: a fresh
/// scene of that size with the seeded operators.
pub open spec fn seeded_scene(seed: u32, width: u32, height: u32, tables: DitherTables) -> SceneModel {
    let (w, h) = aspect_inputs(width, height);
    SceneModel {
        width: width as i32,
        height: height as i32,
        aspect: Fx(trunc_div(w.0 * 65536, h.0 as int) as i32),
        paper_luma: Fx(luminance_spec(Fx(FX_ONE_BITS), Fx(FX_ONE_BITS), Fx(FX_ONE_BITS))),
        ink_luma: Fx(luminance_spec(Fx(DEFAULT_INK_R_BITS), Fx(DEFAULT_INK_G_BITS), Fx(DEFAULT_INK_B_BITS))),
        grain_scale: Fx(DEFAULT_GRAIN_SCALE_BITS),
        grain_strength: Fx(if SUMINAGASHI_ENABLE_PAPER_GRAIN { DEFAULT_GRAIN_STRENGTH_BITS } else { 0 }),
        sumi: SumiInkParams {
            edge_softness: Fx(DEFAULT_SUMI_EDGE_BITS),
            fiber_strength: Fx(DEFAULT_SUMI_FIBERS_BITS),
            ink_grain: Fx(if SUMINAGASHI_ENABLE_INK_GRAIN { DEFAULT_SUMI_GRAIN_BITS } else { 0 }),
            rim_strength: Fx(DEFAULT_SUMI_RIM_BITS),
        },
        ops: seeded_ops(seed),
        tables,
    }
}

proof fn lemma_fx_mul_bound(a: Fx, b: Fx, m: int)
    requires
        0 <= b.0,
        0 <= m,
        -m <= a.0 <= m,
        m * b.0 < 0x8000_0000_0000,
    ensures
        fx_mul_ok(a, b),
        -(m * b.0) / 65536 - 1 <= fx_mul_spec(a, b) <= (m * b.0) / 65536,
{
    let p = a.0 * b.0;
    assert(-(m * b.0) <= p <= m * b.0) by (nonlinear_arith)
        requires
            0 <= b.0,
            -m <= a.0 <= m,
            p == a.0 * b.0,
    ;
    lemma_shr16_floor(p as i64);
}

fn next_fx01(rng: &mut Mulberry32) -> (r: Fx)
    ensures
        final(rng).state == vstd::wrapping::u32_specs::wrapping_add(old(rng).state, MULBERRY_STEP),
        r.0 == mulberry_output(final(rng).state) / 65536,
        0 <= r.0 < 65536,
{
    Fx(rng.next_fx01_bits())
}

/// Builds the scene a seed describes: drops, then swirls, then (with
/// enough flow) a flow comb, each drawn from a generator seeded with
/// `seed`.
pub fn build_seeded_scene(seed: u32, width: u32, height: u32, tables: DitherTables) -> (r: MarblingScene)
    requires
        scene_size_ok(width, height),
    ensures
        r.wf(),
        fresh_setup(r, width, height),
        r.tables == tables,
        r.ops@ == seeded_ops(seed),
        r@ == seeded_scene(seed, width, height, tables),
{
    let mut rng = Mulberry32::new(seed);
    let mut scene = MarblingScene::new(width, height, tables);
    let ghost fresh = scene;
    let count = if DEFAULT_GEN_DENSITY < 50 { DEFAULT_GEN_DENSITY } else { 50 };
    let mut ink_on = true;
    let mut i: usize = 0;
    while i < count
        invariant
            count == DEFAULT_GEN_DENSITY,
            i <= count,
            rng.state == mulberry_state_after(seed, (3 * i) as nat),
            scene.wf(),
            scene.same_setup(fresh),
            scene.ops@ == Seq::new(i as nat, |j: int| seeded_drop(seed, j as nat)),
            ink_on == (i % 2 == 0),
        decreases count - i,
    {
        let ux = next_fx01(&mut rng);
        assert(rng.state == mulberry_state_after(seed, (3 * i + 1) as nat));
        let uy = next_fx01(&mut rng);
        assert(rng.state == mulberry_state_after(seed, (3 * i + 2) as nat));
        let ur = next_fx01(&mut rng);
        assert(rng.state == mulberry_state_after(seed, (3 * i + 3) as nat));
        proof {
            lemma_fx_mul_bound(Fx((ux.0 - FX_HALF_BITS) as i32), Fx(FX_0_3_BITS), 32768);
            lemma_fx_mul_bound(Fx((uy.0 - FX_HALF_BITS) as i32), Fx(FX_0_3_BITS), 32768);
            lemma_fx_mul_bound(ur, Fx(FX_0_1_BITS), 65536);
        }
        let drift_x = fx_mul(fx_sub(ux, Fx(FX_HALF_BITS)), Fx(FX_0_3_BITS));
        let drift_y = fx_mul(fx_sub(uy, Fx(FX_HALF_BITS)), Fx(FX_0_3_BITS));
        let center = Vec2Fx { x: fx_add(Fx(FX_HALF_BITS), drift_x), y: fx_add(Fx(FX_HALF_BITS), drift_y) };
        let radius = fx_add(Fx(FX_0_05_BITS), fx_mul(ur, Fx(FX_0_1_BITS)));
        let _ = scene.push_drop(center, radius, ink_on);
        proof {
            assert(scene.ops@ =~= Seq::new((i + 1) as nat, |j: int| seeded_drop(seed, j as nat)));
        }
        ink_on = !ink_on;
        i = i + 1;
    }
    let swirls = fx_floor_int(fx_mul(Fx(DEFAULT_GEN_ENTROPY_BITS), Fx(FX_EIGHT_BITS)));
    proof {
        assert((((13_107i64 * 0x8_0000i64) as i64) >> 16u32) == 104_856i64) by (bit_vector);
        assert((104_856i32 >> 16u32) == 1i32) by (bit_vector);
    }
    let mut k: i32 = 0;
    while k < swirls
        invariant
            swirls == 1,
            0 <= k <= 1,
            rng.state == mulberry_state_after(seed, (3 * DEFAULT_GEN_DENSITY + 4 * k) as nat),
            scene.wf(),
            scene.same_setup(fresh),
            scene.ops@ == (if k == 0 {
                Seq::new(DEFAULT_GEN_DENSITY as nat, |j: int| seeded_drop(seed, j as nat))
            } else {
                seeded_ops(seed)
            }),
        decreases swirls - k,
    {
        let cx = next_fx01(&mut rng);
        assert(rng.state == mulberry_state_after(seed, (3 * DEFAULT_GEN_DENSITY + 1) as nat));
        let cy = next_fx01(&mut rng);
        assert(rng.state == mulberry_state_after(seed, (3 * DEFAULT_GEN_DENSITY + 2) as nat));
        let us = next_fx01(&mut rng);
        assert(rng.state == mulberry_state_after(seed, (3 * DEFAULT_GEN_DENSITY + 3) as nat));
        let ur = next_fx01(&mut rng);
        assert(rng.state == mulberry_state_after(seed, (3 * DEFAULT_GEN_DENSITY + 4) as nat));
        proof {
            lemma_fx_mul_bound(Fx((us.0 - FX_HALF_BITS) as i32), Fx(FX_40_BITS), 32768);
            lemma_fx_mul_bound(
                Fx(fx_mul_spec(Fx((us.0 - FX_HALF_BITS) as i32), Fx(FX_40_BITS))),
                Fx(DEFAULT_GEN_ENTROPY_BITS),
                1_310_721,
            );
            lemma_fx_mul_bound(ur, Fx(FX_0_3_BITS), 65536);
        }
        let t = fx_mul(fx_sub(us, Fx(FX_HALF_BITS)), Fx(FX_40_BITS));
        let strength = fx_mul(t, Fx(DEFAULT_GEN_ENTROPY_BITS));
        let radius = fx_add(Fx(FX_0_2_BITS), fx_mul(ur, Fx(FX_0_3_BITS)));
        let _ = scene.push_swirl(Vec2Fx { x: cx, y: cy }, strength, radius);
        k = k + 1;
    }
    if DEFAULT_GEN_FLOW_BITS > FX_0_1_BITS {
        let vertical = next_fx01(&mut rng).0 > FX_HALF_BITS;
        let dir = if vertical {
            Vec2Fx { x: Fx(0), y: Fx(FX_ONE_BITS) }
        } else {
            Vec2Fx { x: Fx(FX_ONE_BITS), y: Fx(0) }
        };
        let _ = scene.push_flow_comb(
            Vec2Fx { x: Fx(FX_HALF_BITS), y: Fx(FX_HALF_BITS) },
            dir,
            fx_mul(Fx(DEFAULT_GEN_FLOW_BITS), Fx(FX_HALF_BITS)),
            Fx(FX_0_05_BITS),
        );
    }
    scene
}

} // verus!
