//! Thresholding LVGL's 8-bit luminance rows into the rotated 1-bit panel
//! framebuffer.
use vstd::prelude::*;

use crate::arith::{max_i32, min_i32, sat_add_i32, sat_i32};

verus! {

pub const WIDTH: usize = 600;
pub const HEIGHT: usize = 600;
pub const ROW_BYTES: usize = 75;
pub const FRAMEBUFFER_BYTES: usize = 45000;

/// An inclusive pixel rectangle.
#[derive(Clone, Copy, Debug, Eq, PartialEq, Structural)]
pub struct DirtyArea {
    pub x1: i32,
    pub y1: i32,
    pub x2: i32,
    pub y2: i32,
}

impl DirtyArea {
    /// The smallest rectangle covering both.
    pub fn union(self, other: Self) -> (r: Self)
        ensures
            r == (DirtyArea {
                x1: if self.x1 <= other.x1 { self.x1 } else { other.x1 },
                y1: if self.y1 <= other.y1 { self.y1 } else { other.y1 },
                x2: if self.x2 >= other.x2 { self.x2 } else { other.x2 },
                y2: if self.y2 >= other.y2 { self.y2 } else { other.y2 },
            }),
    {
        DirtyArea {
            x1: min_i32(self.x1, other.x1),
            y1: min_i32(self.y1, other.y1),
            x2: max_i32(self.x2, other.x2),
            y2: max_i32(self.y2, other.y2),
        }
    }
}

/// The union covers both rectangles.
pub proof fn lemma_union_covers(a: DirtyArea, b: DirtyArea, r: DirtyArea)
    requires
        r == (DirtyArea {
            x1: if a.x1 <= b.x1 { a.x1 } else { b.x1 },
            y1: if a.y1 <= b.y1 { a.y1 } else { b.y1 },
            x2: if a.x2 >= b.x2 { a.x2 } else { b.x2 },
            y2: if a.y2 >= b.y2 { a.y2 } else { b.y2 },
        }),
    ensures
        r.x1 <= a.x1 && r.x1 <= b.x1 && r.y1 <= a.y1 && r.y1 <= b.y1,
        r.x2 >= a.x2 && r.x2 >= b.x2 && r.y2 >= a.y2 && r.y2 >= b.y2,
{
}

/// A luminance renders black below mid grey.
pub open spec fn black_spec(luminance: u8) -> bool {
    luminance < 128
}

/// Whether a luminance renders black.
pub fn dithered_black(luminance: u8) -> (r: bool)
    ensures
        r == black_spec(luminance),
{
    luminance < 128
}

/// `v` clamped into `[0, hi]`.
pub open spec fn clamp_to(v: int, hi: int) -> int {
    if v < 0 { 0 } else if v > hi { hi } else { v }
}

/// First and one-past-last panel column / row the area covers.
pub open spec fn x_start(a: DirtyArea) -> int { clamp_to(a.x1 as int, WIDTH as int) }
pub open spec fn x_end(a: DirtyArea) -> int { clamp_to(sat_i32(a.x2 + 1), WIDTH as int) }
pub open spec fn y_start(a: DirtyArea) -> int { clamp_to(a.y1 as int, HEIGHT as int) }
pub open spec fn y_end(a: DirtyArea) -> int { clamp_to(sat_i32(a.y2 + 1), HEIGHT as int) }

/// Position in the source bitmap of panel pixel `(x, y)`.
pub open spec fn src_index(a: DirtyArea, stride: int, x: int, y: int) -> int {
    (y - a.y1) * stride + (x - a.x1)
}

/// The panel bit of row `y` within its byte (the panel is rotated, so rows
/// run backwards through the bytes).
pub open spec fn row_bit(y: int) -> u8 {
    (1u8 << (((HEIGHT - 1 - y) % 8) as u8)) as u8
}

/// Panel bits of rows `lo..hi` of one vertical group.
pub open spec fn mask_bits(lo: int, hi: int) -> u8
    decreases hi - lo,
{
    if hi <= lo { 0 } else { mask_bits(lo, hi - 1) | row_bit(hi - 1) }
}

/// Panel bits of the rows `lo..hi` of column `x` whose luminance is black.
pub open spec fn black_bits(bitmap: Seq<u8>, a: DirtyArea, stride: int, x: int, lo: int, hi: int) -> u8
    decreases hi - lo,
{
    if hi <= lo {
        0
    } else if black_spec(bitmap[src_index(a, stride, x, hi - 1)]) {
        black_bits(bitmap, a, stride, x, lo, hi - 1) | row_bit(hi - 1)
    } else {
        black_bits(bitmap, a, stride, x, lo, hi - 1)
    }
}

/// Rows `lo..hi` of group `g` that the area covers.
pub open spec fn group_lo(a: DirtyArea, g: int) -> int {
    if g * 8 >= y_start(a) { g * 8 } else { y_start(a) }
}

pub open spec fn group_hi(a: DirtyArea, g: int) -> int {
    if g * 8 + 8 <= y_end(a) { g * 8 + 8 } else { y_end(a) }
}

/// Every source pixel of group `g` of column `x` lies in the bitmap.
pub open spec fn group_in_bitmap(len: int, a: DirtyArea, stride: int, x: int, g: int) -> bool {
    forall|y: int| group_lo(a, g) <= y < group_hi(a, g) ==> src_index(a, stride, x, y) < len
}

/// Framebuffer byte holding group `g` of column `x`.
pub open spec fn dest_index(x: int, g: int) -> int {
    ROW_BYTES * x + (HEIGHT - 1 - g * 8) / 8
}

/// Groups are visited column by column, top group first; `(x, g)` is written
/// when it and every group visited before it lie in the bitmap.
pub open spec fn written(len: int, a: DirtyArea, stride: int, x: int, g: int) -> bool {
    &&& forall|px: int, pg: int|
        x_start(a) <= px < x && y_start(a) / 8 <= pg <= (y_end(a) - 1) / 8 ==> group_in_bitmap(len, a, stride, px, pg)
    &&& forall|pg: int| y_start(a) / 8 <= pg <= g ==> group_in_bitmap(len, a, stride, x, pg)
}

/// The byte after blitting group `g` of column `x` over `old`: the covered
/// bits replaced, the others kept.
pub open spec fn blended(old: u8, bitmap: Seq<u8>, a: DirtyArea, stride: int, x: int, g: int) -> u8 {
    (old & !mask_bits(group_lo(a, g), group_hi(a, g))) | black_bits(bitmap, a, stride, x, group_lo(a, g), group_hi(a, g))
}

/// The whole area lies in the bitmap.
pub open spec fn area_in_bitmap(len: int, a: DirtyArea, stride: int) -> bool {
    forall|x: int, g: int|
        x_start(a) <= x < x_end(a) && y_start(a) / 8 <= g <= (y_end(a) - 1) / 8 ==> group_in_bitmap(len, a, stride, x, g)
}

/// Every source offset the blit computes fits: column and row offsets in an
/// `i32`, the bitmap index in a `usize`.
pub open spec fn offsets_fit(a: DirtyArea, stride: int) -> bool {
    x_start(a) < x_end(a) && y_start(a) < y_end(a) ==> {
        &&& x_end(a) - 1 - a.x1 <= i32::MAX
        &&& y_end(a) - 1 - a.y1 <= i32::MAX
        &&& src_index(a, stride, x_end(a) - 1, y_end(a) - 1) <= usize::MAX
    }
}

/// Group `(px, pg)` comes before `(x, g)` in the blit's visiting order.
pub open spec fn visited_before(px: int, pg: int, x: int, g: int) -> bool {
    px < x || (px == x && pg < g)
}

/// The framebuffer once the groups visited before `(x, g)` are blended.
pub open spec fn blit_upto(old: Seq<u8>, bitmap: Seq<u8>, a: DirtyArea, stride: int, x: int, g: int) -> Seq<u8> {
    Seq::new(
        old.len(),
        |i: int| {
            let px = i / (ROW_BYTES as int);
            let pg = (HEIGHT as int - 1) / 8 - i % (ROW_BYTES as int);
            if x_start(a) <= px < x_end(a) && y_start(a) / 8 <= pg <= (y_end(a) - 1) / 8 && visited_before(px, pg, x, g) {
                blended(old[i], bitmap, a, stride, px, pg)
            } else {
                old[i]
            }
        },
    )
}

/// The framebuffer after a blit: each group of the area that was written
/// blended, everything else unchanged.
pub open spec fn blit_result(old: Seq<u8>, bitmap: Seq<u8>, a: DirtyArea, stride: int) -> Seq<u8> {
    Seq::new(
        old.len(),
        |i: int| {
            let x = i / (ROW_BYTES as int);
            let g = (HEIGHT as int - 1) / 8 - i % (ROW_BYTES as int);
            if x_start(a) <= x < x_end(a) && y_start(a) / 8 <= g <= (y_end(a) - 1) / 8 && written(
                bitmap.len() as int,
                a,
                stride,
                x,
                g,
            ) {
                blended(old[i], bitmap, a, stride, x, g)
            } else {
                old[i]
            }
        },
    )
}

proof fn lemma_black_within_mask(bitmap: Seq<u8>, a: DirtyArea, stride: int, x: int, lo: int, hi: int)
    ensures
        black_bits(bitmap, a, stride, x, lo, hi) & !mask_bits(lo, hi) == 0,
    decreases hi - lo,
{
    if hi > lo {
        lemma_black_within_mask(bitmap, a, stride, x, lo, hi - 1);
        let b = black_bits(bitmap, a, stride, x, lo, hi - 1);
        let m = mask_bits(lo, hi - 1);
        let r = row_bit(hi - 1);
        assert(b & !m == 0 ==> (b | r) & !(m | r) == 0 && b & !(m | r) == 0) by (bit_vector);
    } else {
        assert(0u8 & !0u8 == 0) by (bit_vector);
    }
}

/// A blit keeps every panel bit outside the group's covered rows: blending
/// changes only the bits of the covered rows.
pub proof fn lemma_blend_keeps_other_rows(old: u8, bitmap: Seq<u8>, a: DirtyArea, stride: int, x: int, g: int)
    ensures
        blended(old, bitmap, a, stride, x, g) & !mask_bits(group_lo(a, g), group_hi(a, g)) == old & !mask_bits(
            group_lo(a, g),
            group_hi(a, g),
        ),
{
    lemma_black_within_mask(bitmap, a, stride, x, group_lo(a, g), group_hi(a, g));
    let m = mask_bits(group_lo(a, g), group_hi(a, g));
    let b = black_bits(bitmap, a, stride, x, group_lo(a, g), group_hi(a, g));
    assert(b & !m == 0 ==> ((old & !m) | b) & !m == old & !m) by (bit_vector);
}

proof fn lemma_dest(x: int, g: int)
    requires
        0 <= x < 600,
        0 <= g <= 74,
    ensures
        dest_index(x, g) == 75 * x + 74 - g,
        dest_index(x, g) / 75 == x,
        dest_index(x, g) % 75 == 74 - g,
        0 <= dest_index(x, g) < 45000,
{
    assert((599 - g * 8) / 8 == 74 - g);
    assert((75 * x + 74 - g) / 75 == x) by (nonlinear_arith)
        requires
            0 <= 74 - g < 75,
    ;
    assert((75 * x + 74 - g) % 75 == 74 - g) by (nonlinear_arith)
        requires
            0 <= 74 - g < 75,
    ;
    assert(75 * x + 74 - g < 45000) by (nonlinear_arith)
        requires
            0 <= x < 600,
            0 <= g <= 74,
    ;
}

proof fn lemma_index_fits(a: DirtyArea, stride: int, x: int, y: int)
    requires
        stride >= 0,
        a.x1 <= x < x_end(a),
        a.y1 <= y < y_end(a),
    ensures
        0 <= src_index(a, stride, x, y) <= src_index(a, stride, x_end(a) - 1, y_end(a) - 1),
{
    assert((y - a.y1) * stride <= (y_end(a) - 1 - a.y1) * stride) by (nonlinear_arith)
        requires
            0 <= y - a.y1 <= y_end(a) - 1 - a.y1,
            stride >= 0,
    ;
    assert(0 <= (y - a.y1) * stride) by (nonlinear_arith)
        requires
            0 <= y - a.y1,
            stride >= 0,
    ;
}

/// Blits the area of an 8-bit luminance bitmap (row stride `stride`) into
/// the rotated 1-bit framebuffer. Column by column and group of eight rows
/// by group, the covered panel bits are replaced by the thresholded pixels;
/// the blit stops with `false` at the first group reaching past the bitmap,
/// and refuses an empty area or a zero stride.
pub fn blit_l8_slice(area: DirtyArea, bitmap: &[u8], stride: usize, framebuffer: &mut [u8]) -> (r: bool)
    requires
        old(framebuffer)@.len() >= FRAMEBUFFER_BYTES,
        offsets_fit(area, stride as int),
    ensures
        final(framebuffer)@.len() == old(framebuffer)@.len(),
        r == (x_start(area) < x_end(area) && y_start(area) < y_end(area) && stride != 0 && area_in_bitmap(
            bitmap@.len() as int,
            area,
            stride as int,
        )),
        x_start(area) < x_end(area) && y_start(area) < y_end(area) && stride != 0 ==> final(framebuffer)@
            == blit_result(old(framebuffer)@, bitmap@, area, stride as int),
        !(x_start(area) < x_end(area) && y_start(area) < y_end(area) && stride != 0) ==> final(framebuffer)@
            == old(framebuffer)@,
{
    let xs = min_i32(max_i32(area.x1, 0), 600) as usize;
    let ys = min_i32(max_i32(area.y1, 0), 600) as usize;
    let xe = min_i32(max_i32(sat_add_i32(area.x2, 1), 0), 600) as usize;
    let ye = min_i32(max_i32(sat_add_i32(area.y2, 1), 0), 600) as usize;
    if xs >= xe || ys >= ye || stride == 0 {
        return false;
    }
    let ghost old_fb = framebuffer@;
    let ghost len = bitmap@.len() as int;
    let first_group = ys / 8;
    let last_group = (ye - 1) / 8;
    let mut x = xs;
    while x < xe
        invariant
            xs == x_start(area),
            xe == x_end(area),
            ys == y_start(area),
            ye == y_end(area),
            xs < xe,
            ys < ye,
            stride > 0,
            offsets_fit(area, stride as int),
            first_group == ys / 8,
            last_group == (ye - 1) / 8,
            old_fb == old(framebuffer)@,
            old_fb.len() >= FRAMEBUFFER_BYTES,
            len == bitmap@.len(),
            xs <= x <= xe,
            framebuffer@ == blit_upto(old_fb, bitmap@, area, stride as int, x as int, first_group as int),
            forall|px: int, pg: int|
                xs <= px < x && first_group <= pg <= last_group ==> group_in_bitmap(len, area, stride as int, px, pg),
        decreases xe - x,
    {
        let source_column: usize = (x as i32 - area.x1) as usize;
        let mut g = first_group;
        while g <= last_group
            invariant
                xs == x_start(area),
                xe == x_end(area),
                ys == y_start(area),
                ye == y_end(area),
                xs <= x < xe,
                ys < ye,
                stride > 0,
                offsets_fit(area, stride as int),
                first_group == ys / 8,
                last_group == (ye - 1) / 8,
                last_group < 75,
                source_column == x - area.x1,
                old_fb == old(framebuffer)@,
                old_fb.len() >= FRAMEBUFFER_BYTES,
                len == bitmap@.len(),
                first_group <= g <= last_group + 1,
                framebuffer@ == blit_upto(old_fb, bitmap@, area, stride as int, x as int, g as int),
                forall|px: int, pg: int|
                    xs <= px < x && first_group <= pg <= last_group ==> group_in_bitmap(len, area, stride as int, px, pg),
                forall|pg: int| first_group <= pg < g ==> group_in_bitmap(len, area, stride as int, x as int, pg),
            decreases last_group + 1 - g,
        {
            let group_start = g * 8;
            let group_end = if group_start + 8 <= ye { group_start + 8 } else { ye };
            let lo = if group_start >= ys { group_start } else { ys };
            let mut mask: u8 = 0;
            let mut black: u8 = 0;
            let mut y = lo;
            while y < group_end
                invariant
                    lo == group_lo(area, g as int),
                    group_end == group_hi(area, g as int),
                    lo <= y <= group_end,
                    ye == y_end(area),
                    xs == x_start(area),
                    xe == x_end(area),
                    ys == y_start(area),
                    xs <= x < xe,
                    stride > 0,
                    offsets_fit(area, stride as int),
                    source_column == x - area.x1,
                    len == bitmap@.len(),
                    mask == mask_bits(lo as int, y as int),
                    forall|py: int| lo <= py < y ==> src_index(area, stride as int, x as int, py) < len,
                    black == black_bits(bitmap@, area, stride as int, x as int, lo as int, y as int),
                    first_group == ys / 8,
                    last_group == (ye - 1) / 8,
                    last_group < 75,
                    first_group <= g <= last_group,
                    group_start == g * 8,
                    old_fb == old(framebuffer)@,
                    old_fb.len() >= FRAMEBUFFER_BYTES,
                    framebuffer@ == blit_upto(old_fb, bitmap@, area, stride as int, x as int, g as int),
                    forall|px: int, pg: int|
                        xs <= px < x && first_group <= pg <= last_group ==> group_in_bitmap(len, area, stride as int, px, pg),
                    forall|pg: int| first_group <= pg < g ==> group_in_bitmap(len, area, stride as int, x as int, pg),
                decreases group_end - y,
            {
                let source_row: usize = (y as i32 - area.y1) as usize;
                proof {
                    lemma_index_fits(area, stride as int, x as int, y as int);
                    assert(source_row * stride + source_column == src_index(area, stride as int, x as int, y as int)) by (nonlinear_arith)
                        requires
                            source_row == y - area.y1,
                            source_column == x - area.x1,
                    ;
                }
                let source_index = source_row * stride + source_column;
                if source_index >= bitmap.len() {
                    proof {
                        assert(!group_in_bitmap(len, area, stride as int, x as int, g as int));
                        assert(!area_in_bitmap(len, area, stride as int));
                        assert(framebuffer@ =~= blit_result(old_fb, bitmap@, area, stride as int)) by {
                            assert forall|px: int, pg: int|
                                x_start(area) <= px < x_end(area) && y_start(area) / 8 <= pg <= (y_end(area) - 1) / 8
                                    && written(len, area, stride as int, px, pg) implies visited_before(px, pg, x as int, g as int) by {
                                if !visited_before(px, pg, x as int, g as int) {
                                    if px == x {
                                        assert(group_in_bitmap(len, area, stride as int, px, g as int));
                                    } else {
                                        assert(group_in_bitmap(len, area, stride as int, x as int, g as int));
                                    }
                                }
                            }
                            assert forall|px: int, pg: int|
                                x_start(area) <= px < x_end(area) && y_start(area) / 8 <= pg <= (y_end(area) - 1) / 8
                                    && visited_before(px, pg, x as int, g as int) implies written(len, area, stride as int, px, pg) by {
                            }
                        }
                    }
                    return false;
                }
                let luminance = bitmap[source_index];
                let bit: u8 = 1u8 << (((599 - y) % 8) as u8);
                mask = mask | bit;
                if dithered_black(luminance) {
                    black = black | bit;
                }
                y = y + 1;
            }
            proof {
                lemma_dest(x as int, g as int);
            }
            let destination = 75 * x + (599 - group_start) / 8;
            let byte = framebuffer[destination];
            framebuffer[destination] = (byte & !mask) | black;
            proof {
                assert(framebuffer@ =~= blit_upto(old_fb, bitmap@, area, stride as int, x as int, g + 1));
            }
            g = g + 1;
        }
        proof {
            assert(framebuffer@ =~= blit_upto(old_fb, bitmap@, area, stride as int, x + 1, first_group as int));
        }
        x = x + 1;
    }
    proof {
        assert(framebuffer@ =~= blit_result(old_fb, bitmap@, area, stride as int));
    }
    true
}

} // verus!
