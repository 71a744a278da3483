//! Rendering a marbling scene: the black pixels of a block of rows, in
//! row-major order, and the seeded scene packed into a 4-bit gray
//! framebuffer. Drawing the pixels on a target is the caller's part.
use vstd::prelude::*;
use vstd::seq_lib::{lemma_seq_concat_contains_all_elements, lemma_seq_contains_after_push};

use crate::graphics::{
    clip_rows, gray4_at, gray4_bytes, gray4_required_bytes, put_gray4_level, DitherMode, DitherTables, RenderMode,
    RgssMode, SceneRenderStyle,
};
use crate::marbling::{build_seeded_scene, scene_size_ok, seeded_scene, MarblingScene, SceneModel};
use crate::shader::{
    binary_pixel_spec, gray4_level_spec, sample_binary_pixel, sample_gray4_level, shade_ok,
};

verus! {

/// Which pixels of a block of rows are looked at.
pub open spec fn keep_all() -> spec_fn(i32, i32) -> bool {
    |x: i32, y: i32| true
}

/// The pixels an visibility map lets through: one flag per pixel of the rows
/// from `y0` on, row by row, `width` to a row.
pub open spec fn keep_masked(visible: Seq<bool>, y0: int, width: int) -> spec_fn(i32, i32) -> bool {
    |x: i32, y: i32| visible[(y - y0) * width + x]
}

/// The black pixels among the first `n` columns of row `y` that `keep`
/// lets through, left to right.
pub open spec fn row_black(
    m: SceneModel,
    y: i32,
    n: int,
    style: SceneRenderStyle,
    keep: spec_fn(i32, i32) -> bool,
) -> Seq<(i32, i32)>
    decreases n,
{
    if n <= 0 {
        Seq::empty()
    } else {
        let prev = row_black(m, y, n - 1, style, keep);
        let x = (n - 1) as i32;
        if keep(x, y) && binary_pixel_spec(m, x, y, style.rgss, style.mode, style.dither) {
            prev.push((x, y))
        } else {
            prev
        }
    }
}

/// The black pixels of rows `y0..y1`, `width` columns each, that `keep`
/// lets through, row by row.
pub open spec fn rows_black(
    m: SceneModel,
    width: int,
    y0: int,
    y1: int,
    style: SceneRenderStyle,
    keep: spec_fn(i32, i32) -> bool,
) -> Seq<(i32, i32)>
    decreases y1 - y0,
{
    if y1 <= y0 {
        Seq::empty()
    } else {
        rows_black(m, width, y0, y1 - 1, style, keep) + row_black(m, (y1 - 1) as i32, width, style, keep)
    }
}

/// Every pixel of rows `y0..y1` that `keep` lets through shades without a
/// panic.
pub open spec fn rows_shade_ok(
    m: SceneModel,
    width: int,
    y0: int,
    y1: int,
    rgss: RgssMode,
    keep: spec_fn(i32, i32) -> bool,
) -> bool {
    forall|x: i32, y: i32| 0 <= x < width && y0 <= y < y1 && keep(x, y) ==> #[trigger] shade_ok(m, x, y, rgss)
}

/// The first row drawn of `rows_start..rows_end`, and the end.
pub open spec fn first_row(rows_start: i32) -> int {
    if rows_start < 0 { 0 } else { rows_start as int }
}

pub open spec fn end_row(rows_start: i32, rows_end: i32) -> int {
    if rows_end < first_row(rows_start) { first_row(rows_start) } else { rows_end as int }
}

pub open spec fn keep_of(masked: bool, visible: Seq<bool>, y0: int, width: int) -> spec_fn(i32, i32) -> bool {
    if masked { keep_masked(visible, y0, width) } else { keep_all() }
}

fn collect_black(
    scene: &MarblingScene,
    width: i32,
    y0: i32,
    y1: i32,
    style: SceneRenderStyle,
    visible: &Vec<bool>,
    masked: bool,
) -> (black: Vec<(i32, i32)>)
    requires
        scene.tables.wf(),
        0 <= y0 <= y1,
        masked && width > 0 ==> visible@.len() >= (y1 - y0) * width,
        rows_shade_ok(scene@, width as int, y0 as int, y1 as int, style.rgss, keep_of(masked, visible@, y0 as int, width as int)),
    ensures
        black@ == rows_black(scene@, width as int, y0 as int, y1 as int, style, keep_of(masked, visible@, y0 as int, width as int)),
{
    let ghost keep = keep_of(masked, visible@, y0 as int, width as int);
    let mut out: Vec<(i32, i32)> = Vec::new();
    let mut y = y0;
    while y < y1
        invariant
            scene.tables.wf(),
            0 <= y0 <= y <= y1,
            masked && width > 0 ==> visible@.len() >= (y1 - y0) * width,
            keep == keep_of(masked, visible@, y0 as int, width as int),
            rows_shade_ok(scene@, width as int, y0 as int, y1 as int, style.rgss, keep),
            out@ == rows_black(scene@, width as int, y0 as int, y as int, style, keep),
        decreases y1 - y,
    {
        let mut x: i32 = 0;
        let ghost before = out@;
        while x < width
            invariant
                scene.tables.wf(),
                0 <= y0 <= y < y1,
                0 <= x,
                width > 0 ==> x <= width,
                width <= 0 ==> x == 0,
                masked && width > 0 ==> visible@.len() >= (y1 - y0) * width,
                keep == keep_of(masked, visible@, y0 as int, width as int),
                rows_shade_ok(scene@, width as int, y0 as int, y1 as int, style.rgss, keep),
                before == rows_black(scene@, width as int, y0 as int, y as int, style, keep),
                out@ == before + row_black(scene@, y, x as int, style, keep),
            decreases width - x,
        {
            let kept = if masked {
                proof {
                    assert((y - y0) * width + x < (y1 - y0) * width) by (nonlinear_arith)
                        requires
                            0 <= y - y0 < y1 - y0,
                            0 <= x < width,
                    ;
                    assert(0 <= (y - y0) * width) by (nonlinear_arith)
                        requires
                            0 <= y - y0,
                            0 < width,
                    ;
                }
                let dy: usize = (y - y0) as usize;
                let w: usize = width as usize;
                let len = visible.len();
                assert(dy * w + x < len);
                let row: usize = dy * w;
                visible[row + x as usize]
            } else {
                true
            };
            proof {
                assert(kept == keep(x, y));
            }
            if kept {
                assert(shade_ok(scene@, x, y, style.rgss));
                if sample_binary_pixel(scene, x, y, style.rgss, style.mode, style.dither) {
                    out.push((x, y));
                }
            }
            proof {
                assert(out@ =~= before + row_black(scene@, y, x + 1, style, keep));
            }
            x = x + 1;
        }
        proof {
            assert(row_black(scene@, y, x as int, style, keep) == row_black(scene@, y, width as int, style, keep));
            assert(out@ =~= rows_black(scene@, width as int, y0 as int, y + 1, style, keep));
        }
        y = y + 1;
    }
    out
}

/// The black pixels of rows `rows_start..rows_end` (from row zero at the
/// earliest, and empty where the range runs backwards), `width` columns
/// each, row by row.
pub fn render_scene_rows_bw(
    scene: &MarblingScene,
    width: i32,
    rows_start: i32,
    rows_end: i32,
    style: SceneRenderStyle,
) -> (black: Vec<(i32, i32)>)
    requires
        scene.tables.wf(),
        rows_shade_ok(scene@, width as int, first_row(rows_start), end_row(rows_start, rows_end), style.rgss, keep_all()),
    ensures
        black@ == rows_black(scene@, width as int, first_row(rows_start), end_row(rows_start, rows_end), style, keep_all()),
{
    let (y0, y1) = clip_rows(rows_start, rows_end);
    let none: Vec<bool> = Vec::new();
    collect_black(scene, width, y0, y1, style, &none, false)
}

/// The same, looking only at the pixels `visible` lets through: its flags
/// run row by row from the first row drawn, `width` to a row.
pub fn render_scene_rows_bw_masked(
    scene: &MarblingScene,
    width: i32,
    rows_start: i32,
    rows_end: i32,
    style: SceneRenderStyle,
    visible: &Vec<bool>,
) -> (black: Vec<(i32, i32)>)
    requires
        scene.tables.wf(),
        width > 0 ==> visible@.len() >= (end_row(rows_start, rows_end) - first_row(rows_start)) * width,
        rows_shade_ok(
            scene@,
            width as int,
            first_row(rows_start),
            end_row(rows_start, rows_end),
            style.rgss,
            keep_masked(visible@, first_row(rows_start), width as int),
        ),
    ensures
        black@ == rows_black(
            scene@,
            width as int,
            first_row(rows_start),
            end_row(rows_start, rows_end),
            style,
            keep_masked(visible@, first_row(rows_start), width as int),
        ),
{
    let (y0, y1) = clip_rows(rows_start, rows_end);
    collect_black(scene, width, y0, y1, style, visible, true)
}

/// The black pixels of the scene a seed describes for a `width` by
/// `height` target, row by row; none where either side is not positive.
pub fn render_seeded_inverse_rgss_bw(
    width: i32,
    height: i32,
    seed: u32,
    rgss: RgssMode,
    mode: RenderMode,
    dither: DitherMode,
    tables: DitherTables,
) -> (black: Vec<(i32, i32)>)
    requires
        width > 0 && height > 0 ==> {
            &&& scene_size_ok(width as u32, height as u32)
            &&& tables.wf()
            &&& rows_shade_ok(
                seeded_scene(seed, width as u32, height as u32, tables),
                width as int,
                0,
                height as int,
                rgss,
                keep_all(),
            )
        },
    ensures
        width <= 0 || height <= 0 ==> black@ == Seq::<(i32, i32)>::empty(),
        width > 0 && height > 0 ==> black@ == rows_black(
            seeded_scene(seed, width as u32, height as u32, tables),
            width as int,
            0,
            height as int,
            SceneRenderStyle { rgss, mode, dither },
            keep_all(),
        ),
{
    if width <= 0 || height <= 0 {
        return Vec::new();
    }
    let scene = build_seeded_scene(seed, width as u32, height as u32, tables);
    let none: Vec<bool> = Vec::new();
    collect_black(&scene, width, 0, height, SceneRenderStyle { rgss, mode, dither }, &none, false)
}

/// The 4-bit level of pixel `idx` of a `width`-wide framebuffer, counted
/// row by row.
pub open spec fn pixel_level(m: SceneModel, width: int, idx: int, rgss: RgssMode, dither: DitherMode) -> u8 {
    gray4_level_spec(m, (idx % width) as i32, (idx / width) as i32, rgss, dither)
}

/// Shading pixel `idx` of a `width`-wide framebuffer goes through.
pub open spec fn pixel_shades_at(m: SceneModel, width: int, idx: int, rgss: RgssMode) -> bool {
    shade_ok(m, (idx % width) as i32, (idx / width) as i32, rgss)
}

/// A framebuffer once a `width` by `height` scene is packed into it: its
/// first bytes hold the pixels' levels two to a byte, the even pixel in
/// the high nibble and a missing last pixel as zero; the bytes after them
/// are as they were.
pub open spec fn gray4_packed_spec(
    fb: Seq<u8>,
    m: SceneModel,
    width: int,
    height: int,
    rgss: RgssMode,
    dither: DitherMode,
) -> Seq<u8> {
    Seq::new(
        fb.len(),
        |k: int|
            if k < gray4_bytes(width, height) {
                (pixel_level(m, width, 2 * k, rgss, dither) as int * 16 + (if 2 * k + 1 < width * height {
                    pixel_level(m, width, 2 * k + 1, rgss, dither) as int
                } else {
                    0
                })) as u8
            } else {
                fb[k]
            },
    )
}

/// Packs the scene a seed describes for a `width` by `height` target into
/// a 4-bit gray framebuffer, pixel by pixel, row by row. False, and the
/// framebuffer untouched, when it is too short.
pub fn render_seeded_gray4_packed(
    framebuffer: &mut [u8],
    width: u32,
    height: u32,
    seed: u32,
    rgss: RgssMode,
    dither: DitherMode,
    tables: DitherTables,
) -> (r: bool)
    requires
        (width as int) * (height as int) < usize::MAX,
        old(framebuffer)@.len() >= gray4_bytes(width as int, height as int) ==> {
            &&& scene_size_ok(width, height)
            &&& tables.wf()
            &&& forall|idx: int|
                0 <= idx < (width as int) * (height as int) ==> #[trigger] pixel_shades_at(
                    seeded_scene(seed, width, height, tables),
                    width as int,
                    idx,
                    rgss,
                )
        },
    ensures
        r == (old(framebuffer)@.len() >= gray4_bytes(width as int, height as int)),
        !r ==> final(framebuffer)@ == old(framebuffer)@,
        r ==> final(framebuffer)@ == gray4_packed_spec(
            old(framebuffer)@,
            seeded_scene(seed, width, height, tables),
            width as int,
            height as int,
            rgss,
            dither,
        ),
{
    let w = width as usize;
    let h = height as usize;
    let required = gray4_required_bytes(w, h);
    if framebuffer.len() < required {
        return false;
    }
    let ghost start = framebuffer@;
    let mut k: usize = 0;
    while k < required
        invariant
            required <= framebuffer@.len(),
            framebuffer@.len() == start.len(),
            k <= required,
            forall|j: int| 0 <= j < k ==> framebuffer@[j] == 0,
            forall|j: int| k <= j < start.len() ==> framebuffer@[j] == start[j],
        decreases required - k,
    {
        framebuffer[k] = 0;
        k = k + 1;
    }
    let ghost m = seeded_scene(seed, width, height, tables);
    let scene = build_seeded_scene(seed, width, height, tables);
    let n = w * h;
    let mut idx: usize = 0;
    while idx < n
        invariant
            n == (width as int) * (height as int),
            w == width,
            required == gray4_bytes(width as int, height as int),
            required <= framebuffer@.len(),
            framebuffer@.len() == start.len(),
            idx <= n,
            scene@ == m,
            scene.tables.wf(),
            forall|i: int| 0 <= i < n ==> #[trigger] pixel_shades_at(m, width as int, i, rgss),
            forall|j: int| required <= j < start.len() ==> framebuffer@[j] == start[j],
            forall|j: int| 0 <= j < idx ==> #[trigger] gray4_at(framebuffer@, j) == pixel_level(m, width as int, j, rgss, dither),
            forall|j: int| idx <= j < 2 * required ==> #[trigger] gray4_at(framebuffer@, j) == 0,
        decreases n - idx,
    {
        let x = idx % w;
        let y = idx / w;
        assert(pixel_shades_at(m, width as int, idx as int, rgss));
        let level = sample_gray4_level(&scene, x as i32, y as i32, rgss, dither);
        put_gray4_level(framebuffer, idx, level);
        idx = idx + 1;
    }
    proof {
        assert forall|k: int| 0 <= k < start.len() implies framebuffer@[k] == gray4_packed_spec(start, m, width as int, height as int, rgss, dither)[k] by {
            if k < required {
                assert(gray4_at(framebuffer@, 2 * k) == framebuffer@[k] / 16);
                assert(gray4_at(framebuffer@, 2 * k + 1) == framebuffer@[k] % 16);
            }
        }
        assert(framebuffer@ =~= gray4_packed_spec(start, m, width as int, height as int, rgss, dither));
    }
    true
}

/// A pixel is listed among a row's black pixels exactly when it lies in
/// that row within the first `n` columns, is let through, and is black.
pub proof fn lemma_row_black_lists_exactly(
    m: SceneModel,
    y: i32,
    n: int,
    style: SceneRenderStyle,
    keep: spec_fn(i32, i32) -> bool,
    q: (i32, i32),
)
    requires
        n <= i32::MAX + 1,
    ensures
        row_black(m, y, n, style, keep).contains(q) <==> (q.1 == y && 0 <= q.0 < n && keep(q.0, q.1)
            && binary_pixel_spec(m, q.0, q.1, style.rgss, style.mode, style.dither)),
    decreases n,
{
    broadcast use lemma_seq_contains_after_push;

    if n > 0 {
        lemma_row_black_lists_exactly(m, y, n - 1, style, keep, q);
    }
}

/// The pixels listed for rows `y0..y1` are exactly the black pixels of
/// those rows, within `width` columns, that `keep` lets through.
pub proof fn lemma_rows_black_lists_exactly(
    m: SceneModel,
    width: int,
    y0: int,
    y1: int,
    style: SceneRenderStyle,
    keep: spec_fn(i32, i32) -> bool,
    q: (i32, i32),
)
    requires
        width <= i32::MAX + 1,
        i32::MIN <= y0,
        y1 <= i32::MAX + 1,
    ensures
        rows_black(m, width, y0, y1, style, keep).contains(q) <==> (y0 <= q.1 < y1 && 0 <= q.0 < width && keep(
            q.0,
            q.1,
        ) && binary_pixel_spec(m, q.0, q.1, style.rgss, style.mode, style.dither)),
    decreases y1 - y0,
{
    broadcast use lemma_seq_concat_contains_all_elements;

    if y1 > y0 {
        lemma_rows_black_lists_exactly(m, width, y0, y1 - 1, style, keep, q);
        lemma_row_black_lists_exactly(m, (y1 - 1) as i32, width, style, keep, q);
    }
}

/// What the packing writes is read back: pixel `idx`'s level is in its
/// nibble of the packed framebuffer, and the bytes after the packed ones
/// are as they were.
pub proof fn lemma_packed_levels_read_back(
    fb: Seq<u8>,
    m: SceneModel,
    width: int,
    height: int,
    rgss: RgssMode,
    dither: DitherMode,
    idx: int,
)
    requires
        0 <= width,
        0 <= height,
        fb.len() >= gray4_bytes(width, height),
        0 <= idx < width * height,
    ensures
        gray4_at(gray4_packed_spec(fb, m, width, height, rgss, dither), idx) == pixel_level(m, width, idx, rgss, dither),
        forall|k: int|
            gray4_bytes(width, height) <= k < fb.len() ==> #[trigger] gray4_packed_spec(fb, m, width, height, rgss, dither)[k]
                == fb[k],
{
    let k = idx / 2;
    let hi = pixel_level(m, width, 2 * k, rgss, dither) as int;
    let lo = if 2 * k + 1 < width * height { pixel_level(m, width, 2 * k + 1, rgss, dither) as int } else { 0 };
    assert(hi < 16 && lo < 16);
    assert(k < gray4_bytes(width, height));
    let byte = gray4_packed_spec(fb, m, width, height, rgss, dither)[k];
    assert(byte == hi * 16 + lo);
}

/// `a` comes before `b` in row-major order.
pub open spec fn row_major_before(a: (i32, i32), b: (i32, i32)) -> bool {
    a.1 < b.1 || (a.1 == b.1 && a.0 < b.0)
}

/// Each pixel of a sequence comes before every later one in row-major
/// order.
pub open spec fn row_major_sorted(s: Seq<(i32, i32)>) -> bool {
    forall|i: int, j: int| 0 <= i < j < s.len() ==> row_major_before(#[trigger] s[i], #[trigger] s[j])
}

/// A row's black pixels lie in that row, within its columns, left to
/// right.
pub proof fn lemma_row_black_in_order(
    m: SceneModel,
    y: i32,
    n: int,
    style: SceneRenderStyle,
    keep: spec_fn(i32, i32) -> bool,
)
    requires
        n <= i32::MAX + 1,
    ensures
        row_major_sorted(row_black(m, y, n, style, keep)),
        forall|i: int|
            0 <= i < row_black(m, y, n, style, keep).len() ==> (#[trigger] row_black(m, y, n, style, keep)[i]).1 == y
                && 0 <= row_black(m, y, n, style, keep)[i].0 < n,
    decreases n,
{
    if n > 0 {
        lemma_row_black_in_order(m, y, n - 1, style, keep);
    }
}

/// The black pixels of a block of rows come row by row, each row left to
/// right: strictly increasing in row-major order.
pub proof fn lemma_rows_black_in_order(
    m: SceneModel,
    width: int,
    y0: int,
    y1: int,
    style: SceneRenderStyle,
    keep: spec_fn(i32, i32) -> bool,
)
    requires
        width <= i32::MAX + 1,
        i32::MIN <= y0,
        y1 <= i32::MAX + 1,
    ensures
        row_major_sorted(rows_black(m, width, y0, y1, style, keep)),
        forall|i: int|
            0 <= i < rows_black(m, width, y0, y1, style, keep).len() ==> y0 <= (#[trigger] rows_black(
                m,
                width,
                y0,
                y1,
                style,
                keep,
            )[i]).1 < y1,
    decreases y1 - y0,
{
    if y1 > y0 {
        let a = rows_black(m, width, y0, y1 - 1, style, keep);
        let b = row_black(m, (y1 - 1) as i32, width, style, keep);
        lemma_rows_black_in_order(m, width, y0, y1 - 1, style, keep);
        lemma_row_black_in_order(m, (y1 - 1) as i32, width, style, keep);
        let s = a + b;
        assert(rows_black(m, width, y0, y1, style, keep) == s);
        assert forall|i: int, j: int| 0 <= i < j < s.len() implies row_major_before(#[trigger] s[i], #[trigger] s[j]) by {
            if j < a.len() {
                assert(s[i] == a[i] && s[j] == a[j]);
            } else if i >= a.len() {
                assert(s[i] == b[i - a.len()] && s[j] == b[j - a.len()]);
            } else {
                assert(s[i] == a[i] && s[j] == b[j - a.len()]);
            }
        }
        assert forall|i: int| 0 <= i < s.len() implies y0 <= (#[trigger] s[i]).1 < y1 by {
            if i < a.len() {
                assert(s[i] == a[i]);
            } else {
                assert(s[i] == b[i - a.len()]);
            }
        }
    }
}

} // verus!
