//! The library's shader and renderer against an independent shading of the
//! same scenes in `I16F16`.
use fixed::types::I16F16 as F;
use fixed_sqrt::FastSqrt;
use meditamer::graphics::{
    dither_threshold_u8, hash_xy, DitherMode, DitherTables, RenderMode, RgssMode, SceneRenderStyle,
};
use meditamer::marbling::{build_seeded_scene, DropOperator, Fx, MarblingScene, Operator, Vec2Fx};
use meditamer::render::{
    render_scene_rows_bw, render_scene_rows_bw_masked, render_seeded_gray4_packed, render_seeded_inverse_rgss_bw,
};
use meditamer::shader::{pixel_shades, sample_binary_pixel, sample_gray4_level};

fn tables() -> DitherTables {
    let small: Vec<u8> = (0..1024u32).map(|i| ((i * 97) % 256) as u8).collect();
    let large: Vec<u8> = (0..360_000u32).map(|i| ((i * 31) % 256) as u8).collect();
    DitherTables::new(small, large).unwrap()
}

fn f(v: Fx) -> F {
    F::from_bits(v.0)
}

fn b(bits: i32) -> F {
    F::from_bits(bits)
}

#[derive(Clone, Copy)]
struct V {
    x: F,
    y: F,
}

fn v(x: F, y: F) -> V {
    V { x, y }
}

fn add(a: V, c: V) -> V {
    v(a.x + c.x, a.y + c.y)
}

fn sub(a: V, c: V) -> V {
    v(a.x - c.x, a.y - c.y)
}

fn scale(a: V, s: F) -> V {
    v(a.x * s, a.y * s)
}

fn dot(a: V, c: V) -> F {
    a.x * c.x + a.y * c.y
}

fn sqrt(x: F) -> F {
    x.max(F::ZERO).fast_sqrt()
}

fn clamp01(x: F) -> F {
    x.clamp(F::ZERO, F::ONE)
}

fn bn01(t: &DitherTables, st: V) -> F {
    let x = st.x.floor().to_num::<i32>();
    let y = st.y.floor().to_num::<i32>();
    let cell = t.blue_noise_32[((y as u32 & 31) * 32 + (x as u32 & 31)) as usize];
    F::from_bits(i32::from(cell) << 8)
}

fn fbm(t: &DitherTables, mut p: V) -> F {
    let (c, s) = (b(57_513), b(31_420));
    let mut value = F::ZERO;
    let mut amp = b(0x8000);
    for _ in 0..4 {
        value += amp * bn01(t, p);
        let xr = p.x * c + p.y * s;
        let yr = -p.x * s + p.y * c;
        p = v(xr * b(0x2_0000) + b(0x64_0000), yr * b(0x2_0000) + b(0x28_0000));
        amp *= b(0x8000);
    }
    clamp01(value)
}

fn smooth(t: F) -> F {
    let t = clamp01(t);
    t * t * (b(0x3_0000) - b(0x2_0000) * t)
}

fn smooth_edges(e0: F, e1: F, x: F) -> F {
    let d = e1 - e0;
    if d.abs() <= b(16) {
        return if x >= e1 { F::ONE } else { F::ZERO };
    }
    smooth(clamp01((x - e0) / d))
}

fn lerp(a: F, c: F, t: F) -> F {
    a + (c - a) * t
}

fn rotate(p: V, angle: F) -> V {
    let mut x = angle;
    while x > b(205_887) {
        x -= b(411_775);
    }
    while x < -b(205_887) {
        x += b(411_775);
    }
    let x2 = x * x;
    let s = x * (F::ONE - x2 / b(0x6_0000));
    let c = F::ONE - x2 / b(0x2_0000) + (x2 * x2) / b(0x18_0000);
    v(p.x * c - p.y * s, p.x * s + p.y * c)
}

fn ink(scene: &MarblingScene, p: V, radius: F, dist_sq: F) -> F {
    let sumi = scene.sumi;
    let norm_dist = sqrt(dist_sq.max(F::ZERO)) / radius.max(b(16));
    let perturbed = norm_dist + f(sumi.fiber_strength) * (fbm(&scene.tables, scale(p, b(0x14_0000))) - b(0x8000));
    let alpha = smooth_edges(F::ONE, F::ONE - f(sumi.edge_softness), perturbed);
    let cloud = fbm(&scene.tables, scale(p, b(0x6_0000)));
    let grain = bn01(&scene.tables, scale(p, b(0x96_0000)));
    let mut density = lerp(cloud, grain, f(sumi.ink_grain));
    let rim = smooth_edges(F::ZERO, b(9_830), perturbed) * smooth_edges(F::ONE, b(58_982), perturbed);
    density += f(sumi.rim_strength) * rim;
    density = clamp01(b(29_491) + b(36_045) * density);
    lerp(f(scene.paper_luma), f(scene.ink_luma), alpha * density)
}

fn luma(scene: &MarblingScene, st: V, mut p: V) -> F {
    let aspect = f(scene.aspect);
    let paper = f(scene.paper_luma);
    let mut gray = paper;
    for k in (0..scene.operator_count()).rev() {
        match scene.operator(k) {
            Operator::Drop(d) => {
                let center = v(f(d.center.x) * aspect, f(d.center.y));
                let r = f(d.radius);
                let q = sub(p, center);
                let dist_sq = dot(q, q);
                let r_sq = r * r;
                if dist_sq < r_sq {
                    gray = if d.ink_on { ink(scene, p, r, dist_sq) } else { paper };
                    break;
                }
                if dist_sq > b(16) {
                    p = add(center, scale(q, sqrt((F::ONE - r_sq / dist_sq).max(F::ZERO))));
                }
            }
            Operator::Swirl(w) => {
                let center = v(f(w.center.x) * aspect, f(w.center.y));
                let r = f(w.radius);
                let q = sub(p, center);
                let n2 = dot(q, q);
                let dist = if n2 <= F::ZERO { F::ZERO } else { sqrt(n2) };
                if dist < r {
                    let pct = (r - dist) / r;
                    p = add(center, rotate(q, -(f(w.strength) * pct * pct)));
                }
            }
            Operator::FlowComb(c) => {
                let center = v(f(c.center.x) * aspect, f(c.center.y));
                let dir = v(f(c.dir.x), f(c.dir.y));
                let r = f(c.radius);
                let q = sub(p, center);
                let dist = dot(q, v(-dir.y, dir.x)).abs();
                if dist < r {
                    let pct = (r - dist) / r;
                    p = sub(p, scale(dir, f(c.strength) * pct * pct));
                }
            }
        }
    }
    if gray < paper - b(16) {
        let quantum = b(0x1000_0000);
        let hx = (st.x * f(scene.grain_scale) * quantum).to_num::<i32>();
        let hy = (st.y * f(scene.grain_scale) * quantum).to_num::<i32>();
        let noise = F::from_bits((hash_xy(hx, hy, 0x6E2F_28A5) >> 16) as i32);
        clamp01(gray - noise * f(scene.grain_strength))
    } else {
        paper
    }
}

fn offsets(rgss: RgssMode) -> Vec<(i32, i32)> {
    match rgss {
        RgssMode::X1 => vec![(32_768, 32_768)],
        RgssMode::X4 => vec![(8_192, 24_576), (24_576, 57_344), (40_960, 8_192), (57_344, 40_960)],
        RgssMode::X8 => vec![
            (4_096, 36_864),
            (12_288, 4_096),
            (20_480, 53_248),
            (28_672, 20_480),
            (36_864, 61_440),
            (45_056, 28_672),
            (53_248, 45_056),
            (61_440, 12_288),
        ],
    }
}

fn gray(scene: &MarblingScene, x: i32, y: i32, rgss: RgssMode) -> F {
    let w = F::from_bits(scene.width.max(1) << 16);
    let h = F::from_bits(scene.height.max(1) << 16);
    let offs = offsets(rgss);
    let mut sum = F::ZERO;
    for (ox, oy) in &offs {
        let st = v((F::from_bits(x << 16) + b(*ox)) / w, (F::from_bits(y << 16) + b(*oy)) / h);
        sum += luma(scene, st, v(st.x * f(scene.aspect), st.y));
    }
    sum / F::from_bits((offs.len() as i32) << 16)
}

fn level(scene: &MarblingScene, x: i32, y: i32, rgss: RgssMode, dither: DitherMode) -> u8 {
    let threshold = F::from_bits(i32::from(dither_threshold_u8(x, y, dither, &scene.tables)) << 8);
    let l = (clamp01(gray(scene, x, y, rgss)) * b(0xF_0000) + threshold).floor().to_num::<i32>();
    l.clamp(0, 15) as u8
}

fn black(scene: &MarblingScene, x: i32, y: i32, rgss: RgssMode, mode: RenderMode, dither: DitherMode) -> bool {
    let threshold = dither_threshold_u8(x, y, dither, &scene.tables);
    match mode {
        RenderMode::Mono1 => gray(scene, x, y, rgss) < F::from_bits(i32::from(threshold) << 8),
        RenderMode::Gray4 => level(scene, x, y, rgss, dither) > threshold >> 4,
    }
}

const MODES: [(RgssMode, RenderMode, DitherMode); 4] = [
    (RgssMode::X1, RenderMode::Mono1, DitherMode::Bayer4x4),
    (RgssMode::X4, RenderMode::Gray4, DitherMode::BlueNoise32),
    (RgssMode::X8, RenderMode::Mono1, DitherMode::BlueNoise600),
    (RgssMode::X4, RenderMode::Gray4, DitherMode::Bayer4x4),
];

#[test]
fn seeded_pixels_match_an_i16f16_shading() {
    for seed in [1u32, 0xC0FF_EE00] {
        let scene = build_seeded_scene(seed, 40, 30, tables());
        for (rgss, mode, dither) in MODES {
            for y in 0..30 {
                for x in 0..40 {
                    assert!(pixel_shades(&scene, x, y, rgss));
                    assert_eq!(sample_gray4_level(&scene, x, y, rgss, dither), level(&scene, x, y, rgss, dither));
                    assert_eq!(
                        sample_binary_pixel(&scene, x, y, rgss, mode, dither),
                        black(&scene, x, y, rgss, mode, dither),
                        "seed {seed} pixel ({x}, {y})"
                    );
                }
            }
        }
    }
}

#[test]
fn seeded_scenes_have_ink_and_paper() {
    let scene = build_seeded_scene(7, 40, 30, tables());
    let levels: Vec<u8> =
        (0..30).flat_map(|y| (0..40).map(move |x| (x, y))).map(|(x, y)| sample_gray4_level(&scene, x, y, RgssMode::X4, DitherMode::Bayer4x4)).collect();
    assert!(levels.iter().all(|l| *l < 16));
    assert!(levels.iter().any(|l| *l == 15));
    assert!(levels.iter().any(|l| *l < 15));
}

#[test]
fn bare_paper_is_never_black_in_one_bit() {
    let scene = MarblingScene::new(16, 16, tables());
    for y in 0..16 {
        for x in 0..16 {
            assert!(!sample_binary_pixel(&scene, x, y, RgssMode::X4, RenderMode::Mono1, DitherMode::BlueNoise32));
            assert_eq!(sample_gray4_level(&scene, x, y, RgssMode::X1, DitherMode::Bayer4x4), 15);
        }
    }
}

#[test]
fn an_overflowing_drop_is_reported_before_shading() {
    let mut scene = MarblingScene::new(8, 8, tables());
    let huge = Vec2Fx { x: Fx(i32::MAX), y: Fx(i32::MAX) };
    assert!(scene.push_drop(huge, Fx(0x10_0000), true));
    assert!(!pixel_shades(&scene, 0, 0, RgssMode::X1));
    let mut fine = MarblingScene::new(8, 8, tables());
    assert!(fine.push_drop(Vec2Fx { x: Fx(0x8000), y: Fx(0x8000) }, Fx(0x4000), true));
    assert!(pixel_shades(&fine, 0, 0, RgssMode::X1));
    assert!(matches!(fine.operator(0), Operator::Drop(DropOperator { ink_on: true, .. })));
}

#[test]
fn seeded_black_pixels_come_row_by_row() {
    let (rgss, mode, dither) = (RgssMode::X4, RenderMode::Mono1, DitherMode::Bayer4x4);
    let listed = render_seeded_inverse_rgss_bw(24, 18, 5, rgss, mode, dither, tables());
    let scene = build_seeded_scene(5, 24, 18, tables());
    let mut expected = Vec::new();
    for y in 0..18 {
        for x in 0..24 {
            if black(&scene, x, y, rgss, mode, dither) {
                expected.push((x, y));
            }
        }
    }
    assert!(!expected.is_empty());
    assert_eq!(listed, expected);
    assert!(render_seeded_inverse_rgss_bw(0, 18, 5, rgss, mode, dither, tables()).is_empty());
    assert!(render_seeded_inverse_rgss_bw(24, -1, 5, rgss, mode, dither, tables()).is_empty());
}

#[test]
fn scene_rows_are_clipped_and_masked() {
    let scene = build_seeded_scene(9, 20, 20, tables());
    let style = SceneRenderStyle { rgss: RgssMode::X1, mode: RenderMode::Gray4, dither: DitherMode::BlueNoise32 };
    let all = render_scene_rows_bw(&scene, 20, 0, 20, style);
    let part = render_scene_rows_bw(&scene, 20, -5, 10, style);
    assert_eq!(part, all.iter().copied().filter(|(_, y)| *y < 10).collect::<Vec<_>>());
    assert!(render_scene_rows_bw(&scene, 20, 12, 4, style).is_empty());
    assert!(render_scene_rows_bw(&scene, 0, 0, 20, style).is_empty());
    let visible: Vec<bool> = (0..200).map(|i| i % 3 == 0).collect();
    let masked = render_scene_rows_bw_masked(&scene, 20, 5, 15, style, &visible);
    let expected: Vec<(i32, i32)> = all
        .iter()
        .copied()
        .filter(|(x, y)| (5..15).contains(y) && ((y - 5) * 20 + x) % 3 == 0)
        .collect();
    assert_eq!(masked, expected);
}

#[test]
fn gray4_packing_holds_every_level() {
    let (w, h) = (9u32, 5u32);
    let mut fb = vec![0xAAu8; 30];
    assert!(render_seeded_gray4_packed(&mut fb, w, h, 3, RgssMode::X1, DitherMode::Bayer4x4, tables()));
    let scene = build_seeded_scene(3, w, h, tables());
    for idx in 0..45usize {
        let l = level(&scene, (idx % 9) as i32, (idx / 9) as i32, RgssMode::X1, DitherMode::Bayer4x4);
        let got = if idx % 2 == 0 { fb[idx / 2] >> 4 } else { fb[idx / 2] & 0x0F };
        assert_eq!(got, l, "pixel {idx}");
    }
    assert_eq!(fb[22] & 0x0F, 0);
    assert!(fb[23..].iter().all(|b| *b == 0xAA));
}

#[test]
fn gray4_packing_refuses_a_short_buffer() {
    let mut fb = vec![0x55u8; 22];
    assert!(!render_seeded_gray4_packed(&mut fb, 9, 5, 3, RgssMode::X1, DitherMode::Bayer4x4, tables()));
    assert!(fb.iter().all(|b| *b == 0x55));
}
