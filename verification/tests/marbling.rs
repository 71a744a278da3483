use fixed::types::I16F16;
use fixed_sqrt::FastSqrt;
use meditamer::graphics::{DitherTables, Mulberry32};
use meditamer::marbling::{
    build_seeded_scene, fx_add, fx_div, fx_floor_int, fx_max, fx_mul, fx_sub, luminance, DropOperator, Fx,
    MarblingScene, Operator, SwirlOperator, Vec2Fx, MAX_OPERATORS,
};

fn tables() -> DitherTables {
    let small: Vec<u8> = (0..1024u32).map(|i| (i % 251) as u8).collect();
    let large: Vec<u8> = (0..360_000u32).map(|i| (i % 253) as u8).collect();
    DitherTables::new(small, large).unwrap()
}

fn i(bits: i32) -> I16F16 {
    I16F16::from_bits(bits)
}

const SAMPLES: [i32; 12] = [0, 1, -1, 16, 0x8000, -0x8000, 0x1_0000, -0x1_0000, 19_661, -123_456, 0x30_0000, 7_864];

#[test]
fn arithmetic_matches_i16f16() {
    for a in SAMPLES {
        for b in SAMPLES {
            assert_eq!(fx_add(Fx(a), Fx(b)).0, (i(a) + i(b)).to_bits());
            assert_eq!(fx_sub(Fx(a), Fx(b)).0, (i(a) - i(b)).to_bits());
            assert_eq!(fx_mul(Fx(a), Fx(b)).0, (i(a) * i(b)).to_bits());
            assert_eq!(fx_max(Fx(a), Fx(b)).0, i(a).max(i(b)).to_bits());
            if b != 0 && ((i64::from(a) << 16) / i64::from(b)).abs() < i64::from(i32::MAX) {
                assert_eq!(fx_div(Fx(a), Fx(b)).0, (i(a) / i(b)).to_bits(), "{a} / {b}");
            }
        }
        assert_eq!(fx_floor_int(Fx(a)), i(a).floor().to_num::<i32>());
    }
}

#[test]
fn vector_length_is_the_fixed_point_square_root() {
    for (x, y) in [(0x3_0000, 0x4_0000), (0x8000, 0), (16, 16), (0, 0), (-0x1_0000, 0x1_0000)] {
        let v = Vec2Fx { x: Fx(x), y: Fx(y) };
        let n2 = i(x) * i(x) + i(y) * i(y);
        let expected = if n2 <= I16F16::ZERO { 0 } else { n2.fast_sqrt().to_bits() };
        assert_eq!(v.norm().0, expected);
        assert_eq!(v.dot(v).0, n2.to_bits());
    }
    assert_eq!(Vec2Fx { x: Fx(0x3_0000), y: Fx(0x4_0000) }.norm().0, 0x5_0000);
}

#[test]
fn a_new_scene_has_its_aspect_paper_and_ink() {
    let scene = MarblingScene::new(600, 300, tables());
    assert_eq!(scene.aspect.0, 0x2_0000);
    assert_eq!((scene.width, scene.height), (600, 300));
    assert_eq!(scene.paper_luma.0, 0x1_0000);
    let ink = i(7_864) * i(19_595) + i(7_209) * i(38_470) + i(6_554) * i(7_471);
    assert_eq!(scene.ink_luma.0, ink.to_bits());
    assert_eq!(luminance(Fx(0x1_0000), Fx(0), Fx(0)).0, 19_595);
    assert!(scene.operator_count() == 0);
    assert_eq!(scene.grain_strength.0, 0);
    assert_eq!(scene.sumi.ink_grain.0, 0x8000);
    assert_eq!(MarblingScene::new(0, 0, tables()).aspect.0, 0x1_0000);
}

#[test]
fn pushes_raise_tiny_radii_and_stop_at_capacity() {
    let mut scene = MarblingScene::new(600, 600, tables());
    let c = Vec2Fx { x: Fx(0x8000), y: Fx(0x8000) };
    assert!(scene.push_drop(c, Fx(3), true));
    assert_eq!(scene.operator(0), Operator::Drop(DropOperator { center: c, radius: Fx(16), ink_on: true }));
    assert!(scene.push_swirl(c, Fx(-5), Fx(0x4000)));
    assert_eq!(scene.operator(1), Operator::Swirl(SwirlOperator { center: c, strength: Fx(-5), radius: Fx(0x4000) }));
    assert!(scene.push_flow_comb(c, Vec2Fx { x: Fx(0x3_0000), y: Fx(0x4_0000) }, Fx(1), Fx(0)));
    match scene.operator(2) {
        Operator::FlowComb(comb) => {
            assert_eq!(comb.dir.x.0, (i(0x3_0000) / i(0x5_0000)).to_bits());
            assert_eq!(comb.dir.y.0, (i(0x4_0000) / i(0x5_0000)).to_bits());
            assert_eq!(comb.radius.0, 16);
        }
        _ => panic!("expected a flow comb"),
    }
    assert!(scene.push_flow_comb(c, Vec2Fx { x: Fx(0), y: Fx(0) }, Fx(1), Fx(1)));
    match scene.operator(3) {
        Operator::FlowComb(comb) => assert_eq!(comb.dir, Vec2Fx { x: Fx(0x1_0000), y: Fx(0) }),
        _ => panic!("expected a flow comb"),
    }
    while scene.operator_count() < MAX_OPERATORS {
        assert!(scene.push_drop(c, Fx(0x1000), false));
    }
    assert!(!scene.push_drop(c, Fx(0x1000), false));
    assert!(!scene.push_swirl(c, Fx(0), Fx(0x1000)));
    assert_eq!(scene.operator_count(), MAX_OPERATORS);
}

#[test]
fn a_seeded_scene_has_nineteen_alternating_drops_then_one_swirl() {
    let seed = 0x1234_5678;
    let scene = build_seeded_scene(seed, 600, 600, tables());
    assert_eq!(scene.operator_count(), 20);
    let mut rng = Mulberry32::new(seed);
    let mut draw = || i(rng.next_fx01_bits());
    let half = i(0x8000);
    for k in 0..19 {
        let ux = draw();
        let uy = draw();
        let ur = draw();
        let center = Vec2Fx {
            x: Fx((half + (ux - half) * i(19_661)).to_bits()),
            y: Fx((half + (uy - half) * i(19_661)).to_bits()),
        };
        let radius = Fx((i(3_277) + ur * i(6_554)).to_bits().max(16));
        assert_eq!(scene.operator(k), Operator::Drop(DropOperator { center, radius, ink_on: k % 2 == 0 }));
    }
    let (cx, cy, us, ur) = (draw(), draw(), draw(), draw());
    let strength = (us - half) * i(2_621_440) * i(13_107);
    let radius = i(13_107) + ur * i(19_661);
    assert_eq!(
        scene.operator(19),
        Operator::Swirl(SwirlOperator {
            center: Vec2Fx { x: Fx(cx.to_bits()), y: Fx(cy.to_bits()) },
            strength: Fx(strength.to_bits()),
            radius: Fx(radius.to_bits()),
        })
    );
    let ops = |s: &MarblingScene| (0..s.operator_count()).map(|k| s.operator(k)).collect::<Vec<_>>();
    let again = build_seeded_scene(seed, 600, 600, tables());
    assert_eq!(ops(&again), ops(&scene));
    assert_ne!(ops(&build_seeded_scene(seed + 1, 600, 600, tables())), ops(&scene));
}
