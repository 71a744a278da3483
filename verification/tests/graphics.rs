use meditamer::graphics::{
    bayer_threshold_4x4_u8, clamp_gray4_level, clip_rows, dither_threshold_bits, dither_threshold_u8,
    gray4_pixel_on, gray4_required_bytes, hash_to_unit01_bits, hash_xy, put_gray4_level, DitherMode, DitherTables,
    Mulberry32, RenderMode, RgssMode, SceneRenderStyle,
};

fn tables() -> DitherTables {
    let small: Vec<u8> = (0..1024u32).map(|i| (i % 251) as u8).collect();
    let large: Vec<u8> = (0..360_000u32).map(|i| (i % 253) as u8).collect();
    DitherTables::new(small, large).unwrap()
}

#[test]
fn bayer_matrix_repeats_every_four_pixels() {
    assert_eq!(bayer_threshold_4x4_u8(0, 0), 0);
    assert_eq!(bayer_threshold_4x4_u8(1, 0), 8);
    assert_eq!(bayer_threshold_4x4_u8(3, 3), 5);
    assert_eq!(bayer_threshold_4x4_u8(4, 4), 0);
    assert_eq!(bayer_threshold_4x4_u8(-1, 0), 10);
    assert_eq!(bayer_threshold_4x4_u8(0, -1), 15);
    assert_eq!(dither_threshold_u8(1, 0, DitherMode::Bayer4x4, &tables()), 128);
}

#[test]
fn blue_noise_maps_tile_and_cover_the_panel() {
    let t = tables();
    assert_eq!(dither_threshold_u8(3, 2, DitherMode::BlueNoise32, &t), ((2 * 32 + 3) % 251) as u8);
    assert_eq!(dither_threshold_u8(35, 34, DitherMode::BlueNoise32, &t), ((2 * 32 + 3) % 251) as u8);
    assert_eq!(dither_threshold_u8(601, 1, DitherMode::BlueNoise600, &t), ((600 + 1) % 253) as u8);
    assert_eq!(dither_threshold_bits(1, 0, DitherMode::Bayer4x4, &t), 128 * 256);
    assert!(DitherTables::new(vec![0; 1023], vec![0; 360_000]).is_none());
}

#[test]
fn hash_is_the_documented_mix() {
    let mut v: u32 = 7 ^ 3u32.wrapping_mul(0x27D4_EB2D) ^ (-2i32 as u32).wrapping_mul(0x1656_67B1);
    v ^= v >> 15;
    v = v.wrapping_mul(0x85EB_CA6B);
    v ^= v >> 13;
    v = v.wrapping_mul(0xC2B2_AE35);
    v ^= v >> 16;
    assert_eq!(hash_xy(3, -2, 7), v);
    assert_ne!(hash_xy(3, -2, 7), hash_xy(3, -2, 8));
    assert_eq!(hash_to_unit01_bits(0xFFFF_0000), 0xFFFF);
}

#[test]
fn mulberry_steps_its_state_and_mixes_it() {
    let mut rng = Mulberry32::new(0);
    let first = rng.next_u32();
    assert_eq!(rng.state, 0x6D2B_79F5);
    let mut t: u32 = 0x6D2B_79F5;
    t = (t ^ (t >> 15)).wrapping_mul(t | 1);
    t ^= t.wrapping_add((t ^ (t >> 7)).wrapping_mul(t | 61));
    assert_eq!(first, t ^ (t >> 14));
    let bits = rng.next_fx01_bits();
    assert_eq!(rng.state, 0x6D2B_79F5u32.wrapping_mul(2));
    assert!((0..65_536).contains(&bits));
}

#[test]
fn gray_levels_pack_two_per_byte() {
    assert_eq!(gray4_required_bytes(3, 3), 5);
    assert_eq!(gray4_required_bytes(600, 600), 180_000);
    let mut fb = vec![0u8; 2];
    put_gray4_level(&mut fb, 0, 0xA);
    put_gray4_level(&mut fb, 1, 0x5);
    put_gray4_level(&mut fb, 3, 0xF);
    assert_eq!(fb, vec![0xA5, 0x0F]);
    put_gray4_level(&mut fb, 0, 0x1);
    assert_eq!(fb, vec![0x15, 0x0F]);
}

#[test]
fn levels_clamp_and_threshold() {
    assert_eq!(clamp_gray4_level(-3), 0);
    assert_eq!(clamp_gray4_level(9), 9);
    assert_eq!(clamp_gray4_level(40), 15);
    assert!(gray4_pixel_on(9, 0x80));
    assert!(!gray4_pixel_on(8, 0x8F));
    assert_eq!(clip_rows(-5, 10), (0, 10));
    assert_eq!(clip_rows(8, 3), (8, 8));
}

#[test]
fn render_style_holds_its_choices() {
    let style = SceneRenderStyle { rgss: RgssMode::X4, mode: RenderMode::Gray4, dither: DitherMode::BlueNoise600 };
    assert_eq!(style.rgss.sample_count(), 4);
    assert_eq!(RgssMode::X8.sample_count(), 8);
    assert_eq!(style.mode, RenderMode::Gray4);
}

#[test]
fn the_hash_of_a_cell_tells_seeds_apart() {
    assert_eq!(hash_xy(0, 0, 0), 0);
    for (x, y) in [(0, 0), (3, -7), (599, 599)] {
        let hashes: Vec<u32> = (0..64u32).map(|seed| hash_xy(x, y, seed)).collect();
        for a in 0..hashes.len() {
            for b in a + 1..hashes.len() {
                assert_ne!(hashes[a], hashes[b]);
            }
        }
    }
}
