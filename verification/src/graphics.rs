//! The integer side of the suminagashi marbling renderer: render styles,
//! ordered-dither thresholds, the coordinate hash and seeded generator that
//! drive the scene, and the 4-bit gray framebuffer packing.
use vstd::prelude::*;

verus! {

/// Rotated-grid supersampling: one, four or eight samples per pixel.
#[derive(Clone, Copy, Debug, PartialEq, Eq, Structural)]
pub enum RgssMode {
    X1,
    X4,
    X8,
}

/// One bit per pixel, or four gray levels dithered down to one bit.
#[derive(Clone, Copy, Debug, PartialEq, Eq, Structural)]
pub enum RenderMode {
    Mono1,
    Gray4,
}

/// The threshold map used to dither.
#[derive(Clone, Copy, Debug, PartialEq, Eq, Structural)]
pub enum DitherMode {
    Bayer4x4,
    BlueNoise32,
    BlueNoise600,
}

/// How a scene is turned into pixels.
#[derive(Clone, Copy, Debug, PartialEq, Eq, Structural)]
pub struct SceneRenderStyle {
    pub rgss: RgssMode,
    pub mode: RenderMode,
    pub dither: DitherMode,
}

impl RgssMode {
    /// Samples taken per pixel.
    pub fn sample_count(self) -> (r: usize)
        ensures
            r == (match self {
                RgssMode::X1 => 1usize,
                RgssMode::X4 => 4usize,
                RgssMode::X8 => 8usize,
            }),
    {
        match self {
            RgssMode::X1 => 1,
            RgssMode::X4 => 4,
            RgssMode::X8 => 8,
        }
    }
}

/// The classic 4x4 Bayer matrix, row by row.
pub open spec fn bayer_4x4() -> Seq<u8> {
    seq![0u8, 8, 2, 10, 12, 4, 14, 6, 3, 11, 1, 9, 15, 7, 13, 5]
}

/// The Bayer cell for pixel `(x, y)`; the matrix repeats every four pixels
/// in both directions, negative coordinates included.
pub open spec fn bayer_cell(x: int, y: int) -> u8 {
    bayer_4x4()[(y % 4) * 4 + x % 4]
}

/// The Bayer threshold, `0..16`, of pixel `(x, y)`.
pub fn bayer_threshold_4x4_u8(x: i32, y: i32) -> (r: u8)
    ensures
        r == bayer_cell(x as int, y as int),
        r < 16,
{
    let table: [u8; 16] = [0, 8, 2, 10, 12, 4, 14, 6, 3, 11, 1, 9, 15, 7, 13, 5];
    let col: u32 = (x as u32) & 3;
    let row: u32 = (y as u32) & 3;
    assert(col as int == (x as int) % 4) by (bit_vector)
        requires
            col == (x as u32) & 3,
    ;
    assert(row as int == (y as int) % 4) by (bit_vector)
        requires
            row == (y as u32) & 3,
    ;
    let index: usize = ((row << 2u32) | col) as usize;
    assert(index == row * 4 + col) by (bit_vector)
        requires
            row < 4,
            col < 4,
            index == ((row << 2u32) | col) as usize,
    ;
    assert(table@ =~= bayer_4x4());
    table[index]
}

/// Side of the tiled blue-noise matrix.
pub const BLUE_NOISE_SIDE: usize = 32;
/// Size of the full-panel blue-noise matrix.
pub const BLUE_NOISE_600_WIDTH: usize = 600;
pub const BLUE_NOISE_600_HEIGHT: usize = 600;

/// The two blue-noise threshold maps, row by row: a 32x32 tile and a
/// 600x600 full-panel map.
pub struct DitherTables {
    pub blue_noise_32: Vec<u8>,
    pub blue_noise_600: Vec<u8>,
}

impl DitherTables {
    /// Both maps have their full size.
    pub open spec fn wf(&self) -> bool {
        &&& self.blue_noise_32@.len() == BLUE_NOISE_SIDE * BLUE_NOISE_SIDE
        &&& self.blue_noise_600@.len() == BLUE_NOISE_600_WIDTH * BLUE_NOISE_600_HEIGHT
    }

    /// Takes the two maps, when each has its full size.
    pub fn new(blue_noise_32: Vec<u8>, blue_noise_600: Vec<u8>) -> (r: Option<Self>)
        ensures
            r is Some <==> (blue_noise_32@.len() == BLUE_NOISE_SIDE * BLUE_NOISE_SIDE
                && blue_noise_600@.len() == BLUE_NOISE_600_WIDTH * BLUE_NOISE_600_HEIGHT),
            r matches Some(t) ==> t.wf() && t.blue_noise_32@ == blue_noise_32@ && t.blue_noise_600@
                == blue_noise_600@,
    {
        if blue_noise_32.len() == BLUE_NOISE_SIDE * BLUE_NOISE_SIDE && blue_noise_600.len() == BLUE_NOISE_600_WIDTH
            * BLUE_NOISE_600_HEIGHT {
            Some(DitherTables { blue_noise_32, blue_noise_600 })
        } else {
            None
        }
    }
}

/// The tile cell for pixel `(x, y)`: the tile repeats every 32 pixels.
pub open spec fn blue_noise_cell(t: Seq<u8>, x: int, y: int) -> u8 {
    t[(y % 32) * 32 + x % 32]
}

/// The full-panel cell for pixel `(x, y)`: coordinates taken as `usize`
/// modulo the map's size, as the platform's `as usize` gives them.
pub open spec fn blue_noise_600_cell(t: Seq<u8>, x: i32, y: i32) -> u8 {
    t[((y as usize) as int % 600) * 600 + (x as usize) as int % 600]
}

/// The blue-noise tile threshold of pixel `(x, y)`.
pub fn blue_noise_threshold_u8(x: i32, y: i32, tables: &DitherTables) -> (r: u8)
    requires
        tables.wf(),
    ensures
        r == blue_noise_cell(tables.blue_noise_32@, x as int, y as int),
{
    let tx: u32 = (x as u32) & 31;
    let ty: u32 = (y as u32) & 31;
    assert(tx as int == (x as int) % 32) by (bit_vector)
        requires
            tx == (x as u32) & 31,
    ;
    assert(ty as int == (y as int) % 32) by (bit_vector)
        requires
            ty == (y as u32) & 31,
    ;
    let index: usize = (ty as usize) * BLUE_NOISE_SIDE + tx as usize;
    tables.blue_noise_32[index]
}

/// The full-panel blue-noise threshold of pixel `(x, y)`.
pub fn blue_noise_600_threshold_u8(x: i32, y: i32, tables: &DitherTables) -> (r: u8)
    requires
        tables.wf(),
    ensures
        r == blue_noise_600_cell(tables.blue_noise_600@, x, y),
        0 <= x && 0 <= y ==> r == tables.blue_noise_600@[(y as int % 600) * 600 + x as int % 600],
{
    let tx = (x as usize) % BLUE_NOISE_600_WIDTH;
    let ty = (y as usize) % BLUE_NOISE_600_HEIGHT;
    tables.blue_noise_600[ty * BLUE_NOISE_600_WIDTH + tx]
}

/// The 8-bit dither threshold of pixel `(x, y)` under `mode`: the Bayer cell
/// scaled by sixteen, or the blue-noise map's byte.
pub open spec fn dither_threshold(t: DitherTables, x: i32, y: i32, mode: DitherMode) -> u8 {
    match mode {
        DitherMode::Bayer4x4 => (bayer_cell(x as int, y as int) * 16) as u8,
        DitherMode::BlueNoise32 => blue_noise_cell(t.blue_noise_32@, x as int, y as int),
        DitherMode::BlueNoise600 => blue_noise_600_cell(t.blue_noise_600@, x, y),
    }
}

/// The 8-bit dither threshold of pixel `(x, y)` under `mode`.
pub fn dither_threshold_u8(x: i32, y: i32, mode: DitherMode, tables: &DitherTables) -> (r: u8)
    requires
        tables.wf(),
    ensures
        r == dither_threshold(*tables, x, y, mode),
{
    match mode {
        DitherMode::Bayer4x4 => {
            let cell = bayer_threshold_4x4_u8(x, y);
            let shifted: u8 = cell << 4u8;
            assert(shifted == cell * 16) by (bit_vector)
                requires
                    cell < 16,
                    shifted == cell << 4u8,
            ;
            shifted
        },
        DitherMode::BlueNoise32 => blue_noise_threshold_u8(x, y, tables),
        DitherMode::BlueNoise600 => blue_noise_600_threshold_u8(x, y, tables),
    }
}

/// The dither threshold of a pixel at non-negative `(x, y)` is read at row
/// `y`, column `x` of its map, each map repeating over the panel: the Bayer
/// matrix (scaled by sixteen) every 4 pixels, the blue-noise tile every 32,
/// and the full-panel map every 600.
pub proof fn lemma_dither_threshold_reads_row_y_column_x(t: DitherTables, x: i32, y: i32)
    requires
        0 <= x,
        0 <= y,
    ensures
        dither_threshold(t, x, y, DitherMode::Bayer4x4) as int == 16 * seq![
            0u8,
            8,
            2,
            10,
            12,
            4,
            14,
            6,
            3,
            11,
            1,
            9,
            15,
            7,
            13,
            5,
        ][(y % 4) * 4 + x % 4],
        dither_threshold(t, x, y, DitherMode::BlueNoise32) == t.blue_noise_32@[(y % 32) * 32 + x % 32],
        dither_threshold(t, x, y, DitherMode::BlueNoise600) == t.blue_noise_600@[(y % 600) * 600 + x % 600],
{
    let k = (y % 4) * 4 + x % 4;
    assert(0 <= k < 16);
    assert(bayer_4x4()[k] < 16) by {
        assert(bayer_4x4()[0] == 0u8 && bayer_4x4()[1] == 8u8 && bayer_4x4()[2] == 2u8 && bayer_4x4()[3] == 10u8);
        assert(bayer_4x4()[4] == 12u8 && bayer_4x4()[5] == 4u8 && bayer_4x4()[6] == 14u8 && bayer_4x4()[7] == 6u8);
        assert(bayer_4x4()[8] == 3u8 && bayer_4x4()[9] == 11u8 && bayer_4x4()[10] == 1u8 && bayer_4x4()[11] == 9u8);
        assert(bayer_4x4()[12] == 15u8 && bayer_4x4()[13] == 7u8 && bayer_4x4()[14] == 13u8 && bayer_4x4()[15] == 5u8);
    }
}

/// The same threshold as a 16.16 fixed-point fraction of one, as raw bits.
pub fn dither_threshold_bits(x: i32, y: i32, mode: DitherMode, tables: &DitherTables) -> (r: i32)
    requires
        tables.wf(),
    ensures
        r == dither_threshold(*tables, x, y, mode) * 256,
{
    let t = dither_threshold_u8(x, y, mode, tables);
    (t as i32) * 256
}

/// One round of the coordinate hash.
pub open spec fn hash_xy_spec(x: i32, y: i32, seed: u32) -> u32 {
    let v0 = seed ^ vstd::wrapping::u32_specs::wrapping_mul(x as u32, 0x27D4_EB2D)
        ^ vstd::wrapping::u32_specs::wrapping_mul(y as u32, 0x1656_67B1);
    let v1 = v0 ^ (v0 >> 15u32);
    let v2 = vstd::wrapping::u32_specs::wrapping_mul(v1, 0x85EB_CA6B);
    let v3 = v2 ^ (v2 >> 13u32);
    let v4 = vstd::wrapping::u32_specs::wrapping_mul(v3, 0xC2B2_AE35);
    v4 ^ (v4 >> 16u32)
}

/// A well-mixed 32-bit hash of a grid coordinate and a seed.
pub fn hash_xy(x: i32, y: i32, seed: u32) -> (r: u32)
    ensures
        r == hash_xy_spec(x, y, seed),
{
    let mut v: u32 = seed ^ (x as u32).wrapping_mul(0x27D4_EB2D) ^ (y as u32).wrapping_mul(0x1656_67B1);
    v = v ^ (v >> 15u32);
    v = v.wrapping_mul(0x85EB_CA6B);
    v = v ^ (v >> 13u32);
    v = v.wrapping_mul(0xC2B2_AE35);
    v = v ^ (v >> 16u32);
    v
}

proof fn lemma_wrapping_mul_as_mod(a: u32, c: u32)
    ensures
        vstd::wrapping::u32_specs::wrapping_mul(a, c) == ((a * c) % 0x1_0000_0000) as u32,
{
}

proof fn lemma_xorshift_injective(a: u32, b: u32)
    ensures
        (a ^ (a >> 15u32)) == (b ^ (b >> 15u32)) ==> a == b,
        (a ^ (a >> 13u32)) == (b ^ (b >> 13u32)) ==> a == b,
        (a ^ (a >> 16u32)) == (b ^ (b >> 16u32)) ==> a == b,
{
    assert((a ^ (a >> 15u32)) == (b ^ (b >> 15u32)) ==> a == b) by (bit_vector);
    assert((a ^ (a >> 13u32)) == (b ^ (b >> 13u32)) ==> a == b) by (bit_vector);
    assert((a ^ (a >> 16u32)) == (b ^ (b >> 16u32)) ==> a == b) by (bit_vector);
}

proof fn lemma_odd_multipliers_invert(a: u32)
    ensures
        ((((a * 0x85EB_CA6Bu32) % 0x1_0000_0000) as u32 * 0xA5CB_9243u32) % 0x1_0000_0000) as u32 == a,
        ((((a * 0xC2B2_AE35u32) % 0x1_0000_0000) as u32 * 0x7ED1_B41Du32) % 0x1_0000_0000) as u32 == a,
{
    assert(((((a * 0x85EB_CA6Bu32) % 0x1_0000_0000) as u32 * 0xA5CB_9243u32) % 0x1_0000_0000) as u32 == a)
        by (bit_vector);
    assert(((((a * 0xC2B2_AE35u32) % 0x1_0000_0000) as u32 * 0x7ED1_B41Du32) % 0x1_0000_0000) as u32 == a)
        by (bit_vector);
}

/// For a fixed cell the hash is injective in the seed: the seed is xored
/// with a value of the cell alone, and the rest is the murmur3 finalizer,
/// a bijection of 32-bit words (each xorshift undoes itself and each odd
/// multiplier has an inverse modulo 2^32). The origin under seed zero
/// hashes to zero.
pub proof fn lemma_hash_xy_injective_in_seed(x: i32, y: i32, s1: u32, s2: u32)
    ensures
        hash_xy_spec(x, y, s1) == hash_xy_spec(x, y, s2) ==> s1 == s2,
        hash_xy_spec(0, 0, 0) == 0,
{
    let k = vstd::wrapping::u32_specs::wrapping_mul(x as u32, 0x27D4_EB2D) ^ vstd::wrapping::u32_specs::wrapping_mul(
        y as u32,
        0x1656_67B1,
    );
    let a0 = s1 ^ k;
    let b0 = s2 ^ k;
    assert(hash_xy_spec(x, y, s1) == hash_xy_spec(x, y, s2) ==> s1 == s2) by {
        if hash_xy_spec(x, y, s1) == hash_xy_spec(x, y, s2) {
            assert(a0 == s1 ^ vstd::wrapping::u32_specs::wrapping_mul(x as u32, 0x27D4_EB2D)
                ^ vstd::wrapping::u32_specs::wrapping_mul(y as u32, 0x1656_67B1)) by (bit_vector)
                requires
                    a0 == s1 ^ k,
                    k == vstd::wrapping::u32_specs::wrapping_mul(x as u32, 0x27D4_EB2D)
                        ^ vstd::wrapping::u32_specs::wrapping_mul(y as u32, 0x1656_67B1),
            ;
            let a1 = a0 ^ (a0 >> 15u32);
            let b1 = b0 ^ (b0 >> 15u32);
            let a2 = vstd::wrapping::u32_specs::wrapping_mul(a1, 0x85EB_CA6B);
            let b2 = vstd::wrapping::u32_specs::wrapping_mul(b1, 0x85EB_CA6B);
            let a3 = a2 ^ (a2 >> 13u32);
            let b3 = b2 ^ (b2 >> 13u32);
            let a4 = vstd::wrapping::u32_specs::wrapping_mul(a3, 0xC2B2_AE35);
            let b4 = vstd::wrapping::u32_specs::wrapping_mul(b3, 0xC2B2_AE35);
            assert(b0 == s2 ^ vstd::wrapping::u32_specs::wrapping_mul(x as u32, 0x27D4_EB2D)
                ^ vstd::wrapping::u32_specs::wrapping_mul(y as u32, 0x1656_67B1)) by (bit_vector)
                requires
                    b0 == s2 ^ k,
                    k == vstd::wrapping::u32_specs::wrapping_mul(x as u32, 0x27D4_EB2D)
                        ^ vstd::wrapping::u32_specs::wrapping_mul(y as u32, 0x1656_67B1),
            ;
            assert(a4 ^ (a4 >> 16u32) == b4 ^ (b4 >> 16u32));
            lemma_xorshift_injective(a4, b4);
            lemma_wrapping_mul_as_mod(a3, 0xC2B2_AE35);
            lemma_wrapping_mul_as_mod(b3, 0xC2B2_AE35);
            lemma_odd_multipliers_invert(a3);
            lemma_odd_multipliers_invert(b3);
            assert(a3 == b3);
            lemma_xorshift_injective(a2, b2);
            lemma_wrapping_mul_as_mod(a1, 0x85EB_CA6B);
            lemma_wrapping_mul_as_mod(b1, 0x85EB_CA6B);
            lemma_odd_multipliers_invert(a1);
            lemma_odd_multipliers_invert(b1);
            assert(a1 == b1);
            lemma_xorshift_injective(a0, b0);
            assert(s1 == s2) by (bit_vector)
                requires
                    a0 == b0,
                    a0 == s1 ^ k,
                    b0 == s2 ^ k,
            ;
        }
    }
    assert(hash_xy_spec(0, 0, 0) == 0) by {
        lemma_wrapping_mul_as_mod(0, 0x27D4_EB2D);
        lemma_wrapping_mul_as_mod(0, 0x1656_67B1);
        lemma_wrapping_mul_as_mod(0, 0x85EB_CA6B);
        lemma_wrapping_mul_as_mod(0, 0xC2B2_AE35);
        assert((0u32 >> 15u32) == 0 && (0u32 >> 13u32) == 0 && (0u32 >> 16u32) == 0 && (0u32 ^ 0u32) == 0)
            by (bit_vector);
    }
}

/// The top sixteen bits of a hash as a 16.16 fraction in `[0, 1)`, as raw
/// bits.
pub fn hash_to_unit01_bits(h: u32) -> (r: i32)
    ensures
        r == h / 65_536,
        0 <= r < 65_536,
{
    let top: u32 = h >> 16u32;
    assert(top == h / 65_536) by (bit_vector)
        requires
            top == h >> 16u32,
    ;
    top as i32
}

/// The increment of the Mulberry32 generator.
pub const MULBERRY_STEP: u32 = 0x6D2B_79F5;

/// The value Mulberry32 outputs for the advanced state `t`.
pub open spec fn mulberry_output(t: u32) -> u32 {
    let a = vstd::wrapping::u32_specs::wrapping_mul(t ^ (t >> 15u32), t | 1);
    let b = a ^ vstd::wrapping::u32_specs::wrapping_add(
        a,
        vstd::wrapping::u32_specs::wrapping_mul(a ^ (a >> 7u32), a | 61),
    );
    b ^ (b >> 14u32)
}

/// The generator's state after `n` draws from `seed`.
pub open spec fn mulberry_state_after(seed: u32, n: nat) -> u32
    decreases n,
{
    if n == 0 {
        seed
    } else {
        vstd::wrapping::u32_specs::wrapping_add(mulberry_state_after(seed, (n - 1) as nat), MULBERRY_STEP)
    }
}

/// The Mulberry32 generator that seeds a scene.
#[derive(Clone, Copy, Debug, PartialEq, Eq, Structural)]
pub struct Mulberry32 {
    pub state: u32,
}

impl Mulberry32 {
    /// A generator whose state is the seed.
    pub fn new(seed: u32) -> (r: Self)
        ensures
            r.state == seed,
    {
        Mulberry32 { state: seed }
    }

    /// Advances the state by the fixed step and returns the mixed state.
    pub fn next_u32(&mut self) -> (r: u32)
        ensures
            final(self).state == vstd::wrapping::u32_specs::wrapping_add(old(self).state, MULBERRY_STEP),
            r == mulberry_output(final(self).state),
    {
        let mut t: u32 = self.state.wrapping_add(MULBERRY_STEP);
        self.state = t;
        t = (t ^ (t >> 15u32)).wrapping_mul(t | 1);
        t = t ^ t.wrapping_add((t ^ (t >> 7u32)).wrapping_mul(t | 61));
        t ^ (t >> 14u32)
    }

    /// The next draw as a 16.16 fraction in `[0, 1)`, as raw bits.
    pub fn next_fx01_bits(&mut self) -> (r: i32)
        ensures
            final(self).state == vstd::wrapping::u32_specs::wrapping_add(old(self).state, MULBERRY_STEP),
            r == mulberry_output(final(self).state) / 65_536,
    {
        let v = self.next_u32();
        hash_to_unit01_bits(v)
    }
}

/// Draws from one seed follow one fixed path: the `n`th draw mixes the
/// seed advanced `n` steps.
pub proof fn lemma_mulberry_draws(seed: u32, n: nat)
    ensures
        mulberry_state_after(seed, n + 1) == vstd::wrapping::u32_specs::wrapping_add(
            mulberry_state_after(seed, n),
            MULBERRY_STEP,
        ),
{
}

/// Bytes a packed 4-bit gray framebuffer of `width` by `height` needs.
pub open spec fn gray4_bytes(width: int, height: int) -> int {
    (width * height + 1) / 2
}

/// Bytes a packed 4-bit gray framebuffer of `width` by `height` needs: two
/// pixels per byte, rounded up.
pub fn gray4_required_bytes(width: usize, height: usize) -> (r: usize)
    requires
        width * height < usize::MAX,
    ensures
        r == gray4_bytes(width as int, height as int),
{
    let pixels = width * height;
    (pixels + 1) / 2
}

/// The gray level of pixel `idx` in a packed framebuffer: even pixels in the
/// high nibble, odd pixels in the low one.
pub open spec fn gray4_at(fb: Seq<u8>, idx: int) -> u8 {
    if idx % 2 == 0 {
        (fb[idx / 2] / 16) as u8
    } else {
        (fb[idx / 2] % 16) as u8
    }
}

/// Stores the 4-bit `level` of pixel `idx`, leaving its neighbor in the same
/// byte and every other byte as they were.
pub fn put_gray4_level(framebuffer: &mut [u8], idx: usize, level: u8)
    requires
        level < 16,
        idx / 2 < old(framebuffer)@.len(),
    ensures
        final(framebuffer)@.len() == old(framebuffer)@.len(),
        gray4_at(final(framebuffer)@, idx as int) == level,
        forall|j: int|
            0 <= j < 2 * old(framebuffer)@.len() && j != idx ==> #[trigger] gray4_at(final(framebuffer)@, j)
                == gray4_at(old(framebuffer)@, j),
        forall|k: int| 0 <= k < old(framebuffer)@.len() && k != idx / 2 ==> final(framebuffer)@[k] == old(
            framebuffer,
        )@[k],
{
    let byte_idx = idx >> 1usize;
    assert(byte_idx == idx / 2) by (bit_vector)
        requires
            byte_idx == idx >> 1usize,
    ;
    let old_byte = framebuffer[byte_idx];
    let new_byte: u8 = if (idx & 1) == 0 {
        (level << 4u8) | (old_byte & 0x0F)
    } else {
        (old_byte & 0xF0) | level
    };
    assert((idx & 1) == 0 <==> idx % 2 == 0) by (bit_vector);
    if (idx & 1) == 0 {
        assert(new_byte / 16 == level && new_byte % 16 == old_byte % 16) by (bit_vector)
            requires
                level < 16,
                new_byte == (level << 4u8) | (old_byte & 0x0F),
        ;
    } else {
        assert(new_byte % 16 == level && new_byte / 16 == old_byte / 16) by (bit_vector)
            requires
                level < 16,
                new_byte == (old_byte & 0xF0) | level,
        ;
    }
    framebuffer[byte_idx] = new_byte;
    proof {
        assert forall|j: int|
            0 <= j < 2 * old(framebuffer)@.len() && j != idx implies #[trigger] gray4_at(framebuffer@, j)
            == gray4_at(old(framebuffer)@, j) by {
            if j / 2 != idx / 2 {
            } else {
                assert(j % 2 != idx % 2);
            }
        }
    }
}

/// A 16.16 gray sum scaled to `0..=15`, clamped.
pub open spec fn gray4_level(v: int) -> u8 {
    (if v < 0 { 0 } else if v > 15 { 15 } else { v }) as u8
}

/// Clamps a scaled gray value into the sixteen levels.
pub fn clamp_gray4_level(v: i32) -> (r: u8)
    ensures
        r == gray4_level(v as int),
        r < 16,
{
    if v < 0 {
        0
    } else if v > 15 {
        15
    } else {
        v as u8
    }
}

/// Whether a gray level shows as black after dithering to one bit: above
/// the top four bits of the pixel's threshold.
pub fn gray4_pixel_on(level: u8, threshold: u8) -> (r: bool)
    ensures
        r == (level > threshold / 16),
{
    let top: u8 = threshold >> 4u8;
    assert(top == threshold / 16) by (bit_vector)
        requires
            top == threshold >> 4u8,
    ;
    level > top
}

/// The rows `rows_start..rows_end` clipped to non-negative rows, as a
/// (possibly empty) range that never runs backwards.
pub fn clip_rows(rows_start: i32, rows_end: i32) -> (r: (i32, i32))
    ensures
        r.0 == (if rows_start < 0 { 0 } else { rows_start }),
        r.1 == (if rows_end < r.0 { r.0 } else { rows_end }),
        0 <= r.0 <= r.1,
{
    let y0 = if rows_start < 0 {
        0
    } else {
        rows_start
    };
    let y1 = if rows_end < y0 {
        y0
    } else {
        rows_end
    };
    (y0, y1)
}

} // verus!
