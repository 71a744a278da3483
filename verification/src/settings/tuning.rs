//! Build-time tuning of the upload path: decimal overrides, each accepted
//! only inside its range and otherwise replaced by the default.
use vstd::prelude::*;
use vstd::string::StringSliceAdditionalSpecFns;

verus! {

pub const SD_UPLOAD_CHUNK_MAX_DEFAULT: usize = 65_536;
pub const SD_UPLOAD_CHUNK_MAX_MIN: usize = 4_096;
pub const SD_UPLOAD_CHUNK_MAX_MAX: usize = 65_536;
pub const HTTP_RX_BUF_TARGET_DEFAULT: usize = 65_536;
pub const HTTP_RX_BUF_TARGET_MIN: usize = 8_192;
pub const HTTP_RX_BUF_TARGET_MAX: usize = 262_144;
pub const HTTP_INGRESS_COOP_YIELD_BYTES_DEFAULT: usize = 16_384;
pub const HTTP_INGRESS_COOP_YIELD_BYTES_MIN: usize = 1_024;
pub const HTTP_INGRESS_COOP_YIELD_BYTES_MAX: usize = 65_536;
pub const HTTP_INGRESS_COOP_YIELD_READS_DEFAULT: usize = 32;
pub const HTTP_INGRESS_COOP_YIELD_READS_MIN: usize = 4;
pub const HTTP_INGRESS_COOP_YIELD_READS_MAX: usize = 128;
pub const HTTP_INGRESS_TRY_DRAIN_INTERVAL_READS_DEFAULT: usize = 2;
pub const HTTP_INGRESS_TRY_DRAIN_INTERVAL_READS_MIN: usize = 1;
pub const HTTP_INGRESS_TRY_DRAIN_INTERVAL_READS_MAX: usize = 32;
pub const HTTP_INGRESS_ADAPTIVE_FAIRNESS_DEFAULT: usize = 0;

/// Whether a byte is an ASCII decimal digit.
pub open spec fn is_digit(b: u8) -> bool {
    48 <= b <= 57
}

/// The number the decimal digits `s` spell, most significant first.
pub open spec fn decimal_value(s: Seq<u8>) -> nat
    decreases s.len(),
{
    if s.len() == 0 {
        0
    } else {
        (decimal_value(s.drop_last()) * 10 + (s.last() - 48)) as nat
    }
}

/// `s` is a non-empty run of decimal digits.
pub open spec fn all_digits(s: Seq<u8>) -> bool {
    s.len() > 0 && forall|i: int| 0 <= i < s.len() ==> is_digit(#[trigger] s[i])
}

/// What `parse_ascii_usize` gives for the bytes `s`: the number, when `s` is
/// a non-empty run of digits whose value fits in `usize`.
pub open spec fn parsed_usize(s: Seq<u8>) -> Option<usize> {
    if all_digits(s) && decimal_value(s) <= usize::MAX {
        Some(decimal_value(s) as usize)
    } else {
        None
    }
}

/// A longer prefix of digits never spells a smaller number.
proof fn lemma_prefix_value_grows(s: Seq<u8>, j: int, k: int)
    requires
        0 <= j <= k <= s.len(),
        forall|i: int| 0 <= i < s.len() ==> is_digit(#[trigger] s[i]),
    ensures
        decimal_value(s.take(j)) <= decimal_value(s.take(k)),
    decreases k - j,
{
    if j < k {
        lemma_prefix_value_grows(s, j, k - 1);
        assert(s.take(k).drop_last() =~= s.take(k - 1));
        assert(is_digit(s[k - 1]));
    }
}

/// Parses a non-empty decimal string; `None` on any other byte or when the
/// value does not fit in `usize`.
pub fn parse_ascii_usize(value: &str) -> (r: Option<usize>)
    ensures
        r == parsed_usize(value.spec_bytes()),
{
    let bytes = value.as_bytes();
    let ghost s = bytes@;
    if bytes.len() == 0 {
        return None;
    }
    let mut out: usize = 0;
    let mut i: usize = 0;
    while i < bytes.len()
        invariant
            s == bytes@,
            s == value.spec_bytes(),
            s.len() > 0,
            i <= s.len(),
            forall|j: int| 0 <= j < i ==> is_digit(#[trigger] s[j]),
            out as nat == decimal_value(s.take(i as int)),
        decreases s.len() - i,
    {
        let b = bytes[i];
        if b < 48 || b > 57 {
            assert(!is_digit(s[i as int]));
            return None;
        }
        let digit: usize = (b - 48) as usize;
        assert(s.take(i as int + 1).drop_last() =~= s.take(i as int));
        let multiplied = match out.checked_mul(10) {
            Some(v) => v,
            None => {
                proof {
                    lemma_tail_overflows(s, i as int);
                }
                return None;
            },
        };
        out = match multiplied.checked_add(digit) {
            Some(v) => v,
            None => {
                proof {
                    lemma_tail_overflows(s, i as int);
                }
                return None;
            },
        };
        i += 1;
    }
    assert(s.take(s.len() as int) =~= s);
    Some(out)
}

/// Once a prefix spells more than `usize::MAX`, the whole string does too,
/// or it holds a non-digit further on: either way it does not parse.
proof fn lemma_tail_overflows(s: Seq<u8>, i: int)
    requires
        0 <= i < s.len(),
        forall|j: int| 0 <= j <= i ==> is_digit(#[trigger] s[j]),
        decimal_value(s.take(i + 1)) > usize::MAX,
    ensures
        parsed_usize(s) is None,
{
    if all_digits(s) {
        lemma_prefix_value_grows(s, i + 1, s.len() as int);
        assert(s.take(s.len() as int) =~= s);
    }
}

/// The value an override yields: the primary variable when set, else the
/// fallback one; used only when it parses and lies within `min..=max`.
pub open spec fn override_or_default(
    primary: Option<Seq<u8>>,
    fallback: Option<Seq<u8>>,
    min: int,
    max: int,
    default: int,
) -> int {
    let chosen = if primary is Some { primary } else { fallback };
    match chosen {
        Some(text) => match parsed_usize(text) {
            Some(v) => if min <= v <= max { v as int } else { default },
            None => default,
        },
        None => default,
    }
}

/// The bytes of an optional override, as a sequence.
pub open spec fn text_of(v: Option<&str>) -> Option<Seq<u8>> {
    match v {
        Some(t) => Some(t.spec_bytes()),
        None => None,
    }
}

fn parse_override(primary: Option<&str>, fallback: Option<&str>, min: usize, max: usize, default: usize) -> (r:
    usize)
    ensures
        r == override_or_default(text_of(primary), text_of(fallback), min as int, max as int, default as int),
{
    let configured = match primary {
        Some(v) => Some(v),
        None => fallback,
    };
    let parsed = match configured {
        Some(v) => parse_ascii_usize(v),
        None => None,
    };
    match parsed {
        Some(value) => if value >= min && value <= max {
            value
        } else {
            default
        },
        None => default,
    }
}

/// The SD upload chunk size: the override within `4096..=65536`, else 64 KiB.
pub fn configured_sd_upload_chunk_max(primary: Option<&str>, fallback: Option<&str>) -> (r: usize)
    ensures
        r == override_or_default(
            text_of(primary),
            text_of(fallback),
            SD_UPLOAD_CHUNK_MAX_MIN as int,
            SD_UPLOAD_CHUNK_MAX_MAX as int,
            SD_UPLOAD_CHUNK_MAX_DEFAULT as int,
        ),
{
    parse_override(primary, fallback, SD_UPLOAD_CHUNK_MAX_MIN, SD_UPLOAD_CHUNK_MAX_MAX, SD_UPLOAD_CHUNK_MAX_DEFAULT)
}

/// The HTTP receive buffer target: the override within `8192..=262144`,
/// else 64 KiB.
pub fn configured_http_rx_buf_target(primary: Option<&str>, fallback: Option<&str>) -> (r: usize)
    ensures
        r == override_or_default(
            text_of(primary),
            text_of(fallback),
            HTTP_RX_BUF_TARGET_MIN as int,
            HTTP_RX_BUF_TARGET_MAX as int,
            HTTP_RX_BUF_TARGET_DEFAULT as int,
        ),
{
    parse_override(primary, fallback, HTTP_RX_BUF_TARGET_MIN, HTTP_RX_BUF_TARGET_MAX, HTTP_RX_BUF_TARGET_DEFAULT)
}

/// Bytes read between cooperative yields: the override within
/// `1024..=65536`, else 16 KiB.
pub fn configured_http_ingress_coop_yield_bytes(primary: Option<&str>, fallback: Option<&str>) -> (r: usize)
    ensures
        r == override_or_default(
            text_of(primary),
            text_of(fallback),
            HTTP_INGRESS_COOP_YIELD_BYTES_MIN as int,
            HTTP_INGRESS_COOP_YIELD_BYTES_MAX as int,
            HTTP_INGRESS_COOP_YIELD_BYTES_DEFAULT as int,
        ),
{
    parse_override(
        primary,
        fallback,
        HTTP_INGRESS_COOP_YIELD_BYTES_MIN,
        HTTP_INGRESS_COOP_YIELD_BYTES_MAX,
        HTTP_INGRESS_COOP_YIELD_BYTES_DEFAULT,
    )
}

/// Reads between cooperative yields: the override within `4..=128`, else 32.
pub fn configured_http_ingress_coop_yield_reads(primary: Option<&str>, fallback: Option<&str>) -> (r: u32)
    ensures
        r as int == override_or_default(
            text_of(primary),
            text_of(fallback),
            HTTP_INGRESS_COOP_YIELD_READS_MIN as int,
            HTTP_INGRESS_COOP_YIELD_READS_MAX as int,
            HTTP_INGRESS_COOP_YIELD_READS_DEFAULT as int,
        ),
{
    let reads = parse_override(
        primary,
        fallback,
        HTTP_INGRESS_COOP_YIELD_READS_MIN,
        HTTP_INGRESS_COOP_YIELD_READS_MAX,
        HTTP_INGRESS_COOP_YIELD_READS_DEFAULT,
    );
    reads as u32
}

/// Reads between non-blocking drain attempts: the override within `1..=32`,
/// else 2.
pub fn configured_http_ingress_try_drain_interval_reads(primary: Option<&str>, fallback: Option<&str>) -> (r: u32)
    ensures
        r as int == override_or_default(
            text_of(primary),
            text_of(fallback),
            HTTP_INGRESS_TRY_DRAIN_INTERVAL_READS_MIN as int,
            HTTP_INGRESS_TRY_DRAIN_INTERVAL_READS_MAX as int,
            HTTP_INGRESS_TRY_DRAIN_INTERVAL_READS_DEFAULT as int,
        ),
{
    let reads = parse_override(
        primary,
        fallback,
        HTTP_INGRESS_TRY_DRAIN_INTERVAL_READS_MIN,
        HTTP_INGRESS_TRY_DRAIN_INTERVAL_READS_MAX,
        HTTP_INGRESS_TRY_DRAIN_INTERVAL_READS_DEFAULT,
    );
    reads as u32
}

/// Adaptive fairness: on for `1`, off for `0`, the default (off) otherwise.
pub fn configured_http_ingress_adaptive_fairness(primary: Option<&str>, fallback: Option<&str>) -> (r: bool)
    ensures
        r == (match (if primary is Some { text_of(primary) } else { text_of(fallback) }) {
            Some(text) => parsed_usize(text) == Some(1usize),
            None => false,
        }),
{
    let configured = match primary {
        Some(v) => Some(v),
        None => fallback,
    };
    let parsed = match configured {
        Some(v) => parse_ascii_usize(v),
        None => None,
    };
    match parsed {
        Some(1) => true,
        Some(0) => false,
        _ => HTTP_INGRESS_ADAPTIVE_FAIRNESS_DEFAULT != 0,
    }
}

} // verus!
