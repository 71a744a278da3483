use meditamer::settings::tuning::{
    configured_http_ingress_adaptive_fairness, configured_http_ingress_coop_yield_bytes,
    configured_http_ingress_coop_yield_reads, configured_http_ingress_try_drain_interval_reads,
    configured_http_rx_buf_target, configured_sd_upload_chunk_max, parse_ascii_usize,
};
use meditamer::settings::wifi::{clamp_u32, clamp_u8, WifiRuntimePolicy};

#[test]
fn parses_decimal_digits_only() {
    assert_eq!(parse_ascii_usize("0"), Some(0));
    assert_eq!(parse_ascii_usize("65536"), Some(65_536));
    assert_eq!(parse_ascii_usize("007"), Some(7));
    assert_eq!(parse_ascii_usize(""), None);
    assert_eq!(parse_ascii_usize("12a"), None);
    assert_eq!(parse_ascii_usize("-1"), None);
    assert_eq!(parse_ascii_usize(" 1"), None);
}

#[test]
fn parse_rejects_values_past_usize() {
    let max = usize::MAX.to_string();
    assert_eq!(parse_ascii_usize(&max), Some(usize::MAX));
    let over = format!("{}0", max);
    assert_eq!(parse_ascii_usize(&over), None);
    let over_then_junk = format!("{}x", over);
    assert_eq!(parse_ascii_usize(&over_then_junk), None);
}

#[test]
fn overrides_apply_only_inside_their_ranges() {
    assert_eq!(configured_sd_upload_chunk_max(None, None), 65_536);
    assert_eq!(configured_sd_upload_chunk_max(Some("8192"), Some("4096")), 8_192);
    assert_eq!(configured_sd_upload_chunk_max(None, Some("4096")), 4_096);
    assert_eq!(configured_sd_upload_chunk_max(Some("4095"), Some("8192")), 65_536);
    assert_eq!(configured_sd_upload_chunk_max(Some("big"), None), 65_536);
    assert_eq!(configured_http_rx_buf_target(Some("262144"), None), 262_144);
    assert_eq!(configured_http_rx_buf_target(Some("262145"), None), 65_536);
    assert_eq!(configured_http_ingress_coop_yield_bytes(Some("1024"), None), 1_024);
    assert_eq!(configured_http_ingress_coop_yield_bytes(Some("1023"), None), 16_384);
    assert_eq!(configured_http_ingress_coop_yield_reads(Some("128"), None), 128);
    assert_eq!(configured_http_ingress_coop_yield_reads(Some("3"), None), 32);
    assert_eq!(configured_http_ingress_try_drain_interval_reads(None, Some("32")), 32);
    assert_eq!(configured_http_ingress_try_drain_interval_reads(None, Some("0")), 2);
}

#[test]
fn adaptive_fairness_is_on_only_for_one() {
    assert!(configured_http_ingress_adaptive_fairness(Some("1"), None));
    assert!(configured_http_ingress_adaptive_fairness(None, Some("1")));
    assert!(!configured_http_ingress_adaptive_fairness(Some("0"), Some("1")));
    assert!(!configured_http_ingress_adaptive_fairness(Some("2"), None));
    assert!(!configured_http_ingress_adaptive_fairness(None, None));
}

#[test]
fn clamps_to_inclusive_bounds() {
    assert_eq!(clamp_u32(1, 5, 10), 5);
    assert_eq!(clamp_u32(11, 5, 10), 10);
    assert_eq!(clamp_u32(7, 5, 10), 7);
    assert_eq!(clamp_u8(0, 1, 8), 1);
    assert_eq!(clamp_u8(200, 1, 16), 16);
}

#[test]
fn defaults_are_already_sanitized() {
    let defaults = WifiRuntimePolicy::defaults();
    assert_eq!(defaults.connect_timeout_ms, 30_000);
    assert_eq!(defaults.dhcp_timeout_ms, 20_000);
    assert_eq!(defaults.pinned_dhcp_timeout_ms, 45_000);
    assert_eq!(defaults.rotate_auth_max, 5);
    assert_eq!(defaults.sanitized(), defaults);
}

#[test]
fn sanitizing_clamps_and_orders_the_fields() {
    let wild = WifiRuntimePolicy {
        connect_timeout_ms: 0,
        dhcp_timeout_ms: 90_000,
        pinned_dhcp_timeout_ms: 6_000,
        listener_timeout_ms: u32::MAX,
        scan_active_min_ms: 900,
        scan_active_max_ms: 60,
        scan_passive_ms: 10,
        retry_same_max: 0,
        rotate_candidate_max: 99,
        rotate_auth_max: 17,
        full_scan_reset_max: 3,
        driver_restart_max: 0,
        cooldown_ms: 40_000,
        driver_restart_backoff_ms: 70_000,
    };
    let clean = wild.sanitized();
    assert_eq!(clean.connect_timeout_ms, 2_000);
    assert_eq!(clean.dhcp_timeout_ms, 90_000);
    assert_eq!(clean.pinned_dhcp_timeout_ms, 90_000);
    assert_eq!(clean.listener_timeout_ms, 180_000);
    assert_eq!(clean.scan_active_min_ms, 900);
    assert_eq!(clean.scan_active_max_ms, 900);
    assert_eq!(clean.scan_passive_ms, 50);
    assert_eq!(clean.retry_same_max, 1);
    assert_eq!(clean.rotate_candidate_max, 8);
    assert_eq!(clean.rotate_auth_max, 16);
    assert_eq!(clean.full_scan_reset_max, 3);
    assert_eq!(clean.driver_restart_max, 1);
    assert_eq!(clean.cooldown_ms, 30_000);
    assert_eq!(clean.driver_restart_backoff_ms, 60_000);
    assert_eq!(clean.sanitized(), clean);
}
