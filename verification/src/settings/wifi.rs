//! Wi-Fi runtime policy: the documented defaults and the clamping applied to
//! values provisioned over the serial console.
use vstd::prelude::*;

verus! {

pub const WIFI_DHCP_TIMEOUT_MIN_MS: u32 = 5_000;
pub const WIFI_DHCP_TIMEOUT_MAX_MS: u32 = 180_000;
/// Several DHCP request/retry rounds on a healthy access point.
pub const WIFI_DHCP_TIMEOUT_DEFAULT_MS: u32 = 20_000;
/// Pinned-BSSID recovery gets a longer lease convergence budget.
pub const WIFI_DHCP_TIMEOUT_PINNED_DEFAULT_MS: u32 = 45_000;
/// Connect phase budget before the recovery ladder escalates.
pub const WIFI_CONNECT_TIMEOUT_DEFAULT_MS: u32 = 30_000;
/// Listener start budget after a successful lease.
pub const WIFI_LISTENER_TIMEOUT_DEFAULT_MS: u32 = 25_000;
/// Active scan dwell per channel.
pub const WIFI_SCAN_ACTIVE_MIN_DEFAULT_MS: u32 = 600;
pub const WIFI_SCAN_ACTIVE_MAX_DEFAULT_MS: u32 = 1_500;
/// Passive dwell at the radio stack's warning threshold.
pub const WIFI_SCAN_PASSIVE_DEFAULT_MS: u32 = 1_500;
/// Pause between retries.
pub const WIFI_COOLDOWN_DEFAULT_MS: u32 = 1_200;
/// Pause between hard driver restarts.
pub const WIFI_DRIVER_RESTART_BACKOFF_DEFAULT_MS: u32 = 2_500;

/// Timeouts, scan dwells and retry budgets of the Wi-Fi recovery ladder.
#[derive(Clone, Copy, Debug, PartialEq, Eq, Structural)]
pub struct WifiRuntimePolicy {
    pub connect_timeout_ms: u32,
    pub dhcp_timeout_ms: u32,
    pub pinned_dhcp_timeout_ms: u32,
    pub listener_timeout_ms: u32,
    pub scan_active_min_ms: u32,
    pub scan_active_max_ms: u32,
    pub scan_passive_ms: u32,
    pub retry_same_max: u8,
    pub rotate_candidate_max: u8,
    pub rotate_auth_max: u8,
    pub full_scan_reset_max: u8,
    pub driver_restart_max: u8,
    pub cooldown_ms: u32,
    pub driver_restart_backoff_ms: u32,
}

/// `value` limited to `min..=max`; below `min` gives `min`, above `max`
/// gives `max` (checked in that order).
pub open spec fn clamp_spec(value: int, min: int, max: int) -> int {
    if value < min {
        min
    } else if value > max {
        max
    } else {
        value
    }
}

/// Limits `value` to `min..=max`.
pub fn clamp_u32(value: u32, min: u32, max: u32) -> (r: u32)
    ensures
        r == clamp_spec(value as int, min as int, max as int),
{
    if value < min {
        min
    } else if value > max {
        max
    } else {
        value
    }
}

/// Limits `value` to `min..=max`.
pub fn clamp_u8(value: u8, min: u8, max: u8) -> (r: u8)
    ensures
        r == clamp_spec(value as int, min as int, max as int),
{
    if value < min {
        min
    } else if value > max {
        max
    } else {
        value
    }
}

/// The documented defaults.
pub open spec fn default_policy() -> WifiRuntimePolicy {
    WifiRuntimePolicy {
        connect_timeout_ms: WIFI_CONNECT_TIMEOUT_DEFAULT_MS,
        dhcp_timeout_ms: WIFI_DHCP_TIMEOUT_DEFAULT_MS,
        pinned_dhcp_timeout_ms: WIFI_DHCP_TIMEOUT_PINNED_DEFAULT_MS,
        listener_timeout_ms: WIFI_LISTENER_TIMEOUT_DEFAULT_MS,
        scan_active_min_ms: WIFI_SCAN_ACTIVE_MIN_DEFAULT_MS,
        scan_active_max_ms: WIFI_SCAN_ACTIVE_MAX_DEFAULT_MS,
        scan_passive_ms: WIFI_SCAN_PASSIVE_DEFAULT_MS,
        retry_same_max: 2,
        rotate_candidate_max: 2,
        rotate_auth_max: 5,
        full_scan_reset_max: 1,
        driver_restart_max: 1,
        cooldown_ms: WIFI_COOLDOWN_DEFAULT_MS,
        driver_restart_backoff_ms: WIFI_DRIVER_RESTART_BACKOFF_DEFAULT_MS,
    }
}

/// Each field clamped to its range; the pinned DHCP timeout raised to at
/// least the plain one and the active scan maximum to at least its minimum.
pub open spec fn sanitized_policy(p: WifiRuntimePolicy) -> WifiRuntimePolicy {
    let dhcp = clamp_spec(p.dhcp_timeout_ms as int, WIFI_DHCP_TIMEOUT_MIN_MS as int, WIFI_DHCP_TIMEOUT_MAX_MS as int);
    let pinned = clamp_spec(
        p.pinned_dhcp_timeout_ms as int,
        WIFI_DHCP_TIMEOUT_MIN_MS as int,
        WIFI_DHCP_TIMEOUT_MAX_MS as int,
    );
    let active_min = clamp_spec(p.scan_active_min_ms as int, 50, 10_000);
    let active_max = clamp_spec(p.scan_active_max_ms as int, 50, 10_000);
    WifiRuntimePolicy {
        connect_timeout_ms: clamp_spec(p.connect_timeout_ms as int, 2_000, 180_000) as u32,
        dhcp_timeout_ms: dhcp as u32,
        pinned_dhcp_timeout_ms: (if pinned < dhcp { dhcp } else { pinned }) as u32,
        listener_timeout_ms: clamp_spec(p.listener_timeout_ms as int, 2_000, 180_000) as u32,
        scan_active_min_ms: active_min as u32,
        scan_active_max_ms: (if active_max < active_min { active_min } else { active_max }) as u32,
        scan_passive_ms: clamp_spec(p.scan_passive_ms as int, 50, 10_000) as u32,
        retry_same_max: clamp_spec(p.retry_same_max as int, 1, 8) as u8,
        rotate_candidate_max: clamp_spec(p.rotate_candidate_max as int, 1, 8) as u8,
        rotate_auth_max: clamp_spec(p.rotate_auth_max as int, 1, 16) as u8,
        full_scan_reset_max: clamp_spec(p.full_scan_reset_max as int, 1, 8) as u8,
        driver_restart_max: clamp_spec(p.driver_restart_max as int, 1, 8) as u8,
        cooldown_ms: clamp_spec(p.cooldown_ms as int, 0, 30_000) as u32,
        driver_restart_backoff_ms: clamp_spec(p.driver_restart_backoff_ms as int, 0, 60_000) as u32,
    }
}

/// Every field within its range and the two orderings in place.
pub open spec fn policy_in_range(p: WifiRuntimePolicy) -> bool {
    &&& 2_000 <= p.connect_timeout_ms <= 180_000
    &&& WIFI_DHCP_TIMEOUT_MIN_MS <= p.dhcp_timeout_ms <= WIFI_DHCP_TIMEOUT_MAX_MS
    &&& p.dhcp_timeout_ms <= p.pinned_dhcp_timeout_ms <= WIFI_DHCP_TIMEOUT_MAX_MS
    &&& 2_000 <= p.listener_timeout_ms <= 180_000
    &&& 50 <= p.scan_active_min_ms <= p.scan_active_max_ms <= 10_000
    &&& 50 <= p.scan_passive_ms <= 10_000
    &&& 1 <= p.retry_same_max <= 8
    &&& 1 <= p.rotate_candidate_max <= 8
    &&& 1 <= p.rotate_auth_max <= 16
    &&& 1 <= p.full_scan_reset_max <= 8
    &&& 1 <= p.driver_restart_max <= 8
    &&& p.cooldown_ms <= 30_000
    &&& p.driver_restart_backoff_ms <= 60_000
}

impl WifiRuntimePolicy {
    /// The documented defaults.
    pub fn defaults() -> (r: Self)
        ensures
            r == default_policy(),
    {
        WifiRuntimePolicy {
            connect_timeout_ms: WIFI_CONNECT_TIMEOUT_DEFAULT_MS,
            dhcp_timeout_ms: WIFI_DHCP_TIMEOUT_DEFAULT_MS,
            pinned_dhcp_timeout_ms: WIFI_DHCP_TIMEOUT_PINNED_DEFAULT_MS,
            listener_timeout_ms: WIFI_LISTENER_TIMEOUT_DEFAULT_MS,
            scan_active_min_ms: WIFI_SCAN_ACTIVE_MIN_DEFAULT_MS,
            scan_active_max_ms: WIFI_SCAN_ACTIVE_MAX_DEFAULT_MS,
            scan_passive_ms: WIFI_SCAN_PASSIVE_DEFAULT_MS,
            retry_same_max: 2,
            rotate_candidate_max: 2,
            rotate_auth_max: 5,
            full_scan_reset_max: 1,
            driver_restart_max: 1,
            cooldown_ms: WIFI_COOLDOWN_DEFAULT_MS,
            driver_restart_backoff_ms: WIFI_DRIVER_RESTART_BACKOFF_DEFAULT_MS,
        }
    }

    /// The policy with every value brought into its accepted range.
    pub fn sanitized(self) -> (r: Self)
        ensures
            r == sanitized_policy(self),
            policy_in_range(r),
    {
        let connect_timeout_ms = clamp_u32(self.connect_timeout_ms, 2_000, 180_000);
        let dhcp_timeout_ms = clamp_u32(self.dhcp_timeout_ms, WIFI_DHCP_TIMEOUT_MIN_MS, WIFI_DHCP_TIMEOUT_MAX_MS);
        let mut pinned_dhcp_timeout_ms = clamp_u32(
            self.pinned_dhcp_timeout_ms,
            WIFI_DHCP_TIMEOUT_MIN_MS,
            WIFI_DHCP_TIMEOUT_MAX_MS,
        );
        if pinned_dhcp_timeout_ms < dhcp_timeout_ms {
            pinned_dhcp_timeout_ms = dhcp_timeout_ms;
        }
        let listener_timeout_ms = clamp_u32(self.listener_timeout_ms, 2_000, 180_000);
        let scan_active_min_ms = clamp_u32(self.scan_active_min_ms, 50, 10_000);
        let mut scan_active_max_ms = clamp_u32(self.scan_active_max_ms, 50, 10_000);
        if scan_active_max_ms < scan_active_min_ms {
            scan_active_max_ms = scan_active_min_ms;
        }
        let scan_passive_ms = clamp_u32(self.scan_passive_ms, 50, 10_000);
        let retry_same_max = clamp_u8(self.retry_same_max, 1, 8);
        let rotate_candidate_max = clamp_u8(self.rotate_candidate_max, 1, 8);
        let rotate_auth_max = clamp_u8(self.rotate_auth_max, 1, 16);
        let full_scan_reset_max = clamp_u8(self.full_scan_reset_max, 1, 8);
        let driver_restart_max = clamp_u8(self.driver_restart_max, 1, 8);
        let cooldown_ms = clamp_u32(self.cooldown_ms, 0, 30_000);
        let driver_restart_backoff_ms = clamp_u32(self.driver_restart_backoff_ms, 0, 60_000);
        WifiRuntimePolicy {
            connect_timeout_ms,
            dhcp_timeout_ms,
            pinned_dhcp_timeout_ms,
            listener_timeout_ms,
            scan_active_min_ms,
            scan_active_max_ms,
            scan_passive_ms,
            retry_same_max,
            rotate_candidate_max,
            rotate_auth_max,
            full_scan_reset_max,
            driver_restart_max,
            cooldown_ms,
            driver_restart_backoff_ms,
        }
    }
}

/// Sanitizing leaves an in-range policy as it is; so sanitizing twice is
/// sanitizing once.
pub proof fn lemma_sanitized_fixes_in_range(p: WifiRuntimePolicy)
    ensures
        policy_in_range(p) ==> sanitized_policy(p) == p,
        sanitized_policy(sanitized_policy(p)) == sanitized_policy(p),
{
}

/// The defaults are already within every range, so sanitizing them changes
/// nothing.
pub proof fn lemma_defaults_in_range()
    ensures
        policy_in_range(default_policy()),
        sanitized_policy(default_policy()) == default_policy(),
{
}

} // verus!
