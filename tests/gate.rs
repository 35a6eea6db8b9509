use dbcapi::gate::{should_emit, RATE_UNIT};
use dbcapi::types::{DataStatus, SubscribeFlag};

#[test]
fn should_emit_matches_expected_gating() {
    assert!(should_emit(DataStatus::Updated, 2000, 0, 1, 10, SubscribeFlag::NEW));
    assert!(!should_emit(DataStatus::Timeout, 20_000, 0, 1, 100, SubscribeFlag::NEW));
    assert!(should_emit(DataStatus::Timeout, 200_000, 0, 1, 100, SubscribeFlag::ALL));
}

#[test]
fn should_emit_threshold_cases() {
    assert!(should_emit(DataStatus::Updated, 10_000_000, 9_000_000, 500, 10_000, SubscribeFlag::NEW));
    assert!(should_emit(DataStatus::Timeout, 10_000_001, 0, 500, 10_000, SubscribeFlag::ALL));
    assert!(!should_emit(DataStatus::Timeout, 10_000_000, 0, 500, 10_000, SubscribeFlag::NEW));
}

#[test]
fn rate_threshold_is_strict() {
    let rate = 7u64;
    let last = 1_000u64;
    let at = last + rate * RATE_UNIT;
    assert!(!should_emit(DataStatus::Updated, at, last, rate, 0, SubscribeFlag::ALL));
    assert!(should_emit(DataStatus::Updated, at + 1, last, rate, 0, SubscribeFlag::ALL));
}

#[test]
fn new_flag_never_emits_stale_status() {
    for status in [DataStatus::Unchanged, DataStatus::Timeout, DataStatus::Error, DataStatus::Unset] {
        assert!(!should_emit(status, u64::MAX, 0, 0, 0, SubscribeFlag::NEW));
    }
}

#[test]
fn watchdog_boundary_for_timeout() {
    let watchdog = 3u64;
    assert!(!should_emit(DataStatus::Timeout, 3000, 0, 100, watchdog, SubscribeFlag::ALL));
    assert!(should_emit(DataStatus::Timeout, 3001, 0, 100, watchdog, SubscribeFlag::ALL));
    // an update past the watchdog but within the rate stays silent
    assert!(!should_emit(DataStatus::Updated, 3001, 0, 100, watchdog, SubscribeFlag::ALL));
}

#[test]
fn earlier_now_counts_as_no_time() {
    assert!(!should_emit(DataStatus::Updated, 5, 10, 0, 0, SubscribeFlag::ALL));
    assert!(should_emit(DataStatus::Updated, 11, 10, 0, 0, SubscribeFlag::ALL));
}

#[test]
fn huge_rate_never_emits() {
    assert!(!should_emit(DataStatus::Updated, u64::MAX, 0, u64::MAX, 0, SubscribeFlag::ALL));
}
