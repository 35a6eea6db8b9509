use vstd::prelude::*;
use crate::types::{DataStatus, SubscribeFlag};

verus! {

/// Multiplier between `rate` / `watchdog` thresholds and time stamps.
pub const RATE_UNIT: u64 = 1000;

/// Time elapsed from `last` to `now`, zero when `now` is earlier.
pub open spec fn elapsed(now: u64, last: u64) -> int {
    if now >= last { now - last } else { 0 }
}

/// Whether an update with `status` should be published now.
pub open spec fn emits(
    status: DataStatus,
    now: u64,
    last: u64,
    rate: u64,
    watchdog: u64,
    flag: SubscribeFlag,
) -> bool {
    if status == DataStatus::Updated {
        elapsed(now, last) > rate * RATE_UNIT
    } else {
        flag == SubscribeFlag::ALL && elapsed(now, last) > watchdog * RATE_UNIT
    }
}

/// Is more than `threshold * RATE_UNIT` elapsed between `last` and `now`?
fn exceeds(now: u64, last: u64, threshold: u64) -> (r: bool)
    ensures
        r == (elapsed(now, last) > threshold * RATE_UNIT),
{
    let delta = now.saturating_sub(last);
    if threshold > u64::MAX / RATE_UNIT {
        false
    } else {
        delta > threshold * RATE_UNIT
    }
}

/// The notification gate: an updated value is published once more than
/// `rate` units have passed since the last publication; any other status is
/// published only to `ALL` subscribers, once more than `watchdog` units have
/// passed.
pub fn should_emit(
    status: DataStatus,
    now: u64,
    last: u64,
    rate: u64,
    watchdog: u64,
    flag: SubscribeFlag,
) -> (r: bool)
    ensures
        r == emits(status, now, last, rate, watchdog, flag),
{
    match status {
        DataStatus::Updated => exceeds(now, last, rate),
        _ => flag == SubscribeFlag::ALL && exceeds(now, last, watchdog),
    }
}

/// An updated value is published exactly when more than `rate * RATE_UNIT`
/// has elapsed: not at the threshold itself, and from one unit past it.
pub proof fn lemma_rate_boundary(now: u64, last: u64, rate: u64, watchdog: u64, flag: SubscribeFlag)
    ensures
        emits(DataStatus::Updated, now, last, rate, watchdog, flag) <==> elapsed(now, last) > rate
            * RATE_UNIT,
        elapsed(now, last) == rate * RATE_UNIT ==> !emits(
            DataStatus::Updated,
            now,
            last,
            rate,
            watchdog,
            flag,
        ),
        elapsed(now, last) == rate * RATE_UNIT + 1 ==> emits(
            DataStatus::Updated,
            now,
            last,
            rate,
            watchdog,
            flag,
        ),
{
}

/// A subscriber of fresh data only never hears of a status other than
/// `Updated`, however long ago the last publication was.
pub proof fn lemma_new_flag_silences_stale(
    status: DataStatus,
    now: u64,
    last: u64,
    rate: u64,
    watchdog: u64,
)
    requires
        status != DataStatus::Updated,
    ensures
        !emits(status, now, last, rate, watchdog, SubscribeFlag::NEW),
{
}

/// For an `ALL` subscriber a timeout is published exactly once more than
/// `watchdog * RATE_UNIT` has elapsed, while an updated value never looks at the
/// watchdog: any other watchdog gives the same answer, and past the watchdog
/// but within the rate it stays silent.
pub proof fn lemma_watchdog_boundary(
    now: u64,
    last: u64,
    rate: u64,
    watchdog: u64,
    other_watchdog: u64,
)
    ensures
        emits(DataStatus::Updated, now, last, rate, watchdog, SubscribeFlag::ALL) == emits(
            DataStatus::Updated,
            now,
            last,
            rate,
            other_watchdog,
            SubscribeFlag::ALL,
        ),
        elapsed(now, last) == watchdog * RATE_UNIT ==> !emits(
            DataStatus::Timeout,
            now,
            last,
            rate,
            watchdog,
            SubscribeFlag::ALL,
        ),
        elapsed(now, last) == watchdog * RATE_UNIT + 1 ==> emits(
            DataStatus::Timeout,
            now,
            last,
            rate,
            watchdog,
            SubscribeFlag::ALL,
        ),
        elapsed(now, last) > watchdog * RATE_UNIT && elapsed(now, last) <= rate * RATE_UNIT ==> !emits(
            DataStatus::Updated,
            now,
            last,
            rate,
            watchdog,
            SubscribeFlag::ALL,
        ),
{
}

} // verus!
