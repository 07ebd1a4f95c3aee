//! Time as the host sees it: readings of a monotonic clock in milliseconds.

use vstd::prelude::*;

verus! {

/// A tenant that has not been touched for longer than this is swapped out.
pub const IDLE_THRESHOLD_MS: u64 = 300_000;

/// Pause before each tenant's cold start.
pub const STAGGER_MS: u64 = 125;

/// Pause before a closed watch is opened again.
pub const WATCH_BACKOFF_MS: u64 = 1_000;

/// Time that has passed between an earlier reading and a later one; zero when
/// the second reading is not later than the first.
pub open spec fn elapsed_between(earlier: u64, now: u64) -> nat {
    if now >= earlier {
        (now - earlier) as nat
    } else {
        0
    }
}

/// Whether a tenant last active at `last_active` counts as idle at `now`:
/// strictly more than the threshold must have passed.
pub open spec fn is_idle_at(last_active: u64, now: u64) -> bool {
    elapsed_between(last_active, now) > IDLE_THRESHOLD_MS
}

/// Milliseconds from `earlier` to `now`, zero if `now` is not later.
pub fn elapsed_ms(earlier: u64, now: u64) -> (e: u64)
    ensures
        e == elapsed_between(earlier, now),
{
    if now >= earlier {
        now - earlier
    } else {
        0
    }
}

/// Decides whether a tenant last active at `last_active` is idle at `now`.
pub fn is_idle(last_active: u64, now: u64) -> (idle: bool)
    ensures
        idle == is_idle_at(last_active, now),
{
    elapsed_ms(last_active, now) > IDLE_THRESHOLD_MS
}

/// The reaper wakes up twice per idle threshold.
pub fn reaper_period_ms() -> (p: u64)
    ensures
        p == IDLE_THRESHOLD_MS / 2,
{
    IDLE_THRESHOLD_MS / 2
}

/// The threshold itself is not idle: a tenant counts as idle from the first
/// millisecond after the threshold has passed, and at no reading before.
pub proof fn idle_is_strict(last_active: u64, now: u64)
    ensures
        is_idle_at(last_active, now) <==> now > last_active + IDLE_THRESHOLD_MS,
        now == last_active + IDLE_THRESHOLD_MS ==> !is_idle_at(last_active, now),
{
}

} // verus!
