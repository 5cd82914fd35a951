//! Time as the session controller sees it: whole seconds since the Unix
//! epoch, and the rule that says when a keepalive check is due.

use chrono::Local;
use vstd::prelude::*;

verus! {

/// A keepalive check is due this many seconds after the last one was tried.
pub const PING_INTERVAL: i64 = 50;

/// The length of one tick of the interactive loop, in milliseconds.
pub const TICK_RATE: u64 = 1000;

/// How long the loop may wait for a key, in milliseconds, when `elapsed`
/// milliseconds have gone by since the last tick: the rest of the tick.
pub open spec fn tick_wait(elapsed: int) -> int {
    if elapsed >= TICK_RATE {
        0
    } else {
        TICK_RATE - elapsed
    }
}

/// The seconds from `since` to `now`; negative where `since` is later.
pub open spec fn elapsed(now: int, since: int) -> int {
    now - since
}

/// `n`, or the nearest `i64` where it is out of range.
pub open spec fn clip(n: int) -> int {
    if n < i64::MIN {
        i64::MIN as int
    } else if n > i64::MAX {
        i64::MAX as int
    } else {
        n
    }
}

/// A check is due at `now` when one was tried before and at least `interval`
/// seconds have gone by since. Where none was tried yet, none is due.
pub open spec fn ping_due(now: int, last_attempt: Option<int>, interval: int) -> bool {
    last_attempt matches Some(at) && elapsed(now, at) >= interval
}

/// An optional timestamp as an optional integer.
pub open spec fn time_view(t: Option<i64>) -> Option<int> {
    match t {
        Some(at) => Some(at as int),
        None => None,
    }
}

/// `chrono::Local::now`, as seconds since the Unix epoch by
/// `chrono::DateTime::timestamp`. Nothing is known of the time that it gives.
/// It panics where the system clock stands before the epoch.
#[verifier::external_body]
pub(crate) fn now() -> i64 {
    Local::now().timestamp()
}

/// The seconds from `since` to `now` as an `i64`: clipped where they do not fit.
pub open spec fn seconds_between_spec(now: i64, since: i64) -> i64 {
    clip(elapsed(now as int, since as int)) as i64
}

/// The seconds from `since` to `now`, clipped to what an `i64` holds.
pub fn seconds_between(now: i64, since: i64) -> (seconds: i64)
    ensures
        seconds == seconds_between_spec(now, since),
{
    match now.checked_sub(since) {
        Some(seconds) => seconds,
        None => if now < since {
            i64::MIN
        } else {
            i64::MAX
        },
    }
}

/// The seconds from `since` to `now`, if there is a `since`.
pub open spec fn seconds_since_spec(now: i64, since: Option<i64>) -> Option<i64> {
    match since {
        None => None,
        Some(at) => Some(seconds_between_spec(now, at)),
    }
}

/// The seconds from `since` to `now`, if there is a `since`.
pub fn seconds_since(now: i64, since: Option<i64>) -> (seconds: Option<i64>)
    ensures
        seconds == seconds_since_spec(now, since),
{
    match since {
        None => None,
        Some(at) => Some(seconds_between(now, at)),
    }
}

/// How long the loop may wait for a key, in milliseconds, when `elapsed`
/// milliseconds have gone by since the last tick.
pub fn time_until_tick(elapsed: u64) -> (wait: u64)
    ensures
        wait == tick_wait(elapsed as int),
{
    TICK_RATE.saturating_sub(elapsed)
}

/// Whether a tick is due when `elapsed` milliseconds have gone by since the
/// last one.
pub fn tick_is_due(elapsed: u64) -> (due: bool)
    ensures
        due == (elapsed >= TICK_RATE),
        due == (tick_wait(elapsed as int) == 0),
{
    elapsed >= TICK_RATE
}

/// Whether a keepalive check is due at `now`, `interval` seconds after the
/// last attempt.
pub fn is_ping_due(now: i64, last_attempt: Option<i64>, interval: i64) -> (due: bool)
    ensures
        due == ping_due(now as int, time_view(last_attempt), interval as int),
{
    match last_attempt {
        None => false,
        Some(at) => match now.checked_sub(at) {
            Some(seconds) => seconds >= interval,
            None => now > at,
        },
    }
}

} // verus!
