//! Readings of a monotonic clock, in microseconds since an arbitrary start.
//!
//! The library never reads a clock itself: callers hand it the reading that
//! belongs to each event.

use vstd::prelude::*;

verus! {

/// The time from `since` to `now`; nothing where `since` is the later one.
pub open spec fn spec_elapsed(now: u64, since: u64) -> u64 {
    if now >= since {
        (now - since) as u64
    } else {
        0
    }
}

/// The time from `since` to `now`; nothing where `since` is the later one.
pub fn elapsed(now: u64, since: u64) -> (span: u64)
    ensures
        span == spec_elapsed(now, since),
{
    if now >= since {
        now - since
    } else {
        0
    }
}

/// Whole milliseconds in a span of microseconds.
pub open spec fn spec_millis(span: u64) -> u64 {
    span / 1000
}

/// Whole milliseconds in a span of microseconds.
pub fn millis(span: u64) -> (ms: u64)
    ensures
        ms == spec_millis(span),
{
    span / 1000
}

/// Whole seconds in a span of microseconds.
pub open spec fn spec_secs(span: u64) -> u64 {
    span / 1_000_000
}

/// Whole seconds in a span of microseconds.
pub fn secs(span: u64) -> (s: u64)
    ensures
        s == spec_secs(span),
{
    span / 1_000_000
}

} // verus!
