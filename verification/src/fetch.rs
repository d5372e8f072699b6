//! The retry decision step of the resilient fetcher.
//!
//! The fetch loop itself lives in the binary, because sending a request and
//! sleeping are I/O. Each attempt it reports back here as a `FetchEvent`:
//! either the transport failed outright, or a response arrived with a status
//! and its rate-limit headers. `fetch_step` inspects the event, reprograms
//! the backoff timer, and says whether the loop is done. Two independent
//! header signals are evaluated in a fixed order — the explicit retry-after
//! directive first, then the quota-exhaustion pair — and when both fire, the
//! second overrides the first.

use vstd::prelude::*;
use crate::numtext::{parse_u64, spec_parse_u64};
use crate::timer::{next_delay, ExponentialBackoffTimer};

verus! {

/// HTTP status code treated as success; everything else is a transient
/// failure that grows the backoff.
pub const STATUS_OK: u16 = 200;

/// The rate-limit headers of one response, as raw text. A field is `None`
/// when the header is absent (or its value is not representable as text).
pub struct ResponseHeaders {
    /// Explicit "retry after N seconds" directive.
    pub retry_after: Option<String>,
    /// Remaining request quota; the reset time only applies when this is `0`.
    pub ratelimit_remaining: Option<String>,
    /// Unix timestamp (seconds) at which the quota resets.
    pub ratelimit_reset: Option<String>,
}

/// What one attempt of the fetch loop produced.
pub enum FetchEvent {
    /// The transport failed before any response arrived (DNS, connection
    /// reset, timeout): retry without inspecting headers.
    TransportFailed,
    /// A response arrived with this status and these rate-limit headers.
    Received { status: u16, headers: ResponseHeaders },
}

/// First signal: the retry-after directive, when its value parses as a
/// number of seconds.
pub open spec fn spec_retry_after(h: ResponseHeaders) -> Option<u64> {
    match h.retry_after {
        Some(v) => spec_parse_u64(v@),
        None => None,
    }
}

/// Second signal: the quota reset timestamp, applying only when the
/// remaining quota parses to exactly `0` and the reset header parses.
pub open spec fn spec_quota_reset(h: ResponseHeaders) -> Option<u64> {
    match (h.ratelimit_remaining, h.ratelimit_reset) {
        (Some(rem), Some(rst)) => if spec_parse_u64(rem@) == Some(0u64) {
            spec_parse_u64(rst@)
        } else {
            None
        },
        _ => None,
    }
}

/// A Unix timestamp moved onto the monotonic clock: now plus the seconds
/// still to run until the timestamp, and never before now when the
/// timestamp already passed.
pub open spec fn spec_reset_instant(now_mono: int, now_wall: int, reset_unix: int) -> int {
    if reset_unix >= now_wall {
        now_mono + (reset_unix - now_wall)
    } else {
        now_mono
    }
}

/// The deadline after both header signals were applied in order: the quota
/// signal, evaluated second, overrides the retry-after directive; with
/// neither present the deadline stands.
pub open spec fn spec_deadline_after_signals(
    t: ExponentialBackoffTimer,
    h: ResponseHeaders,
    now_mono: int,
    now_wall: int,
) -> int {
    match spec_quota_reset(h) {
        Some(rst) => spec_reset_instant(now_mono, now_wall, rst as int),
        None => match spec_retry_after(h) {
            Some(secs) => now_mono + secs,
            None => t.deadline as int,
        },
    }
}

/// The delay after the header signals: any authoritative signal restarts
/// the exponential growth from the floor.
pub open spec fn spec_delay_after_signals(t: ExponentialBackoffTimer, h: ResponseHeaders) -> int {
    if spec_retry_after(h) is Some || spec_quota_reset(h) is Some {
        t.min_delay as int
    } else {
        t.delay as int
    }
}

/// The machine limits under which one `fetch_step` stays within `u64`
/// arithmetic, exactly where the timer deadlines are added to.
pub open spec fn fetch_step_fits(
    t: ExponentialBackoffTimer,
    e: FetchEvent,
    now_mono: int,
    now_wall: int,
) -> bool {
    match e {
        FetchEvent::TransportFailed => true,
        FetchEvent::Received { status, headers } => {
            let d = spec_deadline_after_signals(t, headers, now_mono, now_wall);
            let dl = spec_delay_after_signals(t, headers);
            &&& (spec_retry_after(headers) matches Some(secs) ==> now_mono + secs <= u64::MAX)
            &&& d <= u64::MAX
            &&& (status != STATUS_OK ==> d + dl <= u64::MAX)
        },
    }
}

/// Extract the retry-after signal from the headers.
pub fn retry_after_signal(h: &ResponseHeaders) -> (r: Option<u64>)
    ensures
        r == spec_retry_after(*h),
{
    match &h.retry_after {
        Some(v) => parse_u64(v.as_str()),
        None => None,
    }
}

/// Extract the quota-exhaustion signal from the headers.
pub fn quota_reset_signal(h: &ResponseHeaders) -> (r: Option<u64>)
    ensures
        r == spec_quota_reset(*h),
{
    match (&h.ratelimit_remaining, &h.ratelimit_reset) {
        (Some(rem), Some(rst)) => {
            let remaining = parse_u64(rem.as_str());
            if remaining == Some(0u64) {
                parse_u64(rst.as_str())
            } else {
                None
            }
        },
        _ => None,
    }
}

/// Convert a quota reset Unix timestamp to the monotonic clock.
pub fn reset_instant(now_mono: u64, now_wall: u64, reset_unix: u64) -> (r: u64)
    requires
        reset_unix >= now_wall ==> now_mono + (reset_unix - now_wall) <= u64::MAX,
    ensures
        r as int == spec_reset_instant(now_mono as int, now_wall as int, reset_unix as int),
        r >= now_mono,
{
    if reset_unix >= now_wall {
        now_mono + (reset_unix - now_wall)
    } else {
        now_mono
    }
}

/// Decide `fetch_step_fits` at run time, so a caller outside the library
/// can test the machine limits of a step before taking it instead of
/// re-deriving them.
pub fn step_fits(
    timer: &ExponentialBackoffTimer,
    event: &FetchEvent,
    now_mono: u64,
    now_wall: u64,
) -> (b: bool)
    ensures
        b == fetch_step_fits(*timer, *event, now_mono as int, now_wall as int),
{
    match event {
        FetchEvent::TransportFailed => true,
        FetchEvent::Received { status, headers } => {
            let retry = retry_after_signal(headers);
            let quota = quota_reset_signal(headers);
            if let Some(secs) = retry {
                if secs > u64::MAX - now_mono {
                    return false;
                }
            }
            let deadline: u64 = match quota {
                Some(reset_unix) => {
                    let delta = if reset_unix >= now_wall {
                        reset_unix - now_wall
                    } else {
                        0
                    };
                    if delta > u64::MAX - now_mono {
                        return false;
                    }
                    now_mono + delta
                },
                None => match retry {
                    Some(secs) => now_mono + secs,
                    None => timer.deadline,
                },
            };
            if *status != STATUS_OK {
                let delay = if retry.is_some() || quota.is_some() {
                    timer.min_delay
                } else {
                    timer.delay
                };
                if delay > u64::MAX - deadline {
                    return false;
                }
            }
            true
        },
    }
}

/// One decision step of the resilient fetch loop, applied after the loop
/// slept until the timer's deadline and made one attempt. Returns whether
/// the loop is done (a success response arrived). On a response, the two
/// header signals reprogram the timer in order, then a non-success status
/// grows the backoff; a transport failure changes nothing and the loop
/// retries at the unchanged deadline.
pub fn fetch_step(
    timer: &mut ExponentialBackoffTimer,
    event: &FetchEvent,
    now_mono: u64,
    now_wall: u64,
) -> (done: bool)
    requires
        old(timer).wf(),
        fetch_step_fits(*old(timer), *event, now_mono as int, now_wall as int),
    ensures
        final(timer).min_delay == old(timer).min_delay,
        final(timer).max_delay == old(timer).max_delay,
        final(timer).wf(),
        match *event {
            FetchEvent::TransportFailed => !done && *final(timer) == *old(timer),
            FetchEvent::Received { status, headers } => {
                let d = spec_deadline_after_signals(
                    *old(timer),
                    headers,
                    now_mono as int,
                    now_wall as int,
                );
                let dl = spec_delay_after_signals(*old(timer), headers);
                &&& done == (status == STATUS_OK)
                &&& status == STATUS_OK ==> final(timer).deadline as int == d
                    && final(timer).delay as int == dl
                &&& status != STATUS_OK ==> final(timer).deadline as int == d + dl
                    && final(timer).delay as int == next_delay(dl, old(timer).max_delay as int)
            },
        },
{
    match event {
        FetchEvent::TransportFailed => false,
        FetchEvent::Received { status, headers } => {
            if let Some(secs) = retry_after_signal(headers) {
                timer.set_deadline(now_mono + secs);
            }
            if let Some(reset_unix) = quota_reset_signal(headers) {
                let new_deadline = reset_instant(now_mono, now_wall, reset_unix);
                timer.set_deadline(new_deadline);
            }
            if *status == STATUS_OK {
                true
            } else {
                timer.backoff();
                false
            }
        },
    }
}

/// Law: a quota reset timestamp is never adjusted below the current
/// instant; when it lies ahead of the wall clock it lands exactly the
/// remaining seconds after now.
pub proof fn lemma_reset_instant_not_past(now_mono: int, now_wall: int, reset_unix: int)
    ensures
        spec_reset_instant(now_mono, now_wall, reset_unix) >= now_mono,
        reset_unix >= now_wall ==> spec_reset_instant(now_mono, now_wall, reset_unix) == now_mono
            + (reset_unix - now_wall),
{
}

/// Law: when both the retry-after directive and the quota-exhaustion signal
/// fire on one response, the deadline reflects the quota signal — evaluated
/// second — whatever the retry-after value was.
pub proof fn lemma_quota_overrides_retry_after(
    t: ExponentialBackoffTimer,
    h: ResponseHeaders,
    now_mono: int,
    now_wall: int,
)
    requires
        spec_quota_reset(h) is Some,
    ensures
        spec_deadline_after_signals(t, h, now_mono, now_wall) == spec_reset_instant(
            now_mono,
            now_wall,
            spec_quota_reset(h)->Some_0 as int,
        ),
{
}

} // verus!
