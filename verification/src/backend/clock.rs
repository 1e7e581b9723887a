//! Intervals: how often the consumer is polled, and how long a new size must last.
use vstd::prelude::*;

verus! {

/// The poll interval is never shorter than 2 ms.
pub const POLL_INTERVAL_MIN_NS: u64 = 2_000_000;
/// The poll interval is never longer than 8 ms while there is a consumer.
pub const POLL_INTERVAL_MAX_NS: u64 = 8_000_000;
/// The poll interval while the consumer is gone.
pub const FALLBACK_POLL_INTERVAL_NS: u64 = 500_000_000;
/// How long a new size must last before it is taken over.
pub const SIZE_STABILITY_MICROS: u128 = 500_000;
/// How long a size stays at least once it was taken over.
pub const SIZE_ADAPT_COOLDOWN_MICROS: u128 = 500_000;
/// Half a second in nanoseconds, a thousand times over: divided by a refresh rate in
/// millihertz it is half a frame.
pub const HALF_FRAME_NUMERATOR: u64 = 500_000_000_000;

/// `a` divided by `b`, rounded to the nearest integer; halfway, to the even one.
pub open spec fn rounded_quotient(a: int, b: int) -> int {
    let (q, r) = (a / b, a % b);
    if 2 * r < b || (2 * r == b && q % 2 == 0) {
        q
    } else {
        q + 1
    }
}

/// `x` brought between `low` and `high`.
pub open spec fn clamped(x: int, low: int, high: int) -> int {
    if x < low {
        low
    } else if x > high {
        high
    } else {
        x
    }
}

/// The interval at which a consumer is polled whose display has this refresh rate, in millihertz:
/// half a frame within bounds, and the longest one where the rate is not known.
pub open spec fn active_interval(refresh: u32) -> int {
    if refresh == 0 {
        POLL_INTERVAL_MAX_NS as int
    } else {
        clamped(
            rounded_quotient(HALF_FRAME_NUMERATOR as int, refresh as int),
            POLL_INTERVAL_MIN_NS as int,
            POLL_INTERVAL_MAX_NS as int,
        )
    }
}

/// The interval at which a consumer is polled, in nanoseconds.
pub fn poll_interval(refresh: u32) -> (ns: u64)
    ensures
        ns == active_interval(refresh),
{
    if refresh == 0 {
        return POLL_INTERVAL_MAX_NS;
    }
    let b: u64 = refresh as u64;
    let q: u64 = HALF_FRAME_NUMERATOR / b;
    let r: u64 = HALF_FRAME_NUMERATOR % b;
    assert(r < b);
    assert(q <= HALF_FRAME_NUMERATOR) by (nonlinear_arith)
        requires
            q == HALF_FRAME_NUMERATOR as int / b as int,
            b >= 1,
    ;
    let half_frame: u64 = if 2 * r < b || (2 * r == b && q % 2 == 0) {
        q
    } else {
        q + 1
    };
    if half_frame < POLL_INTERVAL_MIN_NS {
        POLL_INTERVAL_MIN_NS
    } else if half_frame > POLL_INTERVAL_MAX_NS {
        POLL_INTERVAL_MAX_NS
    } else {
        half_frame
    }
}

/// The interval up to the next poll: slow while the consumer is gone, and `active` again as soon
/// as it is back.
pub fn next_interval(in_fallback: bool, active: u64) -> (ns: u64)
    ensures
        ns == (if in_fallback {
            FALLBACK_POLL_INTERVAL_NS
        } else {
            active
        }),
{
    if in_fallback {
        FALLBACK_POLL_INTERVAL_NS
    } else {
        active
    }
}

/// The active interval is always between 2 and 8 ms.
pub proof fn law_active_interval_is_bounded(refresh: u32)
    ensures
        POLL_INTERVAL_MIN_NS <= active_interval(refresh) <= POLL_INTERVAL_MAX_NS,
{
}

/// Wherever half a frame lies between the bounds, a frame is sampled twice: two intervals are as
/// long as the frame, up to the rounding of each to a nanosecond.
pub proof fn law_frames_are_sampled_twice(refresh: u32)
    requires
        62_500 < refresh < 250_000,
    ensures
        ({
            let two = 2 * active_interval(refresh) * refresh;
            -refresh <= two - 1_000_000_000_000 <= refresh
        }),
{
    let b = refresh as int;
    let a = HALF_FRAME_NUMERATOR as int;
    let (q, r) = (a / b, a % b);
    let x = rounded_quotient(a, b);
    vstd::arithmetic::div_mod::lemma_fundamental_div_mod(a, b);
    assert(2_000_000 <= q < 8_000_000) by (nonlinear_arith)
        requires
            a == b * q + r,
            0 <= r < b,
            62_500 < b < 250_000,
            a == 500_000_000_000,
    ;
    assert(2 * (x * b) - 2 * a <= b && 2 * a - 2 * (x * b) <= b) by (nonlinear_arith)
        requires
            a == b * q + r,
            0 <= r < b,
            x == q && 2 * r <= b || x == q + 1 && 2 * r >= b,
    ;
    assert(2 * x * b == 2 * (x * b)) by (nonlinear_arith);
}

/// A duration in whole microseconds, as far as they fit.
pub fn duration_to_micros(micros: u128) -> (r: u64)
    ensures
        r == (if micros > u64::MAX {
            u64::MAX as int
        } else {
            micros as int
        }),
{
    if micros > u64::MAX as u128 {
        u64::MAX
    } else {
        micros as u64
    }
}

/// A duration in whole microseconds, as far as they fit.
pub open spec fn saturated(micros: u128) -> int {
    if micros > u64::MAX {
        u64::MAX as int
    } else {
        micros as int
    }
}

/// A size that was first seen at the time with it.
pub open spec fn is_candidate(pending: Option<(i32, i32, u64)>, observed: (i32, i32)) -> bool {
    pending matches Some((w, h, _)) && (w, h) == observed
}

/// The size was seen for as long as it must last.
pub open spec fn is_stable(
    pending: Option<(i32, i32, u64)>,
    observed: (i32, i32),
    now_usec: u64,
    stability_micros: u128,
) -> bool {
    match pending {
        Some((_, _, since)) => is_candidate(pending, observed) && (if now_usec >= since {
            now_usec - since
        } else {
            0
        }) >= saturated(stability_micros),
        None => false,
    }
}

/// Takes note of the size of a buffer, and tells whether that size was seen for as long as it
/// must last. Another size than the last starts over.
pub fn pending_size_is_stable(
    pending: &mut Option<(i32, i32, u64)>,
    observed: (i32, i32),
    now_usec: u64,
    stability_micros: u128,
) -> (stable: bool)
    ensures
        stable == is_stable(*old(pending), observed, now_usec, stability_micros),
        *final(pending) == (if is_candidate(*old(pending), observed) {
            *old(pending)
        } else {
            Some((observed.0, observed.1, now_usec))
        }),
{
    let limit = duration_to_micros(stability_micros);
    match *pending {
        Some((width, height, since)) => {
            if width == observed.0 && height == observed.1 {
                let lasted: u64 = if now_usec >= since {
                    now_usec - since
                } else {
                    0
                };
                return lasted >= limit;
            }
        },
        None => {},
    }
    *pending = Some((observed.0, observed.1, now_usec));
    false
}

} // verus!
