use vstd::prelude::*;

verus! {

/// One hundred percent, in the hundredths of a percent that every percentage
/// of this library is counted in.
pub const PERCENT_FULL: u32 = 10000;

/// `part` as a share of `whole`, in hundredths of a percent, rounded down.
/// A `part` above `whole` counts as `whole`; a zero `whole` gives zero.
pub open spec fn spec_percent(part: int, whole: int) -> int {
    if whole <= 0 {
        0
    } else if part >= whole {
        10000
    } else {
        part * 10000 / whole
    }
}

/// Bytes per second for `delta` bytes over `elapsed_ms` milliseconds, rounded
/// down; zero when no time has passed.
pub open spec fn spec_rate(delta: int, elapsed_ms: int) -> int {
    if elapsed_ms <= 0 {
        0
    } else {
        delta * 1000 / elapsed_ms
    }
}

/// The rate of `spec_rate`, saturated at `u64::MAX`.
pub open spec fn saturating_rate(delta: int, elapsed_ms: int) -> int {
    if spec_rate(delta, elapsed_ms) > u64::MAX {
        u64::MAX as int
    } else {
        spec_rate(delta, elapsed_ms)
    }
}

/// Growth of a cumulative counter; a counter that went back (it was reset)
/// has not grown.
pub open spec fn spec_counter_delta(previous: int, current: int) -> int {
    if current >= previous {
        current - previous
    } else {
        0
    }
}

/// Percentage of `part` in `whole` in hundredths of a percent, guarded
/// against a zero `whole` and clamped at one hundred percent.
pub fn percent_hundredths(part: u64, whole: u64) -> (r: u32)
    ensures
        r as int == spec_percent(part as int, whole as int),
        r <= PERCENT_FULL,
{
    if whole == 0 {
        0
    } else if part >= whole {
        PERCENT_FULL
    } else {
        let scaled: u128 = (part as u128) * 10000;
        let q: u128 = scaled / (whole as u128);
        proof {
            assert(q <= 10000) by (nonlinear_arith)
                requires
                    q == scaled / (whole as u128),
                    scaled == part * 10000,
                    part < whole,
                    whole > 0,
            ;
        }
        q as u32
    }
}

/// Rate in bytes per second of `delta` bytes counted over `elapsed_ms`
/// milliseconds. Zero elapsed time gives a zero rate; a rate beyond
/// `u64::MAX` saturates.
pub fn rate_per_second(delta: u64, elapsed_ms: u64) -> (r: u64)
    ensures
        r as int == saturating_rate(delta as int, elapsed_ms as int),
        elapsed_ms == 0 ==> r == 0,
{
    if elapsed_ms == 0 {
        0
    } else {
        let scaled: u128 = (delta as u128) * 1000;
        let q: u128 = scaled / (elapsed_ms as u128);
        if q > u64::MAX as u128 {
            u64::MAX
        } else {
            q as u64
        }
    }
}

/// How heavily a resource is used: below half, below three quarters, or
/// more.
#[derive(Clone, Copy, Debug, PartialEq, Eq, Structural)]
pub enum UsageLevel {
    Healthy,
    Moderate,
    High,
}

/// The level of a usage given in hundredths of a percent.
pub fn usage_level(percent: u32) -> (r: UsageLevel)
    ensures
        percent < 5000 ==> r == UsageLevel::Healthy,
        5000 <= percent < 7500 ==> r == UsageLevel::Moderate,
        7500 <= percent ==> r == UsageLevel::High,
{
    if percent < 5000 {
        UsageLevel::Healthy
    } else if percent < 7500 {
        UsageLevel::Moderate
    } else {
        UsageLevel::High
    }
}

/// Growth of a cumulative byte counter between two readings, never negative.
pub fn counter_delta(previous: u64, current: u64) -> (r: u64)
    ensures
        r as int == spec_counter_delta(previous as int, current as int),
{
    if current >= previous {
        current - previous
    } else {
        0
    }
}

} // verus!
