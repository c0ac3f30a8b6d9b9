//! Lengths of time, counted in whole nanoseconds.

use vstd::prelude::*;

verus! {

/// Nanoseconds in one second.
pub const NANOS_PER_SEC: u128 = 1_000_000_000;

/// The shortest test timeout that is ever derived from a baseline, in seconds.
pub const MIN_TEST_TIMEOUT_SECS: u64 = 20;

/// How many times longer than the baseline a mutant's tests may run.
pub const TEST_TIMEOUT_FACTOR: u128 = 5;

/// A length of time.
#[derive(Clone, Copy, Debug, PartialEq, Eq, Hash, Structural)]
pub struct Span {
    pub nanos: u128,
}

/// The timeout that follows from a baseline of `nanos` nanoseconds: five
/// times the baseline, but no less than twenty seconds, and no more than a
/// `Span` can hold.
pub open spec fn auto_timeout_nanos(nanos: int) -> int {
    let scaled = TEST_TIMEOUT_FACTOR as int * nanos;
    let floor = MIN_TEST_TIMEOUT_SECS as int * NANOS_PER_SEC as int;
    if scaled > u128::MAX as int {
        u128::MAX as int
    } else if scaled < floor {
        floor
    } else {
        scaled
    }
}

impl Span {
    /// A span of whole seconds.
    pub fn from_secs(secs: u64) -> (s: Span)
        ensures
            s.nanos == secs as int * NANOS_PER_SEC as int,
    {
        let wide: u128 = secs as u128;
        assert(wide * NANOS_PER_SEC <= u128::MAX) by (nonlinear_arith)
            requires
                wide <= u64::MAX as u128,
                NANOS_PER_SEC == 1_000_000_000,
        ;
        Span { nanos: wide * NANOS_PER_SEC }
    }

    /// A span of `nanos` nanoseconds.
    pub fn from_nanos(nanos: u128) -> (s: Span)
        ensures
            s.nanos == nanos,
    {
        Span { nanos }
    }

    /// The span in nanoseconds.
    pub fn as_nanos(&self) -> (n: u128)
        ensures
            n == self.nanos,
    {
        self.nanos
    }

    /// The whole seconds in the span.
    pub fn as_secs(&self) -> (n: u128)
        ensures
            n == self.nanos / NANOS_PER_SEC,
    {
        self.nanos / NANOS_PER_SEC
    }
}

/// The test timeout derived from the baseline's test duration: five times
/// the baseline, and at least twenty seconds.
pub fn auto_timeout(baseline: Span) -> (timeout: Span)
    ensures
        timeout.nanos == auto_timeout_nanos(baseline.nanos as int),
        TEST_TIMEOUT_FACTOR * baseline.nanos <= u128::MAX ==> timeout.nanos >= TEST_TIMEOUT_FACTOR
            * baseline.nanos,
        timeout.nanos >= MIN_TEST_TIMEOUT_SECS * NANOS_PER_SEC,
{
    let floor: u128 = 20_000_000_000;
    match baseline.nanos.checked_mul(TEST_TIMEOUT_FACTOR) {
        Some(scaled) => {
            if scaled < floor {
                Span { nanos: floor }
            } else {
                Span { nanos: scaled }
            }
        },
        None => Span { nanos: u128::MAX },
    }
}

/// The derived timeout is the larger of twenty seconds and five times the
/// baseline, wherever five times the baseline can be held.
pub proof fn lemma_auto_timeout_is_larger_of_two(nanos: int)
    requires
        0 <= nanos,
        5 * nanos <= u128::MAX,
    ensures
        auto_timeout_nanos(nanos) == if 5 * nanos >= 20_000_000_000 {
            5 * nanos
        } else {
            20_000_000_000
        },
        auto_timeout_nanos(1_000_000_000) == 20_000_000_000,
        auto_timeout_nanos(10_000_000_000) == 50_000_000_000,
{
}

} // verus!
