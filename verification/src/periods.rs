//! Arithmetic on inter-arrival periods.
//!
//! Times are whole nanoseconds on a clock that the caller chooses; a period
//! is the distance between two of them. The functions of this module take a
//! window of periods, oldest first, and say what its mean and its jitter
//! are.

use std::collections::VecDeque;
use vstd::prelude::*;
use crate::ratio::Ratio;

verus! {

/// Nanoseconds in one millisecond: the grain of the mean period.
pub const NANOS_PER_MILLI: u64 = 1_000_000;

/// Nanoseconds in one second.
pub const NANOS_PER_SEC: u64 = 1_000_000_000;

/// The most whole milliseconds that a period can hold.
pub const MAX_MILLIS: u64 = 18_446_744_073_709;

/// The most periods that a window keeps.
pub const HISTORY_CAPACITY: usize = 11;

/// Time that passed from `from` to `to`, and zero where `to` is the earlier.
pub open spec fn spec_elapsed(from: u64, to: u64) -> u64 {
    if to >= from {
        (to - from) as u64
    } else {
        0
    }
}

/// Distance between two periods.
pub open spec fn abs_diff(a: u64, b: u64) -> nat {
    if a >= b {
        (a - b) as nat
    } else {
        (b - a) as nat
    }
}

/// Sum of the first `n` periods of `s`, each cut down to whole milliseconds.
pub open spec fn millis_sum(s: Seq<u64>, n: nat) -> nat
    decreases n,
{
    if n == 0 {
        0
    } else {
        millis_sum(s, (n - 1) as nat) + (s[n - 1] / NANOS_PER_MILLI) as nat
    }
}

/// Mean of the window at millisecond grain: the periods are cut down to
/// whole milliseconds, their sum is divided by their number and rounded
/// down. Absent for an empty window.
pub open spec fn spec_mean_period(s: Seq<u64>) -> Option<u64> {
    if s.len() == 0 {
        None
    } else {
        Some(((millis_sum(s, s.len()) / s.len()) * NANOS_PER_MILLI) as u64)
    }
}

/// Sum of the distances between neighbours among the first `n` periods of
/// `s`.
pub open spec fn variation(s: Seq<u64>, n: nat) -> nat
    decreases n,
{
    if n <= 1 {
        0
    } else {
        variation(s, (n - 1) as nat) + abs_diff(s[n - 1], s[n - 2])
    }
}

/// Jitter of the window: the mean distance between neighbouring periods, in
/// nanoseconds, as an exact quotient. Zero for fewer than two periods.
pub open spec fn spec_jitter(s: Seq<u64>) -> Ratio {
    if s.len() < 2 {
        Ratio::zero()
    } else {
        Ratio { num: variation(s, s.len()) as u128, den: (s.len() - 1) as u64 }
    }
}

/// The window after one more period: a full window loses its oldest period
/// first.
pub open spec fn spec_record(history: Seq<u64>, period: u64) -> Seq<u64> {
    if history.len() >= HISTORY_CAPACITY {
        history.drop_first().push(period)
    } else {
        history.push(period)
    }
}

/// No variation exceeds what the number of neighbours allows.
pub proof fn lemma_variation_bound(s: Seq<u64>, n: nat)
    requires
        n <= s.len(),
    ensures
        variation(s, n) <= n * u64::MAX,
    decreases n,
{
    if n > 1 {
        lemma_variation_bound(s, (n - 1) as nat);
    }
}

/// Time that passed from `from` to `to`. A clock that went backwards gives
/// zero, not a failure.
pub fn elapsed(from: u64, to: u64) -> (d: u64)
    ensures
        d == spec_elapsed(from, to),
{
    if to >= from {
        to - from
    } else {
        0
    }
}

/// Mean period of the window, at millisecond grain, rounded down.
pub fn mean_period(periods: &VecDeque<u64>) -> (mean: Option<u64>)
    ensures
        mean == spec_mean_period(periods@),
{
    let n: usize = periods.len();
    if n == 0 {
        return None;
    }
    let mut sum: u128 = 0;
    let mut i: usize = 0;
    while i < n
        invariant
            n == periods@.len(),
            i <= n,
            sum == millis_sum(periods@, i as nat),
            sum <= i * MAX_MILLIS,
        decreases n - i,
    {
        let ms: u64 = periods[i] / NANOS_PER_MILLI;
        sum = sum + ms as u128;
        i = i + 1;
    }
    let whole: u128 = sum / (n as u128);
    assert(whole <= MAX_MILLIS) by (nonlinear_arith)
        requires
            whole == sum / (n as u128),
            n > 0,
            sum <= n * MAX_MILLIS,
    ;
    assert(whole * (NANOS_PER_MILLI as u128) == whole * 1_000_000);
    Some((whole * (NANOS_PER_MILLI as u128)) as u64)
}

/// Jitter of the window: the sum of the distances between neighbouring
/// periods over their number, in nanoseconds.
pub fn calculate_jitter(periods: &VecDeque<u64>) -> (jitter: Ratio)
    ensures
        jitter == spec_jitter(periods@),
{
    let n: usize = periods.len();
    if n < 2 {
        return Ratio { num: 0, den: 1 };
    }
    let mut sum: u128 = 0;
    let mut previous: u64 = periods[0];
    let mut i: usize = 1;
    while i < n
        invariant
            n == periods@.len(),
            1 <= i <= n,
            previous == periods@[i - 1],
            sum == variation(periods@, i as nat),
            sum <= i * u64::MAX,
        decreases n - i,
    {
        let period: u64 = periods[i];
        let difference: u64 = if period >= previous {
            period - previous
        } else {
            previous - period
        };
        sum = sum + difference as u128;
        previous = period;
        i = i + 1;
    }
    Ratio { num: sum, den: (n - 1) as u64 }
}

} // verus!
