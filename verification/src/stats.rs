//! Arrival statistics of one identifier.
//!
//! A [`Stats`] is fed the arrival time of each frame of its identifier, in
//! the order of arrival, and keeps the count, the last, least, greatest and
//! mean period between arrivals, the jitter of the recent periods and the
//! throughput since it was made. It holds a bounded window of periods and
//! no frame.

use std::collections::VecDeque;
use vstd::prelude::*;
use crate::frame::Frame;
use crate::periods::{
    calculate_jitter, elapsed, mean_period, spec_elapsed, spec_jitter, spec_mean_period,
    spec_record, HISTORY_CAPACITY, NANOS_PER_SEC,
};
use crate::ratio::Ratio;

verus! {

/// The lesser of a period and a least period so far, if there is one.
pub open spec fn lesser(least: Option<u64>, period: u64) -> u64 {
    match least {
        Some(x) => if x <= period { x } else { period },
        None => period,
    }
}

/// The greater of a period and a greatest period so far, if there is one.
pub open spec fn greater(greatest: Option<u64>, period: u64) -> u64 {
    match greatest {
        Some(x) => if x >= period { x } else { period },
        None => period,
    }
}

/// Frames per second after `count` frames, the last of them `since_start`
/// nanoseconds after the start: nothing for no frame, one for the first
/// frame, and from the second frame on the count over the time in seconds.
/// Where no time has passed since the start there is no rate to give, and
/// the throughput is nothing: no quotient has a denominator of zero.
pub open spec fn spec_throughput(count: nat, since_start: u64) -> Ratio {
    if count == 0 {
        Ratio::zero()
    } else if count == 1 {
        Ratio::one()
    } else if since_start == 0 {
        Ratio::zero()
    } else {
        Ratio { num: (count * NANOS_PER_SEC) as u128, den: since_start }
    }
}

/// Number of periods in the window after `count` arrivals.
pub open spec fn window_len(count: nat) -> nat {
    if count == 0 {
        0
    } else if count - 1 < HISTORY_CAPACITY {
        (count - 1) as nat
    } else {
        HISTORY_CAPACITY as nat
    }
}

/// What a [`Stats`] holds, as mathematical values. Times and periods are in
/// nanoseconds.
pub struct StatsView {
    /// When the accumulator was made.
    pub started_at: u64,
    /// Arrivals so far.
    pub count: nat,
    /// Time of the last arrival.
    pub last_time: Option<u64>,
    /// Period between the last two arrivals.
    pub last_period: Option<u64>,
    /// Least period ever seen.
    pub min_period: Option<u64>,
    /// Greatest period ever seen.
    pub max_period: Option<u64>,
    /// Mean of the window, at millisecond grain.
    pub avg_period: Option<u64>,
    /// Frames per second since the start.
    pub throughput: Ratio,
    /// The most recent periods, oldest first.
    pub period_history: Seq<u64>,
    /// Jitter of the window, in nanoseconds.
    pub period_jitter: Ratio,
}

impl StatsView {
    /// An accumulator that has seen nothing.
    pub open spec fn fresh(started_at: u64) -> StatsView {
        StatsView {
            started_at,
            count: 0,
            last_time: None,
            last_period: None,
            min_period: None,
            max_period: None,
            avg_period: None,
            throughput: Ratio::zero(),
            period_history: Seq::empty(),
            period_jitter: Ratio::zero(),
        }
    }

    /// The accumulator after an arrival at `now`.
    pub open spec fn push(self, now: u64) -> StatsView {
        let count = self.count + 1;
        let throughput = spec_throughput(count, spec_elapsed(self.started_at, now));
        match self.last_time {
            None => StatsView {
                count,
                last_time: Some(now),
                last_period: None,
                throughput,
                period_jitter: spec_jitter(self.period_history),
                ..self
            },
            Some(last) => {
                let period = spec_elapsed(last, now);
                let history = spec_record(self.period_history, period);
                StatsView {
                    started_at: self.started_at,
                    count,
                    last_time: Some(now),
                    last_period: Some(period),
                    min_period: Some(lesser(self.min_period, period)),
                    max_period: Some(greater(self.max_period, period)),
                    avg_period: spec_mean_period(history),
                    throughput,
                    period_history: history,
                    period_jitter: spec_jitter(history),
                }
            },
        }
    }

    /// Mean frequency in hertz, as the quotient of one second by the mean
    /// period. Absent without a mean period and for a mean period of zero.
    pub open spec fn frequency(self) -> Option<Ratio> {
        match self.avg_period {
            Some(period) => if period != 0 {
                Some(Ratio { num: NANOS_PER_SEC as u128, den: period })
            } else {
                None
            },
            None => None,
        }
    }

    /// What holds of every accumulator: the window is bounded and as long
    /// as the count says; the optional values are there from the second
    /// arrival on; the last period is the newest of the window; every period
    /// of the window lies between the least and the greatest; mean, jitter
    /// and throughput are those of the window, the count and the last
    /// arrival; throughput and jitter are quotients with a denominator other
    /// than zero.
    pub open spec fn wf(self) -> bool {
        &&& self.period_history.len() == window_len(self.count)
        &&& self.last_time is Some <==> self.count >= 1
        &&& self.last_period is Some <==> self.count >= 2
        &&& self.min_period is Some <==> self.count >= 2
        &&& self.max_period is Some <==> self.count >= 2
        &&& self.count >= 2 ==> {
            &&& self.last_period == Some(self.period_history.last())
            &&& self.min_period->0 <= self.last_period->0 <= self.max_period->0
        }
        &&& forall|i: int|
            0 <= i < self.period_history.len() ==> self.min_period->0
                <= #[trigger] self.period_history[i] <= self.max_period->0
        &&& self.avg_period == spec_mean_period(self.period_history)
        &&& self.period_jitter == spec_jitter(self.period_history)
        &&& self.throughput == match self.last_time {
            Some(last) => spec_throughput(self.count, spec_elapsed(self.started_at, last)),
            None => Ratio::zero(),
        }
        &&& self.throughput.den != 0
        &&& self.period_jitter.den != 0
    }
}

/// Running statistics of the arrivals of one identifier.
#[derive(Debug, PartialEq)]
pub struct Stats {
    started_at: u64,
    count: u64,
    last_time: Option<u64>,
    last_period: Option<u64>,
    min_period: Option<u64>,
    max_period: Option<u64>,
    avg_period: Option<u64>,
    throughput: Ratio,
    period_history: VecDeque<u64>,
    period_jitter: Ratio,
}

impl View for Stats {
    type V = StatsView;

    closed spec fn view(&self) -> StatsView {
        StatsView {
            started_at: self.started_at,
            count: self.count as nat,
            last_time: self.last_time,
            last_period: self.last_period,
            min_period: self.min_period,
            max_period: self.max_period,
            avg_period: self.avg_period,
            throughput: self.throughput,
            period_history: self.period_history@,
            period_jitter: self.period_jitter,
        }
    }
}

impl Clone for Stats {
    /// A copy that holds the same values.
    fn clone(&self) -> (copy: Stats)
        ensures
            copy@ == self@,
    {
        let period_history = self.period_history.clone();
        assert(period_history@ =~= self.period_history@);
        Stats {
            started_at: self.started_at,
            count: self.count,
            last_time: self.last_time,
            last_period: self.last_period,
            min_period: self.min_period,
            max_period: self.max_period,
            avg_period: self.avg_period,
            throughput: self.throughput,
            period_history,
            period_jitter: self.period_jitter,
        }
    }
}

impl Stats {
    /// Whether the accumulator's values fit together: see
    /// [`StatsView::wf`].
    pub open spec fn wf(&self) -> bool {
        &&& self@.wf()
        &&& self@.count <= u64::MAX
    }

    /// An accumulator made at `started_at` that has seen nothing.
    pub fn new(started_at: u64) -> (stats: Stats)
        ensures
            stats.wf(),
            stats@ == StatsView::fresh(started_at),
    {
        Stats {
            started_at,
            count: 0,
            last_time: None,
            last_period: None,
            min_period: None,
            max_period: None,
            avg_period: None,
            throughput: Ratio { num: 0, den: 1 },
            period_history: VecDeque::new(),
            period_jitter: Ratio { num: 0, den: 1 },
        }
    }

    /// Number of arrivals.
    pub fn count(&self) -> (count: u64)
        ensures
            count == self@.count,
    {
        self.count
    }

    /// Period between the last two arrivals.
    pub fn last_period(&self) -> (period: Option<u64>)
        ensures
            period == self@.last_period,
    {
        self.last_period
    }

    /// Least period ever seen.
    pub fn min_period(&self) -> (period: Option<u64>)
        ensures
            period == self@.min_period,
    {
        self.min_period
    }

    /// Greatest period ever seen.
    pub fn max_period(&self) -> (period: Option<u64>)
        ensures
            period == self@.max_period,
    {
        self.max_period
    }

    /// Mean of the recent periods, at millisecond grain.
    pub fn avg_period(&self) -> (period: Option<u64>)
        ensures
            period == self@.avg_period,
    {
        self.avg_period
    }

    /// Frames per second since the accumulator was made; nothing while no
    /// time has passed since.
    pub fn throughput(&self) -> (rate: Ratio)
        ensures
            rate == self@.throughput,
    {
        self.throughput
    }

    /// Jitter of the recent periods, in nanoseconds.
    pub fn period_jitter(&self) -> (jitter: Ratio)
        ensures
            jitter == self@.period_jitter,
    {
        self.period_jitter
    }

    /// The recent periods, oldest first: at most as many as the window
    /// keeps.
    pub fn period_history(&self) -> (periods: Vec<u64>)
        ensures
            periods@ == self@.period_history,
    {
        let mut periods: Vec<u64> = Vec::new();
        let mut i: usize = 0;
        while i < self.period_history.len()
            invariant
                i <= self.period_history@.len(),
                periods@ == self.period_history@.subrange(0, i as int),
            decreases self.period_history@.len() - i,
        {
            periods.push(self.period_history[i]);
            assert(periods@ =~= self.period_history@.subrange(0, i + 1));
            i = i + 1;
        }
        assert(periods@ =~= self.period_history@);
        periods
    }

    /// Mean frequency in hertz: one second over the mean period. Absent
    /// while there is no mean period, and for a mean period of zero.
    pub fn frequency(&self) -> (hertz: Option<Ratio>)
        ensures
            hertz == self@.frequency(),
    {
        match self.avg_period {
            Some(period) => if period != 0 {
                Some(Ratio { num: NANOS_PER_SEC as u128, den: period })
            } else {
                None
            },
            None => None,
        }
    }

    /// Takes in the arrival of a frame at `now`.
    ///
    /// The statistics depend on the arrival time alone: nothing of the frame
    /// is kept. A `now` before the last arrival counts as a period of zero,
    /// and a `now` at or before the start as no time passed: the throughput
    /// is nothing there, from the second frame on.
    pub fn push(&mut self, _frame: Frame, now: u64)
        requires
            old(self).wf(),
            old(self)@.count < u64::MAX,
        ensures
            final(self).wf(),
            final(self)@ == old(self)@.push(now),
            final(self)@.throughput.den != 0,
            final(self)@.period_jitter.den != 0,
    {
        self.count = self.count + 1;
        self.last_period = match self.last_time {
            Some(last_time) => Some(elapsed(last_time, now)),
            None => None,
        };
        self.last_time = Some(now);

        if let Some(last_period) = self.last_period {
            self.min_period = Some(
                match self.min_period {
                    Some(x) => if x <= last_period { x } else { last_period },
                    None => last_period,
                },
            );
            self.max_period = Some(
                match self.max_period {
                    Some(x) => if x >= last_period { x } else { last_period },
                    None => last_period,
                },
            );

            if self.period_history.len() >= HISTORY_CAPACITY {
                self.period_history.pop_front();
            }
            self.period_history.push_back(last_period);
            assert(self.period_history@ =~= spec_record(old(self).period_history@, last_period));

            self.avg_period = mean_period(&self.period_history);
        }

        let time_since_start: u64 = elapsed(self.started_at, now);
        self.throughput = if self.count == 1 {
            Ratio { num: 1, den: 1 }
        } else if time_since_start == 0 {
            Ratio { num: 0, den: 1 }
        } else {
            Ratio { num: (self.count as u128) * (NANOS_PER_SEC as u128), den: time_since_start }
        };

        self.period_jitter = calculate_jitter(&self.period_history);
    }
}

} // verus!
