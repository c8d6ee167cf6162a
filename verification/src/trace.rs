//! What holds of the statistics after any run of arrivals.
//!
//! [`replay`] is the accumulator that a run of arrivals leaves behind, and
//! [`replay_all`] the statistics that a run of frames leaves behind; the
//! proof functions of this module state what their values are, for every
//! run.

use vstd::prelude::*;
use crate::periods::{
    lemma_variation_bound, millis_sum, spec_elapsed, spec_mean_period, spec_record, variation,
    HISTORY_CAPACITY, NANOS_PER_MILLI,
};
use crate::ratio::Ratio;
use crate::multi_stats::MultiStatsView;
use crate::stats::StatsView;

verus! {

/// The accumulator made at `started_at` after arrivals at the times of
/// `arrivals`, in that order.
pub open spec fn replay(started_at: u64, arrivals: Seq<u64>) -> StatsView
    decreases arrivals.len(),
{
    if arrivals.len() == 0 {
        StatsView::fresh(started_at)
    } else {
        replay(started_at, arrivals.drop_last()).push(arrivals.last())
    }
}

/// The periods between successive arrivals, oldest first: one fewer than
/// the arrivals.
pub open spec fn periods_of(arrivals: Seq<u64>) -> Seq<u64> {
    Seq::new(
        if arrivals.len() == 0 {
            0
        } else {
            (arrivals.len() - 1) as nat
        },
        |i: int| spec_elapsed(arrivals[i], arrivals[i + 1]),
    )
}

/// The newest periods of `periods`, as many as a window keeps, oldest
/// first.
pub open spec fn recent(periods: Seq<u64>) -> Seq<u64> {
    if periods.len() <= HISTORY_CAPACITY {
        periods
    } else {
        periods.subrange(periods.len() - HISTORY_CAPACITY, periods.len() as int)
    }
}

/// An arrival keeps an accumulator well-formed.
pub proof fn law_push_keeps_wf(stats: StatsView, now: u64)
    requires
        stats.wf(),
    ensures
        stats.push(now).wf(),
{
    let after = stats.push(now);
    match stats.last_time {
        None => {},
        Some(last) => {
            let period = spec_elapsed(last, now);
            assert forall|i: int| 0 <= i < after.period_history.len() implies after.min_period->0
                <= #[trigger] after.period_history[i] <= after.max_period->0 by {
                if i < after.period_history.len() - 1 {
                    if stats.period_history.len() >= HISTORY_CAPACITY {
                        assert(after.period_history[i] == stats.period_history[i + 1]);
                    } else {
                        assert(after.period_history[i] == stats.period_history[i]);
                    }
                }
            }
        },
    }
}

/// Every run of arrivals leaves a well-formed accumulator, whose last
/// arrival is the last of the run.
pub proof fn law_replay_wf(started_at: u64, arrivals: Seq<u64>)
    ensures
        replay(started_at, arrivals).wf(),
        replay(started_at, arrivals).started_at == started_at,
        replay(started_at, arrivals).last_time == if arrivals.len() == 0 {
            None
        } else {
            Some(arrivals.last())
        },
    decreases arrivals.len(),
{
    if arrivals.len() > 0 {
        law_replay_wf(started_at, arrivals.drop_last());
        law_push_keeps_wf(replay(started_at, arrivals.drop_last()), arrivals.last());
    }
}

/// The count is the number of arrivals.
pub proof fn law_count_is_number_of_arrivals(started_at: u64, arrivals: Seq<u64>)
    ensures
        replay(started_at, arrivals).count == arrivals.len(),
    decreases arrivals.len(),
{
    if arrivals.len() > 0 {
        law_count_is_number_of_arrivals(started_at, arrivals.drop_last());
    }
}

/// After the first arrival there is no period yet: last, least, greatest
/// and mean period are all absent.
pub proof fn law_first_arrival(started_at: u64, first: u64)
    ensures
        ({
            let stats = StatsView::fresh(started_at).push(first);
            &&& stats.count == 1
            &&& stats.last_period is None
            &&& stats.min_period is None
            &&& stats.max_period is None
            &&& stats.avg_period is None
        }),
{
    assert(spec_mean_period(Seq::<u64>::empty()) is None);
}

/// After the second arrival the last, the least and the greatest period are
/// the one period seen, and the mean period is that period cut down to
/// whole milliseconds: the period itself where it is a whole number of
/// milliseconds.
pub proof fn law_second_arrival(started_at: u64, first: u64, second: u64)
    ensures
        ({
            let stats = StatsView::fresh(started_at).push(first).push(second);
            let period = spec_elapsed(first, second);
            &&& stats.count == 2
            &&& stats.last_period == Some(period)
            &&& stats.min_period == Some(period)
            &&& stats.max_period == Some(period)
            &&& stats.avg_period == Some(((period / NANOS_PER_MILLI) * NANOS_PER_MILLI) as u64)
            &&& period % NANOS_PER_MILLI == 0 ==> stats.avg_period == Some(period)
        }),
{
    let period = spec_elapsed(first, second);
    let history = seq![period];
    assert(StatsView::fresh(started_at).push(first).push(second).period_history =~= history);
    assert(millis_sum(history, 1) == period / 1_000_000) by {
        reveal_with_fuel(millis_sum, 2);
    }
    let whole = period / 1_000_000;
    assert(spec_mean_period(history) == Some((whole * 1_000_000) as u64));
    assert(whole * 1_000_000 <= period);
    assert(period % 1_000_000 == 0 ==> whole * 1_000_000 == period);
}

/// From the second arrival on, every period of the window lies between the
/// least and the greatest period, and so does the last period.
pub proof fn law_window_between_extremes(started_at: u64, arrivals: Seq<u64>, i: int)
    requires
        arrivals.len() >= 2,
        0 <= i < replay(started_at, arrivals).period_history.len(),
    ensures
        ({
            let stats = replay(started_at, arrivals);
            &&& stats.min_period is Some
            &&& stats.max_period is Some
            &&& stats.min_period->0 <= stats.period_history[i] <= stats.max_period->0
            &&& stats.min_period->0 <= stats.last_period->0 <= stats.max_period->0
        }),
{
    law_replay_wf(started_at, arrivals);
    law_count_is_number_of_arrivals(started_at, arrivals);
}

/// The window never holds more than its capacity, and it holds the newest
/// periods of the run in the order of arrival: all of them while they are
/// no more than the capacity, and the newest ones after that.
pub proof fn law_window_is_recent_periods(started_at: u64, arrivals: Seq<u64>)
    ensures
        replay(started_at, arrivals).period_history.len() <= HISTORY_CAPACITY,
        replay(started_at, arrivals).period_history == recent(periods_of(arrivals)),
    decreases arrivals.len(),
{
    let stats = replay(started_at, arrivals);
    if arrivals.len() == 0 {
        assert(stats.period_history =~= recent(periods_of(arrivals)));
    } else {
        let before = arrivals.drop_last();
        law_window_is_recent_periods(started_at, before);
        law_replay_wf(started_at, before);
        if before.len() == 0 {
            assert(stats.period_history =~= recent(periods_of(arrivals)));
        } else {
            let period = spec_elapsed(before.last(), arrivals.last());
            let earlier = periods_of(before);
            let all = periods_of(arrivals);
            assert(all =~= earlier.push(period));
            assert(stats.period_history == spec_record(recent(earlier), period));
            assert(spec_record(recent(earlier), period) =~= recent(all));
        }
    }
}

/// The jitter is that of the window: zero while the window holds fewer than
/// two periods, and from two periods on the sum of the distances between
/// neighbouring periods over the number of neighbours.
pub proof fn law_jitter_of_window(started_at: u64, arrivals: Seq<u64>)
    ensures
        ({
            let stats = replay(started_at, arrivals);
            let window = stats.period_history;
            &&& window.len() < 2 ==> stats.period_jitter == Ratio::zero()
            &&& window.len() >= 2 ==> stats.period_jitter.num == variation(window, window.len())
            &&& window.len() >= 2 ==> stats.period_jitter.den == window.len() - 1
        }),
{
    law_replay_wf(started_at, arrivals);
    let window = replay(started_at, arrivals).period_history;
    if window.len() >= 2 {
        lemma_variation_bound(window, window.len());
        assert(window.len() <= HISTORY_CAPACITY);
    }
}

/// The mean period is that of the window and of nothing older.
pub proof fn law_mean_of_window(started_at: u64, arrivals: Seq<u64>)
    ensures
        replay(started_at, arrivals).avg_period == spec_mean_period(
            recent(periods_of(arrivals)),
        ),
{
    law_replay_wf(started_at, arrivals);
    law_window_is_recent_periods(started_at, arrivals);
}

/// Every quotient that an accumulator hands out is defined: after any run
/// of arrivals, also arrivals at the very time the accumulator was made or
/// before it, throughput, jitter and frequency have a denominator other
/// than zero, and the throughput is nothing while no time has passed.
pub proof fn law_quotients_are_defined(started_at: u64, arrivals: Seq<u64>)
    ensures
        ({
            let stats = replay(started_at, arrivals);
            &&& stats.throughput.den != 0
            &&& stats.period_jitter.den != 0
            &&& stats.frequency() matches Some(hertz) ==> hertz.den != 0
            &&& arrivals.len() >= 2 && spec_elapsed(started_at, arrivals.last()) == 0
                ==> stats.throughput == Ratio::zero()
        }),
{
    law_replay_wf(started_at, arrivals);
    law_count_is_number_of_arrivals(started_at, arrivals);
}

/// The statistics after frames with the identifiers and arrival times of
/// `frames`, in that order.
pub open spec fn replay_all(frames: Seq<(u32, u64)>) -> MultiStatsView
    decreases frames.len(),
{
    if frames.len() == 0 {
        MultiStatsView::empty()
    } else {
        replay_all(frames.drop_last()).push(frames.last().0, frames.last().1)
    }
}

/// The arrival times of the frames of `id` among `frames`, in order.
pub open spec fn arrivals_of(frames: Seq<(u32, u64)>, id: u32) -> Seq<u64>
    decreases frames.len(),
{
    if frames.len() == 0 {
        Seq::empty()
    } else if frames.last().0 == id {
        arrivals_of(frames.drop_last(), id).push(frames.last().1)
    } else {
        arrivals_of(frames.drop_last(), id)
    }
}

/// Each identifier is counted apart: after any run of frames the total is
/// the number of frames; an identifier has an accumulator if and only if a
/// frame of it came; and that accumulator is the one that the arrivals of
/// this identifier alone leave behind, made at the first of them.
pub proof fn law_each_identifier_sees_its_own_arrivals(frames: Seq<(u32, u64)>, id: u32)
    ensures
        replay_all(frames).wf(),
        replay_all(frames).total_count == frames.len(),
        replay_all(frames).stats.contains_key(id) <==> arrivals_of(frames, id).len() > 0,
        arrivals_of(frames, id).len() > 0 ==> replay_all(frames).stats[id] == replay(
            arrivals_of(frames, id)[0],
            arrivals_of(frames, id),
        ),
        replay_all(frames).count_of(id) == arrivals_of(frames, id).len(),
    decreases frames.len(),
{
    if frames.len() > 0 {
        let earlier = frames.drop_last();
        let (last_id, now) = frames.last();
        law_each_identifier_sees_its_own_arrivals(earlier, id);
        crate::multi_stats::law_push_counts_once(replay_all(earlier), last_id, now);
        if last_id == id {
            let own = arrivals_of(frames, id);
            let before = arrivals_of(earlier, id);
            assert(own.drop_last() =~= before);
            if before.len() == 0 {
                assert(replay(now, own.drop_last()) == StatsView::fresh(now));
            }
        }
        law_count_is_number_of_arrivals(arrivals_of(frames, id)[0], arrivals_of(frames, id));
    }
}

} // verus!
