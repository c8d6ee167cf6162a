//! Arrival statistics of every identifier seen.
//!
//! A [`MultiStats`] counts all frames and keeps one [`Stats`] for each
//! identifier, made when the identifier is first seen. It is read through
//! [`MultiStats::iter`], which lists the identifiers in rising order, and
//! narrowed by [`MultiStats::filter_by`].

use std::collections::HashMap;
use vstd::prelude::*;
use crate::filter::{matches_mask, spec_matches};
use crate::frame::Frame;
use crate::stats::{Stats, StatsView};
use crate::trace::law_push_keeps_wf;

verus! {

broadcast use vstd::std_specs::hash::group_hash_axioms;

/// Whether `ids` rises strictly from each identifier to the next.
pub open spec fn ascending(ids: Seq<u32>) -> bool {
    forall|i: int, j: int| 0 <= i < j < ids.len() ==> ids[i] < ids[j]
}

/// What a [`MultiStats`] holds, as mathematical values.
pub struct MultiStatsView {
    /// The accumulator of each identifier seen.
    pub stats: Map<u32, StatsView>,
    /// Frames taken in, over all identifiers.
    pub total_count: nat,
}

impl MultiStatsView {
    /// Nothing seen.
    pub open spec fn empty() -> MultiStatsView {
        MultiStatsView { stats: Map::empty(), total_count: 0 }
    }

    /// Arrivals counted for `id`: zero for an identifier not seen.
    pub open spec fn count_of(self, id: u32) -> nat {
        if self.stats.contains_key(id) {
            self.stats[id].count
        } else {
            0
        }
    }

    /// The statistics after a frame of `id` arrived at `now`: an identifier
    /// not seen before gets an accumulator made at `now`.
    pub open spec fn push(self, id: u32, now: u64) -> MultiStatsView {
        let before = if self.stats.contains_key(id) {
            self.stats[id]
        } else {
            StatsView::fresh(now)
        };
        MultiStatsView {
            stats: self.stats.insert(id, before.push(now)),
            total_count: self.total_count + 1,
        }
    }

    /// The statistics narrowed to the identifiers that agree with `pattern`
    /// under `mask`. The total count stays that of the source.
    pub open spec fn filter_by(self, mask: u32, pattern: u32) -> MultiStatsView {
        MultiStatsView {
            stats: self.stats.restrict(Set::new(|id: u32| spec_matches(id, mask, pattern))),
            total_count: self.total_count,
        }
    }

    /// Whether `entries` lists the accumulators: each identifier seen once,
    /// with its accumulator, in rising order of the identifiers.
    pub open spec fn is_listing(self, entries: Seq<(u32, StatsView)>) -> bool {
        &&& forall|i: int, j: int| 0 <= i < j < entries.len() ==> entries[i].0 < entries[j].0
        &&& forall|i: int|
            0 <= i < entries.len() ==> self.stats.contains_key(#[trigger] entries[i].0)
                && self.stats[entries[i].0] == entries[i].1
        &&& forall|id: u32|
            self.stats.contains_key(id) ==> exists|i: int|
                0 <= i < entries.len() && #[trigger] entries[i].0 == id
    }

    /// What holds of all statistics: finitely many identifiers; each
    /// accumulator is well-formed, has seen a frame, and has seen no more
    /// frames than were taken in.
    pub open spec fn wf(self) -> bool {
        &&& self.stats.dom().finite()
        &&& forall|id: u32| #[trigger]
            self.stats.contains_key(id) ==> {
                &&& self.stats[id].wf()
                &&& 1 <= self.stats[id].count <= self.total_count
            }
    }
}

/// The entries of a listing as mathematical values.
pub open spec fn entries_view(entries: Seq<(u32, Stats)>) -> Seq<(u32, StatsView)> {
    Seq::new(entries.len(), |i: int| (entries[i].0, entries[i].1@))
}

/// Running statistics of the arrivals of every identifier.
#[derive(Debug, PartialEq)]
pub struct MultiStats {
    stats: HashMap<u32, Stats>,
    total_count: u64,
}

impl View for MultiStats {
    type V = MultiStatsView;

    closed spec fn view(&self) -> MultiStatsView {
        MultiStatsView {
            stats: Map::new(|id: u32| self.stats@.contains_key(id), |id: u32| self.stats@[id]@),
            total_count: self.total_count as nat,
        }
    }
}

/// The identifiers among the first `n` of `keys`.
spec fn seen(keys: Seq<&u32>, n: int) -> Set<u32> {
    Set::new(|id: u32| exists|k: int| 0 <= k < n && *keys[k] == id)
}

/// One more key adds its identifier to those seen.
proof fn lemma_seen_next(keys: Seq<&u32>, n: int)
    requires
        0 <= n < keys.len(),
    ensures
        seen(keys, n + 1) == seen(keys, n).insert(*keys[n]),
{
    assert forall|id: u32| seen(keys, n + 1).contains(id) implies seen(keys, n).insert(
        *keys[n],
    ).contains(id) by {
        let k = choose|k: int| 0 <= k < n + 1 && *keys[k] == id;
        if k < n {
            assert(seen(keys, n).contains(id));
        }
    }
    assert forall|id: u32| seen(keys, n).insert(*keys[n]).contains(id) implies seen(
        keys,
        n + 1,
    ).contains(id) by {
        if id == *keys[n] {
            assert(0 <= n < n + 1 && *keys[n] == id);
        } else {
            let k = choose|k: int| 0 <= k < n && *keys[k] == id;
            assert(0 <= k < n + 1 && *keys[k] == id);
        }
    }
    assert(seen(keys, n + 1) =~= seen(keys, n).insert(*keys[n]));
}

/// All keys seen are the keys as a set.
proof fn lemma_seen_all(keys: Seq<&u32>)
    ensures
        seen(keys, keys.len() as int) == keys.unref().to_set(),
{
    let all = keys.unref();
    assert forall|id: u32| seen(keys, keys.len() as int).contains(id) implies all.to_set().contains(
        id,
    ) by {
        let k = choose|k: int| 0 <= k < keys.len() && *keys[k] == id;
        assert(all[k] == id);
    }
    assert forall|id: u32| all.to_set().contains(id) implies seen(
        keys,
        keys.len() as int,
    ).contains(id) by {
        let k = choose|k: int| 0 <= k < all.len() && all[k] == id;
        assert(0 <= k < keys.len() && *keys[k] == id);
    }
    assert(seen(keys, keys.len() as int) =~= all.to_set());
}

/// Putting an identifier into a sequence adds it to the sequence's set.
proof fn lemma_insert_to_set(ids: Seq<u32>, at: int, id: u32)
    requires
        0 <= at <= ids.len(),
    ensures
        ids.insert(at, id).to_set() == ids.to_set().insert(id),
{
    let after = ids.insert(at, id);
    assert forall|x: u32| after.to_set().contains(x) implies ids.to_set().insert(id).contains(
        x,
    ) by {
        let k = choose|k: int| 0 <= k < after.len() && after[k] == x;
        if k < at {
            assert(ids[k] == x);
        } else if k > at {
            assert(ids[k - 1] == x);
        }
    }
    assert forall|x: u32| ids.to_set().insert(id).contains(x) implies after.to_set().contains(
        x,
    ) by {
        if x == id {
            assert(after[at] == x);
        } else {
            let k = choose|k: int| 0 <= k < ids.len() && ids[k] == x;
            if k < at {
                assert(after[k] == x);
            } else {
                assert(after[k + 1] == x);
            }
        }
    }
    assert(after.to_set() =~= ids.to_set().insert(id));
}

/// Collects the keys of `map` in rising order.
fn sorted_keys(map: &HashMap<u32, Stats>) -> (ids: Vec<u32>)
    ensures
        ascending(ids@),
        ids@.to_set() == map@.dom(),
{
    let mut ids: Vec<u32> = Vec::new();
    proof {
        assert(ids@.to_set() =~= Set::<u32>::empty());
        assert(map@.dom().len() == 0 ==> map@.dom() =~= Set::<u32>::empty());
    }
    for key in it: map.keys()
        invariant
            it.seq().no_duplicates(),
            it.seq().unref().to_set() == map@.dom(),
            ascending(ids@),
            ids@.to_set() == seen(it.seq(), it.index()),
            it.index() == it.seq().len() ==> ids@.to_set() == map@.dom(),
    {
        let id: u32 = *key;
        let ghost before = ids@;
        proof {
            assert(key == it.seq()[it.index()]);
            lemma_seen_next(it.seq(), it.index());
            if before.contains(id) {
                assert(seen(it.seq(), it.index()).contains(id));
                let k = choose|k: int| 0 <= k < it.index() && *it.seq()[k] == id;
                assert(it.seq()[k] == it.seq()[it.index()]);
            }
        }
        let mut at: usize = 0;
        while at < ids.len() && ids[at] < id
            invariant
                ids@ == before,
                at <= ids.len(),
                forall|k: int| 0 <= k < at ==> ids@[k] < id,
            decreases ids.len() - at,
        {
            at = at + 1;
        }
        ids.insert(at, id);
        proof {
            lemma_insert_to_set(before, at as int, id);
            lemma_seen_all(it.seq());
            assert forall|i: int, j: int| 0 <= i < j < ids@.len() implies ids@[i] < ids@[j] by {
                if j < at {
                    assert(ids@[i] == before[i] && ids@[j] == before[j]);
                } else if j == at {
                    assert(ids@[i] == before[i]);
                } else if i < at {
                    assert(ids@[i] == before[i] && ids@[j] == before[j - 1]);
                    assert(before.contains(before[j - 1]));
                } else if i == at {
                    assert(ids@[j] == before[j - 1]);
                    assert(before.contains(before[j - 1]));
                    assert(before.contains(before[at as int]));
                } else {
                    assert(ids@[i] == before[i - 1] && ids@[j] == before[j - 1]);
                }
            }
        }
    }
    ids
}


impl Default for MultiStats {
    /// Statistics that have seen nothing.
    fn default() -> (stats: MultiStats)
        ensures
            stats.wf(),
            stats@ == MultiStatsView::empty(),
    {
        MultiStats::new()
    }
}

/// Copies the accumulators of the keys of `map` that agree with `pattern`
/// in every bit that `mask` selects.
fn narrow(map: &HashMap<u32, Stats>, mask: u32, pattern: u32) -> (narrowed: HashMap<u32, Stats>)
    ensures
        forall|id: u32|
            #![trigger narrowed@.contains_key(id)]
            narrowed@.contains_key(id) <==> map@.contains_key(id) && spec_matches(
                id,
                mask,
                pattern,
            ),
        forall|id: u32| #[trigger] narrowed@.contains_key(id) ==> narrowed@[id]@ == map@[id]@,
{
    let ids: Vec<u32> = sorted_keys(map);
    let mut narrowed: HashMap<u32, Stats> = HashMap::new();
    let mut i: usize = 0;
    while i < ids.len()
        invariant
            i <= ids.len(),
            ids@.to_set() == map@.dom(),
            forall|id: u32|
                #![trigger narrowed@.contains_key(id)]
                narrowed@.contains_key(id) <==> spec_matches(id, mask, pattern) && exists|k: int|
                    0 <= k < i && #[trigger] ids@[k] == id,
            forall|id: u32| #[trigger]
                narrowed@.contains_key(id) ==> map@.contains_key(id) && narrowed@[id]@
                    == map@[id]@,
        decreases ids.len() - i,
    {
        let id: u32 = ids[i];
        assert(ids@.to_set().contains(ids@[i as int]));
        let ghost before = narrowed@;
        if matches_mask(id, mask, pattern) {
            if let Some(found) = map.get(&id) {
                narrowed.insert(id, found.clone());
            }
        }
        assert forall|other: u32|
            #![trigger narrowed@.contains_key(other)]
            narrowed@.contains_key(other) <==> spec_matches(other, mask, pattern) && exists|
                k: int,
            | 0 <= k < i + 1 && #[trigger] ids@[k] == other by {
            if other == id {
                assert(0 <= i < i + 1 && ids@[i as int] == other);
            } else if before.contains_key(other) {
                let k = choose|k: int| 0 <= k < i && #[trigger] ids@[k] == other;
                assert(0 <= k < i + 1 && ids@[k] == other);
            }
        }
        i = i + 1;
    }
    proof {
        assert forall|id: u32| map@.contains_key(id) && spec_matches(
            id,
            mask,
            pattern,
        ) implies narrowed@.contains_key(id) by {
            assert(ids@.to_set().contains(id));
            let k = choose|k: int| 0 <= k < ids@.len() && ids@[k] == id;
            assert(0 <= k < i && ids@[k] == id);
        }
    }
    narrowed
}

impl Clone for MultiStats {
    /// A copy that holds the same values.
    fn clone(&self) -> (copy: MultiStats)
        ensures
            copy@ == self@,
    {
        let copy = MultiStats { stats: narrow(&self.stats, 0, 0), total_count: self.total_count };
        proof {
            assert forall|id: u32| spec_matches(id, 0, 0) by {
                assert(id & 0 == 0u32 & 0) by (bit_vector);
            }
            assert(copy@.stats =~= self@.stats);
        }
        copy
    }
}

impl MultiStats {
    /// Whether the statistics fit together: see [`MultiStatsView::wf`].
    pub open spec fn wf(&self) -> bool {
        &&& self@.wf()
        &&& self@.total_count <= u64::MAX
    }

    /// Statistics that have seen nothing.
    pub fn new() -> (stats: MultiStats)
        ensures
            stats.wf(),
            stats@ == MultiStatsView::empty(),
    {
        let stats = MultiStats { stats: HashMap::new(), total_count: 0 };
        assert(stats@.stats =~= Map::<u32, StatsView>::empty());
        stats
    }

    /// Takes in `frame`, which arrived at `now`: counts it, and hands its
    /// arrival to the accumulator of its identifier, which is made first
    /// if the identifier was not seen before.
    ///
    /// The total count and the count of the frame's identifier each grow by
    /// one; no other identifier is touched.
    pub fn push(&mut self, frame: Frame, now: u64)
        requires
            old(self).wf(),
            old(self)@.total_count < u64::MAX,
        ensures
            final(self).wf(),
            final(self)@ == old(self)@.push(frame@.id, now),
            final(self)@.total_count == old(self)@.total_count + 1,
            final(self)@.count_of(frame@.id) == old(self)@.count_of(frame@.id) + 1,
            forall|other: u32|
                other != frame@.id ==> final(self)@.stats.contains_key(other) == old(
                    self,
                )@.stats.contains_key(other) && (final(self)@.stats.contains_key(other)
                    ==> final(self)@.stats[other] == old(self)@.stats[other]),
    {
        self.total_count = self.total_count + 1;

        let id: u32 = frame.id();
        assert(old(self)@.stats.contains_key(id) ==> old(self)@.stats[id].wf());
        let mut stats: Stats = match self.stats.remove(&id) {
            Some(found) => found,
            None => Stats::new(now),
        };
        stats.push(frame, now);
        self.stats.insert(id, stats);

        proof {
            law_push_keeps_wf(
                if old(self)@.stats.contains_key(id) {
                    old(self)@.stats[id]
                } else {
                    StatsView::fresh(now)
                },
                now,
            );
            assert(final(self)@.stats =~= old(self)@.push(id, now).stats);
            assert forall|other: u32| #[trigger]
                final(self)@.stats.contains_key(other) implies final(self)@.stats[other].wf() && 1
                <= final(self)@.stats[other].count <= final(self)@.total_count by {
                if other != id {
                    assert(old(self)@.stats.contains_key(other));
                }
            }
        }
    }

    /// Frames taken in, over all identifiers.
    pub fn count(&self) -> (count: u64)
        ensures
            count == self@.total_count,
    {
        self.total_count
    }

    /// The identifiers seen, in rising order.
    pub fn sorted_ids(&self) -> (ids: Vec<u32>)
        ensures
            ascending(ids@),
            ids@.to_set() == self@.stats.dom(),
    {
        let ids: Vec<u32> = sorted_keys(&self.stats);
        assert(self@.stats.dom() =~= self.stats@.dom());
        ids
    }

    /// Lists each identifier seen with a copy of its accumulator, in rising
    /// order of the identifiers. The listing shows the statistics as they
    /// are at the call; a later call shows later arrivals.
    pub fn iter(&self) -> (entries: Vec<(u32, Stats)>)
        ensures
            self@.is_listing(entries_view(entries@)),
    {
        let ids: Vec<u32> = sorted_keys(&self.stats);
        let mut entries: Vec<(u32, Stats)> = Vec::new();
        let mut i: usize = 0;
        while i < ids.len()
            invariant
                i <= ids.len(),
                ids@.to_set() == self.stats@.dom(),
                entries@.len() == i,
                forall|k: int|
                    0 <= k < i ==> (#[trigger] entries@[k]).0 == ids@[k] && entries@[k].1@
                        == self.stats@[ids@[k]]@,
            decreases ids.len() - i,
        {
            let id: u32 = ids[i];
            assert(ids@.to_set().contains(ids@[i as int]));
            if let Some(found) = self.stats.get(&id) {
                entries.push((id, found.clone()));
            }
            i = i + 1;
        }
        proof {
            let listed = entries_view(entries@);
            assert forall|k: int| 0 <= k < listed.len() implies self@.stats.contains_key(
                #[trigger] listed[k].0,
            ) && self@.stats[listed[k].0] == listed[k].1 by {
                assert(ids@.to_set().contains(ids@[k]));
            }
            assert forall|id: u32| self@.stats.contains_key(id) implies exists|k: int|
                0 <= k < listed.len() && #[trigger] listed[k].0 == id by {
                assert(ids@.to_set().contains(id));
                let k = choose|k: int| 0 <= k < ids@.len() && ids@[k] == id;
                assert(listed[k].0 == id);
            }
        }
        entries
    }

    /// The statistics of the identifiers that agree with `pattern` in every
    /// bit that `mask` selects, as statistics of their own. The source is
    /// left as it is; the result keeps the source's total count.
    pub fn filter_by(&self, mask: u32, pattern: u32) -> (narrowed: MultiStats)
        requires
            self.wf(),
        ensures
            narrowed.wf(),
            narrowed@ == self@.filter_by(mask, pattern),
    {
        let narrowed = MultiStats {
            stats: narrow(&self.stats, mask, pattern),
            total_count: self.total_count,
        };
        proof {
            assert(narrowed@.stats =~= self@.filter_by(mask, pattern).stats);
            assert(narrowed@.stats.dom() =~= narrowed.stats@.dom());
            assert forall|id: u32| #[trigger]
                narrowed@.stats.contains_key(id) implies narrowed@.stats[id].wf() && 1
                <= narrowed@.stats[id].count <= narrowed@.total_count by {
                assert(self@.stats.contains_key(id));
            }
        }
        narrowed
    }

    /// Forgets everything: the statistics are those of [`MultiStats::new`]
    /// again.
    pub fn clear(&mut self)
        ensures
            final(self).wf(),
            final(self)@ == MultiStatsView::empty(),
    {
        self.stats.clear();
        self.total_count = 0;
        assert(self@.stats =~= Map::<u32, StatsView>::empty());
    }
}


/// Two listings of the same statistics are the same listing: what
/// [`MultiStats::iter`] returns depends on the statistics alone, so that
/// reading twice without an arrival between gives the same entries.
pub proof fn law_listing_is_unique(
    stats: MultiStatsView,
    first: Seq<(u32, StatsView)>,
    second: Seq<(u32, StatsView)>,
)
    requires
        stats.is_listing(first),
        stats.is_listing(second),
    ensures
        first == second,
{
    lemma_listings_agree(stats, first, second, first.len() as int);
    lemma_listings_agree(stats, second, first, second.len() as int);
    assert(first =~= second);
}

/// Two listings of the same statistics agree on their first `n` entries,
/// and the second is no shorter than the first `n` of the first.
proof fn lemma_listings_agree(
    stats: MultiStatsView,
    first: Seq<(u32, StatsView)>,
    second: Seq<(u32, StatsView)>,
    n: int,
)
    requires
        stats.is_listing(first),
        stats.is_listing(second),
        0 <= n <= first.len(),
    ensures
        n <= second.len(),
        forall|i: int| 0 <= i < n ==> first[i] == second[i],
    decreases n,
{
    if n > 0 {
        lemma_listings_agree(stats, first, second, n - 1);
        let id = first[n - 1].0;
        assert(stats.stats.contains_key(id));
        let k = choose|k: int| 0 <= k < second.len() && #[trigger] second[k].0 == id;
        if k < n - 1 {
            assert(first[k] == second[k]);
            assert(first[k].0 < first[n - 1].0);
        }
        let other = second[n - 1].0;
        assert(stats.stats.contains_key(other));
        let m = choose|m: int| 0 <= m < first.len() && #[trigger] first[m].0 == other;
        if m < n - 1 {
            assert(first[m] == second[m]);
            assert(second[m].0 < second[n - 1].0);
        }
        if k > n - 1 {
            assert(second[n - 1].0 < second[k].0);
        }
        if m > n - 1 {
            assert(first[n - 1].0 < first[m].0);
        }
    }
}

/// Statistics that have seen nothing list no entry.
pub proof fn law_empty_lists_nothing(entries: Seq<(u32, StatsView)>)
    requires
        MultiStatsView::empty().is_listing(entries),
    ensures
        entries.len() == 0,
{
    if entries.len() > 0 {
        assert(MultiStatsView::empty().stats.contains_key(entries[0].0));
    }
}

/// Under the mask of all bits an identifier agrees with the pattern only if
/// it is the pattern: the narrowed statistics hold the pattern's accumulator
/// if the pattern was seen, and nothing else.
pub proof fn law_filter_by_full_mask(stats: MultiStatsView, pattern: u32)
    ensures
        forall|id: u32|
            stats.filter_by(0xFFFF_FFFF, pattern).stats.contains_key(id) <==> id == pattern
                && stats.stats.contains_key(id),
        stats.stats.contains_key(pattern) ==> stats.filter_by(0xFFFF_FFFF, pattern).stats[pattern]
            == stats.stats[pattern],
{
    assert forall|id: u32| spec_matches(id, 0xFFFF_FFFF, pattern) <==> id == pattern by {
        assert((id & 0xFFFF_FFFF == pattern & 0xFFFF_FFFF) <==> id == pattern) by (bit_vector);
    }
}

/// Under the empty mask every identifier agrees with every pattern: the
/// narrowed statistics are the statistics.
pub proof fn law_filter_by_zero_mask(stats: MultiStatsView, pattern: u32)
    ensures
        stats.filter_by(0, pattern) == stats,
{
    assert forall|id: u32| spec_matches(id, 0, pattern) by {
        assert(id & 0 == pattern & 0) by (bit_vector);
    }
    assert(stats.filter_by(0, pattern).stats =~= stats.stats);
}

/// An arrival keeps the statistics well-formed, and is counted once in the
/// total and once for its identifier.
pub proof fn law_push_counts_once(stats: MultiStatsView, id: u32, now: u64)
    requires
        stats.wf(),
    ensures
        stats.push(id, now).wf(),
        stats.push(id, now).total_count == stats.total_count + 1,
        stats.push(id, now).count_of(id) == stats.count_of(id) + 1,
{
    let before = if stats.stats.contains_key(id) {
        stats.stats[id]
    } else {
        StatsView::fresh(now)
    };
    law_push_keeps_wf(before, now);
    let after = stats.push(id, now);
    assert forall|other: u32| #[trigger] after.stats.contains_key(other) implies after.stats[other].wf()
        && 1 <= after.stats[other].count <= after.total_count by {
        if other != id {
            assert(stats.stats.contains_key(other));
        }
    }
}

} // verus!
