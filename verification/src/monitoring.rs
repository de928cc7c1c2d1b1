//! Monitoring building blocks: latency sample collection, resource counters and
//! a bounded history of collected data points.

use vstd::prelude::*;

use crate::time_span::{duration_from_secs, duration_nanos, nanos_of};
use std::time::{Duration, Instant};

verus! {

broadcast use vstd::seq_lib::group_to_multiset_ensures;

/// System resource usage metrics
#[derive(Debug, Clone)]
pub struct ResourceMetrics {
    pub memory_usage_bytes: usize,
    pub disk_usage_bytes: usize,
    pub file_descriptor_count: usize,
    pub memory_mapped_regions: usize,
    pub wal_segment_count: usize,
    pub shard_file_count: usize,
    pub active_connections: usize,
}

impl Default for ResourceMetrics {
    fn default() -> (m: ResourceMetrics)
        ensures
            m.memory_usage_bytes == 0,
            m.disk_usage_bytes == 0,
            m.file_descriptor_count == 0,
            m.memory_mapped_regions == 0,
            m.wal_segment_count == 0,
            m.shard_file_count == 0,
            m.active_connections == 0,
    {
        ResourceMetrics {
            memory_usage_bytes: 0,
            disk_usage_bytes: 0,
            file_descriptor_count: 0,
            memory_mapped_regions: 0,
            wal_segment_count: 0,
            shard_file_count: 0,
            active_connections: 0,
        }
    }
}

/// Document text operation types for monitoring
#[derive(Debug, Clone, Copy, PartialEq, Eq, Structural)]
pub enum DocumentTextOperation {
    Store,
    Retrieve,
    Extract,
    Delete,
    Batch,
    Concurrent,
    Async,
    Cache,
    Pool,
}

/// The durations are in non-decreasing order of length.
pub open spec fn sorted_by_length(s: Seq<Duration>) -> bool {
    forall|i: int, j: int| 0 <= i <= j < s.len() ==> duration_nanos(s[i]) <= duration_nanos(s[j])
}

/// Percentile calculator for latency tracking
pub struct PercentileCalculator {
    samples: Vec<Duration>,
    is_sorted: bool,
}

impl PercentileCalculator {
    /// The collected samples, in their current order.
    pub closed spec fn samples(&self) -> Seq<Duration> {
        self.samples@
    }

    /// The calculator's invariant: when marked sorted, the samples are in order.
    pub closed spec fn wf(&self) -> bool {
        self.is_sorted ==> sorted_by_length(self.samples@)
    }

    /// Create new percentile calculator
    pub fn new() -> (c: PercentileCalculator)
        ensures
            c.wf(),
            c.samples() == Seq::<Duration>::empty(),
    {
        PercentileCalculator { samples: Vec::new(), is_sorted: true }
    }

    /// Add a sample
    pub fn add_sample(&mut self, duration: Duration)
        ensures
            final(self).wf(),
            final(self).samples() == old(self).samples().push(duration),
    {
        self.samples.push(duration);
        self.is_sorted = false;
    }

    /// Clear all samples
    pub fn clear(&mut self)
        ensures
            final(self).wf(),
            final(self).samples() == Seq::<Duration>::empty(),
    {
        self.samples.clear();
        self.is_sorted = true;
    }

    /// Get sample count
    pub fn sample_count(&self) -> (n: usize)
        ensures
            n == self.samples().len(),
    {
        self.samples.len()
    }

    /// The sample at position `index` once the samples are sorted by length, or
    /// `None` when there is no such position. Sorts the samples first if needed.
    pub fn sorted_sample(&mut self, index: usize) -> (r: Option<Duration>)
        requires
            old(self).wf(),
        ensures
            final(self).wf(),
            final(self).samples().to_multiset() == old(self).samples().to_multiset(),
            r is Some <==> index < old(self).samples().len(),
            r is None ==> final(self).samples() == old(self).samples(),
            r matches Some(d) ==> sorted_by_length(final(self).samples()) && d
                == final(self).samples()[index as int],
    {
        if index >= self.samples.len() {
            return None;
        }
        if !self.is_sorted {
            let sorted = sort_by_length(&self.samples);
            self.samples = sorted;
            self.is_sorted = true;
        }
        Some(self.samples[index])
    }
}

/// The samples sorted by length, by insertion into a new vector.
fn sort_by_length(samples: &Vec<Duration>) -> (r: Vec<Duration>)
    ensures
        sorted_by_length(r@),
        r@.to_multiset() == samples@.to_multiset(),
        r@.len() == samples@.len(),
{
    let mut out: Vec<Duration> = Vec::new();
    let mut i: usize = 0;
    while i < samples.len()
        invariant
            i <= samples@.len(),
            sorted_by_length(out@),
            out@.to_multiset() == samples@.take(i as int).to_multiset(),
        decreases samples@.len() - i,
    {
        let x = samples[i];
        let key = nanos_of(&x);
        let mut p: usize = 0;
        while p < out.len() && nanos_of(&out[p]) <= key
            invariant
                p <= out@.len(),
                forall|k: int| 0 <= k < p ==> duration_nanos(#[trigger] out@[k]) <= key,
            decreases out@.len() - p,
        {
            p = p + 1;
        }
        let ghost before = out@;
        assert(p < before.len() ==> duration_nanos(before[p as int]) > key);
        out.insert(p, x);
        proof {
            assert forall|a: int, b: int| 0 <= a <= b < out@.len() implies duration_nanos(
                out@[a],
            ) <= duration_nanos(out@[b]) by {
                if a < p && b > p {
                    assert(out@[b] == before[b - 1]);
                    assert(duration_nanos(before[a]) <= key);
                } else if a == p && b > p {
                    assert(out@[b] == before[b - 1]);
                    assert(duration_nanos(before[p as int]) <= duration_nanos(before[b - 1]));
                } else if a > p {
                    assert(out@[a] == before[a - 1]);
                    assert(out@[b] == before[b - 1]);
                } else if a < p && b == p {
                } else if a < p && b < p {
                }
            }
            vstd::seq_lib::to_multiset_insert(before, p as int, x);
            assert(samples@.take(i + 1) =~= samples@.take(i as int).push(x));
            vstd::seq_lib::to_multiset_build(samples@.take(i as int), x);
        }
        i = i + 1;
    }
    assert(samples@.take(samples@.len() as int) =~= samples@);
    proof {
        vstd::seq_lib::to_multiset_len(out@);
        vstd::seq_lib::to_multiset_len(samples@);
    }
    out
}

#[verifier::external_type_specification]
#[verifier::external_body]
pub struct ExInstant(Instant);

/// Most data points a new history keeps: 24 hours at 1-minute intervals.
pub const DEFAULT_MAX_DATA_POINTS: usize = 1440;

/// Seconds between two collections in a new history.
pub const DEFAULT_COLLECTION_INTERVAL_SECS: u64 = 60;

/// Historical data for trending analysis
///
/// Holds the most recent data points, oldest first; `P` is the type of a
/// data point.
#[derive(Debug)]
pub struct HistoricalData<P> {
    pub data_points: Vec<P>,
    pub max_data_points: usize,
    pub collection_interval: Duration,
    pub last_collection: Option<Instant>,
}

/// The data points after `point` is added to `points` in a history that keeps
/// at most `max` of them: the point is appended, and the oldest is dropped if
/// that makes one too many.
pub open spec fn points_after_add<P>(points: Seq<P>, point: P, max: usize) -> Seq<P> {
    let pushed = points.push(point);
    if pushed.len() > max {
        pushed.drop_first()
    } else {
        pushed
    }
}

impl<P> HistoricalData<P> {
    /// Create new historical data collection: empty, keeping at most
    /// [`DEFAULT_MAX_DATA_POINTS`] points, collected every
    /// [`DEFAULT_COLLECTION_INTERVAL_SECS`] seconds, never collected yet.
    pub fn new() -> (h: HistoricalData<P>)
        ensures
            h.data_points@ == Seq::<P>::empty(),
            h.max_data_points == DEFAULT_MAX_DATA_POINTS,
            duration_nanos(h.collection_interval) == DEFAULT_COLLECTION_INTERVAL_SECS * 1_000_000_000,
            h.last_collection is None,
    {
        HistoricalData {
            data_points: Vec::new(),
            max_data_points: DEFAULT_MAX_DATA_POINTS,
            collection_interval: duration_from_secs(DEFAULT_COLLECTION_INTERVAL_SECS),
            last_collection: None,
        }
    }

    /// Add a data point, removing oldest if at capacity
    pub fn add_data_point(&mut self, point: P)
        ensures
            final(self).data_points@ == points_after_add(old(self).data_points@, point, old(self).max_data_points),
            final(self).max_data_points == old(self).max_data_points,
            final(self).collection_interval == old(self).collection_interval,
            final(self).last_collection == old(self).last_collection,
    {
        self.data_points.push(point);
        if self.data_points.len() > self.max_data_points {
            self.data_points.remove(0);
        }
    }

    /// The last `num_points` data points (all of them if there are fewer),
    /// newest first: the points that a trend over `num_points` points reads.
    pub fn recent_points(&self, num_points: usize) -> (r: Vec<&P>)
        ensures
            r@.len() == if num_points <= self.data_points@.len() {
                num_points as int
            } else {
                self.data_points@.len() as int
            },
            forall|i: int| 0 <= i < r@.len() ==> *r@[i] == self.data_points@[self.data_points@.len() - 1 - i],
    {
        let n = self.data_points.len();
        let count = if num_points <= n {
            num_points
        } else {
            n
        };
        let mut out: Vec<&P> = Vec::new();
        let mut i: usize = 0;
        while i < count
            invariant
                count <= n == self.data_points@.len(),
                i <= count,
                out@.len() == i,
                forall|k: int| 0 <= k < i ==> *out@[k] == self.data_points@[n - 1 - k],
            decreases count - i,
        {
            out.push(&self.data_points[n - 1 - i]);
            i = i + 1;
        }
        out
    }
}

impl<P> Default for HistoricalData<P> {
    fn default() -> (h: HistoricalData<P>)
        ensures
            h.data_points@ == Seq::<P>::empty(),
            h.max_data_points == DEFAULT_MAX_DATA_POINTS,
            duration_nanos(h.collection_interval) == DEFAULT_COLLECTION_INTERVAL_SECS * 1_000_000_000,
            h.last_collection is None,
    {
        Self::new()
    }
}

/// A history that holds at most `max` points still does after a point is
/// added, and then holds the newest `min(n + 1, max)` of its `n` old points
/// and the new one, in the order they were added.
pub proof fn lemma_history_keeps_most_recent<P>(points: Seq<P>, point: P, max: usize)
    requires
        points.len() <= max,
    ensures
        ({
            let all = points.push(point);
            let kept = points_after_add(points, point, max);
            &&& kept.len() == if all.len() <= max { all.len() } else { max as nat }
            &&& kept == all.subrange(all.len() - kept.len(), all.len() as int)
        }),
{
    let all = points.push(point);
    let kept = points_after_add(points, point, max);
    assert(kept =~= all.subrange(all.len() - kept.len(), all.len() as int));
}

} // verus!
