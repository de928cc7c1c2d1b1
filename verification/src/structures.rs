//! Core data structures: memory-mappable posting headers and flush statistics.

use vstd::prelude::*;

use crate::identifiers::DocumentId;
use crate::time_span::{duration_nanos, millis_of, millis_u64, nanos_of, zero_duration};
use std::time::Duration;

verus! {

/// Memory-mapped compatible posting header
///
/// The vector data is stored separately and referenced by offset and length.
#[derive(Debug, Clone, Copy, PartialEq)]
pub struct PostingHeader {
    /// Document identifier
    pub document_id: DocumentId,
    /// Starting byte position within the document
    pub start: u32,
    /// Length of the text segment in bytes
    pub length: u32,
    /// Number of dimensions in the vector
    pub vector_len: u32,
    /// Offset to vector data within the shard
    pub vector_offset: u64,
}

impl PostingHeader {
    /// Create a zero-initialized posting header
    pub fn new_zero() -> (h: PostingHeader)
        ensures
            h.document_id.value() == 0,
            h.start == 0,
            h.length == 0,
            h.vector_len == 0,
            h.vector_offset == 0,
    {
        PostingHeader {
            document_id: DocumentId::from_raw(0),
            start: 0,
            length: 0,
            vector_len: 0,
            vector_offset: 0,
        }
    }

    /// Check if this header represents a valid posting
    pub fn is_valid(&self) -> (b: bool)
        ensures
            b == (self.vector_len > 0 && self.length > 0),
    {
        self.vector_len > 0 && self.length > 0
    }
}

/// Statistics and performance metrics for flush operations
#[derive(Debug, Clone, Copy, PartialEq)]
pub struct FlushStats {
    /// Time spent flushing WAL operations
    pub wal_flush_duration: Duration,
    /// Time spent applying operations to shards
    pub shard_apply_duration: Duration,
    /// Time spent synchronizing shard data to disk
    pub shard_sync_duration: Duration,
    /// Time spent on consistency validation
    pub validation_duration: Duration,
    /// Total flush operation duration
    pub total_duration: Duration,
    /// Number of shards synchronized to disk
    pub shards_synced: usize,
    /// Number of operations applied during flush
    pub operations_applied: usize,
    /// Number of bytes synchronized to disk
    pub bytes_synced: u64,
}

/// Index of the phase with the longest duration among four; on a tie the later phase wins.
pub open spec fn slowest_of_four(a: u128, b: u128, c: u128, d: u128) -> int {
    if d >= a && d >= b && d >= c {
        3
    } else if c >= a && c >= b {
        2
    } else if b >= a {
        1
    } else {
        0
    }
}

/// The slowest phase lasts at least as long as every phase, and every later
/// phase is strictly shorter: ties go to the later phase.
pub proof fn lemma_slowest_is_longest(a: u128, b: u128, c: u128, d: u128)
    ensures
        ({
            let xs = seq![a, b, c, d];
            let i = slowest_of_four(a, b, c, d);
            &&& 0 <= i < 4
            &&& forall|j: int| 0 <= j < 4 ==> xs[j] <= xs[i]
            &&& forall|j: int| i < j < 4 ==> xs[j] < xs[i]
        }),
{
    let xs = seq![a, b, c, d];
    assert(xs[0] == a && xs[1] == b && xs[2] == c && xs[3] == d);
}

/// Names of the flush phases, in order.
pub open spec fn phase_name(i: int) -> Seq<char> {
    if i == 0 {
        "wal_flush"@
    } else if i == 1 {
        "shard_apply"@
    } else if i == 2 {
        "shard_sync"@
    } else {
        "validation"@
    }
}

/// Flush statistics with every duration and counter at zero.
pub open spec fn is_zero_flush(s: FlushStats) -> bool {
    &&& duration_nanos(s.wal_flush_duration) == 0
    &&& duration_nanos(s.shard_apply_duration) == 0
    &&& duration_nanos(s.shard_sync_duration) == 0
    &&& duration_nanos(s.validation_duration) == 0
    &&& duration_nanos(s.total_duration) == 0
    &&& s.shards_synced == 0
    &&& s.operations_applied == 0
    &&& s.bytes_synced == 0
}

impl Default for FlushStats {
    /// The same zero statistics as [`FlushStats::new`].
    fn default() -> (s: FlushStats)
        ensures
            is_zero_flush(s),
    {
        FlushStats::new()
    }
}

impl FlushStats {
    /// Create new flush stats with zero values
    pub fn new() -> (s: FlushStats)
        ensures
            is_zero_flush(s),
            duration_nanos(s.wal_flush_duration) == 0,
            duration_nanos(s.shard_apply_duration) == 0,
            duration_nanos(s.shard_sync_duration) == 0,
            duration_nanos(s.validation_duration) == 0,
            duration_nanos(s.total_duration) == 0,
            s.shards_synced == 0,
            s.operations_applied == 0,
            s.bytes_synced == 0,
    {
        FlushStats {
            wal_flush_duration: zero_duration(),
            shard_apply_duration: zero_duration(),
            shard_sync_duration: zero_duration(),
            validation_duration: zero_duration(),
            total_duration: zero_duration(),
            shards_synced: 0,
            operations_applied: 0,
            bytes_synced: 0,
        }
    }

    /// Get total flush duration in milliseconds
    pub fn total_duration_ms(&self) -> (ms: u64)
        ensures
            ms == millis_u64(self.total_duration),
    {
        millis_of(&self.total_duration)
    }

    /// Get WAL flush duration in milliseconds
    pub fn wal_flush_duration_ms(&self) -> (ms: u64)
        ensures
            ms == millis_u64(self.wal_flush_duration),
    {
        millis_of(&self.wal_flush_duration)
    }

    /// Get shard synchronization duration in milliseconds
    pub fn shard_sync_duration_ms(&self) -> (ms: u64)
        ensures
            ms == millis_u64(self.shard_sync_duration),
    {
        millis_of(&self.shard_sync_duration)
    }

    /// Get validation duration in milliseconds
    pub fn validation_duration_ms(&self) -> (ms: u64)
        ensures
            ms == millis_u64(self.validation_duration),
    {
        millis_of(&self.validation_duration)
    }

    /// Check if this was a fast flush (< 100ms total)
    pub fn is_fast_flush(&self) -> (b: bool)
        ensures
            b == (duration_nanos(self.total_duration) < 100_000_000),
    {
        nanos_of(&self.total_duration) < 100_000_000
    }

    /// Check if this was a slow flush (> 1000ms total)
    pub fn is_slow_flush(&self) -> (b: bool)
        ensures
            b == (duration_nanos(self.total_duration) > 1_000_000_000),
    {
        nanos_of(&self.total_duration) > 1_000_000_000
    }

    /// Get the most time-consuming phase of the flush; on a tie the later phase is named.
    pub fn slowest_phase(&self) -> (name: &'static str)
        ensures
            name@ == phase_name(
                slowest_of_four(
                    duration_nanos(self.wal_flush_duration),
                    duration_nanos(self.shard_apply_duration),
                    duration_nanos(self.shard_sync_duration),
                    duration_nanos(self.validation_duration),
                ),
            ),
    {
        let a = nanos_of(&self.wal_flush_duration);
        let b = nanos_of(&self.shard_apply_duration);
        let c = nanos_of(&self.shard_sync_duration);
        let d = nanos_of(&self.validation_duration);
        let mut best: u128 = a;
        let mut name: &'static str = "wal_flush";
        if b >= best {
            best = b;
            name = "shard_apply";
        }
        if c >= best {
            best = c;
            name = "shard_sync";
        }
        if d >= best {
            name = "validation";
        }
        name
    }
}

} // verus!
