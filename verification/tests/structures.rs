use shardex::identifiers::DocumentId;
use shardex::structures::{FlushStats, PostingHeader};
use std::time::Duration;

#[test]
fn test_header_validity() {
    let valid_posting = PostingHeader {
        document_id: DocumentId::from_raw(1),
        start: 0,
        length: 100,
        vector_len: 384,
        vector_offset: 0,
    };
    assert!(valid_posting.is_valid());

    let invalid_posting = PostingHeader {
        document_id: DocumentId::from_raw(2),
        start: 0,
        length: 0,
        vector_len: 384,
        vector_offset: 0,
    };
    assert!(!invalid_posting.is_valid());

    let invalid_vector = PostingHeader {
        document_id: DocumentId::from_raw(3),
        start: 0,
        length: 100,
        vector_len: 0,
        vector_offset: 0,
    };
    assert!(!invalid_vector.is_valid());
}

#[test]
fn test_zero_initialized_headers() {
    let zero_posting = PostingHeader::new_zero();
    assert!(!zero_posting.is_valid());
    assert_eq!(zero_posting.document_id.raw(), 0);
    assert_eq!(zero_posting.start, 0);
    assert_eq!(zero_posting.length, 0);
    assert_eq!(zero_posting.vector_len, 0);
    assert_eq!(zero_posting.vector_offset, 0);
}

fn stats(wal: u64, apply: u64, sync: u64, validation: u64, total: u64) -> FlushStats {
    let mut s = FlushStats::new();
    s.wal_flush_duration = Duration::from_millis(wal);
    s.shard_apply_duration = Duration::from_millis(apply);
    s.shard_sync_duration = Duration::from_millis(sync);
    s.validation_duration = Duration::from_millis(validation);
    s.total_duration = Duration::from_millis(total);
    s
}

#[test]
fn flush_stats_new_is_zero() {
    let s = FlushStats::new();
    assert_eq!(s.total_duration, Duration::ZERO);
    assert_eq!(s.wal_flush_duration, Duration::ZERO);
    assert_eq!(s.shard_apply_duration, Duration::ZERO);
    assert_eq!(s.shard_sync_duration, Duration::ZERO);
    assert_eq!(s.validation_duration, Duration::ZERO);
    assert_eq!(s.shards_synced, 0);
    assert_eq!(s.operations_applied, 0);
    assert_eq!(s.bytes_synced, 0);
    assert_eq!(s.total_duration_ms(), 0);
    assert!(s.is_fast_flush());
    assert!(!s.is_slow_flush());
}

#[test]
fn flush_stats_millisecond_accessors() {
    let mut s = stats(12, 0, 34, 56, 789);
    s.total_duration = Duration::from_micros(789_999);
    assert_eq!(s.wal_flush_duration_ms(), 12);
    assert_eq!(s.shard_sync_duration_ms(), 34);
    assert_eq!(s.validation_duration_ms(), 56);
    assert_eq!(s.total_duration_ms(), 789);
}

#[test]
fn flush_stats_fast_and_slow_thresholds() {
    assert!(stats(0, 0, 0, 0, 99).is_fast_flush());
    assert!(!stats(0, 0, 0, 0, 100).is_fast_flush());
    assert!(!stats(0, 0, 0, 0, 1000).is_slow_flush());
    assert!(stats(0, 0, 0, 0, 1001).is_slow_flush());
    let mut s = stats(0, 0, 0, 0, 1000);
    s.total_duration = Duration::from_nanos(1_000_000_001);
    assert!(s.is_slow_flush());
}

#[test]
fn flush_stats_slowest_phase() {
    assert_eq!(stats(5, 1, 1, 1, 8).slowest_phase(), "wal_flush");
    assert_eq!(stats(1, 5, 1, 1, 8).slowest_phase(), "shard_apply");
    assert_eq!(stats(1, 1, 5, 1, 8).slowest_phase(), "shard_sync");
    assert_eq!(stats(1, 1, 1, 5, 8).slowest_phase(), "validation");
    // Ties go to the later phase.
    assert_eq!(stats(5, 5, 1, 1, 12).slowest_phase(), "shard_apply");
    assert_eq!(stats(0, 0, 0, 0, 0).slowest_phase(), "validation");
}

#[test]
fn flush_stats_default_is_new() {
    let d = FlushStats::default();
    assert_eq!(d, FlushStats::new());
    assert_eq!(d.total_duration_ms(), 0);
    assert_eq!(d.shards_synced, 0);
    assert_eq!(d.operations_applied, 0);
    assert_eq!(d.bytes_synced, 0);
    assert!(d.is_fast_flush());
    assert!(!d.is_slow_flush());
}
