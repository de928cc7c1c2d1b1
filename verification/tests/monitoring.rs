use shardex::monitoring::{
    DocumentTextOperation, HistoricalData, PercentileCalculator, ResourceMetrics,
    DEFAULT_MAX_DATA_POINTS,
};
use std::time::{Duration, SystemTime};

/// A data point as the index collects it.
#[derive(Debug, Clone, PartialEq)]
struct DataPoint {
    timestamp: SystemTime,
    search_latency_p95: Duration,
    write_throughput: f64,
    memory_usage: usize,
    disk_usage: usize,
    bloom_filter_hit_rate: f64,
    active_shards: usize,
    pending_operations: usize,
}

/// The sample at the rank that a percentile `p` (0.0 to 1.0) selects.
fn percentile(calc: &mut PercentileCalculator, p: f64) -> Option<Duration> {
    let count = calc.sample_count();
    if count == 0 {
        return None;
    }
    calc.sorted_sample((p * (count - 1) as f64) as usize)
}

#[test]
fn test_percentile_calculator() {
    let mut calc = PercentileCalculator::new();

    // Add sample data
    for i in 1..=100 {
        calc.add_sample(Duration::from_millis(i));
    }

    assert_eq!(percentile(&mut calc, 0.5).unwrap(), Duration::from_millis(50));
    assert_eq!(percentile(&mut calc, 0.95).unwrap(), Duration::from_millis(95));
    assert_eq!(percentile(&mut calc, 0.99).unwrap(), Duration::from_millis(99));
}

#[test]
fn percentile_calculator_collects_samples() {
    let mut calc = PercentileCalculator::new();
    assert_eq!(calc.sample_count(), 0);
    calc.add_sample(Duration::from_millis(3));
    calc.add_sample(Duration::from_millis(1));
    assert_eq!(calc.sample_count(), 2);
    calc.clear();
    assert_eq!(calc.sample_count(), 0);
    assert_eq!(calc.sorted_sample(0), None);
}

#[test]
fn sorted_sample_orders_by_length() {
    let mut calc = PercentileCalculator::new();
    for i in (1..=100).rev() {
        calc.add_sample(Duration::from_millis(i));
    }
    // Rank 49 of 100 samples is what the 50th percentile (0.5 * 99) selects.
    assert_eq!(calc.sorted_sample(49), Some(Duration::from_millis(50)));
    assert_eq!(calc.sorted_sample(94), Some(Duration::from_millis(95)));
    assert_eq!(calc.sorted_sample(98), Some(Duration::from_millis(99)));
    assert_eq!(calc.sorted_sample(0), Some(Duration::from_millis(1)));
    assert_eq!(calc.sorted_sample(99), Some(Duration::from_millis(100)));
    assert_eq!(calc.sorted_sample(100), None);
    assert_eq!(calc.sample_count(), 100);
}

#[test]
fn sorted_sample_after_more_samples() {
    let mut calc = PercentileCalculator::new();
    calc.add_sample(Duration::from_millis(10));
    calc.add_sample(Duration::from_millis(30));
    assert_eq!(calc.sorted_sample(1), Some(Duration::from_millis(30)));
    calc.add_sample(Duration::from_millis(20));
    calc.add_sample(Duration::from_millis(20));
    assert_eq!(calc.sorted_sample(1), Some(Duration::from_millis(20)));
    assert_eq!(calc.sorted_sample(2), Some(Duration::from_millis(20)));
    assert_eq!(calc.sorted_sample(3), Some(Duration::from_millis(30)));
}

#[test]
fn resource_metrics_default_is_zero() {
    let m = ResourceMetrics::default();
    assert_eq!(m.memory_usage_bytes, 0);
    assert_eq!(m.disk_usage_bytes, 0);
    assert_eq!(m.file_descriptor_count, 0);
    assert_eq!(m.memory_mapped_regions, 0);
    assert_eq!(m.wal_segment_count, 0);
    assert_eq!(m.shard_file_count, 0);
    assert_eq!(m.active_connections, 0);
}

#[test]
fn document_text_operation_equality() {
    assert_eq!(DocumentTextOperation::Store, DocumentTextOperation::Store);
    assert_ne!(DocumentTextOperation::Store, DocumentTextOperation::Retrieve);
    let op = DocumentTextOperation::Pool;
    let copy = op;
    assert_eq!(op, copy);
}

#[test]
fn test_historical_data() {
    let mut historical = HistoricalData::new();

    let point1 = DataPoint {
        timestamp: SystemTime::now(),
        search_latency_p95: Duration::from_millis(100),
        write_throughput: 10.0,
        memory_usage: 1024,
        disk_usage: 2048,
        bloom_filter_hit_rate: 0.8,
        active_shards: 5,
        pending_operations: 0,
    };

    historical.add_data_point(point1.clone());
    assert_eq!(historical.data_points.len(), 1);

    // A trend over one point analyzes that single point.
    let recent = historical.recent_points(1);
    assert_eq!(recent.len(), 1);
    assert_eq!(recent[0], &point1);
}

#[test]
fn historical_data_defaults() {
    let historical: HistoricalData<u32> = HistoricalData::default();
    assert!(historical.data_points.is_empty());
    assert_eq!(historical.max_data_points, DEFAULT_MAX_DATA_POINTS);
    assert_eq!(historical.max_data_points, 1440);
    assert_eq!(historical.collection_interval, Duration::from_secs(60));
    assert!(historical.last_collection.is_none());
}

#[test]
fn historical_data_drops_oldest_point_at_capacity() {
    let mut historical: HistoricalData<u32> = HistoricalData::new();
    historical.max_data_points = 3;
    for i in 1..=5 {
        historical.add_data_point(i);
    }
    assert_eq!(historical.data_points, vec![3, 4, 5]);
    let recent: Vec<u32> = historical.recent_points(2).into_iter().copied().collect();
    assert_eq!(recent, vec![5, 4]);
    assert_eq!(historical.recent_points(10).len(), 3);
    assert_eq!(historical.recent_points(0).len(), 0);
}
