use shardex::shardex_index::tally_deletions;
use shardex::shardex_index::calculate_optimal_slop;

#[test]
fn test_calculate_optimal_slop() {
    assert_eq!(calculate_optimal_slop(384, 0), 1);
    assert_eq!(calculate_optimal_slop(384, 1), 1);

    let optimal_small = calculate_optimal_slop(128, 5);
    let optimal_large = calculate_optimal_slop(1024, 5);

    assert!(optimal_small > 0);
    assert!(optimal_large > 0);
    assert!(optimal_large >= optimal_small);
}

#[test]
fn test_calculate_optimal_slop_with_different_parameters() {
    assert_eq!(calculate_optimal_slop(128, 0), 1);
    assert_eq!(calculate_optimal_slop(128, 1), 1);

    let slop_5_shards = calculate_optimal_slop(128, 5);
    let slop_20_shards = calculate_optimal_slop(128, 20);
    let slop_100_shards = calculate_optimal_slop(128, 100);

    assert!(slop_20_shards >= slop_5_shards);

    assert!(slop_5_shards <= 5);
    assert!(slop_20_shards <= 20);
    assert!(slop_100_shards <= 100);

    let slop_small_vec = calculate_optimal_slop(128, 50);
    let slop_large_vec = calculate_optimal_slop(1024, 50);

    assert!(slop_large_vec >= slop_small_vec);
}

#[test]
fn optimal_slop_exact_values() {
    assert_eq!(calculate_optimal_slop(128, 2), 2);
    assert_eq!(calculate_optimal_slop(128, 3), 3);
    assert_eq!(calculate_optimal_slop(128, 50), 3);
    assert_eq!(calculate_optimal_slop(300, 50), 4);
    assert_eq!(calculate_optimal_slop(1024, 50), 5);
    assert_eq!(calculate_optimal_slop(1024, 4), 4);
    assert_eq!(calculate_optimal_slop(1024, 6), 5);
    assert_eq!(calculate_optimal_slop(512, 1000), 4);
    assert_eq!(calculate_optimal_slop(256, 1000), 3);
    assert_eq!(calculate_optimal_slop(513, 1000), 5);
}

#[test]
fn deletion_tally_sums_per_document() {
    assert_eq!(tally_deletions(3, &[(0, 2), (2, 1), (0, 3), (2, 0)]), vec![5, 0, 1]);
    assert_eq!(tally_deletions(2, &[]), vec![0, 0]);
    assert_eq!(tally_deletions(0, &[]), Vec::<usize>::new());
}
