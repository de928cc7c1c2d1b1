use shardex::error::ShardexError;
use shardex::test_utils::error::{create_test_shardex_error, expect_error, expect_success};
use shardex::test_utils::test_constants;
use shardex::test_utils::TestSetupBuilder;
use std::path::PathBuf;

#[test]
fn expect_error_returns_the_error() {
    let result: Result<(), ShardexError> = Err(ShardexError::Config("test".to_string()));
    let error = expect_error(result, "configuration validation should fail");
    assert_eq!(error, ShardexError::Config("test".to_string()));
}

#[test]
fn expect_success_returns_the_value() {
    let result: Result<i32, String> = Ok(42);
    let value = expect_success(result, "arithmetic operation should succeed");
    assert_eq!(value, 42);
}

#[test]
fn create_test_shardex_error_variants() {
    assert_eq!(create_test_shardex_error("config", "a"), ShardexError::Config("a".to_string()));
    assert_eq!(
        create_test_shardex_error("memory_mapping", "b"),
        ShardexError::MemoryMapping("b".to_string())
    );
    assert_eq!(create_test_shardex_error("wal", "c"), ShardexError::Wal("c".to_string()));
    assert_eq!(create_test_shardex_error("shard", "d"), ShardexError::Shard("d".to_string()));
    assert_eq!(create_test_shardex_error("search", "e"), ShardexError::Search("e".to_string()));
    assert_eq!(
        create_test_shardex_error("corruption", "f"),
        ShardexError::Corruption("f".to_string())
    );
    assert_eq!(
        create_test_shardex_error("text_corruption", "g"),
        ShardexError::TextCorruption("g".to_string())
    );
    assert_eq!(create_test_shardex_error("config", "msg").message(), "msg");
}

#[test]
fn test_setup_builder_basic() {
    let b = TestSetupBuilder::new("test_setup_builder_basic");
    assert_eq!(b.name(), "test_setup_builder_basic");
    assert_eq!(b.vector_size(), test_constants::DEFAULT_VECTOR_SIZE);
    assert_eq!(b.shard_size(), test_constants::DEFAULT_SHARD_SIZE);
    assert_eq!(b.into_directory_path(), None);
}

#[test]
fn test_setup_builder_custom_config() {
    let b = TestSetupBuilder::new("test_setup_builder_custom")
        .with_vector_size(256)
        .with_shard_size(500)
        .with_directory_path(PathBuf::from("/tmp/some_dir"));
    assert_eq!(b.name(), "test_setup_builder_custom");
    assert_eq!(b.vector_size(), 256);
    assert_eq!(b.shard_size(), 500);
    assert_eq!(b.into_directory_path(), Some(PathBuf::from("/tmp/some_dir")));
}

#[test]
fn test_setup_builder_small_convenience() {
    let small = TestSetupBuilder::small("test_small");
    assert_eq!(small.name(), "test_small");
    assert_eq!(small.vector_size(), test_constants::SMALL_VECTOR_SIZE);
    assert_eq!(small.shard_size(), test_constants::DEFAULT_SHARD_SIZE);
    assert_eq!(test_constants::SMALL_VECTOR_SIZE, 64);
}

#[test]
fn test_setup_builder_large_convenience() {
    let large = TestSetupBuilder::large("test_large");
    assert_eq!(large.name(), "test_large");
    assert_eq!(large.vector_size(), test_constants::LARGE_VECTOR_SIZE);
    assert_eq!(large.shard_size(), test_constants::LARGE_SHARD_SIZE);
    assert_eq!(test_constants::LARGE_VECTOR_SIZE, 384);
    assert_eq!(test_constants::LARGE_SHARD_SIZE, 1000);
}

#[test]
fn error_messages_spell_out_numbers() {
    assert_eq!(
        ShardexError::InvalidDimension { expected: 384, actual: 0 }.message(),
        "Invalid vector dimension: expected 384, got 0"
    );
    assert_eq!(
        ShardexError::DocumentTooLarge { size: 2048, max_size: 1024 }.message(),
        "Document too large: 2048 bytes exceeds maximum 1024 bytes"
    );
    assert_eq!(
        ShardexError::InvalidRange { start: 5, length: 10, document_length: 12 }.message(),
        "Invalid range: start 5 length 10 exceeds document length 12"
    );
    assert_eq!(
        ShardexError::InvalidInput {
            field: "k".to_string(),
            reason: "must be greater than 0".to_string(),
            suggestion: "use k=10".to_string(),
        }
        .message(),
        "Invalid input for k: must be greater than 0. Suggestion: use k=10"
    );
    assert_eq!(
        ShardexError::ResourceExhausted {
            resource: "memory".to_string(),
            reason: "full".to_string(),
            suggestion: "flush".to_string(),
        }
        .message(),
        "Resource exhausted (memory): full. Suggestion: flush"
    );
}

#[test]
fn display_text_names_the_kind_of_error() {
    assert_eq!(ShardexError::Config("bad".to_string()).display_text(), "Configuration error: bad");
    assert_eq!(
        ShardexError::Corruption("Checksum mismatch".to_string()).display_text(),
        "Data corruption detected: Checksum mismatch"
    );
    assert_eq!(ShardexError::Wal("w".to_string()).display_text(), "WAL error: w");
    assert_eq!(ShardexError::Shard("s".to_string()).display_text(), "Shard error: s");
    assert_eq!(ShardexError::Search("q".to_string()).display_text(), "Search error: q");
    assert_eq!(ShardexError::MemoryMapping("m".to_string()).display_text(), "Memory mapping error: m");
    assert_eq!(ShardexError::TextCorruption("t".to_string()).display_text(), "Text corruption: t");
    assert_eq!(
        ShardexError::InvalidDimension { expected: 3, actual: 2 }.display_text(),
        "Invalid vector dimension: expected 3, got 2"
    );
}
