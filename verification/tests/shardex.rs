use shardex::shardex::validate_wal_add;
use shardex::error::ShardexError;
use shardex::identifiers::DocumentId;
use shardex::shardex::{
    validate_add_postings_input, validate_posting, validate_posting_for_replacement,
    operations_per_batch, validate_remove_documents_input, validate_replacement_inputs,
    validate_search_input, PostingInput,
};

fn posting(doc: u128, start: u32, length: u32, vector_len: usize) -> PostingInput {
    PostingInput {
        document_id: DocumentId::from_raw(doc),
        start,
        length,
        vector_len,
        first_non_finite: None,
    }
}

#[test]
fn validate_posting_rules() {
    assert!(validate_posting(&posting(1, 0, 10, 3)).is_ok());
    assert!(matches!(
        validate_posting(&posting(0, 0, 10, 3)),
        Err(ShardexError::InvalidPostingData { .. })
    ));
    assert!(matches!(
        validate_posting(&posting(1, 0, 0, 3)),
        Err(ShardexError::InvalidPostingData { .. })
    ));
    assert!(validate_posting(&posting(1, u32::MAX - 10, 10, 3)).is_ok());
    assert!(matches!(
        validate_posting(&posting(1, u32::MAX - 10, 11, 3)),
        Err(ShardexError::InvalidPostingData { .. })
    ));
}

#[test]
fn add_postings_batch_rules() {
    assert!(validate_add_postings_input(&[], 3).is_ok());
    assert!(validate_add_postings_input(&[posting(1, 0, 10, 3), posting(2, 5, 5, 3)], 3).is_ok());
    assert!(matches!(
        validate_add_postings_input(&[posting(1, 0, 10, 3), posting(2, 5, 5, 4)], 3),
        Err(ShardexError::InvalidPostingData { .. })
    ));
    let mut nan = posting(1, 0, 10, 3);
    nan.first_non_finite = Some((2, true));
    assert!(matches!(validate_add_postings_input(&[nan], 3), Err(ShardexError::InvalidPostingData { .. })));
    let mut inf = posting(1, 0, 10, 3);
    inf.first_non_finite = Some((0, false));
    assert!(matches!(validate_add_postings_input(&[inf], 3), Err(ShardexError::InvalidPostingData { .. })));
    assert!(matches!(
        validate_add_postings_input(&[posting(1, 0, 0, 3)], 3),
        Err(ShardexError::InvalidPostingData { .. })
    ));
    assert!(validate_add_postings_input(&[posting(1, u32::MAX / 2 - 1, 1, 3)], 3).is_ok());
    assert!(matches!(
        validate_add_postings_input(&[posting(1, u32::MAX / 2, 1, 3)], 3),
        Err(ShardexError::InvalidPostingData { .. })
    ));
    assert!(matches!(
        validate_add_postings_input(&[posting(1, u32::MAX, 1, 3)], 3),
        Err(ShardexError::InvalidPostingData { .. })
    ));
    let big = vec![posting(1, 0, 1, 3); 100_001];
    assert!(matches!(
        validate_add_postings_input(&big, 3),
        Err(ShardexError::ResourceExhausted { .. })
    ));
    let max = vec![posting(1, 0, 1, 3); 100_000];
    assert!(validate_add_postings_input(&max, 3).is_ok());
}

#[test]
fn remove_documents_batch_rules() {
    assert!(validate_remove_documents_input(&[]).is_ok());
    assert!(validate_remove_documents_input(&[1, 2, 3]).is_ok());
    match validate_remove_documents_input(&[1, 2, 1]) {
        Err(ShardexError::InvalidInput { field, .. }) => assert_eq!(field, "document_ids"),
        other => panic!("unexpected {:?}", other),
    }
    let big: Vec<u128> = (0..50_001).collect();
    assert!(matches!(
        validate_remove_documents_input(&big),
        Err(ShardexError::ResourceExhausted { .. })
    ));
    let max: Vec<u128> = (0..50_000).collect();
    assert!(validate_remove_documents_input(&max).is_ok());
}

#[test]
fn search_input_rules() {
    assert!(validate_search_input(3, None, 3, 10, None, 1, 100).is_ok());
    assert!(validate_search_input(3, None, 3, 10, Some(5), 1, 100).is_ok());
    match validate_search_input(0, None, 3, 10, None, 1, 100) {
        Err(ShardexError::InvalidInput { field, .. }) => assert_eq!(field, "query_vector"),
        other => panic!("unexpected {:?}", other),
    }
    assert_eq!(
        validate_search_input(2, None, 3, 10, None, 1, 100),
        Err(ShardexError::InvalidDimension { expected: 3, actual: 2 })
    );
    match validate_search_input(3, Some((1, true)), 3, 10, None, 1, 100) {
        Err(ShardexError::InvalidInput { field, .. }) => assert_eq!(field, "query_vector"),
        other => panic!("unexpected {:?}", other),
    }
    match validate_search_input(3, None, 3, 0, None, 1, 100) {
        Err(ShardexError::InvalidInput { field, .. }) => assert_eq!(field, "k"),
        other => panic!("unexpected {:?}", other),
    }
    assert!(validate_search_input(3, None, 3, 10_000, None, 1, 100).is_ok());
    assert!(matches!(
        validate_search_input(3, None, 3, 10_001, None, 1, 100),
        Err(ShardexError::ResourceExhausted { .. })
    ));
    match validate_search_input(3, None, 3, 10, Some(0), 1, 100) {
        Err(ShardexError::InvalidInput { field, .. }) => assert_eq!(field, "slop_factor"),
        other => panic!("unexpected {:?}", other),
    }
    match validate_search_input(3, None, 3, 10, Some(101), 1, 100) {
        Err(ShardexError::InvalidInput { field, .. }) => assert_eq!(field, "slop_factor"),
        other => panic!("unexpected {:?}", other),
    }
}

#[test]
fn replacement_posting_rules() {
    let text = "héllo world";
    assert!(validate_posting_for_replacement(&posting(1, 0, 5, 3), text, 0, 3).is_ok());
    assert!(validate_posting_for_replacement(&posting(1, 0, 6, 3), text, 0, 3).is_ok());
    assert!(matches!(
        validate_posting_for_replacement(&posting(1, 0, 2, 3), text, 0, 3),
        Err(ShardexError::InvalidRange { start: 0, length: 2, document_length: 12 })
    ));
    assert!(matches!(
        validate_posting_for_replacement(&posting(1, 7, 6, 3), text, 0, 3),
        Err(ShardexError::InvalidRange { .. })
    ));
    assert!(matches!(
        validate_posting_for_replacement(&posting(0, 0, 1, 3), text, 0, 3),
        Err(ShardexError::InvalidPostingData { .. })
    ));
    assert_eq!(
        validate_posting_for_replacement(&posting(1, 0, 1, 4), text, 0, 3),
        Err(ShardexError::InvalidDimension { expected: 3, actual: 4 })
    );
    assert!(matches!(
        validate_posting_for_replacement(&posting(1, 3, 0, 3), text, 0, 3),
        Err(ShardexError::InvalidPostingData { .. })
    ));
}

#[test]
fn replacement_inputs_rules() {
    let doc = DocumentId::from_raw(9);
    let text = "hello world";
    let postings = [posting(9, 0, 5, 3), posting(9, 6, 5, 3)];
    assert!(validate_replacement_inputs(doc, text, &postings, 3, 100).is_ok());
    assert!(matches!(
        validate_replacement_inputs(DocumentId::from_raw(0), text, &postings, 3, 100),
        Err(ShardexError::InvalidDocumentId { .. })
    ));
    assert_eq!(
        validate_replacement_inputs(doc, text, &postings, 3, 10),
        Err(ShardexError::DocumentTooLarge { size: 11, max_size: 10 })
    );
    match validate_replacement_inputs(doc, "a\0b", &[], 3, 100) {
        Err(ShardexError::InvalidInput { field, .. }) => assert_eq!(field, "document_text"),
        other => panic!("unexpected {:?}", other),
    }
    let bad = [posting(9, 0, 5, 3), posting(9, 6, 50, 3)];
    assert!(matches!(
        validate_replacement_inputs(doc, text, &bad, 3, 100),
        Err(ShardexError::InvalidRange { .. })
    ));
}

#[test]
fn batch_limit_follows_operation_size() {
    // 128 components: 29 + 512 + 50 = 591 bytes per operation
    assert_eq!(operations_per_batch(128, 591 * 300), 300);
    assert_eq!(operations_per_batch(128, 591 * 300 + 590), 300);
}

#[test]
fn batch_limit_is_clamped() {
    assert_eq!(operations_per_batch(128, 100), 10);
    assert_eq!(operations_per_batch(128, 0), 10);
    assert_eq!(operations_per_batch(1, 1 << 30), 1000);
}

fn posting_data_reason(r: Result<(), ShardexError>) -> (String, String) {
    match r {
        Err(ShardexError::InvalidPostingData { reason, suggestion }) => (reason, suggestion),
        other => panic!("Expected InvalidPostingData error, got: {:?}", other),
    }
}

#[test]
fn add_postings_dimension_mismatch_names_posting_and_sizes() {
    let (reason, suggestion) =
        posting_data_reason(validate_add_postings_input(&[posting(1, 0, 100, 2)], 3));
    assert!(reason.contains("expected 3, got 2"));
    assert!(reason.contains("posting at index 0"));
    assert_eq!(
        reason,
        "posting at index 0 has wrong vector dimension: Invalid vector dimension: expected 3, got 2"
    );
    assert_eq!(suggestion, "Ensure all vectors have 3 dimensions as configured for this index");

    let (reason, _) = posting_data_reason(validate_add_postings_input(&[posting(1, 0, 100, 0)], 3));
    assert!(reason.contains("expected 3, got 0"));
    assert!(reason.contains("posting at index 0"));
}

#[test]
fn add_postings_reports_first_bad_posting() {
    let mut nan = posting(2, 0, 10, 3);
    nan.first_non_finite = Some((1, true));
    let mut inf = posting(3, 0, 10, 3);
    inf.first_non_finite = Some((2, false));
    let batch = [posting(1, 0, 10, 3), nan, inf];
    let (reason, _) = posting_data_reason(validate_add_postings_input(&batch, 3));
    assert!(reason.contains("contains NaN at vector position"));
    assert_eq!(reason, "posting at index 1 contains NaN at vector position 1");

    let (reason, _) = posting_data_reason(validate_add_postings_input(&batch[2..], 3));
    assert_eq!(reason, "posting at index 0 contains infinite value at vector position 2");

    let (reason, _) = posting_data_reason(validate_add_postings_input(&[posting(1, 0, 0, 3)], 3));
    assert!(reason.contains("zero length"));
    assert_eq!(reason, "posting at index 0 has zero length");

    let (reason, _) =
        posting_data_reason(validate_add_postings_input(&[posting(1, 0, 1, 3), posting(1, 4_000_000_000, 1, 3)], 3));
    assert_eq!(
        reason,
        "posting at index 1 has text position that may cause overflow (start: 4000000000, length: 1)"
    );
    let (reason, _) =
        posting_data_reason(validate_add_postings_input(&[posting(1, u32::MAX, 1, 3)], 3));
    assert_eq!(
        reason,
        "posting at index 0 has start+length that overflows u32 (start: 4294967295, length: 1)"
    );
}

#[test]
fn batch_size_errors_state_the_size() {
    let big = vec![posting(1, 0, 1, 3); 100_001];
    match validate_add_postings_input(&big, 3) {
        Err(ShardexError::ResourceExhausted { resource, reason, .. }) => {
            assert_eq!(resource, "batch_size");
            assert_eq!(reason, "batch contains 100001 postings, which exceeds reasonable limits");
        }
        other => panic!("unexpected {:?}", other),
    }
    let ids: Vec<u128> = (0..50_001).collect();
    match validate_remove_documents_input(&ids) {
        Err(ShardexError::ResourceExhausted { reason, .. }) => {
            assert_eq!(reason, "batch contains 50001 document IDs, which exceeds reasonable limits");
        }
        other => panic!("unexpected {:?}", other),
    }
}

#[test]
fn duplicate_removal_names_first_repeat() {
    match validate_remove_documents_input(&[7, 8, 9, 8, 7]) {
        Err(ShardexError::InvalidInput { field, reason, suggestion }) => {
            assert_eq!(field, "document_ids");
            assert_eq!(reason, "duplicate document ID 8 at index 3");
            assert_eq!(suggestion, "Remove duplicate document IDs from your batch");
        }
        other => panic!("unexpected {:?}", other),
    }
}

#[test]
fn search_errors_carry_positions_and_bounds() {
    let reason_of = |r: Result<(), ShardexError>| match r {
        Err(ShardexError::InvalidInput { reason, suggestion, .. }) => (reason, suggestion),
        Err(ShardexError::ResourceExhausted { reason, suggestion, .. }) => (reason, suggestion),
        other => panic!("unexpected {:?}", other),
    };
    assert_eq!(
        reason_of(validate_search_input(0, None, 128, 10, None, 1, 100)),
        ("cannot be empty".to_string(), "Provide a query vector with 128 dimensions".to_string())
    );
    assert_eq!(
        reason_of(validate_search_input(3, Some((2, true)), 3, 10, None, 1, 100)).0,
        "contains NaN value at position 2"
    );
    assert_eq!(
        reason_of(validate_search_input(3, Some((0, false)), 3, 10, None, 1, 100)).0,
        "contains infinite value at position 0"
    );
    assert_eq!(
        reason_of(validate_search_input(3, None, 3, 20_000, None, 1, 100)).0,
        "k=20000 is too large and may cause memory issues"
    );
    assert_eq!(
        reason_of(validate_search_input(3, None, 3, 10, Some(0), 1, 100)),
        (
            "value 0 is below minimum allowed value 1".to_string(),
            "Use a slop factor between 1 and 100".to_string()
        )
    );
    assert_eq!(
        reason_of(validate_search_input(3, None, 3, 10, Some(101), 1, 100)).0,
        "value 101 exceeds maximum allowed value 100"
    );
}

#[test]
fn replacement_errors_name_the_posting() {
    let text = "hello world";
    let (reason, _) = posting_data_reason(validate_posting_for_replacement(&posting(0, 0, 1, 3), text, 4, 3));
    assert_eq!(reason, "Posting 4 has nil/zero document ID");
    let (reason, _) = posting_data_reason(validate_posting_for_replacement(&posting(1, 3, 0, 3), text, 12, 3));
    assert_eq!(reason, "Posting 12 has zero length");
    let postings = [posting(9, 0, 5, 3), posting(0, 6, 5, 3)];
    let (reason, _) = posting_data_reason(validate_replacement_inputs(
        DocumentId::from_raw(9),
        text,
        &postings,
        3,
        100,
    ));
    assert_eq!(reason, "Posting 1 has nil/zero document ID");
}

#[test]
fn wal_add_refuses_empty_vector_and_zero_length() {
    assert_eq!(validate_wal_add(3, 10), Ok(()));
    assert_eq!(
        validate_wal_add(0, 10),
        Err(ShardexError::Wal("Cannot add posting with empty vector".to_string()))
    );
    assert_eq!(
        validate_wal_add(3, 0),
        Err(ShardexError::Wal("Cannot add posting with zero length".to_string()))
    );
    assert_eq!(
        validate_wal_add(0, 0),
        Err(ShardexError::Wal("Cannot add posting with empty vector".to_string()))
    );
}
