use shardex::error::ShardexError;
use shardex::identifiers::DocumentId;
use shardex::memory::checksum;
use shardex::posting_storage::{
    PostingStorage, PostingStorageHeader, POSTING_STORAGE_MAGIC, POSTING_STORAGE_VERSION,
};

fn reopen(storage: &PostingStorage) -> PostingStorage {
    PostingStorage::open(storage.memory_mapped_file().as_slice().to_vec()).unwrap()
}

#[test]
fn test_posting_storage_header_creation() {
    let header = PostingStorageHeader::new(1000).unwrap();

    assert_eq!(header.capacity, 1000);
    assert_eq!(header.current_count, 0);
    assert_eq!(header.active_count, 0);
    assert_eq!(header.document_id_size, 16);

    assert!(header.validate().is_ok());
}

#[test]
fn test_posting_storage_header_validation_errors() {
    // Zero capacity should fail
    assert!(PostingStorageHeader::new(0).is_err());

    // Capacity too large should fail
    assert!(PostingStorageHeader::new(u32::MAX as usize + 1).is_err());
}

#[test]
fn test_create_posting_storage() {
    let storage = PostingStorage::create(100).unwrap();

    assert_eq!(storage.capacity(), 100);
    assert_eq!(storage.current_count(), 0);
    assert_eq!(storage.active_count(), 0);
    assert!(!storage.is_read_only());
    assert!(!storage.is_full());
    assert_eq!(storage.remaining_capacity(), 100);
}

#[test]
fn test_add_and_get_postings() {
    let mut storage = PostingStorage::create(10).unwrap();

    let doc_id1 = DocumentId::from_raw(1);
    let doc_id2 = DocumentId::from_raw(2);

    let idx1 = storage.add_posting(doc_id1, 100, 50).unwrap();
    let idx2 = storage.add_posting(doc_id2, 200, 75).unwrap();

    assert_eq!(idx1, 0);
    assert_eq!(idx2, 1);
    assert_eq!(storage.current_count(), 2);
    assert_eq!(storage.active_count(), 2);

    let (retrieved_doc_id1, start1, length1) = storage.get_posting(idx1).unwrap();
    let (retrieved_doc_id2, start2, length2) = storage.get_posting(idx2).unwrap();

    assert_eq!(retrieved_doc_id1, doc_id1);
    assert_eq!(start1, 100);
    assert_eq!(length1, 50);

    assert_eq!(retrieved_doc_id2, doc_id2);
    assert_eq!(start2, 200);
    assert_eq!(length2, 75);
}

#[test]
fn test_capacity_limits() {
    let mut storage = PostingStorage::create(2).unwrap();

    let doc_id = DocumentId::from_raw(7);
    storage.add_posting(doc_id, 100, 50).unwrap();
    storage.add_posting(doc_id, 200, 75).unwrap();

    assert!(storage.is_full());
    assert_eq!(storage.remaining_capacity(), 0);

    let result = storage.add_posting(doc_id, 300, 25);
    assert!(matches!(result, Err(ShardexError::Config(_))));
}

#[test]
fn test_update_posting() {
    let mut storage = PostingStorage::create(10).unwrap();

    let doc_id1 = DocumentId::from_raw(11);
    let doc_id2 = DocumentId::from_raw(12);
    let idx = storage.add_posting(doc_id1, 100, 50).unwrap();

    storage.update_posting(idx, doc_id2, 200, 75).unwrap();

    let (retrieved_doc_id, start, length) = storage.get_posting(idx).unwrap();
    assert_eq!(retrieved_doc_id, doc_id2);
    assert_eq!(start, 200);
    assert_eq!(length, 75);
}

#[test]
fn test_remove_posting() {
    let mut storage = PostingStorage::create(10).unwrap();

    let doc_id1 = DocumentId::from_raw(21);
    let doc_id2 = DocumentId::from_raw(22);
    let idx1 = storage.add_posting(doc_id1, 100, 50).unwrap();
    let idx2 = storage.add_posting(doc_id2, 200, 75).unwrap();

    assert_eq!(storage.active_count(), 2);

    storage.remove_posting(idx1).unwrap();

    assert_eq!(storage.current_count(), 2);
    assert_eq!(storage.active_count(), 1);
    assert!(storage.is_deleted(idx1).unwrap());
    assert!(!storage.is_deleted(idx2).unwrap());

    let (retrieved_doc_id2, start2, length2) = storage.get_posting(idx2).unwrap();
    assert_eq!(retrieved_doc_id2, doc_id2);
    assert_eq!(start2, 200);
    assert_eq!(length2, 75);
}

#[test]
fn test_find_by_document_id() {
    let mut storage = PostingStorage::create(10).unwrap();

    let doc_id1 = DocumentId::from_raw(31);
    let doc_id2 = DocumentId::from_raw(32);

    let idx1 = storage.add_posting(doc_id1, 100, 50).unwrap();
    let idx2 = storage.add_posting(doc_id2, 200, 75).unwrap();
    let idx3 = storage.add_posting(doc_id1, 300, 25).unwrap();

    let indices1 = storage.find_by_document_id(doc_id1).unwrap();
    let indices2 = storage.find_by_document_id(doc_id2).unwrap();

    assert_eq!(indices1, vec![idx1, idx3]);
    assert_eq!(indices2, vec![idx2]);

    storage.remove_posting(idx3).unwrap();
    let indices1_after_removal = storage.find_by_document_id(doc_id1).unwrap();
    assert_eq!(indices1_after_removal, vec![idx1]);
}

#[test]
fn test_iter_active() {
    let mut storage = PostingStorage::create(10).unwrap();

    let doc_id1 = DocumentId::from_raw(41);
    let doc_id2 = DocumentId::from_raw(42);
    let doc_id3 = DocumentId::from_raw(43);

    let idx1 = storage.add_posting(doc_id1, 100, 50).unwrap();
    let idx2 = storage.add_posting(doc_id2, 200, 75).unwrap();
    let idx3 = storage.add_posting(doc_id3, 300, 25).unwrap();

    storage.remove_posting(idx2).unwrap();

    let active_postings = storage.iter_active();

    assert_eq!(active_postings.len(), 2);

    let indices: Vec<usize> = active_postings.iter().map(|(idx, _, _, _)| *idx).collect();
    assert!(indices.contains(&idx1));
    assert!(indices.contains(&idx3));
    assert!(!indices.contains(&idx2));
}

#[test]
fn test_out_of_bounds_access() {
    let storage = PostingStorage::create(10).unwrap();

    let result = storage.get_posting(0);
    assert!(matches!(result, Err(ShardexError::Config(_))));

    let result = storage.get_posting(5);
    assert!(matches!(result, Err(ShardexError::Config(_))));
}

#[test]
fn test_persistence() {
    let postings_to_add = vec![
        (DocumentId::from_raw(51), 100, 50),
        (DocumentId::from_raw(52), 200, 75),
        (DocumentId::from_raw(53), 300, 25),
    ];

    let image = {
        let mut storage = PostingStorage::create(10).unwrap();
        for (doc_id, start, length) in &postings_to_add {
            storage.add_posting(*doc_id, *start, *length).unwrap();
        }
        storage.sync().unwrap();
        storage.memory_mapped_file().as_slice().to_vec()
    };

    {
        let storage = PostingStorage::open(image).unwrap();

        assert_eq!(storage.capacity(), 10);
        assert_eq!(storage.current_count(), 3);
        assert_eq!(storage.active_count(), 3);

        for (i, (expected_doc_id, expected_start, expected_length)) in
            postings_to_add.iter().enumerate()
        {
            let (retrieved_doc_id, start, length) = storage.get_posting(i).unwrap();
            assert_eq!(retrieved_doc_id, *expected_doc_id);
            assert_eq!(start, *expected_start);
            assert_eq!(length, *expected_length);
        }
    }
}

#[test]
fn test_read_only_mode() {
    let image = {
        let mut storage = PostingStorage::create(5).unwrap();
        let doc_id = DocumentId::from_raw(61);
        storage.add_posting(doc_id, 100, 50).unwrap();
        storage.sync().unwrap();
        storage.memory_mapped_file().as_slice().to_vec()
    };

    {
        let mut storage = PostingStorage::open_read_only(image).unwrap();

        assert!(storage.is_read_only());
        assert_eq!(storage.current_count(), 1);

        let (_retrieved_doc_id, start, length) = storage.get_posting(0).unwrap();
        assert_eq!(start, 100);
        assert_eq!(length, 50);

        let new_doc_id = DocumentId::from_raw(62);
        assert!(storage.add_posting(new_doc_id, 200, 75).is_err());
        assert!(storage.update_posting(0, new_doc_id, 200, 75).is_err());
        assert!(storage.remove_posting(0).is_err());
    }
}

#[test]
fn test_header_validation() {
    let mut header = PostingStorageHeader::new(1000).unwrap();

    assert!(header.validate().is_ok());

    header.file_header.magic = *b"XXXX";
    assert!(header.validate().is_err());
    header.file_header.magic = POSTING_STORAGE_MAGIC;

    header.file_header.version = 999;
    assert!(header.validate().is_err());
    header.file_header.version = POSTING_STORAGE_VERSION;

    header.document_id_size = 8;
    assert!(header.validate().is_err());
    header.document_id_size = 16;

    header.current_count = header.capacity + 1;
    assert!(header.validate().is_err());
    header.current_count = 0;

    header.active_count = header.current_count + 1;
    assert!(header.validate().is_err());
    header.active_count = 0;

    assert!(header.validate().is_ok());
}

#[test]
fn test_deleted_flag_operations() {
    let mut storage = PostingStorage::create(100).unwrap();

    let doc_ids: Vec<DocumentId> = (0..10).map(|i| DocumentId::from_raw(100 + i)).collect();
    let mut indices = Vec::new();

    for doc_id in &doc_ids {
        let idx = storage.add_posting(*doc_id, 100, 50).unwrap();
        indices.push(idx);
    }

    for idx in &indices {
        assert!(!storage.is_deleted(*idx).unwrap());
    }

    storage.remove_posting(indices[1]).unwrap();
    storage.remove_posting(indices[5]).unwrap();
    storage.remove_posting(indices[8]).unwrap();

    for (i, idx) in indices.iter().enumerate() {
        let expected_deleted = i == 1 || i == 5 || i == 8;
        assert_eq!(storage.is_deleted(*idx).unwrap(), expected_deleted);
    }

    assert_eq!(storage.active_count(), 7);
}

#[test]
fn test_file_size_calculation() {
    let header = PostingStorageHeader::new(1000).unwrap();
    let expected_size = PostingStorageHeader::SIZE +
                       (1000 * 16) + // document IDs
                       (1000 * 4) + // starts
                       (1000 * 4) + // lengths
                       1000_usize.div_ceil(8); // deleted flags bitset

    assert_eq!(header.calculate_file_size(), expected_size);
}

#[test]
fn test_bit_manipulation() {
    let mut storage = PostingStorage::create(64).unwrap();

    for i in 0..64 {
        let doc_id = DocumentId::from_raw(1000 + i as u128);
        storage.add_posting(doc_id, i as u32 * 100, 50).unwrap();
    }

    let test_indices = [0, 1, 7, 8, 15, 16, 31, 32, 63];

    for &idx in &test_indices {
        storage.remove_posting(idx).unwrap();
        assert!(storage.is_deleted(idx).unwrap());
    }

    for i in 0..64 {
        if !test_indices.contains(&i) {
            assert!(!storage.is_deleted(i).unwrap());
        }
    }
}

#[test]
fn reopen_preserves_deleted_flags_and_counts() {
    let mut storage = PostingStorage::create(20).unwrap();
    for i in 0..12u128 {
        storage.add_posting(DocumentId::from_raw(500 + i), i as u32, 10).unwrap();
    }
    storage.remove_posting(3).unwrap();
    storage.remove_posting(9).unwrap();
    let reopened = reopen(&storage);
    assert_eq!(reopened.capacity(), 20);
    assert_eq!(reopened.current_count(), 12);
    assert_eq!(reopened.active_count(), 10);
    for i in 0..12 {
        assert_eq!(reopened.is_deleted(i).unwrap(), i == 3 || i == 9);
        assert_eq!(reopened.get_posting(i).unwrap(), storage.get_posting(i).unwrap());
    }
}

#[test]
fn open_rejects_corrupted_data() {
    let mut storage = PostingStorage::create(4).unwrap();
    storage.add_posting(DocumentId::from_raw(9), 1, 2).unwrap();
    let mut image = storage.memory_mapped_file().as_slice().to_vec();
    image[80] ^= 0xff;
    assert!(matches!(PostingStorage::open(image), Err(ShardexError::Corruption(_))));
}

#[test]
fn open_rejects_short_and_bad_images() {
    assert!(matches!(PostingStorage::open(vec![0u8; 10]), Err(ShardexError::Corruption(_))));
    let storage = PostingStorage::create(4).unwrap();
    let image = storage.memory_mapped_file().as_slice().to_vec();
    let mut bad_magic = image.clone();
    bad_magic[0] = b'X';
    assert!(matches!(PostingStorage::open(bad_magic), Err(ShardexError::Corruption(_))));
    let truncated = image[..image.len() - 1].to_vec();
    assert!(matches!(PostingStorage::open(truncated), Err(ShardexError::Corruption(_))));
    let mut bad_layout = image.clone();
    bad_layout[32] = 81;
    assert!(matches!(PostingStorage::open(bad_layout), Err(ShardexError::Corruption(_))));
    assert!(PostingStorage::open(image).is_ok());
}

#[test]
fn image_layout_is_little_endian() {
    let mut storage = PostingStorage::create(2).unwrap();
    storage.add_posting(DocumentId::from_raw(0x0102), 0x0a0b0c0d, 7).unwrap();
    let image = storage.memory_mapped_file().as_slice();
    assert_eq!(image.len(), 80 + 2 * 24 + 1);
    assert_eq!(&image[0..4], b"PSTR");
    assert_eq!(image[20], 2); // capacity
    assert_eq!(image[24], 1); // current count
    assert_eq!(image[80], 0x02);
    assert_eq!(image[81], 0x01);
    assert_eq!(&image[80 + 32..80 + 36], &[0x0d, 0x0c, 0x0b, 0x0a]);
    assert_eq!(image[80 + 40], 7);
    assert_eq!(image[80 + 48], 0);
}

#[test]
fn validate_integrity_reports_consistency() {
    let mut storage = PostingStorage::create(8).unwrap();
    storage.add_posting(DocumentId::from_raw(1), 10, 20).unwrap();
    storage.add_posting(DocumentId::from_raw(2), 30, 40).unwrap();
    assert!(storage.validate_integrity().is_ok());

    // Removing an already deleted posting leaves the active count as it is.
    storage.remove_posting(0).unwrap();
    assert_eq!(storage.active_count(), 1);
    storage.remove_posting(0).unwrap();
    assert_eq!(storage.active_count(), 1);
    assert!(storage.is_deleted(0).unwrap());
    assert!(storage.validate_integrity().is_ok());
}

#[test]
fn integrity_holds_under_sane_adds_updates_and_removals() {
    let mut storage = PostingStorage::create(6).unwrap();
    for i in 1..=5u128 {
        storage.add_posting(DocumentId::from_raw(i), (i as u32) * 10, 5).unwrap();
    }
    storage.update_posting(2, DocumentId::from_raw(9), 0, 3).unwrap();
    storage.remove_posting(1).unwrap();
    storage.remove_posting(1).unwrap();
    storage.remove_posting(4).unwrap();
    storage.update_posting(1, DocumentId::from_raw(7), 1, 1).unwrap();
    assert_eq!(storage.active_count(), 3);
    assert!(storage.validate_integrity().is_ok());
    storage.add_posting(DocumentId::from_raw(0), 0, 1).unwrap();
    assert!(matches!(storage.validate_integrity(), Err(ShardexError::Corruption(_))));
}

#[test]
fn validate_integrity_rejects_zero_id_and_overflow() {
    let mut storage = PostingStorage::create(4).unwrap();
    storage.add_posting(DocumentId::from_raw(0), 1, 1).unwrap();
    assert!(matches!(storage.validate_integrity(), Err(ShardexError::Corruption(_))));
    storage.remove_posting(0).unwrap();
    assert!(storage.validate_integrity().is_ok());
    storage.add_posting(DocumentId::from_raw(5), u32::MAX - 1, 2).unwrap();
    assert!(matches!(storage.validate_integrity(), Err(ShardexError::Corruption(_))));
    storage.update_posting(1, DocumentId::from_raw(5), 0, u32::MAX / 2 + 1).unwrap();
    assert!(matches!(storage.validate_integrity(), Err(ShardexError::Corruption(_))));
}

#[test]
fn is_deleted_past_count_is_false() {
    let storage = PostingStorage::create(4).unwrap();
    assert_eq!(storage.is_deleted(3).unwrap(), false);
    assert_eq!(storage.is_deleted(100).unwrap(), false);
}

#[test]
fn update_and_remove_out_of_bounds_are_config_errors() {
    let mut storage = PostingStorage::create(4).unwrap();
    assert!(matches!(
        storage.update_posting(0, DocumentId::from_raw(1), 0, 0),
        Err(ShardexError::Config(_))
    ));
    assert!(matches!(storage.remove_posting(0), Err(ShardexError::Config(_))));
    assert!(matches!(PostingStorage::create(0), Err(ShardexError::Config(_))));
}

#[test]
fn storage_errors_carry_exact_messages() {
    let mut storage = PostingStorage::create(2).unwrap();
    storage.add_posting(DocumentId::from_raw(1), 0, 10).unwrap();
    storage.add_posting(DocumentId::from_raw(2), 10, 10).unwrap();
    assert_eq!(
        storage.add_posting(DocumentId::from_raw(3), 20, 10),
        Err(ShardexError::Config("Posting storage is at capacity".to_string()))
    );
    assert_eq!(
        storage.get_posting(7),
        Err(ShardexError::Config("Index 7 out of bounds (current count: 2)".to_string()))
    );
    assert_eq!(
        storage.update_posting(2, DocumentId::from_raw(3), 0, 1),
        Err(ShardexError::Config("Index 2 out of bounds (current count: 2)".to_string()))
    );
    assert_eq!(
        storage.remove_posting(5),
        Err(ShardexError::Config("Index 5 out of bounds (current count: 2)".to_string()))
    );

    let mut read_only = PostingStorage::open_read_only(storage.memory_mapped_file().as_slice().to_vec()).unwrap();
    assert_eq!(
        read_only.add_posting(DocumentId::from_raw(3), 20, 10),
        Err(ShardexError::Config("Cannot add posting to read-only storage".to_string()))
    );
    assert_eq!(
        read_only.update_posting(0, DocumentId::from_raw(3), 20, 10),
        Err(ShardexError::Config("Cannot update posting in read-only storage".to_string()))
    );
    assert_eq!(
        read_only.remove_posting(0),
        Err(ShardexError::Config("Cannot remove posting from read-only storage".to_string()))
    );
}

#[test]
fn header_errors_carry_exact_messages() {
    assert_eq!(
        PostingStorageHeader::new(0),
        Err(ShardexError::Config("Capacity cannot be zero".to_string()))
    );
    assert_eq!(
        PostingStorageHeader::new(u32::MAX as usize + 1),
        Err(ShardexError::Config("Capacity 4294967296 exceeds maximum 4294967295".to_string()))
    );

    let mut header = PostingStorageHeader::new(1000).unwrap();
    header.file_header.version = 999;
    assert_eq!(
        header.validate(),
        Err(ShardexError::Corruption(
            "Unsupported posting storage version: expected 1, found 999".to_string()
        ))
    );

    let mut header = PostingStorageHeader::new(1000).unwrap();
    header.document_id_size = 8;
    assert_eq!(
        header.validate(),
        Err(ShardexError::Corruption("Invalid document ID size: expected 16 bytes, found 8".to_string()))
    );

    let mut header = PostingStorageHeader::new(10).unwrap();
    header.current_count = 11;
    assert_eq!(
        header.validate(),
        Err(ShardexError::Corruption("Current count 11 exceeds capacity 10".to_string()))
    );

    let mut header = PostingStorageHeader::new(10).unwrap();
    header.current_count = 3;
    header.active_count = 4;
    assert_eq!(
        header.validate(),
        Err(ShardexError::Corruption("Active count 4 exceeds current count 3".to_string()))
    );

    let mut header = PostingStorageHeader::new(10).unwrap();
    header.file_header.magic = *b"XXXX";
    assert_eq!(
        header.validate(),
        Err(ShardexError::Corruption("Invalid magic bytes in file header".to_string()))
    );
}

#[test]
fn integrity_errors_name_what_is_wrong() {
    let mut storage = PostingStorage::create(4).unwrap();
    storage.add_posting(DocumentId::from_raw(0), 0, 10).unwrap();
    assert_eq!(
        storage.validate_integrity(),
        Err(ShardexError::Corruption("Active posting 0 has invalid zero document ID".to_string()))
    );
    storage.remove_posting(0).unwrap();
    assert!(storage.validate_integrity().is_ok());

    storage.add_posting(DocumentId::from_raw(5), 1, 2).unwrap();
    storage.add_posting(DocumentId::from_raw(6), 3, 4).unwrap();
    // The stored active count lives in the header, outside the checksummed data.
    let mut image = storage.memory_mapped_file().as_slice().to_vec();
    image[28..32].copy_from_slice(&3u32.to_le_bytes());
    let tampered = PostingStorage::open(image).unwrap();
    assert_eq!(
        tampered.validate_integrity(),
        Err(ShardexError::Corruption(
            "Active count mismatch: header claims 3, actual count is 2".to_string()
        ))
    );
}

#[test]
fn open_errors_name_what_is_wrong() {
    assert_eq!(
        PostingStorage::open(vec![0u8; 10]).err(),
        Some(ShardexError::Corruption("File too small for posting storage header".to_string()))
    );
    let storage = PostingStorage::create(4).unwrap();
    let image = storage.memory_mapped_file().as_slice().to_vec();

    let mut bad_magic = image.clone();
    bad_magic[0] = b'X';
    assert_eq!(
        PostingStorage::open(bad_magic).err(),
        Some(ShardexError::Corruption("Invalid magic bytes in file header".to_string()))
    );

    let truncated = image[..image.len() - 1].to_vec();
    assert_eq!(
        PostingStorage::open(truncated).err(),
        Some(ShardexError::Corruption("File too small for declared posting capacity".to_string()))
    );

    let mut bad_data = image.clone();
    bad_data[90] ^= 1;
    assert_eq!(
        PostingStorage::open_read_only(bad_data).err(),
        Some(ShardexError::Corruption("Checksum mismatch".to_string()))
    );

    let mut bad_layout = image.clone();
    bad_layout[40] ^= 1;
    assert_eq!(
        PostingStorage::open(bad_layout).err(),
        Some(ShardexError::Corruption("Posting storage arrays overlap or lie outside the file".to_string()))
    );
}

#[test]
fn open_reads_arrays_where_the_header_places_them() {
    let mut storage = PostingStorage::create(4).unwrap();
    storage.add_posting(DocumentId::from_raw(7), 11, 22).unwrap();
    let image = storage.memory_mapped_file().as_slice().to_vec();
    // Swap the starts array (bytes 144..160) with the lengths array (160..176)
    // and name the new places in the header.
    let mut moved = image.clone();
    moved[144..160].copy_from_slice(&image[160..176]);
    moved[160..176].copy_from_slice(&image[144..160]);
    moved[40..48].copy_from_slice(&160u64.to_le_bytes());
    moved[48..56].copy_from_slice(&144u64.to_le_bytes());
    let sum = checksum(&moved[80..177]);
    moved[16..20].copy_from_slice(&sum.to_le_bytes());

    let reopened = PostingStorage::open(moved).unwrap();
    assert_eq!(reopened.get_posting(0).unwrap(), (DocumentId::from_raw(7), 11, 22));
    assert!(reopened.validate_integrity().is_ok());
}

#[test]
fn sync_leaves_the_image_as_it_was() {
    let mut storage = PostingStorage::create(8).unwrap();
    storage.add_posting(DocumentId::from_raw(3), 1, 2).unwrap();
    storage.remove_posting(0).unwrap();
    let before = storage.memory_mapped_file().as_slice().to_vec();
    assert!(storage.sync().is_ok());
    assert_eq!(storage.memory_mapped_file().as_slice(), &before[..]);
    assert_eq!(storage.current_count(), 1);
    assert!(storage.is_deleted(0).unwrap());
}
