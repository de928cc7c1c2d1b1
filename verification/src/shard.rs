//! Shard bookkeeping: the metadata that tracks a shard's counts, disk usage
//! and age, and the checks that a shard's vector and posting storages agree.

use vstd::prelude::*;

use std::time::{Duration, SystemTime};

use crate::error::{owned, ErrorModel, ShardexError};
use crate::posting_storage::{PostingStorage, PostingStorageView};
use crate::text::{decimal, with_number, with_text};
use crate::time_span::zero_duration;

verus! {

#[verifier::external_type_specification]
#[verifier::external_body]
pub struct ExSystemTime(SystemTime);

/// Reads the system clock through `SystemTime::now`.
///
/// The clock's value is not a function of anything the library holds, so
/// nothing is stated of it.
#[verifier::external_body]
fn current_time() -> (t: SystemTime) {
    SystemTime::now()
}

/// Time elapsed since `t`, through `SystemTime::elapsed`; `None` where the
/// clock now reads earlier than `t` (the `Err` case).
///
/// The result depends on the clock, so nothing is stated of it.
#[verifier::external_body]
fn elapsed_since(t: &SystemTime) -> (d: Option<Duration>) {
    t.elapsed().ok()
}

/// The counts of a shard's vector storage that its metadata is derived from.
pub struct VectorStorageCounts {
    /// Vectors stored, deleted ones included
    pub current_count: usize,
    /// Vectors not deleted
    pub active_count: usize,
    /// Maximum number of vectors
    pub capacity: usize,
    /// Number of `f32` components per vector
    pub vector_dimension: usize,
}

/// Bytes of one `f32` vector component.
pub const F32_SIZE: usize = 4;

/// Bytes that one posting slot takes in the estimate of disk usage: a
/// 16-byte document id, a 4-byte start, a 4-byte length and a flag byte.
pub const POSTING_SLOT_ESTIMATE: usize = 25;

/// Estimated disk usage of a shard: the vector file holds `capacity *
/// dimension` components, and each posting slot is counted at
/// `POSTING_SLOT_ESTIMATE` bytes.
pub open spec fn estimated_disk_usage(vector_capacity: int, vector_dimension: int, posting_capacity: int) -> int {
    F32_SIZE * vector_capacity * vector_dimension + posting_capacity * POSTING_SLOT_ESTIMATE
}

/// Metadata for shard tracking and monitoring
pub struct ShardMetadata {
    /// When this shard was created
    pub created_at: SystemTime,
    /// Current total number of postings (including deleted)
    pub current_count: usize,
    /// Number of active (non-deleted) postings
    pub active_count: usize,
    /// Total disk space used by this shard in bytes
    pub disk_usage: usize,
    /// Whether the shard is read-only
    pub read_only: bool,
}

impl ShardMetadata {
    /// Create new shard metadata stamped with the current time, with zero
    /// counts and zero disk usage, for a shard that holds up to `capacity`
    /// postings (the new metadata does not depend on it).
    pub fn new(read_only: bool, capacity: usize) -> (r: Result<ShardMetadata, crate::error::ShardexError>)
        ensures
            r matches Ok(m) && m.current_count == 0 && m.active_count == 0 && m.disk_usage == 0
                && m.read_only == read_only,
    {
        Ok(ShardMetadata {
            created_at: current_time(),
            current_count: 0,
            active_count: 0,
            disk_usage: 0,
            read_only,
        })
    }

    /// Update metadata from storage components
    ///
    /// The total count is the larger of the two storages' counts, the active
    /// count the smaller of their active counts, and the disk usage the
    /// estimate of `estimated_disk_usage`.
    pub fn update_from_storages(&mut self, vector_storage: &VectorStorageCounts, posting_storage: &PostingStorage)
        requires
            posting_storage.wf(),
            estimated_disk_usage(
                vector_storage.capacity as int,
                vector_storage.vector_dimension as int,
                posting_storage@.capacity as int,
            ) <= usize::MAX,
        ensures
            final(self).current_count == (if vector_storage.current_count >= posting_storage@.current_count() {
                vector_storage.current_count as int
            } else {
                posting_storage@.current_count() as int
            }),
            final(self).active_count == (if vector_storage.active_count <= posting_storage@.active_count {
                vector_storage.active_count as int
            } else {
                posting_storage@.active_count as int
            }),
            final(self).disk_usage == estimated_disk_usage(
                vector_storage.capacity as int,
                vector_storage.vector_dimension as int,
                posting_storage@.capacity as int,
            ),
            final(self).created_at == old(self).created_at,
            final(self).read_only == old(self).read_only,
    {
        let posting_count = posting_storage.current_count();
        self.current_count = if vector_storage.current_count >= posting_count {
            vector_storage.current_count
        } else {
            posting_count
        };
        let posting_active = posting_storage.active_count();
        self.active_count = if vector_storage.active_count <= posting_active {
            vector_storage.active_count
        } else {
            posting_active
        };
        let cap = vector_storage.capacity;
        let dim = vector_storage.vector_dimension;
        let posting_capacity = posting_storage.capacity();
        assert(F32_SIZE * cap * dim <= usize::MAX && posting_capacity * POSTING_SLOT_ESTIMATE <= usize::MAX)
            by (nonlinear_arith)
            requires
                F32_SIZE * cap * dim + posting_capacity * POSTING_SLOT_ESTIMATE <= usize::MAX,
                posting_capacity >= 0,
                cap >= 0,
                dim >= 0,
        ;
        let vector_file_size: usize = if dim == 0 {
            assert(F32_SIZE * cap * dim == 0) by (nonlinear_arith)
                requires
                    dim == 0,
            ;
            0
        } else {
            assert(F32_SIZE * cap <= F32_SIZE * cap * dim) by (nonlinear_arith)
                requires
                    dim >= 1,
                    cap >= 0,
            ;
            F32_SIZE * cap * dim
        };
        let posting_file_size: usize = posting_capacity * POSTING_SLOT_ESTIMATE;
        self.disk_usage = vector_file_size + posting_file_size;
    }

    /// Get age of this shard since creation: the time elapsed on the system
    /// clock, or zero where the clock reads earlier than the creation time.
    pub fn age(&self) -> (d: Duration) {
        match elapsed_since(&self.created_at) {
            Some(d) => d,
            None => zero_duration(),
        }
    }
}

/// `"true"` or `"false"`, as `{}` formats a `bool`.
pub open spec fn bool_text(b: bool) -> Seq<char> {
    if b {
        "true"@
    } else {
        "false"@
    }
}

/// The first index below `n` where the vector storage's deleted flag differs
/// from the posting storage's.
pub open spec fn first_deletion_mismatch(vector_deleted: Seq<bool>, p: PostingStorageView, n: int) -> Option<int>
    decreases n,
{
    if n <= 0 {
        None
    } else {
        match first_deletion_mismatch(vector_deleted, p, n - 1) {
            Some(i) => Some(i),
            None => if vector_deleted[n - 1] != p.deleted[n - 1] {
                Some(n - 1)
            } else {
                None
            },
        }
    }
}

/// Why [`validate_shard_consistency`] rejects a shard, if it does; the checks
/// go in this order: the posting storage's own integrity, the two stored
/// counts, the two active counts, then the deleted flag of each posting.
pub open spec fn shard_consistency_failure(
    v: VectorStorageCounts,
    vector_deleted: Seq<bool>,
    p: PostingStorageView,
) -> Option<ErrorModel> {
    match p.integrity_failure() {
        Some(m) => Some(ErrorModel::Shard("Posting storage integrity failed: "@ + m)),
        None => if v.current_count != p.current_count() {
            Some(ErrorModel::Corruption(
                "Count mismatch: vector storage has "@ + decimal(v.current_count as nat)
                    + ", posting storage has "@ + decimal(p.current_count()),
            ))
        } else if v.active_count != p.active_count {
            Some(ErrorModel::Corruption(
                "Active count mismatch: vector storage has "@ + decimal(v.active_count as nat)
                    + ", posting storage has "@ + decimal(p.active_count),
            ))
        } else {
            match first_deletion_mismatch(vector_deleted, p, v.current_count as int) {
                Some(i) => Some(ErrorModel::Corruption(
                    "Deletion state mismatch at index "@ + decimal(i as nat) + ": vector="@ + bool_text(
                        vector_deleted[i],
                    ) + ", posting="@ + bool_text(p.deleted[i]),
                )),
                None => None,
            }
        },
    }
}

/// `prefix` followed by `"true"` or `"false"`.
fn with_bool(prefix: String, b: bool) -> (s: String)
    ensures
        s@ == prefix@ + bool_text(b),
{
    if b {
        with_text(prefix, "true")
    } else {
        with_text(prefix, "false")
    }
}

/// Check that a shard's vector storage and posting storage agree: the posting
/// storage passes its integrity check, both hold the same number of entries
/// and of active entries, and each entry is deleted in both or in neither.
/// `vector_deleted` holds the vector storage's deleted flag of each stored
/// vector.
pub fn validate_shard_consistency(
    vector_storage: &VectorStorageCounts,
    vector_deleted: &[bool],
    posting_storage: &PostingStorage,
) -> (r: Result<(), ShardexError>)
    requires
        posting_storage.wf(),
        vector_deleted@.len() == vector_storage.current_count,
    ensures
        r is Ok <==> shard_consistency_failure(*vector_storage, vector_deleted@, posting_storage@) is None,
        r matches Err(e) ==> Some(e.model()) == shard_consistency_failure(
            *vector_storage,
            vector_deleted@,
            posting_storage@,
        ),
{
    let integrity = posting_storage.validate_integrity();
    if let Err(e) = integrity {
        return Err(ShardexError::Shard(with_text(owned("Posting storage integrity failed: "), e.message().as_str())));
    }
    let vector_count = vector_storage.current_count;
    let posting_count = posting_storage.current_count();
    if vector_count != posting_count {
        let message = with_number(owned("Count mismatch: vector storage has "), vector_count as u128);
        let message = with_text(message, ", posting storage has ");
        return Err(ShardexError::Corruption(with_number(message, posting_count as u128)));
    }
    let vector_active = vector_storage.active_count;
    let posting_active = posting_storage.active_count();
    if vector_active != posting_active {
        let message = with_number(owned("Active count mismatch: vector storage has "), vector_active as u128);
        let message = with_text(message, ", posting storage has ");
        return Err(ShardexError::Corruption(with_number(message, posting_active as u128)));
    }
    let ghost pv = posting_storage@;
    proof {
        posting_storage.lemma_counts_ordered();
    }
    let mut i: usize = 0;
    while i < vector_count
        invariant
            posting_storage.wf(),
            pv == posting_storage@,
            vector_count == vector_storage.current_count,
            vector_count == pv.current_count(),
            vector_deleted@.len() == vector_count,
            i <= vector_count,
            first_deletion_mismatch(vector_deleted@, pv, i as int) is None,
            pv.integrity_failure() is None,
            vector_storage.active_count == pv.active_count,
            pv.deleted.len() == pv.postings.len(),
        decreases vector_count - i,
    {
        let vector_del = vector_deleted[i];
        let posting_del = match posting_storage.is_deleted(i) {
            Ok(d) => d,
            Err(_) => false,
        };
        if vector_del != posting_del {
            proof {
                assert(posting_del == pv.deleted[i as int]);
                assert(first_deletion_mismatch(vector_deleted@, pv, i as int + 1) == Some(i as int));
                lemma_first_mismatch_extends(vector_deleted@, pv, i as int + 1, vector_count as int);
            }
            let message = with_number(owned("Deletion state mismatch at index "), i as u128);
            let message = with_text(message, ": vector=");
            let message = with_bool(message, vector_del);
            let message = with_text(message, ", posting=");
            return Err(ShardexError::Corruption(with_bool(message, posting_del)));
        }
        i = i + 1;
    }
    Ok(())
}

/// Once a mismatch is found below `n`, it stays the first one below `total`.
proof fn lemma_first_mismatch_extends(vector_deleted: Seq<bool>, p: PostingStorageView, n: int, total: int)
    requires
        0 <= n <= total,
    ensures
        first_deletion_mismatch(vector_deleted, p, n) is Some ==> first_deletion_mismatch(vector_deleted, p, total)
            == first_deletion_mismatch(vector_deleted, p, n),
    decreases total - n,
{
    if n < total {
        lemma_first_mismatch_extends(vector_deleted, p, n + 1, total);
    }
}

} // verus!
