//! Input validation for index operations: batches of postings to add, document
//! ids to remove, search parameters and document replacements; and the sizing
//! of write batches.
//!
//! The validators read plain values; a posting is described by a [`PostingInput`]
//! that records, besides its ids and range, the length of its vector and the
//! first non-finite component of that vector, if any. Each validator's contract
//! gives the exact error, text included, that it returns for every input.

use vstd::prelude::*;

use crate::error::{message_text, owned, ErrorModel, ShardexError};
use crate::identifiers::DocumentId;
use crate::text::{decimal, with_number, with_text};
use std::collections::HashSet;
use vstd::string::StringSliceAdditionalSpecFns;

verus! {

broadcast use vstd::std_specs::hash::group_hash_axioms;

/// Largest batch of postings accepted by one add.
pub const MAX_ADD_BATCH: usize = 100_000;

/// Largest batch of document ids accepted by one removal.
pub const MAX_REMOVE_BATCH: usize = 50_000;

/// Largest number of results a search may ask for.
pub const MAX_SEARCH_RESULTS: usize = 10_000;

/// What validation reads of one posting.
#[derive(Debug, Clone, Copy)]
pub struct PostingInput {
    /// Document the posting belongs to
    pub document_id: DocumentId,
    /// Starting byte position within the document
    pub start: u32,
    /// Length of the text segment in bytes
    pub length: u32,
    /// Number of components of the posting's vector
    pub vector_len: usize,
    /// Position of the first NaN or infinite vector component, and whether it is NaN
    pub first_non_finite: Option<(usize, bool)>,
}

// ----- single postings -----

/// Why [`validate_posting`] rejects a posting, if it does.
pub open spec fn posting_failure(p: PostingInput) -> Option<ErrorModel> {
    if p.document_id.value() == 0 {
        Some(ErrorModel::InvalidPostingData {
            reason: "Posting document ID cannot be nil/zero"@,
            suggestion: "Ensure posting has a valid document ID"@,
        })
    } else if p.length == 0 {
        Some(ErrorModel::InvalidPostingData {
            reason: "Posting length cannot be zero"@,
            suggestion: "Provide a posting with positive length"@,
        })
    } else if p.start + p.length > u32::MAX {
        Some(ErrorModel::InvalidPostingData {
            reason: "Posting coordinates overflow u32 range"@,
            suggestion: "Use smaller start + length values"@,
        })
    } else {
        None
    }
}

/// Validate a posting: a non-zero document id, a positive length, and a range within `u32`.
pub fn validate_posting(posting: &PostingInput) -> (r: Result<(), ShardexError>)
    ensures
        r is Ok <==> posting_failure(*posting) is None,
        r matches Err(e) ==> Some(e.model()) == posting_failure(*posting),
        r is Ok <==> (posting.document_id.value() != 0 && posting.length != 0 && posting.start + posting.length
            <= u32::MAX),
{
    if posting.document_id.raw() == 0 {
        return Err(ShardexError::InvalidPostingData {
            reason: owned("Posting document ID cannot be nil/zero"),
            suggestion: owned("Ensure posting has a valid document ID"),
        });
    }
    if posting.length == 0 {
        return Err(ShardexError::InvalidPostingData {
            reason: owned("Posting length cannot be zero"),
            suggestion: owned("Provide a posting with positive length"),
        });
    }
    let end_offset = posting.start as u64 + posting.length as u64;
    if end_offset > 4294967295u64 {
        return Err(ShardexError::InvalidPostingData {
            reason: owned("Posting coordinates overflow u32 range"),
            suggestion: owned("Use smaller start + length values"),
        });
    }
    Ok(())
}

// ----- postings replayed from the write-ahead log -----

/// Why a logged add-posting operation is refused when it is applied to the
/// shards, if it is.
pub open spec fn wal_add_failure(vector_len: usize, length: u32) -> Option<ErrorModel> {
    if vector_len == 0 {
        Some(ErrorModel::Wal("Cannot add posting with empty vector"@))
    } else if length == 0 {
        Some(ErrorModel::Wal("Cannot add posting with zero length"@))
    } else {
        None
    }
}

/// Validate a logged add-posting operation before it is applied to the
/// shards: its vector is not empty and its length is positive.
pub fn validate_wal_add(vector_len: usize, length: u32) -> (r: Result<(), ShardexError>)
    ensures
        r is Ok <==> wal_add_failure(vector_len, length) is None,
        r matches Err(e) ==> Some(e.model()) == wal_add_failure(vector_len, length),
        r is Ok <==> (vector_len != 0 && length != 0),
        r is Err ==> r->Err_0 is Wal,
{
    if vector_len == 0 {
        return Err(ShardexError::Wal(owned("Cannot add posting with empty vector")));
    }
    if length == 0 {
        return Err(ShardexError::Wal(owned("Cannot add posting with zero length")));
    }
    Ok(())
}

// ----- batches of postings to add -----

/// A posting in a batch to add is acceptable for an index of the given vector size.
pub open spec fn add_posting_acceptable(p: PostingInput, vector_size: usize) -> bool {
    &&& p.vector_len == vector_size
    &&& p.first_non_finite is None
    &&& p.length != 0
    &&& p.start + p.length <= u32::MAX / 2
}

/// `"posting at index {i}"`, the start of the reasons for a rejected posting of a batch.
pub open spec fn posting_at(i: nat) -> Seq<char> {
    "posting at index "@ + decimal(i)
}

/// `" (start: {start}, length: {length})"`.
pub open spec fn start_and_length(start: nat, length: nat) -> Seq<char> {
    " (start: "@ + decimal(start) + ", length: "@ + decimal(length) + ")"@
}

/// Why the posting at index `i` of a batch to add is rejected, if it is; the
/// checks go in this order.
pub open spec fn add_posting_failure(p: PostingInput, i: nat, vector_size: usize) -> Option<ErrorModel> {
    if p.vector_len != vector_size {
        Some(ErrorModel::InvalidPostingData {
            reason: posting_at(i) + " has wrong vector dimension: "@ + message_text(
                ErrorModel::InvalidDimension { expected: vector_size as nat, actual: p.vector_len as nat },
            ),
            suggestion: "Ensure all vectors have "@ + decimal(vector_size as nat)
                + " dimensions as configured for this index"@,
        })
    } else {
        match p.first_non_finite {
            Some((j, true)) => Some(ErrorModel::InvalidPostingData {
                reason: posting_at(i) + " contains NaN at vector position "@ + decimal(j as nat),
                suggestion: "Remove NaN values from your vector data. Check your embedding generation process."@,
            }),
            Some((j, false)) => Some(ErrorModel::InvalidPostingData {
                reason: posting_at(i) + " contains infinite value at vector position "@ + decimal(j as nat),
                suggestion: "Remove infinite values from your vector data. Check for overflow in your calculations."@,
            }),
            None => if p.length == 0 {
                Some(ErrorModel::InvalidPostingData {
                    reason: posting_at(i) + " has zero length"@,
                    suggestion: "Ensure all postings have a positive length value representing text span"@,
                })
            } else if p.start + p.length > u32::MAX {
                Some(ErrorModel::InvalidPostingData {
                    reason: posting_at(i) + " has start+length that overflows u32"@ + start_and_length(
                        p.start as nat,
                        p.length as nat,
                    ),
                    suggestion: "Reduce start position or length to avoid arithmetic overflow"@,
                })
            } else if p.start + p.length > u32::MAX / 2 {
                Some(ErrorModel::InvalidPostingData {
                    reason: posting_at(i) + " has text position that may cause overflow"@ + start_and_length(
                        p.start as nat,
                        p.length as nat,
                    ),
                    suggestion: "Use smaller position values or split large documents"@,
                })
            } else {
                None
            },
        }
    }
}

/// The failure of the first rejected posting among the first `n` of a batch to add.
pub open spec fn first_add_posting_failure(postings: Seq<PostingInput>, vector_size: usize, n: int) -> Option<
    ErrorModel,
>
    decreases n,
{
    if n <= 0 {
        None
    } else {
        match first_add_posting_failure(postings, vector_size, n - 1) {
            Some(e) => Some(e),
            None => add_posting_failure(postings[n - 1], (n - 1) as nat, vector_size),
        }
    }
}

/// Why [`validate_add_postings_input`] rejects a batch, if it does.
pub open spec fn add_postings_failure(postings: Seq<PostingInput>, vector_size: usize) -> Option<ErrorModel> {
    if postings.len() > MAX_ADD_BATCH {
        Some(ErrorModel::ResourceExhausted {
            resource: "batch_size"@,
            reason: "batch contains "@ + decimal(postings.len()) + " postings, which exceeds reasonable limits"@,
            suggestion: "Split large batches into smaller chunks (recommended: 1000-10000 postings per batch)"@,
        })
    } else {
        first_add_posting_failure(postings, vector_size, postings.len() as int)
    }
}

/// The checks on one posting of a batch to add, at index `i`.
fn check_add_posting(posting: &PostingInput, i: usize, vector_size: usize) -> (r: Result<(), ShardexError>)
    ensures
        r is Ok <==> add_posting_failure(*posting, i as nat, vector_size) is None,
        r matches Err(e) ==> Some(e.model()) == add_posting_failure(*posting, i as nat, vector_size),
{
    let at = with_number(owned("posting at index "), i as u128);
    if posting.vector_len != vector_size {
        let dimension = ShardexError::InvalidDimension { expected: vector_size, actual: posting.vector_len };
        let reason = with_text(at, " has wrong vector dimension: ");
        let reason = with_text(reason, dimension.message().as_str());
        let suggestion = with_number(owned("Ensure all vectors have "), vector_size as u128);
        let suggestion = with_text(suggestion, " dimensions as configured for this index");
        return Err(ShardexError::InvalidPostingData { reason, suggestion });
    }
    match posting.first_non_finite {
        Some((j, true)) => {
            let reason = with_text(at, " contains NaN at vector position ");
            return Err(ShardexError::InvalidPostingData {
                reason: with_number(reason, j as u128),
                suggestion: owned("Remove NaN values from your vector data. Check your embedding generation process."),
            });
        },
        Some((j, false)) => {
            let reason = with_text(at, " contains infinite value at vector position ");
            return Err(ShardexError::InvalidPostingData {
                reason: with_number(reason, j as u128),
                suggestion: owned("Remove infinite values from your vector data. Check for overflow in your calculations."),
            });
        },
        None => {},
    }
    if posting.length == 0 {
        return Err(ShardexError::InvalidPostingData {
            reason: with_text(at, " has zero length"),
            suggestion: owned("Ensure all postings have a positive length value representing text span"),
        });
    }
    match posting.start.checked_add(posting.length) {
        Some(end_pos) => {
            if end_pos > 4294967295u32 / 2 {
                let reason = with_text(at, " has text position that may cause overflow");
                return Err(ShardexError::InvalidPostingData {
                    reason: start_and_length_text(reason, posting.start, posting.length),
                    suggestion: owned("Use smaller position values or split large documents"),
                });
            }
        },
        None => {
            let reason = with_text(at, " has start+length that overflows u32");
            return Err(ShardexError::InvalidPostingData {
                reason: start_and_length_text(reason, posting.start, posting.length),
                suggestion: owned("Reduce start position or length to avoid arithmetic overflow"),
            });
        },
    }
    Ok(())
}

/// `prefix` followed by `" (start: {start}, length: {length})"`.
fn start_and_length_text(prefix: String, start: u32, length: u32) -> (s: String)
    ensures
        s@ == prefix@ + start_and_length(start as nat, length as nat),
{
    let s = with_text(prefix, " (start: ");
    let s = with_number(s, start as u128);
    let s = with_text(s, ", length: ");
    let s = with_number(s, length as u128);
    let s = with_text(s, ")");
    assert(s@ =~= prefix@ + start_and_length(start as nat, length as nat));
    s
}

/// Validate a batch of postings to add: at most [`MAX_ADD_BATCH`] postings, each with
/// the index's vector size, finite vector components, a positive length, and a
/// range ending at most at `u32::MAX / 2`; the error names the first posting that
/// fails, and why.
pub fn validate_add_postings_input(postings: &[PostingInput], vector_size: usize) -> (r: Result<(), ShardexError>)
    ensures
        r is Ok <==> add_postings_failure(postings@, vector_size) is None,
        r is Ok <==> (postings@.len() <= MAX_ADD_BATCH && forall|i: int|
            0 <= i < postings@.len() ==> add_posting_acceptable(#[trigger] postings@[i], vector_size)),
        r matches Err(e) ==> Some(e.model()) == add_postings_failure(postings@, vector_size),
        r is Ok ==> forall|i: int| #![trigger postings@[i]]
            0 <= i < postings@.len() ==> {
                &&& postings@[i].vector_len == vector_size
                &&& postings@[i].first_non_finite is None
                &&& postings@[i].length != 0
                &&& postings@[i].start + postings@[i].length <= u32::MAX / 2
            },
        postings@.len() > MAX_ADD_BATCH ==> r matches Err(ShardexError::ResourceExhausted { .. }),
        r matches Err(e) ==> (e is ResourceExhausted || e is InvalidPostingData),
{
    proof {
        lemma_first_add_failure_none(postings@, vector_size, postings@.len() as int);
    }
    if postings.len() > MAX_ADD_BATCH {
        let reason = with_number(owned("batch contains "), postings.len() as u128);
        return Err(ShardexError::ResourceExhausted {
            resource: owned("batch_size"),
            reason: with_text(reason, " postings, which exceeds reasonable limits"),
            suggestion: owned("Split large batches into smaller chunks (recommended: 1000-10000 postings per batch)"),
        });
    }
    let mut i: usize = 0;
    while i < postings.len()
        invariant
            i <= postings@.len(),
            postings@.len() <= MAX_ADD_BATCH,
            first_add_posting_failure(postings@, vector_size, i as int) is None,
        decreases postings@.len() - i,
    {
        let v = check_add_posting(&postings[i], i, vector_size);
        if v.is_err() {
            proof {
                lemma_first_add_failure_extends(postings@, vector_size, i as int + 1);
            }
            return v;
        }
        i = i + 1;
    }
    Ok(())
}

/// Once a failure is found among the first `n` postings to add, it stays the first failure.
proof fn lemma_first_add_failure_extends(postings: Seq<PostingInput>, vector_size: usize, n: int)
    requires
        0 <= n <= postings.len(),
    ensures
        first_add_posting_failure(postings, vector_size, n) is Some
            ==> first_add_posting_failure(postings, vector_size, postings.len() as int)
            == first_add_posting_failure(postings, vector_size, n),
    decreases postings.len() - n,
{
    if n < postings.len() {
        lemma_first_add_failure_extends(postings, vector_size, n + 1);
    }
}

/// No posting among the first `n` fails exactly when all of them are acceptable.
proof fn lemma_first_add_failure_none(postings: Seq<PostingInput>, vector_size: usize, n: int)
    requires
        0 <= n <= postings.len(),
    ensures
        first_add_posting_failure(postings, vector_size, n) is None <==> forall|i: int|
            0 <= i < n ==> add_posting_acceptable(#[trigger] postings[i], vector_size),
    decreases n,
{
    if n > 0 {
        lemma_first_add_failure_none(postings, vector_size, n - 1);
        if first_add_posting_failure(postings, vector_size, n) is None {
            assert forall|i: int| 0 <= i < n implies add_posting_acceptable(#[trigger] postings[i], vector_size) by {
                if i == n - 1 {
                    assert(add_posting_failure(postings[i], i as nat, vector_size) is None);
                }
            }
        }
    }
}

// ----- batches of document ids to remove -----

/// The first index of `ids`, among the first `n`, whose id already occurs before it.
pub open spec fn first_repeat(ids: Seq<u128>, n: int) -> Option<int>
    decreases n,
{
    if n <= 0 {
        None
    } else {
        match first_repeat(ids, n - 1) {
            Some(k) => Some(k),
            None => if ids.take(n - 1).contains(ids[n - 1]) {
                Some(n - 1)
            } else {
                None
            },
        }
    }
}

/// Why [`validate_remove_documents_input`] rejects a batch, if it does.
pub open spec fn remove_documents_failure(ids: Seq<u128>) -> Option<ErrorModel> {
    if ids.len() > MAX_REMOVE_BATCH {
        Some(ErrorModel::ResourceExhausted {
            resource: "batch_size"@,
            reason: "batch contains "@ + decimal(ids.len()) + " document IDs, which exceeds reasonable limits"@,
            suggestion: "Split large removal batches into smaller chunks (recommended: 1000-5000 IDs per batch)"@,
        })
    } else {
        match first_repeat(ids, ids.len() as int) {
            Some(i) => Some(ErrorModel::InvalidInput {
                field: "document_ids"@,
                reason: "duplicate document ID "@ + decimal(ids[i] as nat) + " at index "@ + decimal(i as nat),
                suggestion: "Remove duplicate document IDs from your batch"@,
            }),
            None => None,
        }
    }
}

/// Validate a batch of document ids to remove: at most [`MAX_REMOVE_BATCH`] ids, no
/// id twice; the error names the first repeated id and where it repeats.
pub fn validate_remove_documents_input(document_ids: &[u128]) -> (r: Result<(), ShardexError>)
    ensures
        r is Ok <==> remove_documents_failure(document_ids@) is None,
        r is Ok <==> (document_ids@.len() <= MAX_REMOVE_BATCH && document_ids@.no_duplicates()),
        r matches Err(e) ==> Some(e.model()) == remove_documents_failure(document_ids@),
{
    proof {
        lemma_first_repeat_none(document_ids@, document_ids@.len() as int);
        assert(document_ids@.take(document_ids@.len() as int) =~= document_ids@);
    }
    if document_ids.len() > MAX_REMOVE_BATCH {
        let reason = with_number(owned("batch contains "), document_ids.len() as u128);
        return Err(ShardexError::ResourceExhausted {
            resource: owned("batch_size"),
            reason: with_text(reason, " document IDs, which exceeds reasonable limits"),
            suggestion: owned("Split large removal batches into smaller chunks (recommended: 1000-5000 IDs per batch)"),
        });
    }
    let mut seen_ids: HashSet<u128> = HashSet::new();
    let mut i: usize = 0;
    while i < document_ids.len()
        invariant
            i <= document_ids@.len(),
            document_ids@.len() <= MAX_REMOVE_BATCH,
            first_repeat(document_ids@, i as int) is None,
            seen_ids@ == document_ids@.take(i as int).to_set(),
        decreases document_ids@.len() - i,
    {
        let doc_id = document_ids[i];
        let ghost prefix = document_ids@.take(i as int);
        let fresh = seen_ids.insert(doc_id);
        if !fresh {
            proof {
                assert(prefix.contains(doc_id));
                lemma_first_repeat_extends(document_ids@, i as int + 1);
            }
            let reason = with_number(owned("duplicate document ID "), doc_id);
            let reason = with_text(reason, " at index ");
            return Err(ShardexError::InvalidInput {
                field: owned("document_ids"),
                reason: with_number(reason, i as u128),
                suggestion: owned("Remove duplicate document IDs from your batch"),
            });
        }
        proof {
            let next = document_ids@.take(i + 1);
            assert(next =~= prefix.push(doc_id));
            assert(!prefix.contains(doc_id));
            assert(seen_ids@ =~= next.to_set()) by {
                assert forall|x: u128| next.to_set().contains(x) <==> seen_ids@.contains(x) by {
                    if next.contains(x) && x != doc_id {
                        let k = choose|k: int| 0 <= k < next.len() && next[k] == x;
                        assert(prefix[k] == x);
                    }
                    if prefix.contains(x) {
                        let k = choose|k: int| 0 <= k < prefix.len() && prefix[k] == x;
                        assert(next[k] == x);
                    }
                    if x == doc_id {
                        assert(next[i as int] == x);
                    }
                }
            }
        }
        i = i + 1;
    }
    Ok(())
}

/// Once a repeat is found among the first `n` ids, it stays the first repeat.
proof fn lemma_first_repeat_extends(ids: Seq<u128>, n: int)
    requires
        0 <= n <= ids.len(),
    ensures
        first_repeat(ids, n) is Some ==> first_repeat(ids, ids.len() as int) == first_repeat(ids, n),
    decreases ids.len() - n,
{
    if n < ids.len() {
        lemma_first_repeat_extends(ids, n + 1);
    }
}

/// No id among the first `n` repeats exactly when those ids are all distinct.
proof fn lemma_first_repeat_none(ids: Seq<u128>, n: int)
    requires
        0 <= n <= ids.len(),
    ensures
        first_repeat(ids, n) is None <==> ids.take(n).no_duplicates(),
    decreases n,
{
    if n > 0 {
        lemma_first_repeat_none(ids, n - 1);
        let prev = ids.take(n - 1);
        let cur = ids.take(n);
        assert(cur =~= prev.push(ids[n - 1]));
        if first_repeat(ids, n) is None {
            assert forall|a: int, b: int| 0 <= a < cur.len() && 0 <= b < cur.len() && a != b implies cur[a]
                != cur[b] by {
                if a == n - 1 {
                    assert(prev[b] == cur[b]);
                } else if b == n - 1 {
                    assert(prev[a] == cur[a]);
                } else {
                    assert(prev[a] == cur[a] && prev[b] == cur[b]);
                }
            }
        } else {
            if first_repeat(ids, n - 1) is None {
                let k = choose|k: int| 0 <= k < prev.len() && prev[k] == ids[n - 1];
                assert(cur[k] == cur[n - 1]);
            } else {
                let (a, b) = choose|a: int, b: int| 0 <= a < prev.len() && 0 <= b < prev.len() && a
                    != b && prev[a] == prev[b];
                assert(cur[a] == cur[b]);
            }
        }
    }
}

// ----- search parameters -----

/// Why [`validate_search_input`] rejects a search, if it does; the checks go in this order.
pub open spec fn search_input_failure(
    query_len: usize,
    first_non_finite: Option<(usize, bool)>,
    vector_size: usize,
    k: usize,
    slop_factor: Option<usize>,
    min_factor: usize,
    max_factor: usize,
) -> Option<ErrorModel> {
    let slop_suggestion = "Use a slop factor between "@ + decimal(min_factor as nat) + " and "@ + decimal(
        max_factor as nat,
    );
    if query_len == 0 {
        Some(ErrorModel::InvalidInput {
            field: "query_vector"@,
            reason: "cannot be empty"@,
            suggestion: "Provide a query vector with "@ + decimal(vector_size as nat) + " dimensions"@,
        })
    } else if query_len != vector_size {
        Some(ErrorModel::InvalidDimension { expected: vector_size as nat, actual: query_len as nat })
    } else {
        match first_non_finite {
            Some((i, true)) => Some(ErrorModel::InvalidInput {
                field: "query_vector"@,
                reason: "contains NaN value at position "@ + decimal(i as nat),
                suggestion: "Remove NaN values from your query vector. Check your embedding generation process."@,
            }),
            Some((i, false)) => Some(ErrorModel::InvalidInput {
                field: "query_vector"@,
                reason: "contains infinite value at position "@ + decimal(i as nat),
                suggestion: "Remove infinite values from your query vector. Check for overflow in your calculations."@,
            }),
            None => if k == 0 {
                Some(ErrorModel::InvalidInput {
                    field: "k"@,
                    reason: "must be greater than 0"@,
                    suggestion: "Specify how many nearest neighbors you want to find (e.g., k=10)"@,
                })
            } else if k > MAX_SEARCH_RESULTS {
                Some(ErrorModel::ResourceExhausted {
                    resource: "result_count"@,
                    reason: "k="@ + decimal(k as nat) + " is too large and may cause memory issues"@,
                    suggestion: "Use a smaller k value (recommended: 10-1000 depending on your use case)"@,
                })
            } else {
                match slop_factor {
                    Some(s) => if s < min_factor {
                        Some(ErrorModel::InvalidInput {
                            field: "slop_factor"@,
                            reason: "value "@ + decimal(s as nat) + " is below minimum allowed value "@
                                + decimal(min_factor as nat),
                            suggestion: slop_suggestion,
                        })
                    } else if s > max_factor {
                        Some(ErrorModel::InvalidInput {
                            field: "slop_factor"@,
                            reason: "value "@ + decimal(s as nat) + " exceeds maximum allowed value "@
                                + decimal(max_factor as nat),
                            suggestion: slop_suggestion,
                        })
                    } else {
                        None
                    },
                    None => None,
                }
            },
        }
    }
}

/// The rules of a search: it is accepted exactly when the query is not empty,
/// has the index's vector size and only finite components, `1 <= k <=
/// MAX_SEARCH_RESULTS`, and a given slop factor lies within `[min_factor,
/// max_factor]`; a non-empty query of any other size, longer or shorter, is
/// refused as a dimension mismatch that names the index's size and the query's.
pub proof fn lemma_search_rules(
    query_len: usize,
    first_non_finite: Option<(usize, bool)>,
    vector_size: usize,
    k: usize,
    slop_factor: Option<usize>,
    min_factor: usize,
    max_factor: usize,
)
    ensures
        search_input_failure(query_len, first_non_finite, vector_size, k, slop_factor, min_factor, max_factor)
            is None <==> {
            &&& query_len != 0
            &&& query_len == vector_size
            &&& first_non_finite is None
            &&& 1 <= k <= MAX_SEARCH_RESULTS
            &&& (slop_factor matches Some(s) ==> min_factor <= s <= max_factor)
        },
        query_len != 0 && query_len != vector_size ==> search_input_failure(
            query_len,
            first_non_finite,
            vector_size,
            k,
            slop_factor,
            min_factor,
            max_factor,
        ) == Some(ErrorModel::InvalidDimension { expected: vector_size as nat, actual: query_len as nat }),
{
}

/// `"Use a slop factor between {min_factor} and {max_factor}"`.
fn slop_suggestion_text(min_factor: usize, max_factor: usize) -> (s: String)
    ensures
        s@ == "Use a slop factor between "@ + decimal(min_factor as nat) + " and "@ + decimal(
            max_factor as nat,
        ),
{
    let s = with_number(owned("Use a slop factor between "), min_factor as u128);
    let s = with_text(s, " and ");
    with_number(s, max_factor as u128)
}

/// Validate search parameters: a non-empty query of the index's vector size with
/// finite components, `1 <= k <= MAX_SEARCH_RESULTS`, and a slop factor, when
/// given, within `[min_factor, max_factor]`.
pub fn validate_search_input(
    query_len: usize,
    first_non_finite: Option<(usize, bool)>,
    vector_size: usize,
    k: usize,
    slop_factor: Option<usize>,
    min_factor: usize,
    max_factor: usize,
) -> (r: Result<(), ShardexError>)
    ensures
        r is Ok <==> search_input_failure(
            query_len,
            first_non_finite,
            vector_size,
            k,
            slop_factor,
            min_factor,
            max_factor,
        ) is None,
        r matches Err(e) ==> Some(e.model()) == search_input_failure(
            query_len,
            first_non_finite,
            vector_size,
            k,
            slop_factor,
            min_factor,
            max_factor,
        ),
        r is Ok <==> {
            &&& query_len != 0
            &&& query_len == vector_size
            &&& first_non_finite is None
            &&& 1 <= k <= MAX_SEARCH_RESULTS
            &&& (slop_factor matches Some(s) ==> min_factor <= s <= max_factor)
        },
        query_len != 0 && query_len != vector_size ==> r == Err::<(), ShardexError>(
            ShardexError::InvalidDimension { expected: vector_size, actual: query_len },
        ),
{
    proof {
        lemma_search_rules(query_len, first_non_finite, vector_size, k, slop_factor, min_factor, max_factor);
    }
    if query_len == 0 {
        let suggestion = with_number(owned("Provide a query vector with "), vector_size as u128);
        return Err(ShardexError::InvalidInput {
            field: owned("query_vector"),
            reason: owned("cannot be empty"),
            suggestion: with_text(suggestion, " dimensions"),
        });
    }
    if query_len != vector_size {
        return Err(ShardexError::InvalidDimension { expected: vector_size, actual: query_len });
    }
    match first_non_finite {
        Some((i, true)) => {
            return Err(ShardexError::InvalidInput {
                field: owned("query_vector"),
                reason: with_number(owned("contains NaN value at position "), i as u128),
                suggestion: owned("Remove NaN values from your query vector. Check your embedding generation process."),
            });
        },
        Some((i, false)) => {
            return Err(ShardexError::InvalidInput {
                field: owned("query_vector"),
                reason: with_number(owned("contains infinite value at position "), i as u128),
                suggestion: owned("Remove infinite values from your query vector. Check for overflow in your calculations."),
            });
        },
        None => {},
    }
    if k == 0 {
        return Err(ShardexError::InvalidInput {
            field: owned("k"),
            reason: owned("must be greater than 0"),
            suggestion: owned("Specify how many nearest neighbors you want to find (e.g., k=10)"),
        });
    }
    if k > MAX_SEARCH_RESULTS {
        let reason = with_number(owned("k="), k as u128);
        return Err(ShardexError::ResourceExhausted {
            resource: owned("result_count"),
            reason: with_text(reason, " is too large and may cause memory issues"),
            suggestion: owned("Use a smaller k value (recommended: 10-1000 depending on your use case)"),
        });
    }
    if let Some(slop) = slop_factor {
        if slop < min_factor {
            let reason = with_number(owned("value "), slop as u128);
            let reason = with_text(reason, " is below minimum allowed value ");
            return Err(ShardexError::InvalidInput {
                field: owned("slop_factor"),
                reason: with_number(reason, min_factor as u128),
                suggestion: slop_suggestion_text(min_factor, max_factor),
            });
        }
        if slop > max_factor {
            let reason = with_number(owned("value "), slop as u128);
            let reason = with_text(reason, " exceeds maximum allowed value ");
            return Err(ShardexError::InvalidInput {
                field: owned("slop_factor"),
                reason: with_number(reason, max_factor as u128),
                suggestion: slop_suggestion_text(min_factor, max_factor),
            });
        }
    }
    Ok(())
}

// ----- document replacements -----

/// Why [`validate_posting_for_replacement`] rejects posting number
/// `posting_index` of a document with the given text bytes, if it does; the
/// checks go in this order.
pub open spec fn replacement_posting_failure(
    p: PostingInput,
    posting_index: nat,
    text: Seq<u8>,
    vector_size: usize,
) -> Option<ErrorModel> {
    let end = p.start + p.length;
    let bad_range = ErrorModel::InvalidRange {
        start: p.start as nat,
        length: p.length as nat,
        document_length: text.len(),
    };
    if p.document_id.value() == 0 {
        Some(ErrorModel::InvalidPostingData {
            reason: "Posting "@ + decimal(posting_index) + " has nil/zero document ID"@,
            suggestion: "Ensure all postings have valid document IDs"@,
        })
    } else if p.vector_len != vector_size {
        Some(ErrorModel::InvalidDimension { expected: vector_size as nat, actual: p.vector_len as nat })
    } else if end > text.len() {
        Some(bad_range)
    } else if !vstd::utf8::is_char_boundary(text, p.start as int)
        || !vstd::utf8::is_char_boundary(text, end) {
        Some(bad_range)
    } else if p.length == 0 {
        Some(ErrorModel::InvalidPostingData {
            reason: "Posting "@ + decimal(posting_index) + " has zero length"@,
            suggestion: "Ensure all postings have positive length"@,
        })
    } else {
        None
    }
}

/// A replacement posting is accepted exactly when it has a non-zero document
/// id, the index's vector size, a positive length, and a range inside the text
/// that starts and ends on character boundaries; one with a non-zero id whose
/// vector has another size than the index's, longer or shorter, is refused as
/// a dimension mismatch naming both sizes.
pub proof fn lemma_replacement_posting_rules(p: PostingInput, i: nat, text: Seq<u8>, vector_size: usize)
    ensures
        replacement_posting_failure(p, i, text, vector_size) is None <==> ({
            &&& p.document_id.value() != 0
            &&& p.vector_len == vector_size
            &&& p.length != 0
            &&& p.start + p.length <= text.len()
            &&& vstd::utf8::is_char_boundary(text, p.start as int)
            &&& vstd::utf8::is_char_boundary(text, p.start + p.length)
        }),
        p.document_id.value() != 0 && p.vector_len != vector_size ==> replacement_posting_failure(
            p,
            i,
            text,
            vector_size,
        ) == Some(ErrorModel::InvalidDimension { expected: vector_size as nat, actual: p.vector_len as nat }),
{
}

/// No posting among the first `n` of a replacement fails exactly when each of
/// them has a non-zero id, the index's vector size, a positive length and a
/// range inside the text on character boundaries.
pub proof fn lemma_replacement_postings_rules(postings: Seq<PostingInput>, text: Seq<u8>, vector_size: usize, n: int)
    requires
        0 <= n <= postings.len(),
    ensures
        first_replacement_posting_failure(postings, text, vector_size, n) is None <==> forall|j: int|
            #![trigger postings[j]]
            0 <= j < n ==> ({
            &&& postings[j].document_id.value() != 0
            &&& postings[j].vector_len == vector_size
            &&& postings[j].length != 0
            &&& postings[j].start + postings[j].length <= text.len()
            &&& vstd::utf8::is_char_boundary(text, postings[j].start as int)
            &&& vstd::utf8::is_char_boundary(text, postings[j].start + postings[j].length)
        }),
    decreases n,
{
    if n > 0 {
        lemma_replacement_postings_rules(postings, text, vector_size, n - 1);
        lemma_replacement_posting_rules(postings[n - 1], (n - 1) as nat, text, vector_size);
        if first_replacement_posting_failure(postings, text, vector_size, n) is None {
            assert forall|j: int| #![trigger postings[j]] 0 <= j < n implies ({
            &&& postings[j].document_id.value() != 0
            &&& postings[j].vector_len == vector_size
            &&& postings[j].length != 0
            &&& postings[j].start + postings[j].length <= text.len()
            &&& vstd::utf8::is_char_boundary(text, postings[j].start as int)
            &&& vstd::utf8::is_char_boundary(text, postings[j].start + postings[j].length)
        }) by {}
        }
    }
}

/// A replacement is accepted exactly when its document id is not zero, its
/// text is within the size limit and free of NUL bytes, and every posting has
/// a non-zero id, the index's vector size, a positive length and a range
/// inside the text on character boundaries; so every posting of an accepted replacement has
/// the index's vector size.
pub proof fn lemma_replacement_rules(
    document_id: u128,
    text: Seq<u8>,
    postings: Seq<PostingInput>,
    vector_size: usize,
    max_document_text_size: usize,
)
    ensures
        replacement_failure(document_id, text, postings, vector_size, max_document_text_size) is None <==> {
            &&& document_id != 0
            &&& text.len() <= max_document_text_size
            &&& !text.contains(0u8)
            &&& forall|j: int| #![trigger postings[j]]
                0 <= j < postings.len() ==> ({
            &&& postings[j].document_id.value() != 0
            &&& postings[j].vector_len == vector_size
            &&& postings[j].length != 0
            &&& postings[j].start + postings[j].length <= text.len()
            &&& vstd::utf8::is_char_boundary(text, postings[j].start as int)
            &&& vstd::utf8::is_char_boundary(text, postings[j].start + postings[j].length)
        })
        },
{
    lemma_replacement_postings_rules(postings, text, vector_size, postings.len() as int);
}

/// Validate posting number `posting_index` of a replacement document: a non-zero
/// document id, the index's vector size, a range inside the text that starts and
/// ends on character boundaries, and a positive length.
pub fn validate_posting_for_replacement(
    posting: &PostingInput,
    text: &str,
    posting_index: usize,
    vector_size: usize,
) -> (r: Result<(), ShardexError>)
    ensures
        r is Ok <==> replacement_posting_failure(*posting, posting_index as nat, text.spec_bytes(), vector_size)
            is None,
        r matches Err(e) ==> Some(e.model()) == replacement_posting_failure(
            *posting,
            posting_index as nat,
            text.spec_bytes(),
            vector_size,
        ),
        r is Ok <==> ({
            &&& posting.document_id.value() != 0
            &&& posting.vector_len == vector_size
            &&& posting.length != 0
            &&& posting.start + posting.length <= text.spec_bytes().len()
            &&& vstd::utf8::is_char_boundary(text.spec_bytes(), posting.start as int)
            &&& vstd::utf8::is_char_boundary(text.spec_bytes(), posting.start + posting.length)
        }),
        posting.document_id.value() != 0 && posting.vector_len != vector_size ==> r == Err::<(), ShardexError>(
            ShardexError::InvalidDimension { expected: vector_size, actual: posting.vector_len },
        ),
{
    proof {
        lemma_replacement_posting_rules(*posting, posting_index as nat, text.spec_bytes(), vector_size);
    }
    if posting.document_id.raw() == 0 {
        let reason = with_number(owned("Posting "), posting_index as u128);
        return Err(ShardexError::InvalidPostingData {
            reason: with_text(reason, " has nil/zero document ID"),
            suggestion: owned("Ensure all postings have valid document IDs"),
        });
    }
    if posting.vector_len != vector_size {
        return Err(ShardexError::InvalidDimension { expected: vector_size, actual: posting.vector_len });
    }
    let text_len = text.as_bytes().len();
    let end = posting.start as u64 + posting.length as u64;
    if end > text_len as u64 {
        return Err(ShardexError::InvalidRange {
            start: posting.start,
            length: posting.length,
            document_length: text_len as u64,
        });
    }
    if !text.is_char_boundary(posting.start as usize) || !text.is_char_boundary(end as usize) {
        return Err(ShardexError::InvalidRange {
            start: posting.start,
            length: posting.length,
            document_length: text_len as u64,
        });
    }
    if posting.length == 0 {
        let reason = with_number(owned("Posting "), posting_index as u128);
        return Err(ShardexError::InvalidPostingData {
            reason: with_text(reason, " has zero length"),
            suggestion: owned("Ensure all postings have positive length"),
        });
    }
    Ok(())
}

/// The failure of the first rejected posting among the first `n` of a replacement.
pub open spec fn first_replacement_posting_failure(
    postings: Seq<PostingInput>,
    text: Seq<u8>,
    vector_size: usize,
    n: int,
) -> Option<ErrorModel>
    decreases n,
{
    if n <= 0 {
        None
    } else {
        match first_replacement_posting_failure(postings, text, vector_size, n - 1) {
            Some(e) => Some(e),
            None => replacement_posting_failure(postings[n - 1], (n - 1) as nat, text, vector_size),
        }
    }
}

/// Why [`validate_replacement_inputs`] rejects a replacement, if it does; the checks go in this order.
pub open spec fn replacement_failure(
    document_id: u128,
    text: Seq<u8>,
    postings: Seq<PostingInput>,
    vector_size: usize,
    max_document_text_size: usize,
) -> Option<ErrorModel> {
    if document_id == 0 {
        Some(ErrorModel::InvalidDocumentId {
            reason: "Document ID cannot be nil/zero"@,
            suggestion: "Provide a valid document ID"@,
        })
    } else if text.len() > max_document_text_size {
        Some(ErrorModel::DocumentTooLarge { size: text.len(), max_size: max_document_text_size as nat })
    } else if text.contains(0u8) {
        Some(ErrorModel::InvalidInput {
            field: "document_text"@,
            reason: "Text contains null bytes"@,
            suggestion: "Remove null bytes from text"@,
        })
    } else {
        first_replacement_posting_failure(postings, text, vector_size, postings.len() as int)
    }
}

/// Validate the inputs for replacing a document: a non-zero document id, text no
/// larger than `max_document_text_size` bytes and free of NUL characters (a NUL is
/// the only character whose UTF-8 encoding holds a zero byte), and every posting
/// valid for the text.
pub fn validate_replacement_inputs(
    document_id: DocumentId,
    text: &str,
    postings: &[PostingInput],
    vector_size: usize,
    max_document_text_size: usize,
) -> (r: Result<(), ShardexError>)
    ensures
        r is Ok <==> replacement_failure(
            document_id.value(),
            text.spec_bytes(),
            postings@,
            vector_size,
            max_document_text_size,
        ) is None,
        r matches Err(e) ==> Some(e.model()) == replacement_failure(
            document_id.value(),
            text.spec_bytes(),
            postings@,
            vector_size,
            max_document_text_size,
        ),
        r is Ok ==> forall|j: int| #![trigger postings@[j]]
            0 <= j < postings@.len() ==> ({
            &&& postings@[j].document_id.value() != 0
            &&& postings@[j].vector_len == vector_size
            &&& postings@[j].length != 0
            &&& postings@[j].start + postings@[j].length <= text.spec_bytes().len()
            &&& vstd::utf8::is_char_boundary(text.spec_bytes(), postings@[j].start as int)
            &&& vstd::utf8::is_char_boundary(text.spec_bytes(), postings@[j].start + postings@[j].length)
        }),
{
    proof {
        lemma_replacement_rules(
            document_id.value(),
            text.spec_bytes(),
            postings@,
            vector_size,
            max_document_text_size,
        );
    }
    if document_id.raw() == 0 {
        return Err(ShardexError::InvalidDocumentId {
            reason: owned("Document ID cannot be nil/zero"),
            suggestion: owned("Provide a valid document ID"),
        });
    }
    let bytes = text.as_bytes();
    let size = bytes.len();
    if size > max_document_text_size {
        return Err(ShardexError::DocumentTooLarge { size, max_size: max_document_text_size });
    }
    let mut i: usize = 0;
    while i < bytes.len()
        invariant
            i <= bytes@.len(),
            bytes@ == text.spec_bytes(),
            document_id.value() != 0,
            bytes@.len() <= max_document_text_size,
            forall|j: int| 0 <= j < i ==> bytes@[j] != 0u8,
        decreases bytes@.len() - i,
    {
        if bytes[i] == 0u8 {
            assert(text.spec_bytes().contains(0u8));
            return Err(ShardexError::InvalidInput {
                field: owned("document_text"),
                reason: owned("Text contains null bytes"),
                suggestion: owned("Remove null bytes from text"),
            });
        }
        i = i + 1;
    }
    assert(!text.spec_bytes().contains(0u8));
    let mut k: usize = 0;
    while k < postings.len()
        invariant
            k <= postings@.len(),
            document_id.value() != 0,
            text.spec_bytes().len() <= max_document_text_size,
            !text.spec_bytes().contains(0u8),
            first_replacement_posting_failure(postings@, text.spec_bytes(), vector_size, k as int)
                is None,
        decreases postings@.len() - k,
    {
        let v = validate_posting_for_replacement(&postings[k], text, k, vector_size);
        if v.is_err() {
            proof {
                lemma_first_failure_extends(postings@, text.spec_bytes(), vector_size, k as int + 1);
            }
            return v;
        }
        k = k + 1;
    }
    Ok(())
}

/// Once a failure is found among the first `n` postings, it stays the first failure.
proof fn lemma_first_failure_extends(postings: Seq<PostingInput>, text: Seq<u8>, vector_size: usize, n: int)
    requires
        0 <= n <= postings.len(),
    ensures
        first_replacement_posting_failure(postings, text, vector_size, n) is Some
            ==> first_replacement_posting_failure(postings, text, vector_size, postings.len() as int)
            == first_replacement_posting_failure(postings, text, vector_size, n),
    decreases postings.len() - n,
{
    if n < postings.len() {
        lemma_first_failure_extends(postings, text, vector_size, n + 1);
    }
}

// ----- write batches -----

/// Bytes a serialized add-posting operation takes besides its vector: the
/// operation tag (1), the document id (16), the start (8) and the length (4).
pub const ADD_OPERATION_OVERHEAD: usize = 29;

/// Bytes of one `f32` vector component in a serialized operation.
pub const VECTOR_COMPONENT_BYTES: usize = 4;

/// Transaction-level bytes counted per operation in a batch.
pub const BATCH_OPERATION_OVERHEAD: usize = 50;

/// Fewest operations a batch is allowed to hold.
pub const MIN_OPERATIONS_PER_BATCH: usize = 10;

/// Most operations a batch is allowed to hold.
pub const MAX_OPERATIONS_PER_BATCH: usize = 1000;

/// Estimated serialized size of one add-posting operation for vectors of `vector_size` components.
pub open spec fn estimated_operation_size(vector_size: int) -> int {
    ADD_OPERATION_OVERHEAD + vector_size * VECTOR_COMPONENT_BYTES
}

/// How many operations a batch of `target_batch_size` bytes holds: as many as
/// fit by size, but at least [`MIN_OPERATIONS_PER_BATCH`] and at most
/// [`MAX_OPERATIONS_PER_BATCH`].
pub open spec fn spec_operations_per_batch(vector_size: int, target_batch_size: int) -> int {
    let by_size = target_batch_size / (estimated_operation_size(vector_size) + BATCH_OPERATION_OVERHEAD);
    if by_size > MAX_OPERATIONS_PER_BATCH {
        MAX_OPERATIONS_PER_BATCH as int
    } else if by_size < MIN_OPERATIONS_PER_BATCH {
        MIN_OPERATIONS_PER_BATCH as int
    } else {
        by_size
    }
}

/// The operation limit of a write batch, for vectors of `vector_size`
/// components and a batch of `target_batch_size` bytes (the share of a log
/// segment that one batch may fill).
pub fn operations_per_batch(vector_size: usize, target_batch_size: usize) -> (n: usize)
    requires
        estimated_operation_size(vector_size as int) + BATCH_OPERATION_OVERHEAD <= usize::MAX,
    ensures
        n == spec_operations_per_batch(vector_size as int, target_batch_size as int),
        MIN_OPERATIONS_PER_BATCH <= n <= MAX_OPERATIONS_PER_BATCH,
{
    let operation_size = ADD_OPERATION_OVERHEAD + vector_size * VECTOR_COMPONENT_BYTES;
    let by_size = target_batch_size / (operation_size + BATCH_OPERATION_OVERHEAD);
    if by_size > MAX_OPERATIONS_PER_BATCH {
        MAX_OPERATIONS_PER_BATCH
    } else if by_size < MIN_OPERATIONS_PER_BATCH {
        MIN_OPERATIONS_PER_BATCH
    } else {
        by_size
    }
}

/// The operation limit of a batch is the number of operations whose estimated
/// size, with the per-operation overhead, fits the batch's byte target, kept
/// between [`MIN_OPERATIONS_PER_BATCH`] and [`MAX_OPERATIONS_PER_BATCH`].
pub proof fn lemma_batch_limit_fits_target(vector_size: nat, target: nat)
    ensures
        ({
            let op = ADD_OPERATION_OVERHEAD + vector_size * VECTOR_COMPONENT_BYTES + BATCH_OPERATION_OVERHEAD;
            let n = spec_operations_per_batch(vector_size as int, target as int);
            &&& MIN_OPERATIONS_PER_BATCH <= n <= MAX_OPERATIONS_PER_BATCH
            &&& MIN_OPERATIONS_PER_BATCH < n < MAX_OPERATIONS_PER_BATCH ==> n * op <= target < (n + 1) * op
            &&& n == MIN_OPERATIONS_PER_BATCH ==> target < (MIN_OPERATIONS_PER_BATCH + 1) * op
            &&& n == MAX_OPERATIONS_PER_BATCH ==> MAX_OPERATIONS_PER_BATCH * op <= target
        }),
{
    let op: int = ADD_OPERATION_OVERHEAD + vector_size * VECTOR_COMPONENT_BYTES + BATCH_OPERATION_OVERHEAD;
    let t: int = target as int;
    let q: int = t / op;
    assert(q * op <= t < (q + 1) * op) by (nonlinear_arith)
        requires
            op > 0,
            q == t / op,
            t >= 0,
    ;
    if q < MIN_OPERATIONS_PER_BATCH {
        assert((q + 1) * op <= (MIN_OPERATIONS_PER_BATCH + 1) * op) by (nonlinear_arith)
            requires
                q + 1 <= MIN_OPERATIONS_PER_BATCH + 1,
                op > 0,
        ;
    }
    if q > MAX_OPERATIONS_PER_BATCH {
        assert(MAX_OPERATIONS_PER_BATCH * op <= q * op) by (nonlinear_arith)
            requires
                MAX_OPERATIONS_PER_BATCH <= q,
                op > 0,
        ;
    }
}

} // verus!
