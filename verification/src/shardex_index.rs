//! Shard selection heuristics of the index, and the tally of a batch of
//! document deletions.

use vstd::prelude::*;

verus! {

/// The slop factor that [`calculate_optimal_slop`] recommends.
pub open spec fn spec_optimal_slop(vector_size: int, shard_count: int) -> int {
    if shard_count <= 1 {
        1
    } else {
        let base = 3 + if vector_size > 512 {
            2int
        } else if vector_size > 256 {
            1int
        } else {
            0int
        };
        let shard_factor = if shard_count <= 5 {
            shard_count
        } else if shard_count <= 20 {
            5 + (shard_count - 5) / 3
        } else if shard_count <= 100 {
            10 + (shard_count - 20) / 8
        } else {
            20
        };
        let slop = if base <= shard_factor {
            base
        } else {
            shard_factor
        };
        if slop <= shard_count {
            slop
        } else {
            shard_count
        }
    }
}

/// Calculate the optimal slop factor (number of shards to search) from the
/// query's dimensionality and the number of shards in the index.
///
/// Higher dimensions search more shards; more shards allow higher selectivity;
/// the result never exceeds the number of shards.
pub fn calculate_optimal_slop(vector_size: usize, shard_count: usize) -> (slop: usize)
    ensures
        slop == spec_optimal_slop(vector_size as int, shard_count as int),
        shard_count <= 1 ==> slop == 1,
        shard_count >= 1 ==> slop == if shard_count <= 3 {
            shard_count as int
        } else if vector_size <= 256 {
            3
        } else if vector_size <= 512 || shard_count == 4 {
            4
        } else {
            5
        },
        shard_count >= 3 ==> slop >= 3,
        1 <= slop,
        shard_count >= 1 ==> slop <= shard_count,
        slop <= 5,
{
    proof {
        lemma_slop_by_dimension(vector_size as int, shard_count as int);
    }
    if shard_count <= 1 {
        return 1;
    }
    let mut optimal_slop: usize = 3;
    if vector_size > 512 {
        optimal_slop = optimal_slop + 2;
    } else if vector_size > 256 {
        optimal_slop = optimal_slop + 1;
    }
    let shard_factor: usize = if shard_count <= 5 {
        shard_count
    } else if shard_count <= 20 {
        5 + (shard_count - 5) / 3
    } else if shard_count <= 100 {
        10 + (shard_count - 20) / 8
    } else {
        20
    };
    optimal_slop = if optimal_slop <= shard_factor {
        optimal_slop
    } else {
        shard_factor
    };
    if optimal_slop <= shard_count {
        optimal_slop
    } else {
        shard_count
    }
}

/// The recommended slop never shrinks as the query's dimensionality or the
/// number of shards grows.
pub proof fn lemma_slop_is_monotone(v1: int, v2: int, n1: int, n2: int)
    requires
        0 <= v1 <= v2,
        0 <= n1 <= n2,
    ensures
        spec_optimal_slop(v1, n1) <= spec_optimal_slop(v2, n2),
{
}

/// Postings removed for the document at position `doc` of a deletion batch,
/// summed over the removals reported by the shards; a removal is the
/// document's position and the number of postings one shard removed for it.
pub open spec fn removed_for(removals: Seq<(usize, usize)>, doc: int) -> nat
    decreases removals.len(),
{
    if removals.len() == 0 {
        0
    } else {
        removed_for(removals.drop_last(), doc) + if removals.last().0 == doc {
            removals.last().1 as nat
        } else {
            0
        }
    }
}

/// A prefix of the removals never counts more than all of them.
proof fn lemma_removed_for_prefix(removals: Seq<(usize, usize)>, k: int, doc: int)
    requires
        0 <= k <= removals.len(),
    ensures
        removed_for(removals.take(k), doc) <= removed_for(removals, doc),
    decreases removals.len() - k,
{
    if k < removals.len() {
        lemma_removed_for_prefix(removals, k + 1, doc);
        assert(removals.take(k + 1).drop_last() =~= removals.take(k));
    } else {
        assert(removals.take(k) =~= removals);
    }
}

/// One count per document of a deletion batch: the postings removed for it,
/// summed over the shards that reported removals for it (a shard whose
/// removal failed reports nothing).
pub fn tally_deletions(doc_count: usize, removals: &[(usize, usize)]) -> (r: Vec<usize>)
    requires
        forall|k: int| 0 <= k < removals@.len() ==> (#[trigger] removals@[k]).0 < doc_count,
        forall|d: int| 0 <= d < doc_count ==> #[trigger] removed_for(removals@, d) <= usize::MAX,
    ensures
        r@.len() == doc_count,
        forall|d: int| 0 <= d < doc_count ==> r@[d] == #[trigger] removed_for(removals@, d),
{
    let mut out: Vec<usize> = Vec::new();
    let mut d: usize = 0;
    while d < doc_count
        invariant
            d <= doc_count,
            out@.len() == d,
            forall|j: int| 0 <= j < d ==> out@[j] == 0,
        decreases doc_count - d,
    {
        out.push(0);
        d = d + 1;
    }
    let mut k: usize = 0;
    while k < removals.len()
        invariant
            k <= removals@.len(),
            out@.len() == doc_count,
            forall|j: int| 0 <= j < removals@.len() ==> (#[trigger] removals@[j]).0 < doc_count,
            forall|j: int| 0 <= j < doc_count ==> #[trigger] removed_for(removals@, j) <= usize::MAX,
            forall|j: int| 0 <= j < doc_count ==> out@[j] == removed_for(removals@.take(k as int), j),
        decreases removals@.len() - k,
    {
        let (doc, count) = removals[k];
        proof {
            assert(removals@.take(k + 1).drop_last() =~= removals@.take(k as int));
            assert(removals@.take(k + 1).last() == removals@[k as int]);
            lemma_removed_for_prefix(removals@, k + 1, doc as int);
            assert(removed_for(removals@, doc as int) <= usize::MAX);
        }
        let current = out[doc];
        out.set(doc, current + count);
        k = k + 1;
    }
    proof {
        assert(removals@.take(removals@.len() as int) =~= removals@);
    }
    out
}

/// The slop for an index of at least one shard: the base of 3 shards, one
/// more for vectors above 256 components and two more above 512, but never
/// more shards than the index has; an index of at most one shard is searched
/// in one shard. So an index of three or more shards is always searched in at
/// least three.
pub proof fn lemma_slop_by_dimension(v: int, n: int)
    requires
        0 <= v,
        0 <= n,
    ensures
        n <= 1 ==> spec_optimal_slop(v, n) == 1,
        n >= 1 ==> spec_optimal_slop(v, n) == {
            let base = if v > 512 {
                5int
            } else if v > 256 {
                4int
            } else {
                3int
            };
            if base <= n {
                base
            } else {
                n
            }
        },
        n >= 3 ==> spec_optimal_slop(v, n) >= 3,
        n == 2 ==> spec_optimal_slop(v, n) == 2,
{
}

} // verus!
