use vstd::prelude::*;

pub mod error;
pub mod identifiers;
pub mod memory;
pub mod monitoring;
pub mod posting_storage;
pub mod recovery;
pub mod shard;
pub mod shardex;
pub mod shardex_index;
pub mod structures;
pub mod text;
pub mod test_utils;
pub mod time_span;

verus! {

} // verus!
