//! Error handling helpers for tests.

use vstd::prelude::*;

use crate::error::ShardexError;

verus! {

/// Get the error from a Result that is expected to hold one.
pub fn expect_error<T, E>(result: Result<T, E>, context: &str) -> (e: E)
    requires
        result is Err,
    ensures
        e == result->Err_0,
{
    match result {
        Ok(_) => vstd::pervasive::unreached(),
        Err(err) => err,
    }
}

/// Get the value from a Result that is expected to be Ok.
pub fn expect_success<T, E>(result: Result<T, E>, context: &str) -> (v: T)
    requires
        result is Ok,
    ensures
        v == result->Ok_0,
{
    match result {
        Ok(val) => val,
        Err(_) => vstd::pervasive::unreached(),
    }
}

/// The variant names accepted by [`create_test_shardex_error`].
pub open spec fn is_test_error_variant(variant: Seq<char>) -> bool {
    ||| variant == "config"@
    ||| variant == "memory_mapping"@
    ||| variant == "wal"@
    ||| variant == "shard"@
    ||| variant == "search"@
    ||| variant == "corruption"@
    ||| variant == "text_corruption"@
}

/// The error of the named variant carrying `message`.
pub open spec fn test_error_matches(e: ShardexError, variant: Seq<char>, message: Seq<char>) -> bool {
    if variant == "config"@ {
        e matches ShardexError::Config(m) && m@ == message
    } else if variant == "memory_mapping"@ {
        e matches ShardexError::MemoryMapping(m) && m@ == message
    } else if variant == "wal"@ {
        e matches ShardexError::Wal(m) && m@ == message
    } else if variant == "shard"@ {
        e matches ShardexError::Shard(m) && m@ == message
    } else if variant == "search"@ {
        e matches ShardexError::Search(m) && m@ == message
    } else if variant == "corruption"@ {
        e matches ShardexError::Corruption(m) && m@ == message
    } else {
        e matches ShardexError::TextCorruption(m) && m@ == message
    }
}

/// Create a test ShardexError of the named variant carrying `message`.
pub fn create_test_shardex_error(variant: &str, message: &str) -> (e: ShardexError)
    requires
        is_test_error_variant(variant@),
    ensures
        test_error_matches(e, variant@, message@),
{
    let v = variant.to_owned();
    let m = message.to_owned();
    if v == "config".to_owned() {
        ShardexError::Config(m)
    } else if v == "memory_mapping".to_owned() {
        ShardexError::MemoryMapping(m)
    } else if v == "wal".to_owned() {
        ShardexError::Wal(m)
    } else if v == "shard".to_owned() {
        ShardexError::Shard(m)
    } else if v == "search".to_owned() {
        ShardexError::Search(m)
    } else if v == "corruption".to_owned() {
        ShardexError::Corruption(m)
    } else {
        assert(variant@ == "text_corruption"@);
        ShardexError::TextCorruption(m)
    }
}

} // verus!
