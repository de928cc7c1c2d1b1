//! Test constants shared across the test suite.

use vstd::prelude::*;

verus! {

pub const DEFAULT_VECTOR_SIZE: usize = 128;

pub const SMALL_VECTOR_SIZE: usize = 64;

pub const LARGE_VECTOR_SIZE: usize = 384;

pub const DEFAULT_SHARD_SIZE: usize = 100;

pub const LARGE_SHARD_SIZE: usize = 1000;

pub const DEFAULT_TEST_CAPACITY: usize = 100;

} // verus!
