//! Test utilities: error-handling helpers, shared constants and a builder for
//! standard test setups.

use vstd::prelude::*;

use std::path::PathBuf;

pub mod error;
pub mod test_constants;

verus! {

#[verifier::external_type_specification]
#[verifier::external_body]
pub struct ExPathBuf(PathBuf);

/// Builder pattern for standardized test setup
///
/// Holds the test name, the vector and shard sizes and an optional directory
/// that a test environment and index configuration are built from.
pub struct TestSetupBuilder {
    test_name: String,
    vector_size: usize,
    shard_size: usize,
    directory_path: Option<PathBuf>,
}

impl TestSetupBuilder {
    /// The configured test name.
    pub closed spec fn spec_test_name(&self) -> Seq<char> {
        self.test_name@
    }

    /// The configured vector size.
    pub closed spec fn spec_vector_size(&self) -> usize {
        self.vector_size
    }

    /// The configured shard size.
    pub closed spec fn spec_shard_size(&self) -> usize {
        self.shard_size
    }

    /// The configured directory, if any.
    pub closed spec fn spec_directory_path(&self) -> Option<PathBuf> {
        self.directory_path
    }

    /// Create a new test setup builder with the given test name
    ///
    /// Uses default values: vector size 128, shard size 100, no directory
    /// (a temporary directory will be created).
    pub fn new(test_name: &str) -> (b: TestSetupBuilder)
        ensures
            b.spec_test_name() == test_name@,
            b.spec_vector_size() == test_constants::DEFAULT_VECTOR_SIZE,
            b.spec_shard_size() == test_constants::DEFAULT_SHARD_SIZE,
            b.spec_directory_path() is None,
    {
        TestSetupBuilder {
            test_name: test_name.to_owned(),
            vector_size: test_constants::DEFAULT_VECTOR_SIZE,
            shard_size: test_constants::DEFAULT_SHARD_SIZE,
            directory_path: None,
        }
    }

    /// Set the vector size for the test configuration
    pub fn with_vector_size(self, size: usize) -> (b: TestSetupBuilder)
        ensures
            b.spec_test_name() == self.spec_test_name(),
            b.spec_vector_size() == size,
            b.spec_shard_size() == self.spec_shard_size(),
            b.spec_directory_path() == self.spec_directory_path(),
    {
        let mut b = self;
        b.vector_size = size;
        b
    }

    /// Set the shard size for the test configuration
    pub fn with_shard_size(self, size: usize) -> (b: TestSetupBuilder)
        ensures
            b.spec_test_name() == self.spec_test_name(),
            b.spec_vector_size() == self.spec_vector_size(),
            b.spec_shard_size() == size,
            b.spec_directory_path() == self.spec_directory_path(),
    {
        let mut b = self;
        b.shard_size = size;
        b
    }

    /// Set a custom directory path (primarily for testing directory handling)
    pub fn with_directory_path(self, path: PathBuf) -> (b: TestSetupBuilder)
        ensures
            b.spec_test_name() == self.spec_test_name(),
            b.spec_vector_size() == self.spec_vector_size(),
            b.spec_shard_size() == self.spec_shard_size(),
            b.spec_directory_path() == Some(path),
    {
        let mut b = self;
        b.directory_path = Some(path);
        b
    }

    /// Setup with small vector size (64) - convenience method for performance tests
    pub fn small(test_name: &str) -> (b: TestSetupBuilder)
        ensures
            b.spec_test_name() == test_name@,
            b.spec_vector_size() == test_constants::SMALL_VECTOR_SIZE,
            b.spec_shard_size() == test_constants::DEFAULT_SHARD_SIZE,
            b.spec_directory_path() is None,
    {
        Self::new(test_name).with_vector_size(test_constants::SMALL_VECTOR_SIZE)
    }

    /// Setup with large vector size (384) and shard size (1000) - convenience method for capacity tests
    pub fn large(test_name: &str) -> (b: TestSetupBuilder)
        ensures
            b.spec_test_name() == test_name@,
            b.spec_vector_size() == test_constants::LARGE_VECTOR_SIZE,
            b.spec_shard_size() == test_constants::LARGE_SHARD_SIZE,
            b.spec_directory_path() is None,
    {
        Self::new(test_name).with_vector_size(test_constants::LARGE_VECTOR_SIZE).with_shard_size(
            test_constants::LARGE_SHARD_SIZE,
        )
    }

    /// Get the test name
    pub fn name(&self) -> (s: &str)
        ensures
            s@ == self.spec_test_name(),
    {
        self.test_name.as_str()
    }

    /// Get the configured vector size
    pub fn vector_size(&self) -> (n: usize)
        ensures
            n == self.spec_vector_size(),
    {
        self.vector_size
    }

    /// Get the configured shard size
    pub fn shard_size(&self) -> (n: usize)
        ensures
            n == self.spec_shard_size(),
    {
        self.shard_size
    }

    /// Take the configured directory path, if any, leaving the builder's other settings
    pub fn into_directory_path(self) -> (p: Option<PathBuf>)
        ensures
            p == self.spec_directory_path(),
    {
        self.directory_path
    }
}

} // verus!
