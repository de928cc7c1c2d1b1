use vstd::prelude::*;

use crate::text::{decimal, with_number, with_text};

verus! {

/// Errors reported by the index and its storage components.
#[derive(Debug, Clone, PartialEq)]
pub enum ShardexError {
    /// A configuration or usage error (bad capacity, out-of-range index, read-only storage).
    Config(String),
    /// Stored data failed validation (bad magic, version, counts or checksum).
    Corruption(String),
    /// A problem with the mapped storage region.
    MemoryMapping(String),
    /// A write-ahead-log problem.
    Wal(String),
    /// A shard-level problem.
    Shard(String),
    /// A search problem.
    Search(String),
    /// Stored document text failed validation.
    TextCorruption(String),
    /// A vector had the wrong number of dimensions.
    InvalidDimension { expected: usize, actual: usize },
    /// An input value was rejected.
    InvalidInput { field: String, reason: String, suggestion: String },
    /// A request exceeds a resource limit.
    ResourceExhausted { resource: String, reason: String, suggestion: String },
    /// A posting's data was rejected.
    InvalidPostingData { reason: String, suggestion: String },
    /// A document id was rejected.
    InvalidDocumentId { reason: String, suggestion: String },
    /// A document's text is larger than allowed.
    DocumentTooLarge { size: usize, max_size: usize },
    /// A text range lies outside its document.
    InvalidRange { start: u32, length: u32, document_length: u64 },
}

/// A [`ShardexError`] as a value of the model: its variant, with its text
/// fields as character sequences and its numbers as naturals.
pub enum ErrorModel {
    Config(Seq<char>),
    Corruption(Seq<char>),
    MemoryMapping(Seq<char>),
    Wal(Seq<char>),
    Shard(Seq<char>),
    Search(Seq<char>),
    TextCorruption(Seq<char>),
    InvalidDimension { expected: nat, actual: nat },
    InvalidInput { field: Seq<char>, reason: Seq<char>, suggestion: Seq<char> },
    ResourceExhausted { resource: Seq<char>, reason: Seq<char>, suggestion: Seq<char> },
    InvalidPostingData { reason: Seq<char>, suggestion: Seq<char> },
    InvalidDocumentId { reason: Seq<char>, suggestion: Seq<char> },
    DocumentTooLarge { size: nat, max_size: nat },
    InvalidRange { start: nat, length: nat, document_length: nat },
}

/// The text that [`ShardexError::message`] gives for an error.
pub open spec fn message_text(e: ErrorModel) -> Seq<char> {
    match e {
        ErrorModel::Config(m) => m,
        ErrorModel::Corruption(m) => m,
        ErrorModel::MemoryMapping(m) => m,
        ErrorModel::Wal(m) => m,
        ErrorModel::Shard(m) => m,
        ErrorModel::Search(m) => m,
        ErrorModel::TextCorruption(m) => m,
        ErrorModel::InvalidDimension { expected, actual } => "Invalid vector dimension: expected "@ + decimal(
            expected,
        ) + ", got "@ + decimal(actual),
        ErrorModel::InvalidInput { field, reason, suggestion } => "Invalid input for "@ + field + ": "@
            + reason + ". Suggestion: "@ + suggestion,
        ErrorModel::ResourceExhausted { resource, reason, suggestion } => "Resource exhausted ("@
            + resource + "): "@ + reason + ". Suggestion: "@ + suggestion,
        ErrorModel::InvalidPostingData { reason, suggestion } => reason,
        ErrorModel::InvalidDocumentId { reason, suggestion } => reason,
        ErrorModel::DocumentTooLarge { size, max_size } => "Document too large: "@ + decimal(size)
            + " bytes exceeds maximum "@ + decimal(max_size) + " bytes"@,
        ErrorModel::InvalidRange { start, length, document_length } => "Invalid range: start "@
            + decimal(start) + " length "@ + decimal(length) + " exceeds document length "@ + decimal(
            document_length,
        ),
    }
}

/// The text of an error as shown to users: the message, behind a prefix that
/// names the kind of error for the variants that carry a bare message.
pub open spec fn error_display_text(e: ErrorModel) -> Seq<char> {
    match e {
        ErrorModel::Config(m) => "Configuration error: "@ + m,
        ErrorModel::Corruption(m) => "Data corruption detected: "@ + m,
        ErrorModel::MemoryMapping(m) => "Memory mapping error: "@ + m,
        ErrorModel::Wal(m) => "WAL error: "@ + m,
        ErrorModel::Shard(m) => "Shard error: "@ + m,
        ErrorModel::Search(m) => "Search error: "@ + m,
        ErrorModel::TextCorruption(m) => "Text corruption: "@ + m,
        _ => message_text(e),
    }
}

impl ShardexError {
    /// This error as a value of the model.
    pub open spec fn model(self) -> ErrorModel {
        match self {
            ShardexError::Config(m) => ErrorModel::Config(m@),
            ShardexError::Corruption(m) => ErrorModel::Corruption(m@),
            ShardexError::MemoryMapping(m) => ErrorModel::MemoryMapping(m@),
            ShardexError::Wal(m) => ErrorModel::Wal(m@),
            ShardexError::Shard(m) => ErrorModel::Shard(m@),
            ShardexError::Search(m) => ErrorModel::Search(m@),
            ShardexError::TextCorruption(m) => ErrorModel::TextCorruption(m@),
            ShardexError::InvalidDimension { expected, actual } => ErrorModel::InvalidDimension {
                expected: expected as nat,
                actual: actual as nat,
            },
            ShardexError::InvalidInput { field, reason, suggestion } => ErrorModel::InvalidInput {
                field: field@,
                reason: reason@,
                suggestion: suggestion@,
            },
            ShardexError::ResourceExhausted { resource, reason, suggestion } => ErrorModel::ResourceExhausted {
                resource: resource@,
                reason: reason@,
                suggestion: suggestion@,
            },
            ShardexError::InvalidPostingData { reason, suggestion } => ErrorModel::InvalidPostingData {
                reason: reason@,
                suggestion: suggestion@,
            },
            ShardexError::InvalidDocumentId { reason, suggestion } => ErrorModel::InvalidDocumentId {
                reason: reason@,
                suggestion: suggestion@,
            },
            ShardexError::DocumentTooLarge { size, max_size } => ErrorModel::DocumentTooLarge {
                size: size as nat,
                max_size: max_size as nat,
            },
            ShardexError::InvalidRange { start, length, document_length } => ErrorModel::InvalidRange {
                start: start as nat,
                length: length as nat,
                document_length: document_length as nat,
            },
        }
    }

    /// The text of this error as shown to users.
    pub fn display_text(&self) -> (r: String)
        ensures
            r@ == error_display_text(self.model()),
    {
        match self {
            ShardexError::Config(m) => with_text(owned("Configuration error: "), m.as_str()),
            ShardexError::Corruption(m) => with_text(owned("Data corruption detected: "), m.as_str()),
            ShardexError::MemoryMapping(m) => with_text(owned("Memory mapping error: "), m.as_str()),
            ShardexError::Wal(m) => with_text(owned("WAL error: "), m.as_str()),
            ShardexError::Shard(m) => with_text(owned("Shard error: "), m.as_str()),
            ShardexError::Search(m) => with_text(owned("Search error: "), m.as_str()),
            ShardexError::TextCorruption(m) => with_text(owned("Text corruption: "), m.as_str()),
            _ => self.message(),
        }
    }

    /// The human-readable message carried by this error.
    pub fn message(&self) -> (r: String)
        ensures
            r@ == message_text(self.model()),
    {
        match self {
            ShardexError::Config(m) => m.clone(),
            ShardexError::Corruption(m) => m.clone(),
            ShardexError::MemoryMapping(m) => m.clone(),
            ShardexError::Wal(m) => m.clone(),
            ShardexError::Shard(m) => m.clone(),
            ShardexError::Search(m) => m.clone(),
            ShardexError::TextCorruption(m) => m.clone(),
            ShardexError::InvalidDimension { expected, actual } => {
                let s = with_number(owned("Invalid vector dimension: expected "), *expected as u128);
                let s = with_text(s, ", got ");
                with_number(s, *actual as u128)
            },
            ShardexError::InvalidInput { field, reason, suggestion } => {
                let s = with_text(owned("Invalid input for "), field.as_str());
                let s = with_text(s, ": ");
                let s = with_text(s, reason.as_str());
                let s = with_text(s, ". Suggestion: ");
                with_text(s, suggestion.as_str())
            },
            ShardexError::ResourceExhausted { resource, reason, suggestion } => {
                let s = with_text(owned("Resource exhausted ("), resource.as_str());
                let s = with_text(s, "): ");
                let s = with_text(s, reason.as_str());
                let s = with_text(s, ". Suggestion: ");
                with_text(s, suggestion.as_str())
            },
            ShardexError::InvalidPostingData { reason, suggestion } => reason.clone(),
            ShardexError::InvalidDocumentId { reason, suggestion } => reason.clone(),
            ShardexError::DocumentTooLarge { size, max_size } => {
                let s = with_number(owned("Document too large: "), *size as u128);
                let s = with_text(s, " bytes exceeds maximum ");
                let s = with_number(s, *max_size as u128);
                with_text(s, " bytes")
            },
            ShardexError::InvalidRange { start, length, document_length } => {
                let s = with_number(owned("Invalid range: start "), *start as u128);
                let s = with_text(s, " length ");
                let s = with_number(s, *length as u128);
                let s = with_text(s, " exceeds document length ");
                with_number(s, *document_length as u128)
            },
        }
    }
}

/// Builds an owned message from a string slice.
pub fn owned(s: &str) -> (r: String)
    ensures
        r@ == s@,
{
    s.to_owned()
}

} // verus!
